//! GPIO port A.

use vstd::prelude::*;
use crate::device::GPIOA;
use crate::gpio::{
    AfrId, Analog, GpioExt, Input, Output, Pin, PinId, PortA, PushPull, AFR, MODER, OSPEEDR, OTYPER,
    PUPDR,
};
use crate::rcc::{enable_and_reset, enable_reset_ops, AHB2};
use crate::trace::{Field, Port, Trace};

verus! {

/// The register tokens and pins of port A.
pub struct Parts {
    /// Alternate function register for pins 8 to 15.
    pub afrh: AFR<PortA>,
    /// Alternate function register for pins 0 to 7.
    pub afrl: AFR<PortA>,
    /// Mode register.
    pub moder: MODER<PortA>,
    /// Output type register.
    pub otyper: OTYPER<PortA>,
    /// Output speed register.
    pub ospeedr: OSPEEDR<PortA>,
    /// Pull-up / pull-down register.
    pub pupdr: PUPDR<PortA>,
    /// Pin PA0.
    pub pa0: Pin<PortA, Input<Analog>>,
    /// Pin PA1.
    pub pa1: Pin<PortA, Input<Analog>>,
    /// Pin PA2.
    pub pa2: Pin<PortA, Input<Analog>>,
    /// Pin PA3.
    pub pa3: Pin<PortA, Input<Analog>>,
    /// Pin PA4.
    pub pa4: Pin<PortA, Input<Analog>>,
    /// Pin PA5.
    pub pa5: Pin<PortA, Input<Analog>>,
    /// Pin PA6.
    pub pa6: Pin<PortA, Input<Analog>>,
    /// Pin PA7.
    pub pa7: Pin<PortA, Input<Analog>>,
    /// Pin PA8.
    pub pa8: Pin<PortA, Input<Analog>>,
    /// Pin PA9.
    pub pa9: Pin<PortA, Input<Analog>>,
    /// Pin PA10.
    pub pa10: Pin<PortA, Input<Analog>>,
    /// Pin PA11.
    pub pa11: Pin<PortA, Input<Analog>>,
    /// Pin PA12.
    pub pa12: Pin<PortA, Input<Analog>>,
    /// Pin PA13.
    pub pa13: Pin<PortA, Output<PushPull>>,
    /// Pin PA14.
    pub pa14: Pin<PortA, Output<PushPull>>,
    /// Pin PA15.
    pub pa15: Pin<PortA, Output<PushPull>>,
}

/// Every token and pin of `p` belongs to port A, each pin under its own number.
pub open spec fn parts_wf(p: Parts) -> bool {
    &&& p.afrh@ == (AfrId { port: Port::A, high: true })
    &&& p.afrl@ == (AfrId { port: Port::A, high: false })
    &&& p.moder@ == Port::A
    &&& p.otyper@ == Port::A
    &&& p.ospeedr@ == Port::A
    &&& p.pupdr@ == Port::A
        &&& p.pa0@ == (PinId { port: Port::A, index: 0 })
        &&& p.pa1@ == (PinId { port: Port::A, index: 1 })
        &&& p.pa2@ == (PinId { port: Port::A, index: 2 })
        &&& p.pa3@ == (PinId { port: Port::A, index: 3 })
        &&& p.pa4@ == (PinId { port: Port::A, index: 4 })
        &&& p.pa5@ == (PinId { port: Port::A, index: 5 })
        &&& p.pa6@ == (PinId { port: Port::A, index: 6 })
        &&& p.pa7@ == (PinId { port: Port::A, index: 7 })
        &&& p.pa8@ == (PinId { port: Port::A, index: 8 })
        &&& p.pa9@ == (PinId { port: Port::A, index: 9 })
        &&& p.pa10@ == (PinId { port: Port::A, index: 10 })
        &&& p.pa11@ == (PinId { port: Port::A, index: 11 })
        &&& p.pa12@ == (PinId { port: Port::A, index: 12 })
        &&& p.pa13@ == (PinId { port: Port::A, index: 13 })
        &&& p.pa14@ == (PinId { port: Port::A, index: 14 })
        &&& p.pa15@ == (PinId { port: Port::A, index: 15 })
}

impl GPIOA {
    /// Enables the port's bus clock, pulses its reset, and hands out its
    /// register tokens and its pins in their reset modes.
    pub fn split(self, ahb: &mut AHB2, trace: &mut Trace) -> (r: Parts)
        ensures
            parts_wf(r),
            final(trace)@ == old(trace)@ + enable_reset_ops(
                Field::GpioEnable(Port::A),
                Field::GpioReset(Port::A),
            ),
    {
        enable_and_reset(Field::GpioEnable(Port::A), Field::GpioReset(Port::A), trace);
        Parts {
            afrh: AFR::new(true),
            afrl: AFR::new(false),
            moder: MODER::new(),
            otyper: OTYPER::new(),
            ospeedr: OSPEEDR::new(),
            pupdr: PUPDR::new(),
            pa0: Pin::new(0),
            pa1: Pin::new(1),
            pa2: Pin::new(2),
            pa3: Pin::new(3),
            pa4: Pin::new(4),
            pa5: Pin::new(5),
            pa6: Pin::new(6),
            pa7: Pin::new(7),
            pa8: Pin::new(8),
            pa9: Pin::new(9),
            pa10: Pin::new(10),
            pa11: Pin::new(11),
            pa12: Pin::new(12),
            pa13: Pin::new(13),
            pa14: Pin::new(14),
            pa15: Pin::new(15),
        }
    }
}

impl GpioExt for GPIOA {
    type Parts = Parts;

    fn split(self, ahb: &mut AHB2, trace: &mut Trace) -> Parts {
        GPIOA::split(self, ahb, trace)
    }
}

} // verus!
