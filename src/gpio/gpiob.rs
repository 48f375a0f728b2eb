//! GPIO port B.

use vstd::prelude::*;
use crate::device::GPIOB;
use crate::gpio::{
    AfrId, Analog, GpioExt, Input, Output, Pin, PinId, PortB, PushPull, AFR, MODER, OSPEEDR, OTYPER,
    PUPDR,
};
use crate::rcc::{enable_and_reset, enable_reset_ops, AHB2};
use crate::trace::{Field, Port, Trace};

verus! {

/// The register tokens and pins of port B.
pub struct Parts {
    /// Alternate function register for pins 8 to 15.
    pub afrh: AFR<PortB>,
    /// Alternate function register for pins 0 to 7.
    pub afrl: AFR<PortB>,
    /// Mode register.
    pub moder: MODER<PortB>,
    /// Output type register.
    pub otyper: OTYPER<PortB>,
    /// Output speed register.
    pub ospeedr: OSPEEDR<PortB>,
    /// Pull-up / pull-down register.
    pub pupdr: PUPDR<PortB>,
    /// Pin PB0.
    pub pb0: Pin<PortB, Input<Analog>>,
    /// Pin PB1.
    pub pb1: Pin<PortB, Input<Analog>>,
    /// Pin PB2.
    pub pb2: Pin<PortB, Input<Analog>>,
    /// Pin PB3.
    pub pb3: Pin<PortB, Output<PushPull>>,
    /// Pin PB4.
    pub pb4: Pin<PortB, Output<PushPull>>,
    /// Pin PB5.
    pub pb5: Pin<PortB, Input<Analog>>,
    /// Pin PB6.
    pub pb6: Pin<PortB, Input<Analog>>,
    /// Pin PB7.
    pub pb7: Pin<PortB, Input<Analog>>,
    /// Pin PB8.
    pub pb8: Pin<PortB, Input<Analog>>,
    /// Pin PB9.
    pub pb9: Pin<PortB, Input<Analog>>,
    /// Pin PB10.
    pub pb10: Pin<PortB, Input<Analog>>,
    /// Pin PB11.
    pub pb11: Pin<PortB, Input<Analog>>,
    /// Pin PB12.
    pub pb12: Pin<PortB, Input<Analog>>,
    /// Pin PB13.
    pub pb13: Pin<PortB, Input<Analog>>,
    /// Pin PB14.
    pub pb14: Pin<PortB, Input<Analog>>,
    /// Pin PB15.
    pub pb15: Pin<PortB, Input<Analog>>,
}

/// Every token and pin of `p` belongs to port B, each pin under its own number.
pub open spec fn parts_wf(p: Parts) -> bool {
    &&& p.afrh@ == (AfrId { port: Port::B, high: true })
    &&& p.afrl@ == (AfrId { port: Port::B, high: false })
    &&& p.moder@ == Port::B
    &&& p.otyper@ == Port::B
    &&& p.ospeedr@ == Port::B
    &&& p.pupdr@ == Port::B
        &&& p.pb0@ == (PinId { port: Port::B, index: 0 })
        &&& p.pb1@ == (PinId { port: Port::B, index: 1 })
        &&& p.pb2@ == (PinId { port: Port::B, index: 2 })
        &&& p.pb3@ == (PinId { port: Port::B, index: 3 })
        &&& p.pb4@ == (PinId { port: Port::B, index: 4 })
        &&& p.pb5@ == (PinId { port: Port::B, index: 5 })
        &&& p.pb6@ == (PinId { port: Port::B, index: 6 })
        &&& p.pb7@ == (PinId { port: Port::B, index: 7 })
        &&& p.pb8@ == (PinId { port: Port::B, index: 8 })
        &&& p.pb9@ == (PinId { port: Port::B, index: 9 })
        &&& p.pb10@ == (PinId { port: Port::B, index: 10 })
        &&& p.pb11@ == (PinId { port: Port::B, index: 11 })
        &&& p.pb12@ == (PinId { port: Port::B, index: 12 })
        &&& p.pb13@ == (PinId { port: Port::B, index: 13 })
        &&& p.pb14@ == (PinId { port: Port::B, index: 14 })
        &&& p.pb15@ == (PinId { port: Port::B, index: 15 })
}

impl GPIOB {
    /// Enables the port's bus clock, pulses its reset, and hands out its
    /// register tokens and its pins in their reset modes.
    pub fn split(self, ahb: &mut AHB2, trace: &mut Trace) -> (r: Parts)
        ensures
            parts_wf(r),
            final(trace)@ == old(trace)@ + enable_reset_ops(
                Field::GpioEnable(Port::B),
                Field::GpioReset(Port::B),
            ),
    {
        enable_and_reset(Field::GpioEnable(Port::B), Field::GpioReset(Port::B), trace);
        Parts {
            afrh: AFR::new(true),
            afrl: AFR::new(false),
            moder: MODER::new(),
            otyper: OTYPER::new(),
            ospeedr: OSPEEDR::new(),
            pupdr: PUPDR::new(),
            pb0: Pin::new(0),
            pb1: Pin::new(1),
            pb2: Pin::new(2),
            pb3: Pin::new(3),
            pb4: Pin::new(4),
            pb5: Pin::new(5),
            pb6: Pin::new(6),
            pb7: Pin::new(7),
            pb8: Pin::new(8),
            pb9: Pin::new(9),
            pb10: Pin::new(10),
            pb11: Pin::new(11),
            pb12: Pin::new(12),
            pb13: Pin::new(13),
            pb14: Pin::new(14),
            pb15: Pin::new(15),
        }
    }
}

impl GpioExt for GPIOB {
    type Parts = Parts;

    fn split(self, ahb: &mut AHB2, trace: &mut Trace) -> Parts {
        GPIOB::split(self, ahb, trace)
    }
}

} // verus!
