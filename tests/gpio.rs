use stm32wl_hal::device::Handles;
use stm32wl_hal::gpio::{AfrId, PinId, Speed, State};
use stm32wl_hal::rcc::RccExt;
use stm32wl_hal::trace::{Field, GpioReg, Op, Port, Trace};

/// The library's handles, in exchange for the device's peripherals; each test
/// takes them once.
fn handles() -> Handles {
    Handles::take(stm32wl::stm32wle5::Peripherals::take().unwrap())
}


/// Registers of one port: MODER, OTYPER, OSPEEDR, PUPDR, AFRL, AFRH, ODR.
#[derive(Clone, Copy, Debug, PartialEq)]
struct Regs([u32; 7]);

fn slot(reg: GpioReg) -> usize {
    match reg {
        GpioReg::Moder => 0,
        GpioReg::Otyper => 1,
        GpioReg::Ospeedr => 2,
        GpioReg::Pupdr => 3,
        GpioReg::Afrl => 4,
        GpioReg::Afrh => 5,
        GpioReg::Odr | GpioReg::Bsrr => 6,
    }
}

fn replay(regs: &mut Regs, ops: &[Op]) -> Vec<Regs> {
    let mut states = Vec::new();
    for op in ops {
        if let Op::Modify { reg, mask, bits, .. } = *op {
            let k = slot(reg);
            if reg == GpioReg::Bsrr {
                regs.0[k] = (regs.0[k] & !(bits >> 16)) | (bits & 0xffff);
            } else {
                regs.0[k] = (regs.0[k] & !mask) | (bits & mask);
            }
        }
        states.push(*regs);
    }
    states
}

#[test]
fn split_enables_and_resets_port() {
    let dp = handles();
    let mut rcc = dp.RCC.constrain();
    let mut trace = Trace::new();
    let gpioa = dp.GPIOA.split(&mut rcc.ahb2, &mut trace);
    assert_eq!(
        trace.ops(),
        &vec![
            Op::Write { field: Field::GpioEnable(Port::A), value: 1 },
            Op::Write { field: Field::GpioReset(Port::A), value: 1 },
            Op::Write { field: Field::GpioReset(Port::A), value: 0 },
        ]
    );
    assert_eq!(gpioa.pa7.id(), PinId { port: Port::A, index: 7 });
    assert_eq!(gpioa.pa15.id(), PinId { port: Port::A, index: 15 });
}

#[test]
fn split_port_b_pins() {
    let dp = handles();
    let mut rcc = dp.RCC.constrain();
    let mut trace = Trace::new();
    let gpiob = dp.GPIOB.split(&mut rcc.ahb2, &mut trace);
    assert_eq!(gpiob.pb3.id(), PinId { port: Port::B, index: 3 });
    assert_eq!(gpiob.pb12.id(), PinId { port: Port::B, index: 12 });
    assert_eq!(trace.ops()[0], Op::Write { field: Field::GpioEnable(Port::B), value: 1 });
}

#[test]
fn floating_input_writes_exact_fields() {
    let dp = handles();
    let mut rcc = dp.RCC.constrain();
    let mut trace = Trace::new();
    let mut gpioa = dp.GPIOA.split(&mut rcc.ahb2, &mut trace);
    trace.take();
    let _p = gpioa.pa5.into_floating_input(&mut gpioa.moder, &mut gpioa.pupdr, &mut trace);
    assert_eq!(
        trace.ops(),
        &vec![
            Op::Modify { port: Port::A, reg: GpioReg::Moder, mask: 0b11 << 10, bits: 0 },
            Op::Modify { port: Port::A, reg: GpioReg::Pupdr, mask: 0b11 << 10, bits: 0 },
        ]
    );
    let mut regs = Regs([0xffff_ffff; 7]);
    replay(&mut regs, trace.ops());
    assert_eq!(regs.0[0], 0xffff_f3ff);
    assert_eq!(regs.0[3], 0xffff_f3ff);
}

#[test]
fn transitions_leave_other_pins_alone() {
    let dp = handles();
    let mut rcc = dp.RCC.constrain();
    let mut trace = Trace::new();
    let mut gpioa = dp.GPIOA.split(&mut rcc.ahb2, &mut trace);
    trace.take();
    let before = Regs([0xa5a5_a5a5, 0x5a5a, 0x1234_5678, 0x9abc_def0, 0x7654_3210, 0xfedc_ba98, 0x00ff]);
    let p3 = gpioa.pa3.into_pull_up_input(&mut gpioa.moder, &mut gpioa.pupdr, &mut trace);
    let _p3 = p3.into_open_drain_output(&mut gpioa.moder, &mut gpioa.otyper, &mut trace);
    let _p9 = gpioa.pa9.into_floating_input(&mut gpioa.moder, &mut gpioa.pupdr, &mut trace).into_af7(
        &mut gpioa.moder,
        &mut gpioa.afrh,
        &mut trace,
    );
    let mut regs = before;
    replay(&mut regs, trace.ops());
    // pin 3: output mode, open drain, pull-up kept
    assert_eq!((regs.0[0] >> 6) & 3, 1);
    assert_eq!((regs.0[1] >> 3) & 1, 1);
    assert_eq!((regs.0[3] >> 6) & 3, 1);
    // pin 9: alternate function 7, no pull
    assert_eq!((regs.0[0] >> 18) & 3, 2);
    assert_eq!((regs.0[5] >> 4) & 15, 7);
    assert_eq!((regs.0[3] >> 18) & 3, 0);
    // every other pin keeps its fields
    for j in 0..16u32 {
        if j == 3 || j == 9 {
            continue;
        }
        assert_eq!((regs.0[0] >> (2 * j)) & 3, (before.0[0] >> (2 * j)) & 3);
        assert_eq!((regs.0[1] >> j) & 1, (before.0[1] >> j) & 1);
        assert_eq!((regs.0[3] >> (2 * j)) & 3, (before.0[3] >> (2 * j)) & 3);
    }
    assert_eq!(regs.0[4], before.0[4]);
    assert_eq!(regs.0[5] & !(15 << 4), before.0[5] & !(15 << 4));
}

#[test]
fn push_pull_high_sets_level_before_mode() {
    let dp = handles();
    let mut rcc = dp.RCC.constrain();
    let mut trace = Trace::new();
    let mut gpioa = dp.GPIOA.split(&mut rcc.ahb2, &mut trace);
    trace.take();
    let _nss = gpioa.pa4.into_push_pull_output_with_state(
        &mut gpioa.moder,
        &mut gpioa.otyper,
        State::High,
        &mut trace,
    );
    assert_eq!(
        trace.ops(),
        &vec![
            Op::Modify { port: Port::A, reg: GpioReg::Bsrr, mask: 0xffff_ffff, bits: 1 << 4 },
            Op::Modify { port: Port::A, reg: GpioReg::Moder, mask: 3 << 8, bits: 1 << 8 },
            Op::Modify { port: Port::A, reg: GpioReg::Otyper, mask: 1 << 4, bits: 0 },
        ]
    );
    let mut regs = Regs([0xffff_ffff, 0, 0, 0, 0, 0, 0]);
    for state in replay(&mut regs, trace.ops()) {
        assert_eq!((state.0[6] >> 4) & 1, 1);
    }
}

#[test]
fn push_pull_default_starts_low() {
    let dp = handles();
    let mut rcc = dp.RCC.constrain();
    let mut trace = Trace::new();
    let mut gpiob = dp.GPIOB.split(&mut rcc.ahb2, &mut trace);
    trace.take();
    let _led = gpiob.pb11.into_push_pull_output(&mut gpiob.moder, &mut gpiob.otyper, &mut trace);
    assert_eq!(
        trace.ops()[0],
        Op::Modify { port: Port::B, reg: GpioReg::Bsrr, mask: 0xffff_ffff, bits: 1 << 27 }
    );
}

#[test]
fn set_high_and_low_write_set_reset_register() {
    let dp = handles();
    let mut rcc = dp.RCC.constrain();
    let mut trace = Trace::new();
    let gpioa = dp.GPIOA.split(&mut rcc.ahb2, &mut trace);
    trace.take();
    let mut pin = gpioa.pa14;
    pin.set_high(&mut trace);
    pin.set_low(&mut trace);
    let mut erased = pin.downgrade();
    assert_eq!(erased.id(), PinId { port: Port::A, index: 14 });
    erased.set_high(&mut trace);
    assert_eq!(
        trace.ops(),
        &vec![
            Op::Modify { port: Port::A, reg: GpioReg::Bsrr, mask: 0xffff_ffff, bits: 1 << 14 },
            Op::Modify { port: Port::A, reg: GpioReg::Bsrr, mask: 0xffff_ffff, bits: 1 << 30 },
            Op::Modify { port: Port::A, reg: GpioReg::Bsrr, mask: 0xffff_ffff, bits: 1 << 14 },
        ]
    );
}

#[test]
fn input_reads_data_register_bit() {
    let dp = handles();
    let mut rcc = dp.RCC.constrain();
    let mut trace = Trace::new();
    let mut gpioa = dp.GPIOA.split(&mut rcc.ahb2, &mut trace);
    let button = gpioa.pa0.into_pull_down_input(&mut gpioa.moder, &mut gpioa.pupdr, &mut trace);
    assert!(button.is_low(0xfffe));
    assert!(!button.is_high(0xfffe));
    assert!(button.is_high(0x0001));
    assert!(!button.is_low(0x0001));
}

#[test]
fn analog_and_pull_down_encodings() {
    let dp = handles();
    let mut rcc = dp.RCC.constrain();
    let mut trace = Trace::new();
    let mut gpiob = dp.GPIOB.split(&mut rcc.ahb2, &mut trace);
    trace.take();
    let p = gpiob.pb2.into_pull_down_input(&mut gpiob.moder, &mut gpiob.pupdr, &mut trace);
    let _p = p.into_analog(&mut gpiob.moder, &mut gpiob.pupdr, &mut trace);
    assert_eq!(
        trace.ops(),
        &vec![
            Op::Modify { port: Port::B, reg: GpioReg::Moder, mask: 3 << 4, bits: 0 },
            Op::Modify { port: Port::B, reg: GpioReg::Pupdr, mask: 3 << 4, bits: 2 << 4 },
            Op::Modify { port: Port::B, reg: GpioReg::Moder, mask: 3 << 4, bits: 3 << 4 },
            Op::Modify { port: Port::B, reg: GpioReg::Pupdr, mask: 3 << 4, bits: 0 },
        ]
    );
}

#[test]
fn alternate_speed_pull_up_and_open_drain() {
    let dp = handles();
    let mut rcc = dp.RCC.constrain();
    let mut trace = Trace::new();
    let mut gpioa = dp.GPIOA.split(&mut rcc.ahb2, &mut trace);
    trace.take();
    let p = gpioa.pa10.into_af4(&mut gpioa.moder, &mut gpioa.afrh, &mut trace);
    let p = p
        .set_speed(&mut gpioa.ospeedr, Speed::VeryHigh, &mut trace)
        .internal_pull_up(&mut gpioa.pupdr, true, &mut trace);
    let _p = p.set_open_drain(&mut gpioa.otyper, &mut trace);
    assert_eq!(
        trace.ops(),
        &vec![
            Op::Modify { port: Port::A, reg: GpioReg::Moder, mask: 3 << 20, bits: 2 << 20 },
            Op::Modify { port: Port::A, reg: GpioReg::Afrh, mask: 15 << 8, bits: 4 << 8 },
            Op::Modify { port: Port::A, reg: GpioReg::Ospeedr, mask: 3 << 20, bits: 3 << 20 },
            Op::Modify { port: Port::A, reg: GpioReg::Pupdr, mask: 3 << 20, bits: 1 << 20 },
            Op::Modify { port: Port::A, reg: GpioReg::Otyper, mask: 1 << 10, bits: 1 << 10 },
        ]
    );
}

#[test]
fn open_drain_output_pull_up_toggle() {
    let dp = handles();
    let mut rcc = dp.RCC.constrain();
    let mut trace = Trace::new();
    let mut gpiob = dp.GPIOB.split(&mut rcc.ahb2, &mut trace);
    trace.take();
    let mut p = gpiob.pb7.into_open_drain_output(&mut gpiob.moder, &mut gpiob.otyper, &mut trace);
    p.internal_pull_up(&mut gpiob.pupdr, true, &mut trace);
    p.internal_pull_up(&mut gpiob.pupdr, false, &mut trace);
    let p = p.set_speed(&mut gpiob.ospeedr, Speed::Medium, &mut trace);
    assert_eq!(p.id(), PinId { port: Port::B, index: 7 });
    assert_eq!(
        trace.ops()[2..],
        [
            Op::Modify { port: Port::B, reg: GpioReg::Pupdr, mask: 3 << 14, bits: 1 << 14 },
            Op::Modify { port: Port::B, reg: GpioReg::Pupdr, mask: 3 << 14, bits: 0 },
            Op::Modify { port: Port::B, reg: GpioReg::Ospeedr, mask: 3 << 14, bits: 1 << 14 },
        ]
    );
}

#[test]
fn low_alternate_function_uses_afrl() {
    let dp = handles();
    let mut rcc = dp.RCC.constrain();
    let mut trace = Trace::new();
    let mut gpioa = dp.GPIOA.split(&mut rcc.ahb2, &mut trace);
    trace.take();
    let _p = gpioa.pa7.into_af15(&mut gpioa.moder, &mut gpioa.afrl, &mut trace);
    assert_eq!(
        trace.ops()[1],
        Op::Modify { port: Port::A, reg: GpioReg::Afrl, mask: 15 << 28, bits: 15 << 28 }
    );
}

#[test]
fn speed_codes() {
    assert_eq!(Speed::Low.code(), 0);
    assert_eq!(Speed::Medium.code(), 1);
    assert_eq!(Speed::High.code(), 2);
    assert_eq!(Speed::VeryHigh.code(), 3);
}

#[test]
fn register_tokens_know_their_port() {
    let dp = handles();
    let mut rcc = dp.RCC.constrain();
    let mut trace = Trace::new();
    let gpioa = dp.GPIOA.split(&mut rcc.ahb2, &mut trace);
    let gpiob = dp.GPIOB.split(&mut rcc.ahb2, &mut trace);
    assert_eq!(gpioa.moder.port(), Port::A);
    assert_eq!(gpioa.ospeedr.port(), Port::A);
    assert_eq!(gpiob.otyper.port(), Port::B);
    assert_eq!(gpiob.pupdr.port(), Port::B);
    assert_eq!(gpioa.afrh.id(), AfrId { port: Port::A, high: true });
    assert_eq!(gpiob.afrl.id(), AfrId { port: Port::B, high: false });
}
