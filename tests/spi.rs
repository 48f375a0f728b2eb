use embedded_hal::spi::{MODE_0, MODE_3};
use stm32wl_hal::device::Handles;
use stm32wl_hal::flash::FlashExt;
use stm32wl_hal::gpio::PinId;
use stm32wl_hal::rcc::RccExt;
use stm32wl_hal::spi::{
    compute_baud_rate, spi_route, BlockingWrite, PinRole, Spi, SpiError, Status, WriteStep,
};
use stm32wl_hal::time::Hertz;
use stm32wl_hal::trace::{Field, Op, Port, SpiBus, SpiField, Trace};

/// The library's handles, in exchange for the device's peripherals; each test
/// takes them once.
fn handles() -> Handles {
    Handles::take(stm32wl::stm32wle5::Peripherals::take().unwrap())
}


fn status(ovr: bool, modf: bool, crcerr: bool, rxne: bool, txe: bool) -> Status {
    Status { ovr, modf, crcerr, rxne, txe }
}

fn idle() -> Status {
    status(false, false, false, false, false)
}

fn spi_write(bus: SpiBus, f: SpiField, value: u32) -> Op {
    Op::Write { field: Field::Spi(bus, f), value }
}

#[test]
fn baud_rate_slow_request_uses_largest_divider() {
    assert_eq!(compute_baud_rate(Hertz(80_000_000), Hertz(500_000)), 0b111);
}

#[test]
fn baud_rate_half_clock_uses_smallest_divider() {
    assert_eq!(compute_baud_rate(Hertz(80_000_000), Hertz(40_000_000)), 0b000);
}

#[test]
fn baud_rate_never_exceeds_request() {
    assert_eq!(compute_baud_rate(Hertz(16_000_000), Hertz(16_000_000)), 0);
    assert_eq!(compute_baud_rate(Hertz(16_000_000), Hertz(8_000_000)), 0);
    assert_eq!(compute_baud_rate(Hertz(16_000_000), Hertz(7_999_999)), 1);
    assert_eq!(compute_baud_rate(Hertz(16_000_000), Hertz(4_000_000)), 1);
    assert_eq!(compute_baud_rate(Hertz(16_000_000), Hertz(1_000_000)), 3);
    assert_eq!(compute_baud_rate(Hertz(16_000_000), Hertz(500_000)), 4);
    assert_eq!(compute_baud_rate(Hertz(16_000_000), Hertz(125_000)), 6);
    assert_eq!(compute_baud_rate(Hertz(16_000_000), Hertz(100_000)), 7);
    assert_eq!(compute_baud_rate(Hertz(16_000_000), Hertz(1)), 7);
    for freq in [1u32, 3, 1000, 62_500, 62_499, 333_333, 4_000_001, 16_000_000] {
        let d = compute_baud_rate(Hertz(16_000_000), Hertz(freq)) as u64;
        let rate_ok = 16_000_000u64 <= freq as u64 * (1u64 << (d + 1));
        assert!(d == 7 || rate_ok);
        assert!(d == 0 || 16_000_000u64 > freq as u64 * (1u64 << d));
    }
}

#[test]
fn status_overrun_first() {
    let (_clocks, mut spi) = make_spi1(&mut Trace::new());
    let mut trace = Trace::new();
    let all = status(true, true, true, true, true);
    assert!(matches!(spi.read(all), Err(nb::Error::Other(SpiError::Overrun))));
    assert!(matches!(spi.send(all, 1, &mut trace), Err(nb::Error::Other(SpiError::Overrun))));
    assert_eq!(trace.len(), 0);
}

#[test]
fn status_mode_fault_before_crc() {
    let (_clocks, mut spi) = make_spi1(&mut Trace::new());
    let st = status(false, true, true, true, true);
    assert!(matches!(spi.read(st), Err(nb::Error::Other(SpiError::ModeFault))));
}

#[test]
fn status_crc_before_ready() {
    let (_clocks, mut spi) = make_spi1(&mut Trace::new());
    let mut trace = Trace::new();
    let st = status(false, false, true, true, true);
    assert!(matches!(spi.read(st), Err(nb::Error::Other(SpiError::Crc))));
    assert!(matches!(spi.send(st, 7, &mut trace), Err(nb::Error::Other(SpiError::Crc))));
}

#[test]
fn status_not_ready_would_block() {
    let (_clocks, mut spi) = make_spi1(&mut Trace::new());
    let mut trace = Trace::new();
    assert!(matches!(spi.read(status(false, false, false, false, true)), Err(nb::Error::WouldBlock)));
    assert!(matches!(
        spi.send(status(false, false, false, true, false), 9, &mut trace),
        Err(nb::Error::WouldBlock)
    ));
    assert!(matches!(spi.read(status(false, false, false, true, false)), Ok(())));
    assert!(matches!(spi.send(status(false, false, false, false, true), 9, &mut trace), Ok(())));
    assert_eq!(trace.ops(), &vec![spi_write(SpiBus::Spi1, SpiField::Dr, 9)]);
}

fn make_spi1(
    trace: &mut Trace,
) -> (stm32wl_hal::rcc::Clocks, Spi<
    stm32wl_hal::device::SPI1,
    (
        stm32wl_hal::gpio::Pin<
            stm32wl_hal::gpio::PortA,
            stm32wl_hal::gpio::Alternate<
                stm32wl_hal::gpio::AF5,
                stm32wl_hal::gpio::Input<stm32wl_hal::gpio::Floating>,
            >,
        >,
        stm32wl_hal::gpio::Pin<
            stm32wl_hal::gpio::PortA,
            stm32wl_hal::gpio::Alternate<
                stm32wl_hal::gpio::AF5,
                stm32wl_hal::gpio::Input<stm32wl_hal::gpio::Floating>,
            >,
        >,
        stm32wl_hal::gpio::Pin<
            stm32wl_hal::gpio::PortA,
            stm32wl_hal::gpio::Alternate<
                stm32wl_hal::gpio::AF5,
                stm32wl_hal::gpio::Input<stm32wl_hal::gpio::Floating>,
            >,
        >,
        Option<()>,
    ),
>) {
    let dp = handles();
    let mut flash = dp.FLASH.constrain();
    let mut rcc = dp.RCC.constrain();
    let clocks = rcc.cfgr.freeze(&mut flash.acr, trace);
    let mut gpioa = dp.GPIOA.split(&mut rcc.ahb2, trace);
    let sck = gpioa
        .pa5
        .into_floating_input(&mut gpioa.moder, &mut gpioa.pupdr, trace)
        .into_af5(&mut gpioa.moder, &mut gpioa.afrl, trace);
    let miso = gpioa
        .pa6
        .into_floating_input(&mut gpioa.moder, &mut gpioa.pupdr, trace)
        .into_af5(&mut gpioa.moder, &mut gpioa.afrl, trace);
    let mosi = gpioa
        .pa7
        .into_floating_input(&mut gpioa.moder, &mut gpioa.pupdr, trace)
        .into_af5(&mut gpioa.moder, &mut gpioa.afrl, trace);
    (clocks, Spi::spi1(dp.SPI1, (sck, miso, mosi, None::<()>), MODE_0, Hertz(500_000), clocks, &mut rcc.apb2, trace))
}

#[test]
fn spi1_setup_sequence() {
    let mut trace = Trace::new();
    let (_clocks, _spi) = make_spi1(&mut trace);
    let ops = trace.ops();
    let start = ops
        .iter()
        .position(|op| *op == Op::Write { field: Field::SpiEnable(SpiBus::Spi1), value: 1 })
        .unwrap();
    let b = SpiBus::Spi1;
    assert_eq!(
        ops[start..],
        [
            Op::Write { field: Field::SpiEnable(b), value: 1 },
            Op::Write { field: Field::SpiReset(b), value: 1 },
            Op::Write { field: Field::SpiReset(b), value: 0 },
            spi_write(b, SpiField::Frxth, 1),
            spi_write(b, SpiField::Ds, 7),
            spi_write(b, SpiField::Ssoe, 0),
            spi_write(b, SpiField::Cpha, 0),
            spi_write(b, SpiField::Cpol, 0),
            spi_write(b, SpiField::Mstr, 1),
            spi_write(b, SpiField::Br, 4),
            spi_write(b, SpiField::Lsbfirst, 0),
            spi_write(b, SpiField::Ssi, 1),
            spi_write(b, SpiField::Ssm, 1),
            spi_write(b, SpiField::Crcen, 0),
            spi_write(b, SpiField::Bidimode, 0),
            spi_write(b, SpiField::Spe, 1),
        ]
    );
}

#[test]
fn subghz_with_nss_and_mode3() {
    let dp = handles();
    let mut flash = dp.FLASH.constrain();
    let mut rcc = dp.RCC.constrain();
    let mut trace = Trace::new();
    let clocks = rcc.cfgr.freeze(&mut flash.acr, &mut trace);
    let mut gpioa = dp.GPIOA.split(&mut rcc.ahb2, &mut trace);
    let sck = gpioa.pa5.into_floating_input(&mut gpioa.moder, &mut gpioa.pupdr, &mut trace).into_af13(
        &mut gpioa.moder,
        &mut gpioa.afrl,
        &mut trace,
    );
    let miso = gpioa.pa6.into_floating_input(&mut gpioa.moder, &mut gpioa.pupdr, &mut trace).into_af13(
        &mut gpioa.moder,
        &mut gpioa.afrl,
        &mut trace,
    );
    let mosi = gpioa.pa7.into_floating_input(&mut gpioa.moder, &mut gpioa.pupdr, &mut trace).into_af13(
        &mut gpioa.moder,
        &mut gpioa.afrl,
        &mut trace,
    );
    let nss = gpioa
        .pa4
        .into_push_pull_output(&mut gpioa.moder, &mut gpioa.otyper, &mut trace)
        .into_af13(&mut gpioa.moder, &mut gpioa.afrl, &mut trace);
    trace.take();
    let spi = Spi::subghzspi(
        dp.SPI3,
        (sck, miso, mosi, Some(nss)),
        MODE_3,
        Hertz(16_000_000),
        clocks,
        &mut rcc.apb3,
        &mut trace,
    );
    let b = SpiBus::SubGhz;
    let ops = trace.ops();
    assert_eq!(ops[0], Op::Write { field: Field::SpiEnable(b), value: 1 });
    assert_eq!(ops[5], spi_write(b, SpiField::Ssoe, 1));
    assert_eq!(ops[6], spi_write(b, SpiField::Cpha, 1));
    assert_eq!(ops[7], spi_write(b, SpiField::Cpol, 1));
    assert_eq!(ops[9], spi_write(b, SpiField::Br, 0));
    assert_eq!(ops[12], spi_write(b, SpiField::Ssm, 0));
    let (_periph, pins) = spi.free();
    assert_eq!(pins.3.unwrap().id(), PinId { port: Port::A, index: 4 });
}

#[test]
fn spi2_accepts_af3_miso() {
    let dp = handles();
    let mut flash = dp.FLASH.constrain();
    let mut rcc = dp.RCC.constrain();
    let mut trace = Trace::new();
    let clocks = rcc.cfgr.freeze(&mut flash.acr, &mut trace);
    let mut gpioa = dp.GPIOA.split(&mut rcc.ahb2, &mut trace);
    let mut gpiob = dp.GPIOB.split(&mut rcc.ahb2, &mut trace);
    let sck = gpiob.pb13.into_floating_input(&mut gpiob.moder, &mut gpiob.pupdr, &mut trace).into_af5(
        &mut gpiob.moder,
        &mut gpiob.afrh,
        &mut trace,
    );
    let miso = gpioa.pa5.into_floating_input(&mut gpioa.moder, &mut gpioa.pupdr, &mut trace).into_af3(
        &mut gpioa.moder,
        &mut gpioa.afrl,
        &mut trace,
    );
    let mosi = gpiob.pb15.into_floating_input(&mut gpiob.moder, &mut gpiob.pupdr, &mut trace).into_af5(
        &mut gpiob.moder,
        &mut gpiob.afrh,
        &mut trace,
    );
    trace.take();
    let _spi = Spi::spi2s2(
        dp.SPI2,
        (sck, miso, mosi, None::<()>),
        MODE_0,
        Hertz(1_000_000),
        clocks,
        &mut rcc.apb1_1,
        &mut trace,
    );
    assert_eq!(trace.ops()[0], Op::Write { field: Field::SpiEnable(SpiBus::Spi2), value: 1 });
    assert_eq!(trace.ops()[9], spi_write(SpiBus::Spi2, SpiField::Br, 3));
}

#[test]
fn reclock_disables_writes_divider_enables() {
    let mut trace = Trace::new();
    let (clocks, mut spi) = make_spi1(&mut trace);
    trace.take();
    spi.reclock(Hertz(2_000_000), clocks, &mut trace);
    assert_eq!(
        trace.ops(),
        &vec![
            spi_write(SpiBus::Spi1, SpiField::Spe, 0),
            spi_write(SpiBus::Spi1, SpiField::Br, 2),
            spi_write(SpiBus::Spi1, SpiField::Spe, 1),
        ]
    );
}

#[test]
fn blocking_write_hello_sends_each_byte_once_in_order() {
    let mut trace = Trace::new();
    let (_clocks, mut spi) = make_spi1(&mut trace);
    trace.take();
    let hello = vec![0x48u8, 0x65, 0x6c, 0x6c, 0x6f];
    let mut w = BlockingWrite::new(hello.clone());
    let tx_ready = status(false, false, false, false, true);
    let rx_ready = status(false, false, false, true, false);
    let mut sends = Vec::new();
    let mut pendings = 0;
    // each byte: one busy snapshot, then transmit ready, then one busy, then receive ready
    let mut feed = Vec::new();
    for _ in 0..hello.len() {
        feed.push(idle());
        feed.push(tx_ready);
        feed.push(idle());
        feed.push(rx_ready);
    }
    for st in feed {
        match w.step(&mut spi, st, &mut trace) {
            WriteStep::Sent(b) => sends.push(b),
            WriteStep::Pending => pendings += 1,
            WriteStep::Received => {}
            other => panic!("unexpected step {:?}", other),
        }
    }
    assert!(w.is_done());
    assert!(matches!(w.step(&mut spi, tx_ready, &mut trace), WriteStep::Done));
    assert_eq!(sends, hello);
    assert_eq!(pendings, 10);
    let expected: Vec<Op> = hello.iter().map(|b| spi_write(SpiBus::Spi1, SpiField::Dr, *b as u32)).collect();
    assert_eq!(trace.ops(), &expected);
}

#[test]
fn blocking_write_stops_on_fault() {
    let mut trace = Trace::new();
    let (_clocks, mut spi) = make_spi1(&mut trace);
    trace.take();
    let mut w = BlockingWrite::new(vec![1, 2]);
    let r = w.step(&mut spi, status(false, true, false, false, true), &mut trace);
    assert_eq!(r, WriteStep::Failed(SpiError::ModeFault));
    assert!(!w.is_done());
    assert_eq!(trace.len(), 0);
}

#[test]
fn empty_blocking_write_is_done() {
    let mut trace = Trace::new();
    let (_clocks, mut spi) = make_spi1(&mut trace);
    trace.take();
    let mut w = BlockingWrite::new(Vec::new());
    assert!(w.is_done());
    assert_eq!(w.step(&mut spi, idle(), &mut trace), WriteStep::Done);
    assert_eq!(trace.len(), 0);
}

#[test]
fn routing_table() {
    let a = |k| PinId { port: Port::A, index: k };
    let b = |k| PinId { port: Port::B, index: k };
    assert!(spi_route(SpiBus::Spi1, 5, PinRole::Sck, a(5)));
    assert!(spi_route(SpiBus::Spi1, 5, PinRole::Sck, b(3)));
    assert!(!spi_route(SpiBus::Spi1, 5, PinRole::Sck, a(6)));
    assert!(spi_route(SpiBus::Spi1, 5, PinRole::Nss, a(15)));
    assert!(spi_route(SpiBus::Spi2, 3, PinRole::Miso, a(5)));
    assert!(!spi_route(SpiBus::Spi2, 5, PinRole::Miso, a(5)));
    assert!(spi_route(SpiBus::Spi2, 5, PinRole::Nss, b(12)));
    assert!(spi_route(SpiBus::SubGhz, 13, PinRole::Mosi, a(7)));
    assert!(!spi_route(SpiBus::SubGhz, 5, PinRole::Mosi, a(7)));
}

#[test]
fn blocking_write_run_over_snapshots() {
    let mut trace = Trace::new();
    let (_clocks, mut spi) = make_spi1(&mut trace);
    trace.take();
    assert_eq!(spi.bus(), SpiBus::Spi1);
    let hello = b"Hello".to_vec();
    let tx_ready = status(false, false, false, false, true);
    let rx_ready = status(false, false, false, true, false);
    let mut feed = Vec::new();
    for _ in 0..hello.len() {
        feed.push(tx_ready);
        feed.push(tx_ready);
        feed.push(rx_ready);
    }
    feed.push(idle());
    let mut w = BlockingWrite::new(hello.clone());
    let last = w.run(&mut spi, &feed, &mut trace);
    assert_eq!(last, WriteStep::Done);
    assert!(w.is_done());
    let expected: Vec<Op> = hello.iter().map(|b| spi_write(SpiBus::Spi1, SpiField::Dr, *b as u32)).collect();
    assert_eq!(trace.ops(), &expected);
}

#[test]
fn blocking_write_run_partial_then_resume() {
    let mut trace = Trace::new();
    let (_clocks, mut spi) = make_spi1(&mut trace);
    trace.take();
    let tx_ready = status(false, false, false, false, true);
    let rx_ready = status(false, false, false, true, false);
    let mut w = BlockingWrite::new(vec![1, 2, 3]);
    assert_eq!(w.run(&mut spi, &vec![tx_ready, rx_ready, tx_ready], &mut trace), WriteStep::Sent(2));
    assert!(!w.is_done());
    assert_eq!(w.run(&mut spi, &vec![], &mut trace), WriteStep::Pending);
    let r = w.run(&mut spi, &vec![rx_ready, status(true, false, false, true, true), tx_ready], &mut trace);
    assert_eq!(r, WriteStep::Failed(SpiError::Overrun));
    assert_eq!(
        trace.ops(),
        &vec![spi_write(SpiBus::Spi1, SpiField::Dr, 1), spi_write(SpiBus::Spi1, SpiField::Dr, 2)]
    );
}

#[test]
fn checked_constructor_rejects_misrouted_pin() {
    let dp = handles();
    let mut flash = dp.FLASH.constrain();
    let mut rcc = dp.RCC.constrain();
    let mut trace = Trace::new();
    let clocks = rcc.cfgr.freeze(&mut flash.acr, &mut trace);
    let mut gpioa = dp.GPIOA.split(&mut rcc.ahb2, &mut trace);
    let mut gpiob = dp.GPIOB.split(&mut rcc.ahb2, &mut trace);
    // PA6 carries MISO of SPI1, not SCK
    let wrong_sck = gpioa
        .pa6
        .into_floating_input(&mut gpioa.moder, &mut gpioa.pupdr, &mut trace)
        .into_af5(&mut gpioa.moder, &mut gpioa.afrl, &mut trace);
    let miso = gpiob
        .pb4
        .into_floating_input(&mut gpiob.moder, &mut gpiob.pupdr, &mut trace)
        .into_af5(&mut gpiob.moder, &mut gpiob.afrl, &mut trace);
    let mosi = gpioa
        .pa7
        .into_floating_input(&mut gpioa.moder, &mut gpioa.pupdr, &mut trace)
        .into_af5(&mut gpioa.moder, &mut gpioa.afrl, &mut trace);
    let n = trace.len();
    let r = Spi::try_spi1(
        dp.SPI1,
        (wrong_sck, miso, mosi, None::<()>),
        MODE_0,
        Hertz(1_000_000),
        clocks,
        &mut rcc.apb2,
        &mut trace,
    );
    assert!(r.is_err());
    assert_eq!(trace.len(), n);
}

#[test]
fn checked_constructor_rejects_too_fast() {
    let dp = handles();
    let mut flash = dp.FLASH.constrain();
    let mut rcc = dp.RCC.constrain();
    let mut trace = Trace::new();
    let clocks = rcc.cfgr.freeze(&mut flash.acr, &mut trace);
    let mut gpioa = dp.GPIOA.split(&mut rcc.ahb2, &mut trace);
    let sck = gpioa.pa5.into_af13(&mut gpioa.moder, &mut gpioa.afrl, &mut trace);
    let miso = gpioa.pa6.into_af13(&mut gpioa.moder, &mut gpioa.afrl, &mut trace);
    let mosi = gpioa.pa7.into_af13(&mut gpioa.moder, &mut gpioa.afrl, &mut trace);
    let pins = (
        sck.into_floating_input(&mut gpioa.moder, &mut gpioa.pupdr, &mut trace)
            .into_af13(&mut gpioa.moder, &mut gpioa.afrl, &mut trace),
        miso.into_floating_input(&mut gpioa.moder, &mut gpioa.pupdr, &mut trace)
            .into_af13(&mut gpioa.moder, &mut gpioa.afrl, &mut trace),
        mosi.into_floating_input(&mut gpioa.moder, &mut gpioa.pupdr, &mut trace)
            .into_af13(&mut gpioa.moder, &mut gpioa.afrl, &mut trace),
        None::<()>,
    );
    let r = Spi::try_subghzspi(dp.SPI3, pins, MODE_0, Hertz(16_000_001), clocks, &mut rcc.apb3, &mut trace);
    let (periph, pins) = match r {
        Err(back) => back,
        Ok(_) => panic!("a rate above the bus clock was accepted"),
    };
    trace.take();
    let ok = Spi::try_subghzspi(
        periph,
        pins,
        MODE_0,
        Hertz(16_000_000),
        clocks,
        &mut rcc.apb3,
        &mut trace,
    );
    assert!(ok.is_ok());
    assert_eq!(trace.ops()[0], Op::Write { field: Field::SpiEnable(SpiBus::SubGhz), value: 1 });
    assert_eq!(trace.ops()[9], spi_write(SpiBus::SubGhz, SpiField::Br, 0));
}

#[test]
fn blocking_write_completes_through_busy_snapshots() {
    let mut trace = Trace::new();
    let (_clocks, mut spi) = make_spi1(&mut trace);
    trace.take();
    let words = vec![0xa5u8, 0x00, 0xff];
    let ready = status(false, false, false, true, true);
    let tx_only = status(false, false, false, false, true);
    let mut feed = Vec::new();
    for _ in 0..words.len() {
        feed.push(idle());
        feed.push(ready);
        feed.push(tx_only);
        feed.push(idle());
        feed.push(ready);
    }
    feed.push(idle());
    let mut w = BlockingWrite::new(words.clone());
    assert_eq!(w.run(&mut spi, &feed, &mut trace), WriteStep::Done);
    let expected: Vec<Op> = words.iter().map(|b| spi_write(SpiBus::Spi1, SpiField::Dr, *b as u32)).collect();
    assert_eq!(trace.ops(), &expected);
}
