//! Serial peripheral interface (SPI) bus, full duplex master mode.
//!
//! A bus is built from pins whose type shows the alternate function and mode
//! the bus needs, and whose number the routing table accepts for that bus. Its
//! transfers poll the status register: the caller reads a status snapshot,
//! hands it in, and learns whether the byte moved, must be retried, or met a
//! fault.
//!
//! That a pin carries the right signal of the right bus is a `requires` of the
//! constructors, which Verus checks for verified callers only. Code built
//! without Verus uses the `try_` constructors, which check the routing table
//! and the frequency at run time.

use vstd::prelude::*;
use embedded_hal::spi::{Mode, Phase, Polarity};
use crate::device::{SPI1, SPI2, SPI3};
use crate::gpio::{
    Alternate, Floating, Input, Output, Pin, PinId, PortTag, PushPull, AF13, AF3, AF5,
};
use crate::rcc::{enable_and_reset, enable_reset_ops, Clocks, APB1_1, APB2, APB3};
use crate::time::Hertz;
use crate::trace::{Field, Op, Port, SpiBus, SpiField, Trace};

mod sealed;

verus! {

/// SPI error.
#[non_exhaustive]
#[derive(Clone, Copy, Debug, PartialEq, Eq, Structural)]
pub enum SpiError {
    /// Overrun occurred.
    Overrun,
    /// Mode fault occurred.
    ModeFault,
    /// CRC error.
    Crc,
}

/// A snapshot of the status flags of an SPI instance.
#[derive(Clone, Copy, Debug, PartialEq, Eq, Structural)]
pub struct Status {
    /// Overrun.
    pub ovr: bool,
    /// Mode fault.
    pub modf: bool,
    /// CRC error.
    pub crcerr: bool,
    /// Receive buffer not empty.
    pub rxne: bool,
    /// Transmit buffer empty.
    pub txe: bool,
}

/// What a transfer attempt reports for status `st`, where `ready` is the flag
/// it waits for: an overrun first, then a mode fault, then a CRC error, then
/// success if the flag is up, else a request to retry.
pub open spec fn transfer_outcome(st: Status, ready: bool) -> nb::Result<(), SpiError> {
    if st.ovr {
        Err(nb::Error::Other(SpiError::Overrun))
    } else if st.modf {
        Err(nb::Error::Other(SpiError::ModeFault))
    } else if st.crcerr {
        Err(nb::Error::Other(SpiError::Crc))
    } else if ready {
        Ok(())
    } else {
        Err(nb::Error::WouldBlock)
    }
}

/// Fault flags take precedence in a fixed order: an overrun is reported
/// whatever else is set, a mode fault ahead of a CRC error, and a CRC error
/// ahead of a flag that says the data register is ready.
pub proof fn lemma_status_precedence(st: Status, ready: bool)
    ensures
        st.ovr ==> transfer_outcome(st, ready) == Err::<(), nb::Error<SpiError>>(
            nb::Error::Other(SpiError::Overrun),
        ),
        !st.ovr && st.modf ==> transfer_outcome(st, ready) == Err::<(), nb::Error<SpiError>>(
            nb::Error::Other(SpiError::ModeFault),
        ),
        !st.ovr && !st.modf && st.crcerr ==> transfer_outcome(st, ready) == Err::<
            (),
            nb::Error<SpiError>,
        >(nb::Error::Other(SpiError::Crc)),
        transfer_outcome(st, ready) is Ok <==> (!st.ovr && !st.modf && !st.crcerr && ready),
{
}

/// `reclock` disables the peripheral strictly before it writes the divider
/// code, and enables it again strictly after, with no other access between.
pub proof fn lemma_reclock_order(bus: SpiBus, br: u8)
    ensures
        reclock_ops(bus, br).len() == 3,
        reclock_ops(bus, br)[0] == spi_op(bus, SpiField::Spe, 0),
        reclock_ops(bus, br)[1] == spi_op(bus, SpiField::Br, br as u32),
        reclock_ops(bus, br)[2] == spi_op(bus, SpiField::Spe, 1),
{
}

/// Decides a transfer attempt from a status snapshot.
fn check_status(st: Status, ready: bool) -> (r: nb::Result<(), SpiError>)
    ensures
        r == transfer_outcome(st, ready),
{
    if st.ovr {
        Err(nb::Error::Other(SpiError::Overrun))
    } else if st.modf {
        Err(nb::Error::Other(SpiError::ModeFault))
    } else if st.crcerr {
        Err(nb::Error::Other(SpiError::Crc))
    } else if ready {
        Ok(())
    } else {
        Err(nb::Error::WouldBlock)
    }
}

/// Whether the rate of clock `clk` divided by 2^(d+1) does not exceed `freq`.
pub open spec fn rate_fits(clk: u32, freq: u32, d: u8) -> bool {
    clk <= freq * vstd::arithmetic::power2::pow2((d + 1) as nat)
}

/// The baud rate divider code: the smallest `d` up to 7 for which clock
/// divided by 2^(d+1) does not exceed `freq`, or 7 if none does.
pub open spec fn baud_code(clk: u32, freq: u32) -> u8 {
    if clk <= freq * 2 {
        0
    } else if clk <= freq * 4 {
        1
    } else if clk <= freq * 8 {
        2
    } else if clk <= freq * 16 {
        3
    } else if clk <= freq * 32 {
        4
    } else if clk <= freq * 64 {
        5
    } else if clk <= freq * 128 {
        6
    } else {
        7
    }
}

/// Chooses the baud rate divider for requested frequency `freq` from bus
/// clock `clocks`: the fastest rate clock / 2^(r+1) that does not exceed
/// `freq`, or the slowest, clock / 256, if all exceed it.
pub fn compute_baud_rate(clocks: Hertz, freq: Hertz) -> (r: u8)
    requires
        0 < freq.0 <= clocks.0,
    ensures
        r == baud_code(clocks.0, freq.0),
        r <= 7,
        r == 7 || rate_fits(clocks.0, freq.0, r),
        forall|d: u8| d < r ==> !rate_fits(clocks.0, freq.0, d),
{
    proof {
        lemma_baud_code(clocks.0, freq.0);
    }
    let clk = clocks.0 as u64;
    let f = freq.0 as u64;
    if clk <= f * 2 {
        0
    } else if clk <= f * 4 {
        1
    } else if clk <= f * 8 {
        2
    } else if clk <= f * 16 {
        3
    } else if clk <= f * 32 {
        4
    } else if clk <= f * 64 {
        5
    } else if clk <= f * 128 {
        6
    } else {
        7
    }
}

proof fn lemma_baud_code(clk: u32, freq: u32)
    requires
        0 < freq,
    ensures
        baud_code(clk, freq) == 7 || rate_fits(clk, freq, baud_code(clk, freq)),
        forall|d: u8| d < baud_code(clk, freq) ==> !rate_fits(clk, freq, d),
{
    vstd::arithmetic::power2::lemma2_to64();
    let r = baud_code(clk, freq);
    assert forall|d: u8| d <= 7 implies #[trigger] rate_fits(clk, freq, d) == (clk <= freq
        * pow2_table(d)) by {
        if d == 0 {
        } else if d == 1 {
        } else if d == 2 {
        } else if d == 3 {
        } else if d == 4 {
        } else if d == 5 {
        } else if d == 6 {
        } else {
        }
    }
}

/// 2^(d+1) for the divider codes.
spec fn pow2_table(d: u8) -> int {
    if d == 0 {
        2
    } else if d == 1 {
        4
    } else if d == 2 {
        8
    } else if d == 3 {
        16
    } else if d == 4 {
        32
    } else if d == 5 {
        64
    } else if d == 6 {
        128
    } else {
        256
    }
}

/// The role of a pin on an SPI bus.
#[derive(Clone, Copy, Debug, PartialEq, Eq, Structural)]
pub enum PinRole {
    Sck,
    Miso,
    Mosi,
    Nss,
}

/// The routing table: whether pin `p`, set to alternate function `af`, carries
/// signal `role` of `bus`.
pub open spec fn routes(bus: SpiBus, af: u8, role: PinRole, p: PinId) -> bool {
    let a = |k: u8| p == PinId { port: Port::A, index: k };
    let b = |k: u8| p == PinId { port: Port::B, index: k };
    match (bus, af, role) {
        (SpiBus::Spi1, 5, PinRole::Sck) => a(1) || a(5) || b(3),
        (SpiBus::Spi1, 5, PinRole::Miso) => a(6) || b(4),
        (SpiBus::Spi1, 5, PinRole::Mosi) => a(7) || a(12) || b(5),
        (SpiBus::Spi1, 5, PinRole::Nss) => a(4) || a(15) || b(2),
        (SpiBus::Spi2, 5, PinRole::Sck) => a(8) || a(9) || b(10) || b(13),
        (SpiBus::Spi2, 5, PinRole::Miso) => a(11) || b(14),
        (SpiBus::Spi2, 5, PinRole::Mosi) => a(10) || b(15),
        (SpiBus::Spi2, 5, PinRole::Nss) => b(9) || b(12),
        (SpiBus::Spi2, 3, PinRole::Miso) => a(5),
        (SpiBus::Spi2, 3, PinRole::Nss) => a(9),
        (SpiBus::SubGhz, 13, PinRole::Sck) => a(5),
        (SpiBus::SubGhz, 13, PinRole::Miso) => a(6),
        (SpiBus::SubGhz, 13, PinRole::Mosi) => a(7),
        (SpiBus::SubGhz, 13, PinRole::Nss) => a(4),
        _ => false,
    }
}

/// Looks up the routing table.
pub fn spi_route(bus: SpiBus, af: u8, role: PinRole, p: PinId) -> (r: bool)
    ensures
        r == routes(bus, af, role, p),
{
    let a = |k: u8| -> (r: bool)
        ensures
            r == (p == PinId { port: Port::A, index: k }),
        { p.port == Port::A && p.index == k };
    let b = |k: u8| -> (r: bool)
        ensures
            r == (p == PinId { port: Port::B, index: k }),
        { p.port == Port::B && p.index == k };
    match (bus, af, role) {
        (SpiBus::Spi1, 5, PinRole::Sck) => a(1) || a(5) || b(3),
        (SpiBus::Spi1, 5, PinRole::Miso) => a(6) || b(4),
        (SpiBus::Spi1, 5, PinRole::Mosi) => a(7) || a(12) || b(5),
        (SpiBus::Spi1, 5, PinRole::Nss) => a(4) || a(15) || b(2),
        (SpiBus::Spi2, 5, PinRole::Sck) => a(8) || a(9) || b(10) || b(13),
        (SpiBus::Spi2, 5, PinRole::Miso) => a(11) || b(14),
        (SpiBus::Spi2, 5, PinRole::Mosi) => a(10) || b(15),
        (SpiBus::Spi2, 5, PinRole::Nss) => b(9) || b(12),
        (SpiBus::Spi2, 3, PinRole::Miso) => a(5),
        (SpiBus::Spi2, 3, PinRole::Nss) => a(9),
        (SpiBus::SubGhz, 13, PinRole::Sck) => a(5),
        (SpiBus::SubGhz, 13, PinRole::Miso) => a(6),
        (SpiBus::SubGhz, 13, PinRole::Mosi) => a(7),
        (SpiBus::SubGhz, 13, PinRole::Nss) => a(4),
        _ => false,
    }
}

/// SCK pin of bus `SPI`.
pub trait SckPin<SPI>: sealed::Sealed {
    /// Whether this pin carries SCK of the bus.
    spec fn is_sck(&self) -> bool;

    /// Looks up, at run time, whether this pin carries SCK of the bus.
    fn carries_sck(&self) -> (r: bool)
        ensures
            r == self.is_sck(),
    ;
}

/// MISO pin of bus `SPI`.
pub trait MisoPin<SPI>: sealed::Sealed {
    /// Whether this pin carries MISO of the bus.
    spec fn is_miso(&self) -> bool;

    /// Looks up, at run time, whether this pin carries MISO of the bus.
    fn carries_miso(&self) -> (r: bool)
        ensures
            r == self.is_miso(),
    ;
}

/// MOSI pin of bus `SPI`.
pub trait MosiPin<SPI>: sealed::Sealed {
    /// Whether this pin carries MOSI of the bus.
    spec fn is_mosi(&self) -> bool;

    /// Looks up, at run time, whether this pin carries MOSI of the bus.
    fn carries_mosi(&self) -> (r: bool)
        ensures
            r == self.is_mosi(),
    ;
}

/// NSS pin of bus `SPI`.
pub trait NssPin<SPI>: sealed::Sealed {
    /// Whether this pin carries NSS of the bus.
    spec fn is_nss(&self) -> bool;

    /// Looks up, at run time, whether this pin carries NSS of the bus.
    fn carries_nss(&self) -> (r: bool)
        ensures
            r == self.is_nss(),
    ;
}

impl sealed::Sealed for () {}

impl<SPI> NssPin<SPI> for () {
    open spec fn is_nss(&self) -> bool {
        true
    }

    fn carries_nss(&self) -> (r: bool) {
        true
    }
}

impl<P: PortTag, AF> sealed::Sealed for Pin<P, Alternate<AF, Input<Floating>>> {}

impl<P: PortTag, AF> sealed::Sealed for Pin<P, Alternate<AF, Output<PushPull>>> {}

impl<P: PortTag> SckPin<SPI1> for Pin<P, Alternate<AF5, Input<Floating>>> {
    open spec fn is_sck(&self) -> bool {
        routes(SpiBus::Spi1, 5, PinRole::Sck, self@)
    }

    fn carries_sck(&self) -> (r: bool) {
        spi_route(SpiBus::Spi1, 5, PinRole::Sck, self.id())
    }
}

impl<P: PortTag> MisoPin<SPI1> for Pin<P, Alternate<AF5, Input<Floating>>> {
    open spec fn is_miso(&self) -> bool {
        routes(SpiBus::Spi1, 5, PinRole::Miso, self@)
    }

    fn carries_miso(&self) -> (r: bool) {
        spi_route(SpiBus::Spi1, 5, PinRole::Miso, self.id())
    }
}

impl<P: PortTag> MosiPin<SPI1> for Pin<P, Alternate<AF5, Input<Floating>>> {
    open spec fn is_mosi(&self) -> bool {
        routes(SpiBus::Spi1, 5, PinRole::Mosi, self@)
    }

    fn carries_mosi(&self) -> (r: bool) {
        spi_route(SpiBus::Spi1, 5, PinRole::Mosi, self.id())
    }
}

impl<P: PortTag> NssPin<SPI1> for Pin<P, Alternate<AF5, Output<PushPull>>> {
    open spec fn is_nss(&self) -> bool {
        routes(SpiBus::Spi1, 5, PinRole::Nss, self@)
    }

    fn carries_nss(&self) -> (r: bool) {
        spi_route(SpiBus::Spi1, 5, PinRole::Nss, self.id())
    }
}

impl<P: PortTag> SckPin<SPI2> for Pin<P, Alternate<AF5, Input<Floating>>> {
    open spec fn is_sck(&self) -> bool {
        routes(SpiBus::Spi2, 5, PinRole::Sck, self@)
    }

    fn carries_sck(&self) -> (r: bool) {
        spi_route(SpiBus::Spi2, 5, PinRole::Sck, self.id())
    }
}

impl<P: PortTag> MisoPin<SPI2> for Pin<P, Alternate<AF5, Input<Floating>>> {
    open spec fn is_miso(&self) -> bool {
        routes(SpiBus::Spi2, 5, PinRole::Miso, self@)
    }

    fn carries_miso(&self) -> (r: bool) {
        spi_route(SpiBus::Spi2, 5, PinRole::Miso, self.id())
    }
}

impl<P: PortTag> MosiPin<SPI2> for Pin<P, Alternate<AF5, Input<Floating>>> {
    open spec fn is_mosi(&self) -> bool {
        routes(SpiBus::Spi2, 5, PinRole::Mosi, self@)
    }

    fn carries_mosi(&self) -> (r: bool) {
        spi_route(SpiBus::Spi2, 5, PinRole::Mosi, self.id())
    }
}

impl<P: PortTag> NssPin<SPI2> for Pin<P, Alternate<AF5, Output<PushPull>>> {
    open spec fn is_nss(&self) -> bool {
        routes(SpiBus::Spi2, 5, PinRole::Nss, self@)
    }

    fn carries_nss(&self) -> (r: bool) {
        spi_route(SpiBus::Spi2, 5, PinRole::Nss, self.id())
    }
}

impl<P: PortTag> MisoPin<SPI2> for Pin<P, Alternate<AF3, Input<Floating>>> {
    open spec fn is_miso(&self) -> bool {
        routes(SpiBus::Spi2, 3, PinRole::Miso, self@)
    }

    fn carries_miso(&self) -> (r: bool) {
        spi_route(SpiBus::Spi2, 3, PinRole::Miso, self.id())
    }
}

impl<P: PortTag> NssPin<SPI2> for Pin<P, Alternate<AF3, Output<PushPull>>> {
    open spec fn is_nss(&self) -> bool {
        routes(SpiBus::Spi2, 3, PinRole::Nss, self@)
    }

    fn carries_nss(&self) -> (r: bool) {
        spi_route(SpiBus::Spi2, 3, PinRole::Nss, self.id())
    }
}

impl<P: PortTag> SckPin<SPI3> for Pin<P, Alternate<AF13, Input<Floating>>> {
    open spec fn is_sck(&self) -> bool {
        routes(SpiBus::SubGhz, 13, PinRole::Sck, self@)
    }

    fn carries_sck(&self) -> (r: bool) {
        spi_route(SpiBus::SubGhz, 13, PinRole::Sck, self.id())
    }
}

impl<P: PortTag> MisoPin<SPI3> for Pin<P, Alternate<AF13, Input<Floating>>> {
    open spec fn is_miso(&self) -> bool {
        routes(SpiBus::SubGhz, 13, PinRole::Miso, self@)
    }

    fn carries_miso(&self) -> (r: bool) {
        spi_route(SpiBus::SubGhz, 13, PinRole::Miso, self.id())
    }
}

impl<P: PortTag> MosiPin<SPI3> for Pin<P, Alternate<AF13, Input<Floating>>> {
    open spec fn is_mosi(&self) -> bool {
        routes(SpiBus::SubGhz, 13, PinRole::Mosi, self@)
    }

    fn carries_mosi(&self) -> (r: bool) {
        spi_route(SpiBus::SubGhz, 13, PinRole::Mosi, self.id())
    }
}

impl<P: PortTag> NssPin<SPI3> for Pin<P, Alternate<AF13, Output<PushPull>>> {
    open spec fn is_nss(&self) -> bool {
        routes(SpiBus::SubGhz, 13, PinRole::Nss, self@)
    }

    fn carries_nss(&self) -> (r: bool) {
        spi_route(SpiBus::SubGhz, 13, PinRole::Nss, self.id())
    }
}

/// Writes `value` to field `f` of `bus`.
pub open spec fn spi_op(bus: SpiBus, f: SpiField, value: u32) -> Op {
    Op::Write { field: Field::Spi(bus, f), value }
}

/// The CPHA bit of a mode.
pub open spec fn cpha_bit(mode: Mode) -> u32 {
    match mode.phase {
        Phase::CaptureOnFirstTransition => 0,
        Phase::CaptureOnSecondTransition => 1,
    }
}

/// The CPOL bit of a mode.
pub open spec fn cpol_bit(mode: Mode) -> u32 {
    match mode.polarity {
        Polarity::IdleLow => 0,
        Polarity::IdleHigh => 1,
    }
}

/// The configuration written after the enable and reset pulse: receive event
/// at one byte, 8-bit frames, slave select output only with an NSS pin; clock
/// phase and polarity from `mode`, master mode, divider code `br`, MSB first,
/// internal slave select high, software slave management without an NSS pin,
/// no CRC, full duplex; and last the peripheral enable.
pub open spec fn setup_ops(bus: SpiBus, nss: bool, mode: Mode, br: u8) -> Seq<Op> {
    seq![
        spi_op(bus, SpiField::Frxth, 1),
        spi_op(bus, SpiField::Ds, 7),
        spi_op(bus, SpiField::Ssoe, if nss { 1 } else { 0 }),
        spi_op(bus, SpiField::Cpha, cpha_bit(mode)),
        spi_op(bus, SpiField::Cpol, cpol_bit(mode)),
        spi_op(bus, SpiField::Mstr, 1),
        spi_op(bus, SpiField::Br, br as u32),
        spi_op(bus, SpiField::Lsbfirst, 0),
        spi_op(bus, SpiField::Ssi, 1),
        spi_op(bus, SpiField::Ssm, if nss { 0 } else { 1 }),
        spi_op(bus, SpiField::Crcen, 0),
        spi_op(bus, SpiField::Bidimode, 0),
        spi_op(bus, SpiField::Spe, 1),
    ]
}

/// The accesses of `reclock`: disable the peripheral, write the divider
/// code, enable the peripheral, each in its own write.
pub open spec fn reclock_ops(bus: SpiBus, br: u8) -> Seq<Op> {
    seq![
        spi_op(bus, SpiField::Spe, 0),
        spi_op(bus, SpiField::Br, br as u32),
        spi_op(bus, SpiField::Spe, 1),
    ]
}

fn write_field(trace: &mut Trace, bus: SpiBus, f: SpiField, value: u32)
    ensures
        final(trace)@ == old(trace)@.push(spi_op(bus, f, value)),
{
    trace.push(Op::Write { field: Field::Spi(bus, f), value });
}

/// Records the configuration of `setup_ops`.
fn program(bus: SpiBus, nss: bool, mode: Mode, br: u8, trace: &mut Trace)
    ensures
        final(trace)@ == old(trace)@ + setup_ops(bus, nss, mode, br),
{
    let cpha: u32 = match mode.phase {
        Phase::CaptureOnFirstTransition => 0,
        Phase::CaptureOnSecondTransition => 1,
    };
    let cpol: u32 = match mode.polarity {
        Polarity::IdleLow => 0,
        Polarity::IdleHigh => 1,
    };
    write_field(trace, bus, SpiField::Frxth, 1);
    write_field(trace, bus, SpiField::Ds, 7);
    write_field(trace, bus, SpiField::Ssoe, if nss { 1 } else { 0 });
    write_field(trace, bus, SpiField::Cpha, cpha);
    write_field(trace, bus, SpiField::Cpol, cpol);
    write_field(trace, bus, SpiField::Mstr, 1);
    write_field(trace, bus, SpiField::Br, br as u32);
    write_field(trace, bus, SpiField::Lsbfirst, 0);
    write_field(trace, bus, SpiField::Ssi, 1);
    write_field(trace, bus, SpiField::Ssm, if nss { 0 } else { 1 });
    write_field(trace, bus, SpiField::Crcen, 0);
    write_field(trace, bus, SpiField::Bidimode, 0);
    write_field(trace, bus, SpiField::Spe, 1);
    assert(final(trace)@ =~= old(trace)@ + setup_ops(bus, nss, mode, br));
}

/// An SPI peripheral in full duplex master mode, with the pins it drives.
pub struct Spi<SPI, PINS> {
    spi: SPI,
    pins: PINS,
    bus: SpiBus,
}

impl<SPI, PINS> View for Spi<SPI, PINS> {
    type V = SpiBus;

    closed spec fn view(&self) -> SpiBus {
        self.bus
    }
}

impl<SCK, MISO, MOSI, NSS> Spi<SPI1, (SCK, MISO, MOSI, Option<NSS>)> where
    SCK: SckPin<SPI1>,
    MISO: MisoPin<SPI1>,
    MOSI: MosiPin<SPI1>,
    NSS: NssPin<SPI1>,
 {
    /// Configures SPI1 as a full duplex master whose clock runs at the
    /// fastest rate that does not exceed `freq`.
    pub fn spi1(
        spi: SPI1,
        pins: (SCK, MISO, MOSI, Option<NSS>),
        mode: Mode,
        freq: Hertz,
        clocks: Clocks,
        apb: &mut APB2,
        trace: &mut Trace,
    ) -> (r: Self)
        requires
            pins.0.is_sck(),
            pins.1.is_miso(),
            pins.2.is_mosi(),
            match pins.3 {
                Some(n) => n.is_nss(),
                None => true,
            },
            0 < freq.0 <= clocks@.pclk1,
        ensures
            r@ == SpiBus::Spi1,
            r.pins() == pins,
            final(trace)@ == old(trace)@ + enable_reset_ops(
                Field::SpiEnable(SpiBus::Spi1),
                Field::SpiReset(SpiBus::Spi1),
            ) + setup_ops(
                SpiBus::Spi1,
                pins.3 is Some,
                mode,
                baud_code(clocks@.pclk1, freq.0),
            ),
    {
        enable_and_reset(Field::SpiEnable(SpiBus::Spi1), Field::SpiReset(SpiBus::Spi1), trace);
        let br = compute_baud_rate(clocks.pclk1(), freq);
        program(SpiBus::Spi1, pins.3.is_some(), mode, br, trace);
        Spi { spi, pins, bus: SpiBus::Spi1 }
    }

    /// Like `spi1`, but checks the pins against the routing table and the
    /// frequency against the bus clock at run time, and hands the peripheral
    /// and pins back untouched when a check fails.
    pub fn try_spi1(
        spi: SPI1,
        pins: (SCK, MISO, MOSI, Option<NSS>),
        mode: Mode,
        freq: Hertz,
        clocks: Clocks,
        apb: &mut APB2,
        trace: &mut Trace,
    ) -> (r: Result<Self, (SPI1, (SCK, MISO, MOSI, Option<NSS>))>)
        ensures
            r is Ok <==> (pins.0.is_sck() && pins.1.is_miso() && pins.2.is_mosi() && match pins.3 {
                Some(n) => n.is_nss(),
                None => true,
            } && 0 < freq.0 <= clocks@.pclk1),
            r matches Ok(s) ==> s@ == SpiBus::Spi1 && s.pins() == pins && final(trace)@ == old(
                trace,
            )@ + enable_reset_ops(Field::SpiEnable(SpiBus::Spi1), Field::SpiReset(SpiBus::Spi1))
                + setup_ops(SpiBus::Spi1, pins.3 is Some, mode, baud_code(clocks@.pclk1, freq.0)),
            r matches Err(back) ==> back.1 == pins && final(trace)@ == old(trace)@,
    {
        let nss_ok = match &pins.3 {
            Some(n) => n.carries_nss(),
            None => true,
        };
        let f = clocks.pclk1();
        if pins.0.carries_sck() && pins.1.carries_miso() && pins.2.carries_mosi() && nss_ok && 0
            < freq.0 && freq.0 <= f.0 {
            Ok(Self::spi1(spi, pins, mode, freq, clocks, apb, trace))
        } else {
            Err((spi, pins))
        }
    }
}

impl<SCK, MISO, MOSI, NSS> Spi<SPI2, (SCK, MISO, MOSI, Option<NSS>)> where
    SCK: SckPin<SPI2>,
    MISO: MisoPin<SPI2>,
    MOSI: MosiPin<SPI2>,
    NSS: NssPin<SPI2>,
 {
    /// Configures SPI2S2 as a full duplex master whose clock runs at the
    /// fastest rate that does not exceed `freq`.
    pub fn spi2s2(
        spi: SPI2,
        pins: (SCK, MISO, MOSI, Option<NSS>),
        mode: Mode,
        freq: Hertz,
        clocks: Clocks,
        apb: &mut APB1_1,
        trace: &mut Trace,
    ) -> (r: Self)
        requires
            pins.0.is_sck(),
            pins.1.is_miso(),
            pins.2.is_mosi(),
            match pins.3 {
                Some(n) => n.is_nss(),
                None => true,
            },
            0 < freq.0 <= clocks@.pclk1,
        ensures
            r@ == SpiBus::Spi2,
            r.pins() == pins,
            final(trace)@ == old(trace)@ + enable_reset_ops(
                Field::SpiEnable(SpiBus::Spi2),
                Field::SpiReset(SpiBus::Spi2),
            ) + setup_ops(
                SpiBus::Spi2,
                pins.3 is Some,
                mode,
                baud_code(clocks@.pclk1, freq.0),
            ),
    {
        enable_and_reset(Field::SpiEnable(SpiBus::Spi2), Field::SpiReset(SpiBus::Spi2), trace);
        let br = compute_baud_rate(clocks.pclk1(), freq);
        program(SpiBus::Spi2, pins.3.is_some(), mode, br, trace);
        Spi { spi, pins, bus: SpiBus::Spi2 }
    }

    /// Like `spi2s2`, but checks the pins against the routing table and the
    /// frequency against the bus clock at run time, and hands the peripheral
    /// and pins back untouched when a check fails.
    pub fn try_spi2s2(
        spi: SPI2,
        pins: (SCK, MISO, MOSI, Option<NSS>),
        mode: Mode,
        freq: Hertz,
        clocks: Clocks,
        apb: &mut APB1_1,
        trace: &mut Trace,
    ) -> (r: Result<Self, (SPI2, (SCK, MISO, MOSI, Option<NSS>))>)
        ensures
            r is Ok <==> (pins.0.is_sck() && pins.1.is_miso() && pins.2.is_mosi() && match pins.3 {
                Some(n) => n.is_nss(),
                None => true,
            } && 0 < freq.0 <= clocks@.pclk1),
            r matches Ok(s) ==> s@ == SpiBus::Spi2 && s.pins() == pins && final(trace)@ == old(
                trace,
            )@ + enable_reset_ops(Field::SpiEnable(SpiBus::Spi2), Field::SpiReset(SpiBus::Spi2))
                + setup_ops(SpiBus::Spi2, pins.3 is Some, mode, baud_code(clocks@.pclk1, freq.0)),
            r matches Err(back) ==> back.1 == pins && final(trace)@ == old(trace)@,
    {
        let nss_ok = match &pins.3 {
            Some(n) => n.carries_nss(),
            None => true,
        };
        let f = clocks.pclk1();
        if pins.0.carries_sck() && pins.1.carries_miso() && pins.2.carries_mosi() && nss_ok && 0
            < freq.0 && freq.0 <= f.0 {
            Ok(Self::spi2s2(spi, pins, mode, freq, clocks, apb, trace))
        } else {
            Err((spi, pins))
        }
    }
}

impl<SCK, MISO, MOSI, NSS> Spi<SPI3, (SCK, MISO, MOSI, Option<NSS>)> where
    SCK: SckPin<SPI3>,
    MISO: MisoPin<SPI3>,
    MOSI: MosiPin<SPI3>,
    NSS: NssPin<SPI3>,
 {
    /// Configures the sub-GHz radio SPI as a full duplex master whose clock runs at the
    /// fastest rate that does not exceed `freq`.
    pub fn subghzspi(
        spi: SPI3,
        pins: (SCK, MISO, MOSI, Option<NSS>),
        mode: Mode,
        freq: Hertz,
        clocks: Clocks,
        apb: &mut APB3,
        trace: &mut Trace,
    ) -> (r: Self)
        requires
            pins.0.is_sck(),
            pins.1.is_miso(),
            pins.2.is_mosi(),
            match pins.3 {
                Some(n) => n.is_nss(),
                None => true,
            },
            0 < freq.0 <= clocks@.pclk1,
        ensures
            r@ == SpiBus::SubGhz,
            r.pins() == pins,
            final(trace)@ == old(trace)@ + enable_reset_ops(
                Field::SpiEnable(SpiBus::SubGhz),
                Field::SpiReset(SpiBus::SubGhz),
            ) + setup_ops(
                SpiBus::SubGhz,
                pins.3 is Some,
                mode,
                baud_code(clocks@.pclk1, freq.0),
            ),
    {
        enable_and_reset(Field::SpiEnable(SpiBus::SubGhz), Field::SpiReset(SpiBus::SubGhz), trace);
        let br = compute_baud_rate(clocks.pclk1(), freq);
        program(SpiBus::SubGhz, pins.3.is_some(), mode, br, trace);
        Spi { spi, pins, bus: SpiBus::SubGhz }
    }

    /// Like `subghzspi`, but checks the pins against the routing table and the
    /// frequency against the bus clock at run time, and hands the peripheral
    /// and pins back untouched when a check fails.
    pub fn try_subghzspi(
        spi: SPI3,
        pins: (SCK, MISO, MOSI, Option<NSS>),
        mode: Mode,
        freq: Hertz,
        clocks: Clocks,
        apb: &mut APB3,
        trace: &mut Trace,
    ) -> (r: Result<Self, (SPI3, (SCK, MISO, MOSI, Option<NSS>))>)
        ensures
            r is Ok <==> (pins.0.is_sck() && pins.1.is_miso() && pins.2.is_mosi() && match pins.3 {
                Some(n) => n.is_nss(),
                None => true,
            } && 0 < freq.0 <= clocks@.pclk1),
            r matches Ok(s) ==> s@ == SpiBus::SubGhz && s.pins() == pins && final(trace)@ == old(
                trace,
            )@ + enable_reset_ops(Field::SpiEnable(SpiBus::SubGhz), Field::SpiReset(SpiBus::SubGhz))
                + setup_ops(SpiBus::SubGhz, pins.3 is Some, mode, baud_code(clocks@.pclk1, freq.0)),
            r matches Err(back) ==> back.1 == pins && final(trace)@ == old(trace)@,
    {
        let nss_ok = match &pins.3 {
            Some(n) => n.carries_nss(),
            None => true,
        };
        let f = clocks.pclk1();
        if pins.0.carries_sck() && pins.1.carries_miso() && pins.2.carries_mosi() && nss_ok && 0
            < freq.0 && freq.0 <= f.0 {
            Ok(Self::subghzspi(spi, pins, mode, freq, clocks, apb, trace))
        } else {
            Err((spi, pins))
        }
    }
}

/// The write of `byte` to the data register of `bus`.
pub open spec fn data_op(bus: SpiBus, byte: u8) -> Op {
    spi_op(bus, SpiField::Dr, byte as u32)
}

/// The data register writes of `bytes`, in order.
pub open spec fn data_ops(bus: SpiBus, bytes: Seq<u8>) -> Seq<Op> {
    bytes.map_values(|b: u8| data_op(bus, b))
}

impl<SPI, PINS> Spi<SPI, PINS> {
    /// The pins the bus drives.
    pub closed spec fn pins(&self) -> PINS {
        self.pins
    }

    /// The bus instance.
    pub fn bus(&self) -> (r: SpiBus)
        ensures
            r == self@,
    {
        self.bus
    }

    /// Changes the clock rate: disables the peripheral, writes the new divider
    /// code, and enables the peripheral again.
    pub fn reclock(&mut self, freq: Hertz, clocks: Clocks, trace: &mut Trace)
        requires
            0 < freq.0 <= clocks@.pclk1,
        ensures
            final(self)@ == old(self)@,
            final(self).pins() == old(self).pins(),
            final(trace)@ == old(trace)@ + reclock_ops(
                old(self)@,
                baud_code(clocks@.pclk1, freq.0),
            ),
    {
        let br = compute_baud_rate(clocks.pclk1(), freq);
        write_field(trace, self.bus, SpiField::Spe, 0);
        write_field(trace, self.bus, SpiField::Br, br as u32);
        write_field(trace, self.bus, SpiField::Spe, 1);
        assert(final(trace)@ =~= old(trace)@ + reclock_ops(old(self)@, br));
    }

    /// Releases the peripheral and its pins.
    pub fn free(self) -> (r: (SPI, PINS))
        ensures
            r.1 == self.pins(),
    {
        (self.spi, self.pins)
    }

    /// Tries to take a received byte, given a status snapshot. `Ok` means the
    /// byte waits in the data register, to be read there. Fault flags are
    /// reported, not cleared.
    pub fn read(&mut self, status: Status) -> (r: nb::Result<(), SpiError>)
        ensures
            *final(self) == *old(self),
            r == transfer_outcome(status, status.rxne),
    {
        check_status(status, status.rxne)
    }

    /// Tries to send `byte`, given a status snapshot; on success the byte is
    /// written to the data register. Fault flags are reported, not cleared.
    pub fn send(&mut self, status: Status, byte: u8, trace: &mut Trace) -> (r: nb::Result<
        (),
        SpiError,
    >)
        ensures
            *final(self) == *old(self),
            r == transfer_outcome(status, status.txe),
            final(trace)@ == if r is Ok {
                old(trace)@.push(data_op(old(self)@, byte))
            } else {
                old(trace)@
            },
    {
        let r = check_status(status, status.txe);
        if r.is_ok() {
            trace.push(Op::Write { field: Field::Spi(self.bus, SpiField::Dr), value: byte as u32 });
        }
        r
    }
}

/// One step of a blocking write of `words`, from `pos` bytes done and `sent`
/// telling whether byte `pos` has been sent: the position, flag and result
/// after status snapshot `st`.
pub open spec fn step_model(words: Seq<u8>, pos: nat, sent: bool, st: Status) -> (
    nat,
    bool,
    WriteStep,
) {
    if pos >= words.len() {
        (pos, sent, WriteStep::Done)
    } else if !sent {
        match transfer_outcome(st, st.txe) {
            Ok(_) => (pos, true, WriteStep::Sent(words[pos as int])),
            Err(nb::Error::WouldBlock) => (pos, sent, WriteStep::Pending),
            Err(nb::Error::Other(e)) => (pos, sent, WriteStep::Failed(e)),
        }
    } else {
        match transfer_outcome(st, st.rxne) {
            Ok(_) => (pos + 1, false, WriteStep::Received),
            Err(nb::Error::WouldBlock) => (pos, sent, WriteStep::Pending),
            Err(nb::Error::Other(e)) => (pos, sent, WriteStep::Failed(e)),
        }
    }
}

/// Steps through `sts` in order from `(pos, sent)`, stopping at `Done` or
/// `Failed`; `last` is the result if no snapshot is left.
pub open spec fn run_from(words: Seq<u8>, pos: nat, sent: bool, last: WriteStep, sts: Seq<Status>) -> (
    nat,
    bool,
    WriteStep,
)
    decreases sts.len(),
{
    if sts.len() == 0 {
        (pos, sent, last)
    } else {
        let (p, s, r) = step_model(words, pos, sent, sts[0]);
        if r is Done || r is Failed {
            (p, s, r)
        } else {
            run_from(words, p, s, r, sts.drop_first())
        }
    }
}

/// The position, flag and last result after feeding `sts` to a blocking
/// write; `Pending` when `sts` is empty.
pub open spec fn run_model(words: Seq<u8>, pos: nat, sent: bool, sts: Seq<Status>) -> (
    nat,
    bool,
    WriteStep,
) {
    run_from(words, pos, sent, WriteStep::Pending, sts)
}

/// A snapshot with no fault flag and both data flags up.
pub open spec fn all_ready(st: Status) -> bool {
    !st.ovr && !st.modf && !st.crcerr && st.txe && st.rxne
}

/// A snapshot with no fault flag.
pub open spec fn fault_free(st: Status) -> bool {
    !st.ovr && !st.modf && !st.crcerr
}

/// A blocking write never fails on snapshots that show no fault.
pub proof fn lemma_run_fault_free(words: Seq<u8>, pos: nat, sent: bool, last: WriteStep, sts: Seq<Status>)
    requires
        !(last is Failed),
        forall|k: int| 0 <= k < sts.len() ==> fault_free(#[trigger] sts[k]),
    ensures
        !(run_from(words, pos, sent, last, sts).2 is Failed),
    decreases sts.len(),
{
    if sts.len() > 0 {
        let (p, s, r) = step_model(words, pos, sent, sts[0]);
        assert(fault_free(sts[0]));
        if !(r is Done) {
            assert forall|k: int| 0 <= k < sts.drop_first().len() implies fault_free(
                #[trigger] sts.drop_first()[k],
            ) by {
                assert(sts.drop_first()[k] == sts[k + 1]);
            }
            lemma_run_fault_free(words, p, s, r, sts.drop_first());
        }
    }
}

/// How many snapshots of `sts` show no fault and both data flags up.
pub open spec fn count_ready(sts: Seq<Status>) -> nat
    decreases sts.len(),
{
    if sts.len() == 0 {
        0
    } else {
        (if all_ready(sts[0]) {
            1nat
        } else {
            0nat
        }) + count_ready(sts.drop_first())
    }
}

/// The steps a blocking write still needs to reach `Done` from `(pos, sent)`:
/// a send and a receive for each byte left, less the send already made, and
/// one more step to report completion.
pub open spec fn steps_left(len: nat, pos: nat, sent: bool) -> int {
    2 * (len - pos) + 1 - (if sent { 1int } else { 0int })
}

/// A whole blocking write completes, however the hardware makes it wait: on
/// snapshots that show no fault, with busy ones (`WouldBlock`) anywhere in
/// between, it reaches `Done` with every byte written as soon as enough
/// snapshots show both data flags up, one per step still needed.
pub proof fn lemma_run_completes(words: Seq<u8>, pos: nat, sent: bool, last: WriteStep, sts: Seq<Status>)
    requires
        pos <= words.len(),
        sent ==> pos < words.len(),
        forall|k: int| 0 <= k < sts.len() ==> fault_free(#[trigger] sts[k]),
        count_ready(sts) >= steps_left(words.len(), pos, sent),
    ensures
        run_from(words, pos, sent, last, sts) == (words.len() as nat, false, WriteStep::Done),
    decreases sts.len(),
{
    if sts.len() == 0 {
        assert(steps_left(words.len(), pos, sent) >= 1);
    }
    let (p, s, r) = step_model(words, pos, sent, sts[0]);
    assert(fault_free(sts[0]));
    if !(r is Done) {
        assert forall|k: int| 0 <= k < sts.drop_first().len() implies fault_free(
            #[trigger] sts.drop_first()[k],
        ) by {
            assert(sts.drop_first()[k] == sts[k + 1]);
        }
        lemma_run_completes(words, p, s, r, sts.drop_first());
    }
}

/// What one step of a blocking write did.
#[derive(Clone, Copy, Debug, PartialEq, Eq, Structural)]
pub enum WriteStep {
    /// The byte was written to the data register.
    Sent(u8),
    /// The byte clocked in for the last one sent is waiting in the data
    /// register; read it there and drop it.
    Received,
    /// The awaited flag is not up yet: take a new snapshot and step again.
    Pending,
    /// Every byte has been sent and its echo taken.
    Done,
    /// A fault flag was up; the write stops here.
    Failed(SpiError),
}

/// A blocking write of a buffer, one status snapshot at a time. Each byte is
/// sent once, in order, and the byte received in exchange is taken before the
/// next is sent.
pub struct BlockingWrite {
    words: Vec<u8>,
    pos: usize,
    sent: bool,
}

impl BlockingWrite {
    #[verifier::type_invariant]
    spec fn inv(self) -> bool {
        &&& self.pos <= self.words.len()
        &&& self.sent ==> self.pos < self.words.len()
    }

    /// The bytes to write.
    pub closed spec fn words(&self) -> Seq<u8> {
        self.words@
    }

    /// How many bytes have been sent and had their echo taken.
    pub closed spec fn pos(&self) -> nat {
        self.pos as nat
    }

    /// Whether byte `pos` has been sent and its echo not yet taken.
    pub closed spec fn sent(&self) -> bool {
        self.sent
    }

    /// The bytes written to the data register so far, in order.
    pub open spec fn written(&self) -> Seq<u8> {
        self.words().take(self.pos() + if self.sent() { 1int } else { 0int })
    }

    /// Whether the write is complete.
    pub open spec fn done(&self) -> bool {
        self.pos() == self.words().len()
    }

    /// Starts a blocking write of `words`.
    pub fn new(words: Vec<u8>) -> (r: BlockingWrite)
        ensures
            r.words() == words@,
            r.pos() == 0,
            !r.sent(),
    {
        BlockingWrite { words, pos: 0, sent: false }
    }

    /// Whether the write is complete.
    pub fn is_done(&self) -> (r: bool)
        ensures
            r == self.done(),
    {
        self.pos == self.words.len()
    }

    /// Feeds the snapshots of `statuses` to `step`, in order, until the write
    /// completes, fails, or the snapshots run out, and returns the last step
    /// (`Pending` if there was none). Over all those steps, the trace gains
    /// exactly one data register write for each byte newly written, in the
    /// order of the buffer.
    pub fn run<SPI, PINS>(
        &mut self,
        spi: &mut Spi<SPI, PINS>,
        statuses: &Vec<Status>,
        trace: &mut Trace,
    ) -> (r: WriteStep)
        ensures
            *final(spi) == *old(spi),
            final(self).words() == old(self).words(),
            final(self).written().len() >= old(self).written().len(),
            final(trace)@ == old(trace)@ + data_ops(
                old(spi)@,
                final(self).written().skip(old(self).written().len() as int),
            ),
            (final(self).pos(), final(self).sent(), r) == run_model(
                old(self).words(),
                old(self).pos(),
                old(self).sent(),
                statuses@,
            ),
            r == WriteStep::Done ==> final(self).done(),
            r == WriteStep::Done ==> final(self).written() == final(self).words(),
    {
        proof {
            use_type_invariant(&*self);
        }
        let ghost sts = statuses@;
        let ghost start = self.written().len() as int;
        let ghost bus = spi@;
        let mut last = WriteStep::Pending;
        let mut i: usize = 0;
        let mut stopped = false;
        proof {
            assert(self.written().skip(start) =~= Seq::<u8>::empty());
            assert(trace@ =~= old(trace)@ + data_ops(bus, self.written().skip(start)));
            assert(sts.skip(0) =~= sts);
        }
        while i < statuses.len() && !stopped
            invariant
                i <= statuses.len(),
                *spi == *old(spi),
                bus == spi@,
                start == old(self).written().len(),
                self.words() == old(self).words(),
                self.written().len() >= start,
                self.written().len() <= self.words().len(),
                trace@ == old(trace)@ + data_ops(bus, self.written().skip(start)),
                last == WriteStep::Done ==> self.done(),
                sts == statuses@,
                !stopped ==> run_model(old(self).words(), old(self).pos(), old(self).sent(), sts)
                    == run_from(self.words(), self.pos(), self.sent(), last, sts.skip(i as int)),
                stopped ==> run_model(old(self).words(), old(self).pos(), old(self).sent(), sts)
                    == (self.pos(), self.sent(), last),
            decreases statuses.len() - i,
        {
            let ghost before = self.written();
            let ghost tr = trace@;
            proof {
                assert(sts.skip(i as int)[0] == sts[i as int]);
                assert(sts.skip(i as int).drop_first() =~= sts.skip(i + 1));
            }
            last = self.step(spi, statuses[i], trace);
            proof {
                if let WriteStep::Sent(b) = last {
                    assert(self.written().skip(start) =~= before.skip(start).push(b));
                    assert(data_ops(bus, before.skip(start).push(b)) =~= data_ops(
                        bus,
                        before.skip(start),
                    ).push(data_op(bus, b)));
                    assert(trace@ =~= old(trace)@ + data_ops(bus, self.written().skip(start)));
                }
            }
            stopped = match last {
                WriteStep::Done => true,
                WriteStep::Failed(_) => true,
                _ => false,
            };
            i = i + 1;
        }
        proof {
            use_type_invariant(&*self);
            if !stopped {
                assert(sts.skip(i as int) =~= Seq::<Status>::empty());
            }
            if last == WriteStep::Done {
                assert(self.words().take(self.words().len() as int) =~= self.words());
            }
        }
        last
    }

    /// Advances the write by one status snapshot: sends the next byte once
    /// the transmit buffer is empty, then takes the received byte once the
    /// receive buffer is full. A fault flag stops the write.
    pub fn step<SPI, PINS>(&mut self, spi: &mut Spi<SPI, PINS>, status: Status, trace: &mut Trace) -> (r:
        WriteStep)
        ensures
            *final(spi) == *old(spi),
            final(self).words() == old(self).words(),
            final(self).written().len() <= final(self).words().len(),
            old(self).done() ==> r == WriteStep::Done && *final(self) == *old(self)
                && final(trace)@ == old(trace)@,
            !old(self).done() && !old(self).sent() ==> match transfer_outcome(status, status.txe) {
                Ok(_) => r == WriteStep::Sent(old(self).words()[old(self).pos() as int])
                    && final(self).pos() == old(self).pos() && final(self).sent()
                    && final(trace)@ == old(trace)@.push(
                    data_op(old(spi)@, old(self).words()[old(self).pos() as int]),
                ),
                Err(nb::Error::WouldBlock) => r == WriteStep::Pending && *final(self) == *old(self)
                    && final(trace)@ == old(trace)@,
                Err(nb::Error::Other(e)) => r == WriteStep::Failed(e) && *final(self) == *old(self)
                    && final(trace)@ == old(trace)@,
            },
            !old(self).done() && old(self).sent() ==> match transfer_outcome(status, status.rxne) {
                Ok(_) => r == WriteStep::Received && final(self).pos() == old(self).pos() + 1
                    && !final(self).sent() && final(trace)@ == old(trace)@,
                Err(nb::Error::WouldBlock) => r == WriteStep::Pending && *final(self) == *old(self)
                    && final(trace)@ == old(trace)@,
                Err(nb::Error::Other(e)) => r == WriteStep::Failed(e) && *final(self) == *old(self)
                    && final(trace)@ == old(trace)@,
            },
            (final(self).pos(), final(self).sent(), r) == step_model(
                old(self).words(),
                old(self).pos(),
                old(self).sent(),
                status,
            ),
            final(self).written() == match r {
                WriteStep::Sent(b) => old(self).written().push(b),
                _ => old(self).written(),
            },
    {
        proof {
            use_type_invariant(&*self);
        }
        if self.pos == self.words.len() {
            return WriteStep::Done;
        }
        if !self.sent {
            let byte = self.words[self.pos];
            match spi.send(status, byte, trace) {
                Ok(()) => {
                    self.sent = true;
                    assert(self.words@.take(self.pos + 1) =~= old(self).words@.take(
                        old(self).pos as int,
                    ).push(byte));
                    WriteStep::Sent(byte)
                },
                Err(nb::Error::WouldBlock) => WriteStep::Pending,
                Err(nb::Error::Other(e)) => WriteStep::Failed(e),
            }
        } else {
            match spi.read(status) {
                Ok(()) => {
                    self.sent = false;
                    self.pos = self.pos + 1;
                    WriteStep::Received
                },
                Err(nb::Error::WouldBlock) => WriteStep::Pending,
                Err(nb::Error::Other(e)) => WriteStep::Failed(e),
            }
        }
    }
}

} // verus!
