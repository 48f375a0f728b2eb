//! Register operations, the ordered trace that records them, and a model of
//! what the GPIO registers hold after a trace has been carried out.

use vstd::prelude::*;

verus! {

/// A GPIO port.
#[derive(Clone, Copy, Debug, PartialEq, Eq, Structural)]
pub enum Port {
    A,
    B,
}

/// An SPI bus instance.
#[derive(Clone, Copy, Debug, PartialEq, Eq, Structural)]
pub enum SpiBus {
    /// SPI1, clocked from APB2.
    Spi1,
    /// SPI2S2, clocked from APB1.
    Spi2,
    /// The sub-GHz radio SPI, clocked from APB3.
    SubGhz,
}

/// A GPIO register, written bit by bit by the pin transitions.
#[derive(Clone, Copy, Debug, PartialEq, Eq, Structural)]
pub enum GpioReg {
    Moder,
    Otyper,
    Ospeedr,
    Pupdr,
    Afrl,
    Afrh,
    /// The atomic bit set/reset register: the low half sets output bits,
    /// the high half clears them. It is only ever written whole.
    Bsrr,
    /// The output data register, which changes only through `Bsrr`.
    Odr,
}

/// A control or status field of an SPI instance.
#[derive(Clone, Copy, Debug, PartialEq, Eq, Structural)]
pub enum SpiField {
    Frxth,
    Ds,
    Ssoe,
    Cpha,
    Cpol,
    Mstr,
    Br,
    Spe,
    Lsbfirst,
    Ssi,
    Ssm,
    Crcen,
    Bidimode,
    /// The data register, written one byte wide.
    Dr,
}

/// A named register field, whose position the device's register tables give.
#[derive(Clone, Copy, Debug, PartialEq, Eq, Structural)]
pub enum Field {
    /// Bus clock enable of a GPIO port (AHB2ENR).
    GpioEnable(Port),
    /// Reset of a GPIO port (AHB2RSTR).
    GpioReset(Port),
    /// Bus clock enable of an SPI instance.
    SpiEnable(SpiBus),
    /// Reset of an SPI instance.
    SpiReset(SpiBus),
    /// RCC_CR.HSION
    Hsion,
    /// RCC_CR.HSIRDY
    Hsirdy,
    /// RCC_CR.MSION
    Msion,
    /// RCC_CR.MSIPLLEN
    Msipllen,
    /// RCC_CFGR.SW
    Sw,
    /// RCC_CFGR.SWS
    Sws,
    /// RCC_CFGR.HPRE
    Hpre,
    /// RCC_CFGR.PPRE1
    Ppre1,
    /// RCC_CFGR.PPRE2
    Ppre2,
    /// FLASH_ACR.LATENCY
    Latency,
    /// A field of an SPI instance.
    Spi(SpiBus, SpiField),
}

/// One register access, in the order the hardware must see it.
#[derive(Clone, Copy, Debug, PartialEq, Eq, Structural)]
pub enum Op {
    /// Read-modify-write of a GPIO register: the bits under `mask` take the
    /// value of `bits`, the others keep theirs. A write to `Bsrr` is a plain
    /// write of `bits`.
    Modify { port: Port, reg: GpioReg, mask: u32, bits: u32 },
    /// Read-modify-write of one named field.
    Write { field: Field, value: u32 },
    /// Spin until the named field reads `value`.
    WaitUntil { field: Field, value: u32 },
}

/// The register accesses issued so far, oldest first.
pub struct Trace {
    ops: Vec<Op>,
}

impl View for Trace {
    type V = Seq<Op>;

    closed spec fn view(&self) -> Seq<Op> {
        self.ops@
    }
}

impl Trace {
    /// An empty trace.
    pub fn new() -> (r: Trace)
        ensures
            r@ == Seq::<Op>::empty(),
    {
        Trace { ops: Vec::new() }
    }

    /// Records one access after all earlier ones.
    pub(crate) fn push(&mut self, op: Op)
        ensures
            final(self)@ == old(self)@.push(op),
    {
        self.ops.push(op);
    }

    /// Number of recorded accesses.
    pub fn len(&self) -> (r: usize)
        ensures
            r == self@.len(),
    {
        self.ops.len()
    }

    /// The recorded accesses, oldest first.
    pub fn ops(&self) -> (r: &Vec<Op>)
        ensures
            r@ == self@,
    {
        &self.ops
    }

    /// Hands out the recorded accesses and leaves the trace empty.
    pub fn take(&mut self) -> (r: Vec<Op>)
        ensures
            r@ == old(self)@,
            final(self)@ == Seq::<Op>::empty(),
    {
        let mut out: Vec<Op> = Vec::new();
        std::mem::swap(&mut out, &mut self.ops);
        out
    }
}

// ---------------------------------------------------------------------------
// GPIO register model

/// The contents of every GPIO register of every port.
pub type GpioState = spec_fn(Port, GpioReg) -> u32;

/// Effect of one access on the GPIO registers.
pub open spec fn apply(s: GpioState, op: Op) -> GpioState {
    match op {
        Op::Modify { port, reg, mask, bits } => {
            if reg == GpioReg::Bsrr {
                |p: Port, r: GpioReg|
                    if p == port && r == GpioReg::Odr {
                        (s(p, r) & !(bits >> 16u32)) | (bits & 0xffffu32)
                    } else {
                        s(p, r)
                    }
            } else {
                |p: Port, r: GpioReg|
                    if p == port && r == reg {
                        (s(p, r) & !mask) | (bits & mask)
                    } else {
                        s(p, r)
                    }
            }
        },
        _ => s,
    }
}

/// Effect of a sequence of accesses, carried out in order.
pub open spec fn apply_all(s: GpioState, ops: Seq<Op>) -> GpioState
    decreases ops.len(),
{
    if ops.len() == 0 {
        s
    } else {
        apply_all(apply(s, ops[0]), ops.drop_first())
    }
}

/// Carrying out two sequences of accesses one after the other is carrying out
/// their concatenation.
pub proof fn lemma_apply_all_append(s: GpioState, a: Seq<Op>, b: Seq<Op>)
    ensures
        apply_all(s, a + b) == apply_all(apply_all(s, a), b),
    decreases a.len(),
{
    if a.len() == 0 {
        assert(a + b =~= b);
    } else {
        assert((a + b).drop_first() =~= a.drop_first() + b);
        assert((a + b)[0] == a[0]);
        lemma_apply_all_append(apply(s, a[0]), a.drop_first(), b);
    }
}

/// The configuration fields of one pin, each shifted down to bit 0.
pub struct PinRegs {
    pub mode: u32,
    pub otype: u32,
    pub speed: u32,
    pub pull: u32,
    pub af: u32,
    pub level: u32,
}

/// The fields of pin `i` of `port` in `s`.
pub open spec fn pin_regs(s: GpioState, port: Port, i: u32) -> PinRegs {
    PinRegs {
        mode: (s(port, GpioReg::Moder) >> (2 * i)) & 3,
        otype: (s(port, GpioReg::Otyper) >> i) & 1,
        speed: (s(port, GpioReg::Ospeedr) >> (2 * i)) & 3,
        pull: (s(port, GpioReg::Pupdr) >> (2 * i)) & 3,
        af: if i < 8 {
            (s(port, GpioReg::Afrl) >> (4 * i)) & 15
        } else {
            (s(port, GpioReg::Afrh) >> (4 * (i - 8))) & 15
        },
        level: (s(port, GpioReg::Odr) >> i) & 1,
    }
}

// ---------------------------------------------------------------------------
// Bit-level facts about the field updates used by the pin transitions

/// A two-bit field update sets its own field and keeps every other one.
pub proof fn lemma_two_bit_field(v: u32, m: u32, i: u32, j: u32)
    requires
        m < 4,
        i < 16,
        j < 16,
    ensures
        ((((v & !(3u32 << (2 * i))) | ((m << (2 * i)) & (3u32 << (2 * i)))) >> (2 * j)) & 3)
            == if i == j { m } else { (v >> (2 * j)) & 3 },
{
    assert(((((v & !(3u32 << (2 * i))) | ((m << (2 * i)) & (3u32 << (2 * i)))) >> (2 * j)) & 3)
        == if i == j { m } else { (v >> (2 * j)) & 3 }) by (bit_vector)
        requires
            m < 4,
            i < 16,
            j < 16,
    ;
}

/// A one-bit field update sets its own bit and keeps every other one.
pub proof fn lemma_one_bit_field(v: u32, m: u32, i: u32, j: u32)
    requires
        m < 2,
        i < 16,
        j < 16,
    ensures
        ((((v & !(1u32 << i)) | ((m << i) & (1u32 << i))) >> j) & 1)
            == if i == j { m } else { (v >> j) & 1 },
{
    assert(((((v & !(1u32 << i)) | ((m << i) & (1u32 << i))) >> j) & 1)
        == if i == j { m } else { (v >> j) & 1 }) by (bit_vector)
        requires
            m < 2,
            i < 16,
            j < 16,
    ;
}

/// A four-bit field update sets its own nibble and keeps every other one.
pub proof fn lemma_nibble_field(v: u32, m: u32, k: u32, l: u32)
    requires
        m < 16,
        k < 8,
        l < 8,
    ensures
        ((((v & !(15u32 << (4 * k))) | ((m << (4 * k)) & (15u32 << (4 * k)))) >> (4 * l)) & 15)
            == if k == l { m } else { (v >> (4 * l)) & 15 },
{
    assert(((((v & !(15u32 << (4 * k))) | ((m << (4 * k)) & (15u32 << (4 * k)))) >> (4 * l)) & 15)
        == if k == l { m } else { (v >> (4 * l)) & 15 }) by (bit_vector)
        requires
            m < 16,
            k < 8,
            l < 8,
    ;
}

/// A set/reset word that names one pin drives that pin's output bit and
/// keeps every other one.
pub proof fn lemma_bsrr(v: u32, high: bool, i: u32, j: u32)
    requires
        i < 16,
        j < 16,
    ensures
        ({
            let w = if high { 1u32 << i } else { 1u32 << (16 + i) };
            (((v & !(w >> 16u32)) | (w & 0xffffu32)) >> j) & 1
        }) == if i == j { if high { 1u32 } else { 0u32 } } else { (v >> j) & 1 },
{
    if high {
        assert((((v & !((1u32 << i) >> 16u32)) | ((1u32 << i) & 0xffffu32)) >> j) & 1
            == if i == j { 1u32 } else { (v >> j) & 1 }) by (bit_vector)
            requires
                i < 16,
                j < 16,
        ;
    } else {
        assert((((v & !((1u32 << (16 + i)) >> 16u32)) | ((1u32 << (16 + i)) & 0xffffu32)) >> j) & 1
            == if i == j { 0u32 } else { (v >> j) & 1 }) by (bit_vector)
            requires
                i < 16,
                j < 16,
        ;
    }
}

} // verus!
