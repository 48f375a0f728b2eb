//! Reset and clock control.

use vstd::prelude::*;
use crate::device::RCC;
use crate::flash::ACR;
use crate::time::Hertz;
use crate::trace::{Field, Op, Trace};

verus! {

/// Constrains the RCC peripheral.
pub trait RccExt {
    /// Splits the RCC peripheral into its register tokens.
    fn constrain(self) -> Rcc;
}

impl RccExt for RCC {
    fn constrain(self) -> Rcc {
        Rcc {
            ahb2: AHB2 { _0: () },
            apb1_1: APB1_1 { _0: () },
            apb2: APB2 { _0: () },
            apb3: APB3 { _0: () },
            cfgr: CFGR {  },
        }
    }
}

/// The register tokens of the RCC peripheral.
pub struct Rcc {
    /// AMBA high-performance bus 2 (AHB2) registers.
    pub ahb2: AHB2,
    /// AMBA advanced peripheral bus 1 (APB1) register block 1.
    pub apb1_1: APB1_1,
    /// AMBA advanced peripheral bus 2 (APB2) registers.
    pub apb2: APB2,
    /// AMBA advanced peripheral bus 3 (APB3) registers.
    pub apb3: APB3,
    /// Clock configuration.
    pub cfgr: CFGR,
}

/// AMBA high-performance bus 2 (AHB2) enable and reset registers.
pub struct AHB2 {
    _0: (),
}

/// AMBA advanced peripheral bus 1 (APB1) enable and reset registers, block 1.
pub struct APB1_1 {
    _0: (),
}

/// AMBA advanced peripheral bus 2 (APB2) enable and reset registers.
pub struct APB2 {
    _0: (),
}

/// AMBA advanced peripheral bus 3 (APB3) enable and reset registers.
pub struct APB3 {
    _0: (),
}

/// Enables a peripheral's bus clock, then pulses its reset.
pub open spec fn enable_reset_ops(enable: Field, reset: Field) -> Seq<Op> {
    seq![
        Op::Write { field: enable, value: 1 },
        Op::Write { field: reset, value: 1 },
        Op::Write { field: reset, value: 0 },
    ]
}

/// Records the enable and reset pulse of one peripheral.
pub(crate) fn enable_and_reset(enable: Field, reset: Field, trace: &mut Trace)
    ensures
        final(trace)@ == old(trace)@ + enable_reset_ops(enable, reset),
{
    trace.push(Op::Write { field: enable, value: 1 });
    trace.push(Op::Write { field: reset, value: 1 });
    trace.push(Op::Write { field: reset, value: 0 });
    assert(final(trace)@ =~= old(trace)@ + enable_reset_ops(enable, reset));
}

/// Frequency of the high-speed internal oscillator.
pub const HSI: u32 = 16_000_000;

/// Highest system clock frequency the part is rated for.
pub const SYSCLK_MAX: u32 = 80_000_000;

/// Highest core clock frequency that flash latency `l` supports.
pub open spec fn latency_threshold(l: u32) -> int {
    16_000_000 * (l + 1)
}

/// The flash wait states programmed for core clock `hclk`.
pub open spec fn latency_for(hclk: u32) -> u32 {
    if hclk <= 16_000_000 {
        0
    } else if hclk <= 32_000_000 {
        1
    } else if hclk <= 48_000_000 {
        2
    } else if hclk <= 64_000_000 {
        3
    } else {
        4
    }
}

/// The flash wait states for core clock `hclk`: the fewest whose threshold
/// covers `hclk`.
pub fn flash_latency(hclk: u32) -> (r: u32)
    requires
        hclk <= SYSCLK_MAX,
    ensures
        r == latency_for(hclk),
        hclk <= latency_threshold(r),
        r == 0 || hclk > latency_threshold((r - 1) as u32),
{
    if hclk <= 16_000_000 {
        0
    } else if hclk <= 32_000_000 {
        1
    } else if hclk <= 48_000_000 {
        2
    } else if hclk <= 64_000_000 {
        3
    } else {
        4
    }
}

/// Relies on cast::u32: widening a byte to 32 bits keeps its value.
#[verifier::external_body]
fn widen(x: u8) -> (r: u32)
    ensures
        r == x as u32,
{
    cast::u32(x)
}

/// The accesses of `freeze` when the flash latency is `latency`: start the
/// HSI and wait for it, program the flash latency, program the prescalers and
/// select the HSI as system clock, wait until the switch shows, then stop the
/// MSI that runs from reset.
pub open spec fn freeze_ops(latency: u32) -> Seq<Op> {
    seq![
        Op::Write { field: Field::Hsion, value: 1 },
        Op::WaitUntil { field: Field::Hsirdy, value: 1 },
        Op::Write { field: Field::Latency, value: latency },
        Op::Write { field: Field::Hsion, value: 1 },
        Op::WaitUntil { field: Field::Hsirdy, value: 1 },
        Op::Write { field: Field::Ppre2, value: 0 },
        Op::Write { field: Field::Ppre1, value: 0 },
        Op::Write { field: Field::Hpre, value: 0 },
        Op::Write { field: Field::Sw, value: 1 },
        Op::WaitUntil { field: Field::Sws, value: 1 },
        Op::Write { field: Field::Msion, value: 0 },
        Op::Write { field: Field::Msipllen, value: 0 },
    ]
}

/// Whether `op` writes the system clock switch.
pub open spec fn is_clock_switch(op: Op) -> bool {
    match op {
        Op::Write { field: Field::Sw, value: _ } => true,
        _ => false,
    }
}

/// `freeze` programs the flash latency before it switches the system clock:
/// the latency write, whose threshold covers the core clock and is the lowest
/// that does, comes before every write of the clock switch.
pub proof fn lemma_latency_before_switch(hclk: u32)
    requires
        hclk <= SYSCLK_MAX,
    ensures
        ({
            let ops = freeze_ops(latency_for(hclk));
            let l = latency_for(hclk);
            &&& ops[2] == (Op::Write { field: Field::Latency, value: l })
            &&& hclk <= latency_threshold(l)
            &&& (l == 0 || hclk > latency_threshold((l - 1) as u32))
            &&& exists|k: int| 2 < k < ops.len() && is_clock_switch(#[trigger] ops[k])
            &&& forall|k: int| 0 <= k <= 2 ==> !is_clock_switch(#[trigger] ops[k])
        }),
{
    let ops = freeze_ops(latency_for(hclk));
    assert(is_clock_switch(ops[8]));
}

/// Clock configuration.
pub struct CFGR {}

/// The frequencies of the frozen clock tree.
#[derive(Clone, Copy, Debug, PartialEq, Eq, Structural)]
pub struct ClockFreqs {
    pub pclk1: u32,
    pub pclk2: u32,
    pub sysclk: u32,
}

/// Frozen clock frequencies. Only `freeze` makes this value, so holding one
/// shows that the clock tree and the flash latency have been programmed.
#[derive(Clone, Copy, Debug)]
pub struct Clocks {
    pclk1: Hertz,
    pclk2: Hertz,
    sysclk: Hertz,
}

impl View for Clocks {
    type V = ClockFreqs;

    closed spec fn view(&self) -> ClockFreqs {
        ClockFreqs { pclk1: self.pclk1.0, pclk2: self.pclk2.0, sysclk: self.sysclk.0 }
    }
}

impl Clocks {
    /// The frequency of APB1.
    pub fn pclk1(&self) -> (r: Hertz)
        ensures
            r.0 == self@.pclk1,
    {
        self.pclk1
    }

    /// The frequency of APB2.
    pub fn pclk2(&self) -> (r: Hertz)
        ensures
            r.0 == self@.pclk2,
    {
        self.pclk2
    }

    /// The system (core) frequency.
    pub fn sysclk(&self) -> (r: Hertz)
        ensures
            r.0 == self@.sysclk,
    {
        self.sysclk
    }
}

impl CFGR {
    /// Runs the clock tree from the 16 MHz HSI with all prescalers at 1,
    /// programs the flash latency for that core clock before the switch, and
    /// returns the frozen frequencies. Other clock sources and prescalers are
    /// not offered yet.
    pub fn freeze(&self, acr: &mut ACR, trace: &mut Trace) -> (r: Clocks)
        ensures
            r@ == (ClockFreqs { pclk1: HSI, pclk2: HSI, sysclk: HSI }),
            final(trace)@ == old(trace)@ + freeze_ops(latency_for(HSI)),
    {
        trace.push(Op::Write { field: Field::Hsion, value: 1 });
        trace.push(Op::WaitUntil { field: Field::Hsirdy, value: 1 });

        let sysclk = HSI;
        assert(sysclk <= SYSCLK_MAX);
        let hpre_bits: u32 = 0;
        let hpre_div: u32 = 1;
        let hclk = sysclk / hpre_div;
        let ppre1_bits: u32 = 0;
        let ppre1: u8 = 1;
        let pclk1 = hclk / widen(ppre1);
        let ppre2_bits: u32 = 0;
        let ppre2: u8 = 1;
        let pclk2 = hclk / widen(ppre2);

        trace.push(Op::Write { field: Field::Latency, value: flash_latency(hclk) });
        trace.push(Op::Write { field: Field::Hsion, value: 1 });
        trace.push(Op::WaitUntil { field: Field::Hsirdy, value: 1 });
        trace.push(Op::Write { field: Field::Ppre2, value: ppre2_bits });
        trace.push(Op::Write { field: Field::Ppre1, value: ppre1_bits });
        trace.push(Op::Write { field: Field::Hpre, value: hpre_bits });
        trace.push(Op::Write { field: Field::Sw, value: 1 });
        trace.push(Op::WaitUntil { field: Field::Sws, value: 1 });
        trace.push(Op::Write { field: Field::Msion, value: 0 });
        trace.push(Op::Write { field: Field::Msipllen, value: 0 });
        assert(final(trace)@ =~= old(trace)@ + freeze_ops(latency_for(HSI)));

        Clocks { pclk1: Hertz(pclk1), pclk2: Hertz(pclk2), sysclk: Hertz(sysclk) }
    }
}

/// Ranges of the multi-speed internal oscillator.
#[derive(Clone, Copy, Debug, PartialEq, Eq, Structural)]
pub enum MsiFreq {
    /// Range 0, around 100 kHz.
    RANGE100K,
    /// Range 1, around 200 kHz.
    RANGE200K,
    /// Range 2, around 400 kHz.
    RANGE400K,
    /// Range 3, around 800 kHz.
    RANGE800K,
    /// Range 4, around 1 MHz.
    RANGE1M,
    /// Range 5, around 2 MHz.
    RANGE2M,
    /// Range 6, around 4 MHz.
    RANGE4M,
    /// Range 7, around 8 MHz.
    RANGE8M,
    /// Range 8, around 16 MHz.
    RANGE16M,
    /// Range 9, around 24 MHz.
    RANGE24M,
    /// Range 10, around 32 MHz.
    RANGE32M,
    /// Range 11, around 48 MHz.
    RANGE48M,
}

/// The nominal frequency of an MSI range.
pub open spec fn msi_hz(f: MsiFreq) -> u32 {
    match f {
        MsiFreq::RANGE100K => 100_000,
        MsiFreq::RANGE200K => 200_000,
        MsiFreq::RANGE400K => 400_000,
        MsiFreq::RANGE800K => 800_000,
        MsiFreq::RANGE1M => 1_000_000,
        MsiFreq::RANGE2M => 2_000_000,
        MsiFreq::RANGE4M => 4_000_000,
        MsiFreq::RANGE8M => 8_000_000,
        MsiFreq::RANGE16M => 16_000_000,
        MsiFreq::RANGE24M => 24_000_000,
        MsiFreq::RANGE32M => 32_000_000,
        MsiFreq::RANGE48M => 48_000_000,
    }
}

impl MsiFreq {
    /// The nominal frequency of this range.
    pub fn to_hertz(self) -> (r: Hertz)
        ensures
            r.0 == msi_hz(self),
    {
        Hertz(
            match self {
                Self::RANGE100K => 100_000,
                Self::RANGE200K => 200_000,
                Self::RANGE400K => 400_000,
                Self::RANGE800K => 800_000,
                Self::RANGE1M => 1_000_000,
                Self::RANGE2M => 2_000_000,
                Self::RANGE4M => 4_000_000,
                Self::RANGE8M => 8_000_000,
                Self::RANGE16M => 16_000_000,
                Self::RANGE24M => 24_000_000,
                Self::RANGE32M => 32_000_000,
                Self::RANGE48M => 48_000_000,
            },
        )
    }
}

/// Source of the PLL.
#[derive(Clone, Copy, Debug, PartialEq, Eq, Structural)]
pub enum PllSource {
    /// Multi-speed internal clock.
    MSI,
    /// High-speed internal clock.
    HSI16,
    /// High-speed external clock.
    HSE,
}

/// The PLLSRC encoding of a PLL source.
pub open spec fn pllsrc_code(s: PllSource) -> u8 {
    match s {
        PllSource::MSI => 0b01,
        PllSource::HSI16 => 0b10,
        PllSource::HSE => 0b11,
    }
}

impl PllSource {
    /// The PLLSRC encoding of this source.
    pub fn to_pllsrc(self) -> (r: u8)
        ensures
            r == pllsrc_code(self),
    {
        match self {
            Self::MSI => 0b01,
            Self::HSI16 => 0b10,
            Self::HSE => 0b11,
        }
    }
}

} // verus!
