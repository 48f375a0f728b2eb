//! General purpose input / output.
//!
//! A pin's electrical mode is part of its type: `Pin<Input<Floating>>`,
//! `Pin<Output<PushPull>>`, `Pin<Alternate<AF5, Input<Floating>>>` and so on.
//! A transition consumes the pin, takes the register tokens it needs, records
//! its register accesses in a [`Trace`], and returns the pin in its new mode.
//!
//! Pins and register tokens carry their port in their type, so a token of one
//! port cannot reach a pin of another. Which half of the alternate function
//! registers serves a pin is a `requires` of the `into_afN` transitions,
//! which Verus checks for verified callers only; code built without Verus
//! compares the token's `id` with the pin's `id` before the call.

use vstd::prelude::*;
use core::marker::PhantomData;
use crate::rcc::AHB2;
use crate::trace::{
    apply, apply_all, lemma_apply_all_append, lemma_bsrr, lemma_nibble_field, lemma_one_bit_field, lemma_two_bit_field,
    pin_regs, GpioReg, GpioState, Op, PinRegs, Port, Trace,
};

pub mod gpioa;
pub mod gpiob;

verus! {

/// Input mode (type state).
pub struct Input<MODE> {
    _mode: PhantomData<MODE>,
}

/// Floating input (type state).
pub struct Floating;

/// Pulled down input (type state).
pub struct PullDown;

/// Pulled up input (type state).
pub struct PullUp;

/// Output mode (type state).
pub struct Output<MODE> {
    _mode: PhantomData<MODE>,
}

/// Push pull output (type state).
pub struct PushPull;

/// Open drain output (type state).
pub struct OpenDrain;

/// Analog mode (type state).
pub struct Analog;

/// Alternate function mode (type state).
pub struct Alternate<AF, MODE> {
    _af: PhantomData<AF>,
    _mode: PhantomData<MODE>,
}

/// Alternate function mode with an open drain output (type state).
pub struct AlternateOD<AF, MODE> {
    _af: PhantomData<AF>,
    _mode: PhantomData<MODE>,
}

/// Alternate function 0 (type state).
pub struct AF0;

/// Alternate function 1 (type state).
pub struct AF1;

/// Alternate function 2 (type state).
pub struct AF2;

/// Alternate function 3 (type state).
pub struct AF3;

/// Alternate function 4 (type state).
pub struct AF4;

/// Alternate function 5 (type state).
pub struct AF5;

/// Alternate function 6 (type state).
pub struct AF6;

/// Alternate function 7 (type state).
pub struct AF7;

/// Alternate function 8 (type state).
pub struct AF8;

/// Alternate function 12 (type state).
pub struct AF12;

/// Alternate function 13 (type state).
pub struct AF13;

/// Alternate function 14 (type state).
pub struct AF14;

/// Alternate function 15 (type state).
pub struct AF15;

/// Output speed of a pin.
#[derive(Clone, Copy, Debug, PartialEq, Eq, Structural)]
pub enum Speed {
    Low,
    Medium,
    High,
    VeryHigh,
}

/// The level an output pin drives.
#[derive(Clone, Copy, Debug, PartialEq, Eq, Structural)]
pub enum State {
    High,
    Low,
}

/// The OSPEEDR encoding of a speed.
pub open spec fn speed_code(s: Speed) -> u32 {
    match s {
        Speed::Low => 0,
        Speed::Medium => 1,
        Speed::High => 2,
        Speed::VeryHigh => 3,
    }
}

impl Speed {
    /// The OSPEEDR encoding of this speed.
    pub fn code(self) -> (r: u32)
        ensures
            r == speed_code(self),
    {
        match self {
            Speed::Low => 0,
            Speed::Medium => 1,
            Speed::High => 2,
            Speed::VeryHigh => 3,
        }
    }
}

/// A change of a pin's configuration.
#[derive(Clone, Copy, Debug, PartialEq, Eq, Structural)]
pub enum Transition {
    FloatingInput,
    PullDownInput,
    PullUpInput,
    OpenDrainOutput,
    PushPullOutput(State),
    Analog,
    /// Alternate function with the given number.
    Alternate(u8),
    Speed(Speed),
    /// Internal pull-up on or off.
    PullUp(bool),
    /// Open drain output stage for an alternate function.
    AlternateOpenDrain,
}

/// A transition that the hardware can carry out.
pub open spec fn transition_valid(t: Transition) -> bool {
    match t {
        Transition::Alternate(n) => n < 16,
        _ => true,
    }
}

/// Writes the two-bit MODER field of pin `i`.
pub open spec fn mode_op(port: Port, i: u32, m: u32) -> Op {
    Op::Modify { port, reg: GpioReg::Moder, mask: 3u32 << (2 * i), bits: m << (2 * i) }
}

/// Writes the two-bit PUPDR field of pin `i`.
pub open spec fn pull_op(port: Port, i: u32, m: u32) -> Op {
    Op::Modify { port, reg: GpioReg::Pupdr, mask: 3u32 << (2 * i), bits: m << (2 * i) }
}

/// Writes the two-bit OSPEEDR field of pin `i`.
pub open spec fn speed_op(port: Port, i: u32, m: u32) -> Op {
    Op::Modify { port, reg: GpioReg::Ospeedr, mask: 3u32 << (2 * i), bits: m << (2 * i) }
}

/// Writes the OTYPER bit of pin `i`.
pub open spec fn otype_op(port: Port, i: u32, m: u32) -> Op {
    Op::Modify { port, reg: GpioReg::Otyper, mask: 1u32 << i, bits: m << i }
}

/// Writes the four-bit alternate function selector of pin `i`, in AFRL for
/// pins 0 to 7 and in AFRH for pins 8 to 15.
pub open spec fn af_op(port: Port, i: u32, n: u32) -> Op {
    if i < 8 {
        Op::Modify { port, reg: GpioReg::Afrl, mask: 15u32 << (4 * i), bits: n << (4 * i) }
    } else {
        Op::Modify {
            port,
            reg: GpioReg::Afrh,
            mask: 15u32 << (4 * (i - 8)),
            bits: n << (4 * (i - 8)),
        }
    }
}

/// Drives pin `i` high or low through the atomic set/reset register.
pub open spec fn level_op(port: Port, i: u32, high: bool) -> Op {
    Op::Modify {
        port,
        reg: GpioReg::Bsrr,
        mask: 0xffff_ffffu32,
        bits: if high { 1u32 << i } else { 1u32 << (16 + i) },
    }
}

/// The register accesses that carry out `t` on pin `i` of `port`, in order.
pub open spec fn transition_ops(port: Port, i: u32, t: Transition) -> Seq<Op> {
    match t {
        Transition::FloatingInput => seq![mode_op(port, i, 0), pull_op(port, i, 0)],
        Transition::PullDownInput => seq![mode_op(port, i, 0), pull_op(port, i, 2)],
        Transition::PullUpInput => seq![mode_op(port, i, 0), pull_op(port, i, 1)],
        Transition::OpenDrainOutput => seq![mode_op(port, i, 1), otype_op(port, i, 1)],
        Transition::PushPullOutput(st) => seq![
            level_op(port, i, st == State::High),
            mode_op(port, i, 1),
            otype_op(port, i, 0),
        ],
        Transition::Analog => seq![mode_op(port, i, 3), pull_op(port, i, 0)],
        Transition::Alternate(n) => seq![mode_op(port, i, 2), af_op(port, i, n as u32)],
        Transition::Speed(sp) => seq![speed_op(port, i, speed_code(sp))],
        Transition::PullUp(on) => seq![pull_op(port, i, if on { 1 } else { 0 })],
        Transition::AlternateOpenDrain => seq![otype_op(port, i, 1)],
    }
}

/// The register fields that the target configuration of `t` fixes hold its
/// encoding in `p`.
pub open spec fn realizes(p: PinRegs, t: Transition) -> bool {
    match t {
        Transition::FloatingInput => p.mode == 0 && p.pull == 0,
        Transition::PullDownInput => p.mode == 0 && p.pull == 2,
        Transition::PullUpInput => p.mode == 0 && p.pull == 1,
        Transition::OpenDrainOutput => p.mode == 1 && p.otype == 1,
        Transition::PushPullOutput(st) => p.mode == 1 && p.otype == 0 && p.level == (if st
            == State::High {
            1u32
        } else {
            0u32
        }),
        Transition::Analog => p.mode == 3 && p.pull == 0,
        Transition::Alternate(n) => p.mode == 2 && p.af == n as u32,
        Transition::Speed(sp) => p.speed == speed_code(sp),
        Transition::PullUp(on) => p.pull == (if on { 1u32 } else { 0u32 }),
        Transition::AlternateOpenDrain => p.otype == 1,
    }
}

/// The fields of a pin that `t` does not fix are the same in `a` and `b`.
pub open spec fn keeps_others(a: PinRegs, b: PinRegs, t: Transition) -> bool {
    let mode = a.mode == b.mode;
    let otype = a.otype == b.otype;
    let speed = a.speed == b.speed;
    let pull = a.pull == b.pull;
    let af = a.af == b.af;
    let level = a.level == b.level;
    match t {
        Transition::FloatingInput | Transition::PullDownInput | Transition::PullUpInput
        | Transition::Analog => otype && speed && af && level,
        Transition::OpenDrainOutput => speed && pull && af && level,
        Transition::PushPullOutput(_) => speed && pull && af,
        Transition::Alternate(_) => otype && speed && pull && level,
        Transition::Speed(_) => mode && otype && pull && af && level,
        Transition::PullUp(_) => mode && otype && speed && af && level,
        Transition::AlternateOpenDrain => mode && speed && pull && af && level,
    }
}

proof fn lemma_fields_after_op(s: GpioState, op: Op, port: Port, i: u32, q: Port, j: u32)
    requires
        i < 16,
        j < 16,
        op_local(op, port, i),
    ensures
        q != port || j != i ==> pin_regs(apply(s, op), q, j) == pin_regs(s, q, j),
{
    if q == port && j != i {
        let t = apply(s, op);
        let a = pin_regs(s, q, j);
        let b = pin_regs(t, q, j);
        lemma_two_bit_field(s(port, GpioReg::Moder), 0, i, j);
        lemma_two_bit_field(s(port, GpioReg::Moder), 1, i, j);
        lemma_two_bit_field(s(port, GpioReg::Moder), 2, i, j);
        lemma_two_bit_field(s(port, GpioReg::Moder), 3, i, j);
        lemma_two_bit_field(s(port, GpioReg::Pupdr), 0, i, j);
        lemma_two_bit_field(s(port, GpioReg::Pupdr), 1, i, j);
        lemma_two_bit_field(s(port, GpioReg::Pupdr), 2, i, j);
        lemma_one_bit_field(s(port, GpioReg::Otyper), 0, i, j);
        lemma_one_bit_field(s(port, GpioReg::Otyper), 1, i, j);
        lemma_bsrr(s(port, GpioReg::Odr), true, i, j);
        lemma_bsrr(s(port, GpioReg::Odr), false, i, j);
        if exists|m: u32| m < 4 && op == speed_op(port, i, m) {
            let m = choose|m: u32| m < 4 && op == speed_op(port, i, m);
            lemma_two_bit_field(s(port, GpioReg::Ospeedr), m, i, j);
        }
        if exists|n: u32| n < 16 && op == af_op(port, i, n) {
            let n = choose|n: u32| n < 16 && op == af_op(port, i, n);
            if i < 8 && j < 8 {
                lemma_nibble_field(s(port, GpioReg::Afrl), n, i, j);
            } else if i >= 8 && j >= 8 {
                lemma_nibble_field(s(port, GpioReg::Afrh), n, (i - 8) as u32, (j - 8) as u32);
            }
        }
        assert(b == a);
    }
}

/// Every pin transition realizes its target configuration: after its register
/// accesses have been carried out on any register contents, the fields of the
/// pin that the target mode fixes hold exactly that mode's encoding, its other
/// fields keep their values, and every other pin of every port keeps all of
/// its fields.
pub proof fn lemma_transition_exact(s: GpioState, port: Port, i: u32, t: Transition)
    requires
        i < 16,
        transition_valid(t),
    ensures
        realizes(pin_regs(apply_all(s, transition_ops(port, i, t)), port, i), t),
        keeps_others(pin_regs(s, port, i), pin_regs(apply_all(s, transition_ops(port, i, t)), port, i), t),
        forall|q: Port, j: u32|
            j < 16 && (q != port || j != i) ==> #[trigger] pin_regs(
                apply_all(s, transition_ops(port, i, t)),
                q,
                j,
            ) == pin_regs(s, q, j),
{
    reveal_with_fuel(apply_all, 4);
    let ops = transition_ops(port, i, t);
    let s1 = apply(s, ops[0]);
    if ops.len() == 1 {
        assert(ops.drop_first() =~= Seq::<Op>::empty());
        assert(apply_all(s, ops) == s1);
    }
    if ops.len() >= 2 {
        let s2 = apply(s1, ops[1]);
        assert(ops.drop_first()[0] == ops[1]);
        if ops.len() == 2 {
            assert(ops.drop_first().drop_first() =~= Seq::<Op>::empty());
            assert(apply_all(s, ops) == s2);
        } else {
            let s3 = apply(s2, ops[2]);
            assert(ops.drop_first().drop_first()[0] == ops[2]);
            assert(ops.drop_first().drop_first().drop_first() =~= Seq::<Op>::empty());
            assert(apply_all(s, ops) == s3);
        }
    }
    assert forall|k: int| 0 <= k < ops.len() implies op_local(#[trigger] ops[k], port, i) by {
        match t {
            Transition::Speed(sp) => {
                assert(ops[0] == speed_op(port, i, speed_code(sp)));
            },
            Transition::Alternate(n) => {
                assert(k == 1 ==> ops[k] == af_op(port, i, n as u32));
            },
            _ => {},
        }
    }
    assert forall|q: Port, j: u32|
        j < 16 && (q != port || j != i) implies #[trigger] pin_regs(apply_all(s, ops), q, j)
        == pin_regs(s, q, j) by {
        lemma_fields_after_op(s, ops[0], port, i, q, j);
        if ops.len() >= 2 {
            lemma_fields_after_op(s1, ops[1], port, i, q, j);
        }
        if ops.len() >= 3 {
            lemma_fields_after_op(apply(s1, ops[1]), ops[2], port, i, q, j);
        }
    }
    let v = |r: GpioReg| s(port, r);
    match t {
        Transition::FloatingInput | Transition::PullDownInput | Transition::PullUpInput => {
            lemma_two_bit_field(v(GpioReg::Moder), 0, i, i);
            lemma_two_bit_field(v(GpioReg::Pupdr), 0, i, i);
            lemma_two_bit_field(v(GpioReg::Pupdr), 1, i, i);
            lemma_two_bit_field(v(GpioReg::Pupdr), 2, i, i);
        },
        Transition::OpenDrainOutput => {
            lemma_two_bit_field(v(GpioReg::Moder), 1, i, i);
            lemma_one_bit_field(v(GpioReg::Otyper), 1, i, i);
        },
        Transition::PushPullOutput(st) => {
            lemma_bsrr(v(GpioReg::Odr), st == State::High, i, i);
            lemma_two_bit_field(v(GpioReg::Moder), 1, i, i);
            lemma_one_bit_field(v(GpioReg::Otyper), 0, i, i);
        },
        Transition::Analog => {
            lemma_two_bit_field(v(GpioReg::Moder), 3, i, i);
            lemma_two_bit_field(v(GpioReg::Pupdr), 0, i, i);
        },
        Transition::Alternate(n) => {
            lemma_two_bit_field(v(GpioReg::Moder), 2, i, i);
            if i < 8 {
                lemma_nibble_field(v(GpioReg::Afrl), n as u32, i, i);
            } else {
                lemma_nibble_field(v(GpioReg::Afrh), n as u32, (i - 8) as u32, (i - 8) as u32);
            }
        },
        Transition::Speed(sp) => {
            lemma_two_bit_field(v(GpioReg::Ospeedr), speed_code(sp), i, i);
        },
        Transition::PullUp(on) => {
            lemma_two_bit_field(v(GpioReg::Pupdr), 0, i, i);
            lemma_two_bit_field(v(GpioReg::Pupdr), 1, i, i);
        },
        Transition::AlternateOpenDrain => {
            lemma_one_bit_field(v(GpioReg::Otyper), 1, i, i);
        },
    }
}

/// Whatever accesses came before, a transition leaves the pin in its target
/// configuration and every other pin as the earlier accesses left it: for any
/// sequence of transitions, each pin's fields reflect the last transition
/// made on that pin.
pub proof fn lemma_transition_after(s: GpioState, history: Seq<Op>, port: Port, i: u32, t: Transition)
    requires
        i < 16,
        transition_valid(t),
    ensures
        realizes(pin_regs(apply_all(s, history + transition_ops(port, i, t)), port, i), t),
        keeps_others(
            pin_regs(apply_all(s, history), port, i),
            pin_regs(apply_all(s, history + transition_ops(port, i, t)), port, i),
            t,
        ),
        forall|q: Port, j: u32|
            j < 16 && (q != port || j != i) ==> #[trigger] pin_regs(
                apply_all(s, history + transition_ops(port, i, t)),
                q,
                j,
            ) == pin_regs(apply_all(s, history), q, j),
{
    lemma_apply_all_append(s, history, transition_ops(port, i, t));
    lemma_transition_exact(apply_all(s, history), port, i, t);
}

/// Switching a pin to a push-pull output that starts high never lets it drive
/// low: the set/reset write that drives it high comes first, before the mode
/// write that makes it an output, and from that first write on, every
/// intermediate register state has the pin's output bit set.
pub proof fn lemma_no_transient_low(s: GpioState, port: Port, i: u32)
    requires
        i < 16,
    ensures
        transition_ops(port, i, Transition::PushPullOutput(State::High))[0] == level_op(
            port,
            i,
            true,
        ),
        transition_ops(port, i, Transition::PushPullOutput(State::High))[1] == mode_op(port, i, 1),
        forall|k: int|
            1 <= k <= 3 ==> (#[trigger] pin_regs(
                apply_all(
                    s,
                    transition_ops(port, i, Transition::PushPullOutput(State::High)).take(k),
                ),
                port,
                i,
            )).level == 1,
{
    reveal_with_fuel(apply_all, 4);
    let ops = transition_ops(port, i, Transition::PushPullOutput(State::High));
    let s1 = apply(s, ops[0]);
    let s2 = apply(s1, ops[1]);
    let s3 = apply(s2, ops[2]);
    lemma_bsrr(s(port, GpioReg::Odr), true, i, i);
    assert(ops.take(1).drop_first() =~= Seq::<Op>::empty());
    assert(apply_all(s, ops.take(1)) == s1);
    assert(ops.take(2).drop_first() =~= seq![ops[1]]);
    assert(seq![ops[1]].drop_first() =~= Seq::<Op>::empty());
    assert(apply_all(s, ops.take(2)) == s2);
    assert(ops.take(3).drop_first() =~= seq![ops[1], ops[2]]);
    assert(seq![ops[1], ops[2]].drop_first() =~= seq![ops[2]]);
    assert(seq![ops[2]].drop_first() =~= Seq::<Op>::empty());
    assert(apply_all(s, ops.take(3)) == s3);
}

/// `op` is one of the accesses a transition of pin `i` may issue.
spec fn op_local(op: Op, port: Port, i: u32) -> bool {
    op == mode_op(port, i, 0) || op == mode_op(port, i, 1) || op == mode_op(port, i, 2) || op
        == mode_op(port, i, 3) || op == pull_op(port, i, 0) || op == pull_op(port, i, 1) || op
        == pull_op(port, i, 2) || (exists|m: u32| m < 4 && op == speed_op(port, i, m)) || op
        == otype_op(port, i, 0) || op == otype_op(port, i, 1) || (exists|n: u32|
        n < 16 && op == af_op(port, i, n)) || op == level_op(port, i, true) || op == level_op(
        port,
        i,
        false,
    )
}

/// A pin's port and number.
#[derive(Clone, Copy, Debug, PartialEq, Eq, Structural)]
pub struct PinId {
    pub port: Port,
    pub index: u8,
}

/// The register that holds the alternate function selector of `p`.
pub open spec fn afr_of(p: PinId) -> AfrId {
    AfrId { port: p.port, high: p.index >= 8 }
}

/// Identifies one of the two alternate function registers of a port.
#[derive(Clone, Copy, Debug, PartialEq, Eq, Structural)]
pub struct AfrId {
    pub port: Port,
    /// AFRH, for pins 8 to 15; otherwise AFRL, for pins 0 to 7.
    pub high: bool,
}

/// A GPIO port as a type, so that the pins and register tokens of different
/// ports have different types.
pub trait PortTag {
    /// The port.
    spec fn port() -> Port;

    /// The port, at run time.
    fn port_value() -> (r: Port)
        ensures
            r == Self::port(),
    ;
}

/// Port A (type state).
pub struct PortA;

/// Port B (type state).
pub struct PortB;

impl PortTag for PortA {
    open spec fn port() -> Port {
        Port::A
    }

    fn port_value() -> (r: Port) {
        Port::A
    }
}

impl PortTag for PortB {
    open spec fn port() -> Port {
        Port::B
    }

    fn port_value() -> (r: Port) {
        Port::B
    }
}

/// Exclusive right to the mode register of port `P`.
pub struct MODER<P> {
    _port: PhantomData<P>,
}

impl<P: PortTag> View for MODER<P> {
    type V = Port;

    closed spec fn view(&self) -> Port {
        P::port()
    }
}

impl<P: PortTag> MODER<P> {
    pub(crate) fn new() -> (r: MODER<P>)
        ensures
            r@ == P::port(),
    {
        MODER { _port: PhantomData }
    }

    /// The port this register belongs to.
    pub fn port(&self) -> (r: Port)
        ensures
            r == self@,
    {
        P::port_value()
    }
}

/// Exclusive right to the output type register of port `P`.
pub struct OTYPER<P> {
    _port: PhantomData<P>,
}

impl<P: PortTag> View for OTYPER<P> {
    type V = Port;

    closed spec fn view(&self) -> Port {
        P::port()
    }
}

impl<P: PortTag> OTYPER<P> {
    pub(crate) fn new() -> (r: OTYPER<P>)
        ensures
            r@ == P::port(),
    {
        OTYPER { _port: PhantomData }
    }

    /// The port this register belongs to.
    pub fn port(&self) -> (r: Port)
        ensures
            r == self@,
    {
        P::port_value()
    }
}

/// Exclusive right to the output speed register of port `P`.
pub struct OSPEEDR<P> {
    _port: PhantomData<P>,
}

impl<P: PortTag> View for OSPEEDR<P> {
    type V = Port;

    closed spec fn view(&self) -> Port {
        P::port()
    }
}

impl<P: PortTag> OSPEEDR<P> {
    pub(crate) fn new() -> (r: OSPEEDR<P>)
        ensures
            r@ == P::port(),
    {
        OSPEEDR { _port: PhantomData }
    }

    /// The port this register belongs to.
    pub fn port(&self) -> (r: Port)
        ensures
            r == self@,
    {
        P::port_value()
    }
}

/// Exclusive right to the pull-up / pull-down register of port `P`.
pub struct PUPDR<P> {
    _port: PhantomData<P>,
}

impl<P: PortTag> View for PUPDR<P> {
    type V = Port;

    closed spec fn view(&self) -> Port {
        P::port()
    }
}

impl<P: PortTag> PUPDR<P> {
    pub(crate) fn new() -> (r: PUPDR<P>)
        ensures
            r@ == P::port(),
    {
        PUPDR { _port: PhantomData }
    }

    /// The port this register belongs to.
    pub fn port(&self) -> (r: Port)
        ensures
            r == self@,
    {
        P::port_value()
    }
}

/// Exclusive right to one alternate function register (AFRL or AFRH) of port `P`.
pub struct AFR<P> {
    high: bool,
    _port: PhantomData<P>,
}

impl<P: PortTag> View for AFR<P> {
    type V = AfrId;

    closed spec fn view(&self) -> AfrId {
        AfrId { port: P::port(), high: self.high }
    }
}

impl<P: PortTag> AFR<P> {
    pub(crate) fn new(high: bool) -> (r: AFR<P>)
        ensures
            r@ == (AfrId { port: P::port(), high }),
    {
        AFR { high, _port: PhantomData }
    }

    /// The port and half this register belongs to.
    pub fn id(&self) -> (r: AfrId)
        ensures
            r == self@,
    {
        AfrId { port: P::port_value(), high: self.high }
    }
}

fn mode_write(port: Port, i: u32, m: u32) -> (r: Op)
    requires
        i < 16,
        m < 4,
    ensures
        r == mode_op(port, i, m),
{
    Op::Modify { port, reg: GpioReg::Moder, mask: 3u32 << (2 * i), bits: m << (2 * i) }
}

fn pull_write(port: Port, i: u32, m: u32) -> (r: Op)
    requires
        i < 16,
        m < 4,
    ensures
        r == pull_op(port, i, m),
{
    Op::Modify { port, reg: GpioReg::Pupdr, mask: 3u32 << (2 * i), bits: m << (2 * i) }
}

fn speed_write(port: Port, i: u32, m: u32) -> (r: Op)
    requires
        i < 16,
        m < 4,
    ensures
        r == speed_op(port, i, m),
{
    Op::Modify { port, reg: GpioReg::Ospeedr, mask: 3u32 << (2 * i), bits: m << (2 * i) }
}

fn otype_write(port: Port, i: u32, m: u32) -> (r: Op)
    requires
        i < 16,
        m < 2,
    ensures
        r == otype_op(port, i, m),
{
    Op::Modify { port, reg: GpioReg::Otyper, mask: 1u32 << i, bits: m << i }
}

fn af_write(port: Port, i: u32, n: u32) -> (r: Op)
    requires
        i < 16,
        n < 16,
    ensures
        r == af_op(port, i, n),
{
    if i < 8 {
        Op::Modify { port, reg: GpioReg::Afrl, mask: 15u32 << (4 * i), bits: n << (4 * i) }
    } else {
        Op::Modify {
            port,
            reg: GpioReg::Afrh,
            mask: 15u32 << (4 * (i - 8)),
            bits: n << (4 * (i - 8)),
        }
    }
}

fn level_write(port: Port, i: u32, high: bool) -> (r: Op)
    requires
        i < 16,
    ensures
        r == level_op(port, i, high),
{
    let bits = if high {
        1u32 << i
    } else {
        1u32 << (16 + i)
    };
    Op::Modify { port, reg: GpioReg::Bsrr, mask: 0xffff_ffffu32, bits }
}

fn push_two(trace: &mut Trace, a: Op, b: Op)
    ensures
        final(trace)@ == old(trace)@ + seq![a, b],
{
    trace.push(a);
    trace.push(b);
    assert(final(trace)@ =~= old(trace)@ + seq![a, b]);
}

/// Records the register accesses of transition `t` on pin `i` of `port`.
fn issue(port: Port, i: u8, t: Transition, trace: &mut Trace)
    requires
        i < 16,
        transition_valid(t),
    ensures
        final(trace)@ == old(trace)@ + transition_ops(port, i as u32, t),
{
    let k = i as u32;
    match t {
        Transition::FloatingInput => push_two(trace, mode_write(port, k, 0), pull_write(port, k, 0)),
        Transition::PullDownInput => push_two(trace, mode_write(port, k, 0), pull_write(port, k, 2)),
        Transition::PullUpInput => push_two(trace, mode_write(port, k, 0), pull_write(port, k, 1)),
        Transition::OpenDrainOutput => push_two(
            trace,
            mode_write(port, k, 1),
            otype_write(port, k, 1),
        ),
        Transition::PushPullOutput(st) => {
            let high = match st {
                State::High => true,
                State::Low => false,
            };
            trace.push(level_write(port, k, high));
            push_two(trace, mode_write(port, k, 1), otype_write(port, k, 0));
            assert(final(trace)@ =~= old(trace)@ + transition_ops(port, k, t));
        },
        Transition::Analog => push_two(trace, mode_write(port, k, 3), pull_write(port, k, 0)),
        Transition::Alternate(n) => push_two(
            trace,
            mode_write(port, k, 2),
            af_write(port, k, n as u32),
        ),
        Transition::Speed(sp) => {
            trace.push(speed_write(port, k, sp.code()));
            assert(final(trace)@ =~= old(trace)@ + transition_ops(port, k, t));
        },
        Transition::PullUp(on) => {
            let m: u32 = if on {
                1
            } else {
                0
            };
            trace.push(pull_write(port, k, m));
            assert(final(trace)@ =~= old(trace)@ + transition_ops(port, k, t));
        },
        Transition::AlternateOpenDrain => {
            trace.push(otype_write(port, k, 1));
            assert(final(trace)@ =~= old(trace)@ + transition_ops(port, k, t));
        },
    }
}

/// A GPIO pin of port `P` in mode `MODE`.
pub struct Pin<P, MODE> {
    i: u8,
    _port: PhantomData<P>,
    _mode: PhantomData<MODE>,
}

impl<P: PortTag, MODE> View for Pin<P, MODE> {
    type V = PinId;

    closed spec fn view(&self) -> PinId {
        PinId { port: P::port(), index: self.i }
    }
}

impl<P, MODE> Pin<P, MODE> {
    #[verifier::type_invariant]
    spec fn inv(self) -> bool {
        self.i < 16
    }
}

impl<P: PortTag, MODE> Pin<P, MODE> {
    pub(crate) fn new(i: u8) -> (r: Pin<P, MODE>)
        requires
            i < 16,
        ensures
            r@ == (PinId { port: P::port(), index: i }),
    {
        Pin { i, _port: PhantomData, _mode: PhantomData }
    }

    fn retype<NEW>(self) -> (r: Pin<P, NEW>)
        ensures
            r@ == self@,
    {
        proof {
            use_type_invariant(&self);
        }
        Pin { i: self.i, _port: PhantomData, _mode: PhantomData }
    }

    /// The port and number of this pin.
    pub fn id(&self) -> (r: PinId)
        ensures
            r == self@,
            r.index < 16,
    {
        proof {
            use_type_invariant(self);
        }
        PinId { port: P::port_value(), index: self.i }
    }

    /// Configures the pin as a floating input.
    pub fn into_floating_input(self, moder: &mut MODER<P>, pupdr: &mut PUPDR<P>, trace: &mut Trace) -> (r: Pin<P, Input<Floating>>)
        ensures
            r@ == self@,
            *final(moder) == *old(moder),
            *final(pupdr) == *old(pupdr),
            final(trace)@ == old(trace)@ + transition_ops(self@.port, self@.index as u32, Transition::FloatingInput),
    {
        proof {
            use_type_invariant(&self);
        }
        issue(P::port_value(), self.i, Transition::FloatingInput, trace);
        self.retype()
    }

    /// Configures the pin as a pulled down input.
    pub fn into_pull_down_input(self, moder: &mut MODER<P>, pupdr: &mut PUPDR<P>, trace: &mut Trace) -> (r: Pin<P, Input<PullDown>>)
        ensures
            r@ == self@,
            *final(moder) == *old(moder),
            *final(pupdr) == *old(pupdr),
            final(trace)@ == old(trace)@ + transition_ops(self@.port, self@.index as u32, Transition::PullDownInput),
    {
        proof {
            use_type_invariant(&self);
        }
        issue(P::port_value(), self.i, Transition::PullDownInput, trace);
        self.retype()
    }

    /// Configures the pin as a pulled up input.
    pub fn into_pull_up_input(self, moder: &mut MODER<P>, pupdr: &mut PUPDR<P>, trace: &mut Trace) -> (r: Pin<P, Input<PullUp>>)
        ensures
            r@ == self@,
            *final(moder) == *old(moder),
            *final(pupdr) == *old(pupdr),
            final(trace)@ == old(trace)@ + transition_ops(self@.port, self@.index as u32, Transition::PullUpInput),
    {
        proof {
            use_type_invariant(&self);
        }
        issue(P::port_value(), self.i, Transition::PullUpInput, trace);
        self.retype()
    }

    /// Configures the pin as an open drain output.
    pub fn into_open_drain_output(self, moder: &mut MODER<P>, otyper: &mut OTYPER<P>, trace: &mut Trace) -> (r: Pin<P, Output<OpenDrain>>)
        ensures
            r@ == self@,
            *final(moder) == *old(moder),
            *final(otyper) == *old(otyper),
            final(trace)@ == old(trace)@ + transition_ops(self@.port, self@.index as u32, Transition::OpenDrainOutput),
    {
        proof {
            use_type_invariant(&self);
        }
        issue(P::port_value(), self.i, Transition::OpenDrainOutput, trace);
        self.retype()
    }

    /// Configures the pin as analog, for the DAC, ADC, comparators and op-amps.
    pub fn into_analog(self, moder: &mut MODER<P>, pupdr: &mut PUPDR<P>, trace: &mut Trace) -> (r: Pin<P, Analog>)
        ensures
            r@ == self@,
            *final(moder) == *old(moder),
            *final(pupdr) == *old(pupdr),
            final(trace)@ == old(trace)@ + transition_ops(self@.port, self@.index as u32, Transition::Analog),
    {
        proof {
            use_type_invariant(&self);
        }
        issue(P::port_value(), self.i, Transition::Analog, trace);
        self.retype()
    }

    /// Configures the pin as a push-pull output that starts low.
    pub fn into_push_pull_output(self, moder: &mut MODER<P>, otyper: &mut OTYPER<P>, trace: &mut Trace) -> (r: Pin<P, Output<PushPull>>)
        ensures
            r@ == self@,
            *final(moder) == *old(moder),
            *final(otyper) == *old(otyper),
            final(trace)@ == old(trace)@ + transition_ops(
                self@.port,
                self@.index as u32,
                Transition::PushPullOutput(State::Low),
            ),
    {
        self.into_push_pull_output_with_state(moder, otyper, State::Low, trace)
    }

    /// Configures the pin as a push-pull output that starts at `initial_state`.
    /// The level is driven through the set/reset register before the mode
    /// register makes the pin an output, so the pin never shows the other level.
    pub fn into_push_pull_output_with_state(
        self,
        moder: &mut MODER<P>,
        otyper: &mut OTYPER<P>,
        initial_state: State,
        trace: &mut Trace,
    ) -> (r: Pin<P, Output<PushPull>>)
        ensures
            r@ == self@,
            *final(moder) == *old(moder),
            *final(otyper) == *old(otyper),
            final(trace)@ == old(trace)@ + transition_ops(
                self@.port,
                self@.index as u32,
                Transition::PushPullOutput(initial_state),
            ),
    {
        proof {
            use_type_invariant(&self);
        }
        issue(P::port_value(), self.i, Transition::PushPullOutput(initial_state), trace);
        self.retype()
    }

    fn into_alternate<AF>(self, n: u8, moder: &mut MODER<P>, afr: &mut AFR<P>, trace: &mut Trace) -> (r:
        Pin<P, Alternate<AF, MODE>>)
        requires
            n < 16,
            old(afr)@ == afr_of(self@),
        ensures
            r@ == self@,
            *final(moder) == *old(moder),
            *final(afr) == *old(afr),
            final(trace)@ == old(trace)@ + transition_ops(
                self@.port,
                self@.index as u32,
                Transition::Alternate(n),
            ),
    {
        proof {
            use_type_invariant(&self);
        }
        issue(P::port_value(), self.i, Transition::Alternate(n), trace);
        self.retype()
    }

    /// Configures the pin to serve as alternate function 0 (AF0).
    pub fn into_af0(self, moder: &mut MODER<P>, afr: &mut AFR<P>, trace: &mut Trace) -> (r: Pin<P, 
        Alternate<AF0, MODE>,
    >)
        requires
            old(afr)@ == afr_of(self@),
        ensures
            r@ == self@,
            *final(moder) == *old(moder),
            *final(afr) == *old(afr),
            final(trace)@ == old(trace)@ + transition_ops(
                self@.port,
                self@.index as u32,
                Transition::Alternate(0),
            ),
    {
        self.into_alternate(0, moder, afr, trace)
    }

    /// Configures the pin to serve as alternate function 1 (AF1).
    pub fn into_af1(self, moder: &mut MODER<P>, afr: &mut AFR<P>, trace: &mut Trace) -> (r: Pin<P, 
        Alternate<AF1, MODE>,
    >)
        requires
            old(afr)@ == afr_of(self@),
        ensures
            r@ == self@,
            *final(moder) == *old(moder),
            *final(afr) == *old(afr),
            final(trace)@ == old(trace)@ + transition_ops(
                self@.port,
                self@.index as u32,
                Transition::Alternate(1),
            ),
    {
        self.into_alternate(1, moder, afr, trace)
    }

    /// Configures the pin to serve as alternate function 2 (AF2).
    pub fn into_af2(self, moder: &mut MODER<P>, afr: &mut AFR<P>, trace: &mut Trace) -> (r: Pin<P, 
        Alternate<AF2, MODE>,
    >)
        requires
            old(afr)@ == afr_of(self@),
        ensures
            r@ == self@,
            *final(moder) == *old(moder),
            *final(afr) == *old(afr),
            final(trace)@ == old(trace)@ + transition_ops(
                self@.port,
                self@.index as u32,
                Transition::Alternate(2),
            ),
    {
        self.into_alternate(2, moder, afr, trace)
    }

    /// Configures the pin to serve as alternate function 3 (AF3).
    pub fn into_af3(self, moder: &mut MODER<P>, afr: &mut AFR<P>, trace: &mut Trace) -> (r: Pin<P, 
        Alternate<AF3, MODE>,
    >)
        requires
            old(afr)@ == afr_of(self@),
        ensures
            r@ == self@,
            *final(moder) == *old(moder),
            *final(afr) == *old(afr),
            final(trace)@ == old(trace)@ + transition_ops(
                self@.port,
                self@.index as u32,
                Transition::Alternate(3),
            ),
    {
        self.into_alternate(3, moder, afr, trace)
    }

    /// Configures the pin to serve as alternate function 4 (AF4).
    pub fn into_af4(self, moder: &mut MODER<P>, afr: &mut AFR<P>, trace: &mut Trace) -> (r: Pin<P, 
        Alternate<AF4, MODE>,
    >)
        requires
            old(afr)@ == afr_of(self@),
        ensures
            r@ == self@,
            *final(moder) == *old(moder),
            *final(afr) == *old(afr),
            final(trace)@ == old(trace)@ + transition_ops(
                self@.port,
                self@.index as u32,
                Transition::Alternate(4),
            ),
    {
        self.into_alternate(4, moder, afr, trace)
    }

    /// Configures the pin to serve as alternate function 5 (AF5).
    pub fn into_af5(self, moder: &mut MODER<P>, afr: &mut AFR<P>, trace: &mut Trace) -> (r: Pin<P, 
        Alternate<AF5, MODE>,
    >)
        requires
            old(afr)@ == afr_of(self@),
        ensures
            r@ == self@,
            *final(moder) == *old(moder),
            *final(afr) == *old(afr),
            final(trace)@ == old(trace)@ + transition_ops(
                self@.port,
                self@.index as u32,
                Transition::Alternate(5),
            ),
    {
        self.into_alternate(5, moder, afr, trace)
    }

    /// Configures the pin to serve as alternate function 6 (AF6).
    pub fn into_af6(self, moder: &mut MODER<P>, afr: &mut AFR<P>, trace: &mut Trace) -> (r: Pin<P, 
        Alternate<AF6, MODE>,
    >)
        requires
            old(afr)@ == afr_of(self@),
        ensures
            r@ == self@,
            *final(moder) == *old(moder),
            *final(afr) == *old(afr),
            final(trace)@ == old(trace)@ + transition_ops(
                self@.port,
                self@.index as u32,
                Transition::Alternate(6),
            ),
    {
        self.into_alternate(6, moder, afr, trace)
    }

    /// Configures the pin to serve as alternate function 7 (AF7).
    pub fn into_af7(self, moder: &mut MODER<P>, afr: &mut AFR<P>, trace: &mut Trace) -> (r: Pin<P, 
        Alternate<AF7, MODE>,
    >)
        requires
            old(afr)@ == afr_of(self@),
        ensures
            r@ == self@,
            *final(moder) == *old(moder),
            *final(afr) == *old(afr),
            final(trace)@ == old(trace)@ + transition_ops(
                self@.port,
                self@.index as u32,
                Transition::Alternate(7),
            ),
    {
        self.into_alternate(7, moder, afr, trace)
    }

    /// Configures the pin to serve as alternate function 8 (AF8).
    pub fn into_af8(self, moder: &mut MODER<P>, afr: &mut AFR<P>, trace: &mut Trace) -> (r: Pin<P, 
        Alternate<AF8, MODE>,
    >)
        requires
            old(afr)@ == afr_of(self@),
        ensures
            r@ == self@,
            *final(moder) == *old(moder),
            *final(afr) == *old(afr),
            final(trace)@ == old(trace)@ + transition_ops(
                self@.port,
                self@.index as u32,
                Transition::Alternate(8),
            ),
    {
        self.into_alternate(8, moder, afr, trace)
    }

    /// Configures the pin to serve as alternate function 12 (AF12).
    pub fn into_af12(self, moder: &mut MODER<P>, afr: &mut AFR<P>, trace: &mut Trace) -> (r: Pin<P, 
        Alternate<AF12, MODE>,
    >)
        requires
            old(afr)@ == afr_of(self@),
        ensures
            r@ == self@,
            *final(moder) == *old(moder),
            *final(afr) == *old(afr),
            final(trace)@ == old(trace)@ + transition_ops(
                self@.port,
                self@.index as u32,
                Transition::Alternate(12),
            ),
    {
        self.into_alternate(12, moder, afr, trace)
    }

    /// Configures the pin to serve as alternate function 13 (AF13).
    pub fn into_af13(self, moder: &mut MODER<P>, afr: &mut AFR<P>, trace: &mut Trace) -> (r: Pin<P, 
        Alternate<AF13, MODE>,
    >)
        requires
            old(afr)@ == afr_of(self@),
        ensures
            r@ == self@,
            *final(moder) == *old(moder),
            *final(afr) == *old(afr),
            final(trace)@ == old(trace)@ + transition_ops(
                self@.port,
                self@.index as u32,
                Transition::Alternate(13),
            ),
    {
        self.into_alternate(13, moder, afr, trace)
    }

    /// Configures the pin to serve as alternate function 14 (AF14).
    pub fn into_af14(self, moder: &mut MODER<P>, afr: &mut AFR<P>, trace: &mut Trace) -> (r: Pin<P, 
        Alternate<AF14, MODE>,
    >)
        requires
            old(afr)@ == afr_of(self@),
        ensures
            r@ == self@,
            *final(moder) == *old(moder),
            *final(afr) == *old(afr),
            final(trace)@ == old(trace)@ + transition_ops(
                self@.port,
                self@.index as u32,
                Transition::Alternate(14),
            ),
    {
        self.into_alternate(14, moder, afr, trace)
    }

    /// Configures the pin to serve as alternate function 15 (AF15).
    pub fn into_af15(self, moder: &mut MODER<P>, afr: &mut AFR<P>, trace: &mut Trace) -> (r: Pin<P, 
        Alternate<AF15, MODE>,
    >)
        requires
            old(afr)@ == afr_of(self@),
        ensures
            r@ == self@,
            *final(moder) == *old(moder),
            *final(afr) == *old(afr),
            final(trace)@ == old(trace)@ + transition_ops(
                self@.port,
                self@.index as u32,
                Transition::Alternate(15),
            ),
    {
        self.into_alternate(15, moder, afr, trace)
    }

}

impl<P: PortTag> Pin<P, Output<OpenDrain>> {
    /// Enables or disables the internal pull-up.
    pub fn internal_pull_up(&mut self, pupdr: &mut PUPDR<P>, on: bool, trace: &mut Trace)
        ensures
            final(self)@ == old(self)@,
            *final(pupdr) == *old(pupdr),
            final(trace)@ == old(trace)@ + transition_ops(
                old(self)@.port,
                old(self)@.index as u32,
                Transition::PullUp(on),
            ),
    {
        proof {
            use_type_invariant(&*self);
        }
        issue(P::port_value(), self.i, Transition::PullUp(on), trace);
    }
}

impl<P: PortTag, MODE> Pin<P, Output<MODE>> {
    /// Forgets the pin number in the type, keeping it as a value, so that pins
    /// of one mode can be kept together.
    pub fn downgrade(self) -> (r: ErasedPin<Output<MODE>>)
        ensures
            r@ == self@,
    {
        proof {
            use_type_invariant(&self);
        }
        ErasedPin { port: P::port_value(), i: self.i, _mode: PhantomData }
    }

    /// Sets the output speed.
    pub fn set_speed(self, ospeedr: &mut OSPEEDR<P>, speed: Speed, trace: &mut Trace) -> (r: Self)
        ensures
            r@ == self@,
            *final(ospeedr) == *old(ospeedr),
            final(trace)@ == old(trace)@ + transition_ops(
                self@.port,
                self@.index as u32,
                Transition::Speed(speed),
            ),
    {
        proof {
            use_type_invariant(&self);
        }
        issue(P::port_value(), self.i, Transition::Speed(speed), trace);
        self
    }

    /// Drives the pin high with one write of the set/reset register.
    pub fn set_high(&mut self, trace: &mut Trace)
        ensures
            final(self)@ == old(self)@,
            final(trace)@ == old(trace)@.push(
                level_op(old(self)@.port, old(self)@.index as u32, true),
            ),
    {
        proof {
            use_type_invariant(&*self);
        }
        trace.push(level_write(P::port_value(), self.i as u32, true));
    }

    /// Drives the pin low with one write of the set/reset register.
    pub fn set_low(&mut self, trace: &mut Trace)
        ensures
            final(self)@ == old(self)@,
            final(trace)@ == old(trace)@.push(
                level_op(old(self)@.port, old(self)@.index as u32, false),
            ),
    {
        proof {
            use_type_invariant(&*self);
        }
        trace.push(level_write(P::port_value(), self.i as u32, false));
    }
}

impl<P: PortTag, AF, MODE> Pin<P, Alternate<AF, MODE>> {
    /// Sets the output speed.
    pub fn set_speed(self, ospeedr: &mut OSPEEDR<P>, speed: Speed, trace: &mut Trace) -> (r: Self)
        ensures
            r@ == self@,
            *final(ospeedr) == *old(ospeedr),
            final(trace)@ == old(trace)@ + transition_ops(
                self@.port,
                self@.index as u32,
                Transition::Speed(speed),
            ),
    {
        proof {
            use_type_invariant(&self);
        }
        issue(P::port_value(), self.i, Transition::Speed(speed), trace);
        self
    }

    /// Enables or disables the internal pull-up.
    pub fn internal_pull_up(self, pupdr: &mut PUPDR<P>, on: bool, trace: &mut Trace) -> (r: Self)
        ensures
            r@ == self@,
            *final(pupdr) == *old(pupdr),
            final(trace)@ == old(trace)@ + transition_ops(
                self@.port,
                self@.index as u32,
                Transition::PullUp(on),
            ),
    {
        proof {
            use_type_invariant(&self);
        }
        issue(P::port_value(), self.i, Transition::PullUp(on), trace);
        self
    }

    /// Switches the pin's output stage to open drain.
    pub fn set_open_drain(self, otyper: &mut OTYPER<P>, trace: &mut Trace) -> (r: Pin<P, AlternateOD<AF, MODE>>)
        ensures
            r@ == self@,
            *final(otyper) == *old(otyper),
            final(trace)@ == old(trace)@ + transition_ops(
                self@.port,
                self@.index as u32,
                Transition::AlternateOpenDrain,
            ),
    {
        proof {
            use_type_invariant(&self);
        }
        issue(P::port_value(), self.i, Transition::AlternateOpenDrain, trace);
        self.retype()
    }
}

/// Whether pin `index` reads low in a snapshot `idr` of the input data register.
pub open spec fn reads_low(idr: u32, index: u8) -> bool {
    idr & (1u32 << (index as u32)) == 0
}

impl<P: PortTag, MODE> Pin<P, Input<MODE>> {
    /// Whether the pin reads low, given a snapshot of its port's input data register.
    pub fn is_low(&self, idr: u32) -> (r: bool)
        ensures
            r == reads_low(idr, self@.index),
    {
        proof {
            use_type_invariant(self);
        }
        idr & (1u32 << (self.i as u32)) == 0
    }

    /// Whether the pin reads high, given a snapshot of its port's input data register.
    pub fn is_high(&self, idr: u32) -> (r: bool)
        ensures
            r == !reads_low(idr, self@.index),
    {
        !self.is_low(idr)
    }
}

/// An output pin whose number is kept as a value rather than in its type.
pub struct ErasedPin<MODE> {
    port: Port,
    i: u8,
    _mode: PhantomData<MODE>,
}

impl<MODE> View for ErasedPin<MODE> {
    type V = PinId;

    closed spec fn view(&self) -> PinId {
        PinId { port: self.port, index: self.i }
    }
}

impl<MODE> ErasedPin<MODE> {
    #[verifier::type_invariant]
    spec fn inv(self) -> bool {
        self.i < 16
    }

    /// The port and number of this pin.
    pub fn id(&self) -> (r: PinId)
        ensures
            r == self@,
            r.index < 16,
    {
        proof {
            use_type_invariant(self);
        }
        PinId { port: self.port, index: self.i }
    }
}

impl<MODE> ErasedPin<Output<MODE>> {
    /// Drives the pin high with one write of the set/reset register.
    pub fn set_high(&mut self, trace: &mut Trace)
        ensures
            final(self)@ == old(self)@,
            final(trace)@ == old(trace)@.push(
                level_op(old(self)@.port, old(self)@.index as u32, true),
            ),
    {
        proof {
            use_type_invariant(&*self);
        }
        trace.push(level_write(self.port, self.i as u32, true));
    }

    /// Drives the pin low with one write of the set/reset register.
    pub fn set_low(&mut self, trace: &mut Trace)
        ensures
            final(self)@ == old(self)@,
            final(trace)@ == old(trace)@.push(
                level_op(old(self)@.port, old(self)@.index as u32, false),
            ),
    {
        proof {
            use_type_invariant(&*self);
        }
        trace.push(level_write(self.port, self.i as u32, false));
    }
}

/// Splits a GPIO port into its register tokens and pins.
pub trait GpioExt {
    /// The register tokens and pins of the port.
    type Parts;

    /// Enables the port's bus clock, pulses its reset, and hands out its
    /// register tokens and pins in their reset modes.
    fn split(self, ahb: &mut AHB2, trace: &mut Trace) -> Self::Parts;
}

} // verus!
