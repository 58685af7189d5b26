//! Hardware timers: the count-down period computations

use vstd::prelude::*;

use crate::conv::{checked_u16, widen_u16};
use crate::rcc::{Clocks, Rcc};
use crate::time::Hertz;

verus! {

/// Hardware timers
pub struct Timer<TIM> {
    pub clocks: Clocks,
    pub tim: TIM,
}

/// Interrupt events
#[derive(Clone, Copy, Debug, PartialEq, Eq, Structural)]
pub enum Event {
    /// Timer timed out / count down ended
    TimeOut,
}

/// The frequency that clocks a timer: the APB clock, doubled when the APB is
/// prescaled from the AHB.
pub open spec fn timer_clock_spec(clocks: Clocks) -> int {
    if clocks.hclk().0 == clocks.pclk().0 {
        clocks.pclk().0 as int
    } else {
        2 * clocks.pclk().0
    }
}

/// The frequency that clocks a timer.
pub fn timer_clock(clocks: &Clocks) -> (r: u32)
    requires
        timer_clock_spec(*clocks) <= u32::MAX,
    ensures
        r == timer_clock_spec(*clocks),
{
    if clocks.hclk().0 == clocks.pclk().0 {
        clocks.pclk().0
    } else {
        clocks.pclk().0 * 2
    }
}

/// The PSC and ARR values of a timer period of `ticks` timer clock cycles:
/// the prescaler is the smallest that lets the reload value fit in 16 bits.
pub open spec fn prescaler_spec(ticks: int) -> int {
    (ticks - 1) / 65536
}

pub open spec fn reload_spec(ticks: int) -> int {
    ticks / (prescaler_spec(ticks) + 1)
}

/// The periods that a 16-bit prescaler and 16-bit reload value can express
/// by the computation of `prescaler_and_reload`: at least one tick, not a
/// multiple of 2^16 ticks (whose reload value would be 2^16), and a prescaler
/// below 0xffff (so that the prescaler plus one fits in 16 bits).
pub open spec fn period_ok(ticks: int) -> bool {
    &&& ticks >= 1
    &&& ticks % 65536 != 0
    &&& ticks <= 65535 * 65536
}

/// Whether a timer clocked at `tclk` can count down at `frequency`.
pub open spec fn timeout_ok(tclk: u32, frequency: u32) -> bool {
    frequency > 0 && period_ok(tclk as int / frequency as int)
}

/// Checks the condition under which `prescaler_and_reload` computes.
pub fn timeout_is_valid(tclk: u32, frequency: u32) -> (r: bool)
    ensures
        r == timeout_ok(tclk, frequency),
{
    if frequency == 0 {
        return false;
    }
    let ticks = tclk / frequency;
    ticks >= 1 && ticks % 65536 != 0 && ticks <= 65535 * 65536
}

/// Splits a count-down period of `tclk / frequency` timer clock cycles into a
/// prescaler (PSC) and a reload value (ARR).
pub fn prescaler_and_reload(tclk: u32, frequency: u32) -> (r: (u16, u16))
    requires
        timeout_ok(tclk, frequency),
    ensures
        r.0 == prescaler_spec(tclk as int / frequency as int),
        r.1 == reload_spec(tclk as int / frequency as int),
{
    let ticks = tclk / frequency;
    proof {
        lemma_reload_fits(ticks as int);
        assert(1u32 << 16u32 == 65536) by (bit_vector);
    }
    let psc = checked_u16((ticks - 1) / (1u32 << 16)).unwrap();
    let arr = checked_u16(ticks / widen_u16(psc + 1)).unwrap();
    (psc, arr)
}

/// For the periods that `period_ok` admits, the prescaler is below 0xffff
/// and the reload value fits in 16 bits.
pub proof fn lemma_reload_fits(ticks: int)
    requires
        period_ok(ticks),
    ensures
        0 <= prescaler_spec(ticks) < 0xffff,
        1 <= reload_spec(ticks) <= 0xffff,
{
    let p = prescaler_spec(ticks);
    let t1 = ticks - 1;
    vstd::arithmetic::div_mod::lemma_fundamental_div_mod(t1, 65536);
    vstd::arithmetic::div_mod::lemma_mod_bound(t1, 65536);
    vstd::arithmetic::div_mod::lemma_div_pos_is_pos(t1, 65536);
    let rem = t1 % 65536;
    assert(t1 == 65536 * p + rem);
    assert(p < 0xffff) by {
        vstd::arithmetic::div_mod::lemma_div_is_ordered(t1, 65535 * 65536 - 1, 65536);
    }
    // ticks == 65536 * p + rem + 1 <= 65536 * (p + 1), with equality only for
    // a multiple of 65536
    assert(rem != 65535) by {
        if rem == 65535 {
            assert(ticks == 65536 * (p + 1));
            vstd::arithmetic::div_mod::lemma_mod_multiples_basic(p + 1, 65536);
        }
    }
    assert(ticks < 65536 * (p + 1));
    assert(ticks / (p + 1) < 65536) by {
        vstd::arithmetic::div_mod::lemma_div_by_multiple_is_strongly_ordered(
            ticks, 65536 * (p + 1), 65536, p + 1);
        vstd::arithmetic::div_mod::lemma_div_by_multiple(65536, p + 1);
    }
    assert(ticks >= p + 1) by (nonlinear_arith)
        requires ticks == 65536 * p + rem + 1, p >= 0, rem >= 0;
    assert(ticks / (p + 1) >= 1) by {
        vstd::arithmetic::div_mod::lemma_div_is_ordered(p + 1, ticks, p + 1);
        vstd::arithmetic::div_mod::lemma_div_by_multiple(1, p + 1);
    }
}

/// The count-down period that PSC and ARR program: the reload value is the
/// largest number of prescaled periods that fits in the requested period, so
/// the programmed period is at most the requested one and less than one
/// prescaled period short of it.
pub proof fn lemma_period_rounds_down(ticks: int)
    requires
        period_ok(ticks),
    ensures
        reload_spec(ticks) * (prescaler_spec(ticks) + 1) <= ticks,
        ticks < (reload_spec(ticks) + 1) * (prescaler_spec(ticks) + 1),
{
    lemma_reload_fits(ticks);
    let d = prescaler_spec(ticks) + 1;
    vstd::arithmetic::div_mod::lemma_fundamental_div_mod(ticks, d);
    vstd::arithmetic::div_mod::lemma_mod_bound(ticks, d);
    let q = ticks / d;
    assert(q * d == d * q) by (nonlinear_arith);
    assert((q + 1) * d == d * q + d) by (nonlinear_arith);
}

/// The timers run at the APB clock when the APB is not prescaled from the
/// AHB, and at twice the APB clock when it is.
pub proof fn lemma_timer_clock(clocks: Clocks)
    ensures
        clocks.hclk().0 == clocks.pclk().0 ==> timer_clock_spec(clocks) == clocks.pclk().0,
        clocks.hclk().0 != clocks.pclk().0 ==> timer_clock_spec(clocks) == 2 * clocks.pclk().0,
{
}

/// The prescaler is the smallest one with which the reload value fits in 16
/// bits: the period fits in 2^16 prescaled cycles, and would not with a
/// prescaler one smaller.
pub proof fn lemma_prescaler_smallest(ticks: int)
    requires
        period_ok(ticks),
    ensures
        ticks <= 65536 * (prescaler_spec(ticks) + 1),
        prescaler_spec(ticks) == 0 || ticks > 65536 * prescaler_spec(ticks),
{
    lemma_reload_fits(ticks);
    vstd::arithmetic::div_mod::lemma_fundamental_div_mod(ticks - 1, 65536);
    vstd::arithmetic::div_mod::lemma_mod_bound(ticks - 1, 65536);
}

/// The count-down period that a timer programs for a frequency `f`, in
/// cycles of its clock (the APB clock, doubled when the APB is prescaled from
/// the AHB): `arr * (psc + 1)` cycles last at most `1 / f`, and one more
/// reload step would last longer.
pub proof fn lemma_timer_period(clocks: Clocks, f: u32)
    requires
        f > 0,
        period_ok(timer_clock_spec(clocks) / f as int),
    ensures
        ({
            let tclk: int = if clocks.hclk().0 == clocks.pclk().0 {
                clocks.pclk().0 as int
            } else {
                2 * clocks.pclk().0
            };
            let ticks = timer_clock_spec(clocks) / f as int;
            let psc = prescaler_spec(ticks);
            let arr = reload_spec(ticks);
            &&& arr * (psc + 1) * f <= tclk
            &&& tclk < (arr + 1) * (psc + 1) * f
        }),
{
    let tclk = timer_clock_spec(clocks);
    let ticks = tclk / f as int;
    lemma_period_rounds_down(ticks);
    lemma_reload_fits(ticks);
    let psc = prescaler_spec(ticks);
    let arr = reload_spec(ticks);
    vstd::arithmetic::div_mod::lemma_fundamental_div_mod(tclk, f as int);
    vstd::arithmetic::div_mod::lemma_mod_bound(tclk, f as int);
    let rem = tclk % f as int;
    assert(arr * (psc + 1) * f <= tclk) by (nonlinear_arith)
        requires
            arr * (psc + 1) <= ticks,
            tclk == f * ticks + rem,
            rem >= 0,
            f > 0;
    assert(tclk < (arr + 1) * (psc + 1) * f) by (nonlinear_arith)
        requires
            ticks + 1 <= (arr + 1) * (psc + 1),
            tclk == f * ticks + rem,
            rem < f,
            f > 0;
}

impl<TIM> Timer<TIM> {
    /// Wraps a timer peripheral that counts with the given clocks.
    pub fn new(tim: TIM, clocks: Clocks) -> (r: Self)
        ensures
            r.tim == tim,
            r.clocks == clocks,
    {
        Timer { clocks, tim }
    }

    /// Configures the system timer `tim` as a periodic count down timer at
    /// `timeout`: the timer, and the reload value for the caller to program
    /// before it clears the current value and enables the counter.
    pub fn syst(tim: TIM, timeout: Hertz, rcc: &Rcc) -> (r: (Self, u32))
        requires
            timeout.0 > 0,
            rcc.clocks.sysclk().0 >= timeout.0,
            syst_reload_spec(rcc.clocks.sysclk().0, timeout.0) < 0x100_0000,
        ensures
            r.0.tim == tim,
            r.0.clocks == rcc.clocks,
            r.1 == syst_reload_spec(rcc.clocks.sysclk().0, timeout.0),
    {
        let timer = Timer { clocks: rcc.clocks, tim };
        let rvr = syst_reload(&timer.clocks, timeout);
        (timer, rvr)
    }

    /// The PSC and ARR values that make the timer count down at `timeout`.
    pub fn start(&self, timeout: Hertz) -> (r: (u16, u16))
        requires
            timer_clock_spec(self.clocks) <= u32::MAX,
            timeout_ok(timer_clock_spec(self.clocks) as u32, timeout.0),
        ensures
            r.0 == prescaler_spec(timer_clock_spec(self.clocks) / timeout.0 as int),
            r.1 == reload_spec(timer_clock_spec(self.clocks) / timeout.0 as int),
    {
        let tclk = timer_clock(&self.clocks);
        prescaler_and_reload(tclk, timeout.0)
    }

    /// Releases the timer peripheral
    pub fn release(self) -> (r: TIM)
        ensures
            r == self.tim,
    {
        self.tim
    }
}

/// The SysTick reload value for a count down at `timeout`: one less than the
/// number of system clock cycles per period.
pub open spec fn syst_reload_spec(sysclk: u32, timeout: u32) -> int {
    sysclk as int / timeout as int - 1
}

/// Computes the SysTick reload value for a count down at `timeout`; the
/// SysTick reload register holds 24 bits.
pub fn syst_reload(clocks: &Clocks, timeout: Hertz) -> (r: u32)
    requires
        timeout.0 > 0,
        clocks.sysclk().0 >= timeout.0,
        syst_reload_spec(clocks.sysclk().0, timeout.0) < 0x100_0000,
    ensures
        r == syst_reload_spec(clocks.sysclk().0, timeout.0),
{
    proof {
        vstd::arithmetic::div_mod::lemma_div_is_ordered(timeout.0 as int, clocks.sysclk().0 as int, timeout.0 as int);
        vstd::arithmetic::div_mod::lemma_div_by_multiple(1, timeout.0 as int);
    }
    clocks.sysclk().0 / timeout.0 - 1
}

/// A SysTick count down at `timeout` with the reload value of
/// `syst_reload` lasts `reload + 1` system clock cycles: at most one period
/// of `timeout`, and one cycle more per period would exceed it.
pub proof fn lemma_syst_period(sysclk: u32, timeout: u32)
    requires
        timeout > 0,
    ensures
        (syst_reload_spec(sysclk, timeout) + 1) * timeout <= sysclk,
        sysclk < (syst_reload_spec(sysclk, timeout) + 2) * timeout,
{
    vstd::arithmetic::div_mod::lemma_fundamental_div_mod(sysclk as int, timeout as int);
    vstd::arithmetic::div_mod::lemma_mod_bound(sysclk as int, timeout as int);
    let q = sysclk as int / timeout as int;
    assert(q * timeout == timeout * q) by (nonlinear_arith);
    assert((q + 1) * timeout == timeout * q + timeout) by (nonlinear_arith);
}

/// Output channel marker traits
pub trait PinC1<TIM> {}

pub trait PinC1N<TIM> {}

pub trait PinC2<TIM> {}

pub trait PinC2N<TIM> {}

pub trait PinC3<TIM> {}

pub trait PinC3N<TIM> {}

pub trait PinC4<TIM> {}

} // verus!
