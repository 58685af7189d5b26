//! Independent watchdog: timeout prescaler and reload computation
//!
//! The IWDG runs on a separate 40kHz low-accuracy clock (30kHz-60kHz).

use vstd::prelude::*;

use crate::time::Hertz;

verus! {

/// Watchdog instance
pub struct Watchdog<IWDG> {
    pub iwdg: IWDG,
}

impl<IWDG> Watchdog<IWDG> {
    pub fn new(iwdg: IWDG) -> (r: Self)
        ensures
            r.iwdg == iwdg,
    {
        Self { iwdg }
    }
}

/// IWDG_KR value that reloads the counter (feeds the watchdog)
pub const KEY_RESET: u16 = 0xAAAA;

/// IWDG_KR value that starts the watchdog
pub const KEY_START: u16 = 0xCCCC;

/// IWDG_KR value that unlocks IWDG_PR and IWDG_RLR for writing
pub const KEY_ENABLE: u16 = 0x5555;

/// Timeout configuration for the IWDG
#[derive(PartialEq, Eq, Structural, Clone, Copy, Debug)]
pub struct IwdgTimeout {
    psc: u8,
    reload: u16,
}

/// The number of ticks of the 40 kHz clock divided by four that make up one
/// period of `hz`.
pub open spec fn timeout_ticks(hz: u32) -> int {
    10_000int / hz as int
}

/// The smallest prescaler exponent that brings the ticks below 0x1000.
pub open spec fn timeout_psc(hz: u32) -> int {
    let t = timeout_ticks(hz);
    if t < 0x1000 {
        0
    } else if t / 2 < 0x1000 {
        1
    } else {
        2
    }
}

/// Two to the power `k`, for the prescaler exponents.
pub open spec fn pow2(k: int) -> int
    decreases k,
{
    if k <= 0 {
        1
    } else {
        2 * pow2(k - 1)
    }
}

impl IwdgTimeout {
    /// The PR register value: the clock of the counter is the 40 kHz clock
    /// divided by 4 * 2^psc.
    pub closed spec fn psc_spec(&self) -> u8 {
        self.psc
    }

    /// The RLR register value: the counter reload value.
    pub closed spec fn reload_spec(&self) -> u16 {
        self.reload
    }

    /// Converts a frequency into a timeout configuration. Due to conversion
    /// losses, the specified frequency is a minimum: the timeout is at most
    /// one period of `hz`.
    ///
    /// It can also only represent values < 10000 Hertz
    pub fn from_hertz(hz: Hertz) -> (r: IwdgTimeout)
        requires
            hz.0 > 0,
        ensures
            r.psc_spec() == timeout_psc(hz.0),
            r.reload_spec() == timeout_ticks(hz.0) / pow2(timeout_psc(hz.0)),
    {
        let mut time: u32 = 40_000 / 4 / hz.0;
        let mut psc: u8 = 0;
        let mut reload: u32 = 0;
        let ghost t = time as int;
        assert(t == timeout_ticks(hz.0));
        assert(t <= 10_000) by {
            vstd::arithmetic::div_mod::lemma_div_is_ordered_by_denominator(10_000, 1, hz.0 as int);
        }
        while psc < 7
            invariant_except_break
                psc <= 2,
                time == t / pow2(psc as int),
                t <= 10_000,
                t == timeout_ticks(hz.0),
                psc >= 1 ==> t >= 0x1000,
                psc >= 2 ==> t / 2 >= 0x1000,
            ensures
                psc == timeout_psc(hz.0),
                reload == t / pow2(psc as int),
                reload < 0x1000,
            decreases 7 - psc,
        {
            proof {
                reveal_with_fuel(pow2, 3);
                assert(t / 1 == t);
                if psc == 1 {
                    assert(time == t / 2);
                } else if psc == 2 {
                    assert(time == t / 4);
                    vstd::arithmetic::div_mod::lemma_div_denominator(t, 2, 2);
                }
            }
            reload = time;
            if reload < 0x1000 {
                break;
            }
            psc += 1;
            time /= 2;
            proof {
                reveal_with_fuel(pow2, 3);
                vstd::arithmetic::div_mod::lemma_div_denominator(t, pow2((psc - 1) as int), 2);
                assert(pow2(psc as int) == pow2((psc - 1) as int) * 2);
                if psc == 3 {
                    assert(t / 4 <= 2500) by {
                        vstd::arithmetic::div_mod::lemma_div_is_ordered(t, 10_000, 4);
                    }
                    assert(false);
                }
            }
        }
        // As we get an integer value, reload is always below 0xFFF
        IwdgTimeout { psc, reload: reload as u16 }
    }

    /// The PR register value.
    pub fn psc(&self) -> (r: u8)
        ensures
            r == self.psc_spec(),
    {
        self.psc
    }

    /// The RLR register value.
    pub fn reload(&self) -> (r: u16)
        ensures
            r == self.reload_spec(),
    {
        self.reload
    }
}

/// The timeout that `from_hertz` computes fits the registers and never lasts
/// longer than the requested period: the reload value is below 0x1000, the
/// prescaler exponent at most two, and reload * 2^psc ticks (of the 40 kHz
/// clock divided by four) are at most the ticks of one period of `hz`.
pub proof fn lemma_timeout_within_period(hz: u32)
    requires
        hz > 0,
    ensures
        0 <= timeout_psc(hz) <= 2,
        timeout_ticks(hz) / pow2(timeout_psc(hz)) < 0x1000,
        (timeout_ticks(hz) / pow2(timeout_psc(hz))) * pow2(timeout_psc(hz)) <= timeout_ticks(hz),
{
    let t = timeout_ticks(hz);
    reveal_with_fuel(pow2, 3);
    vstd::arithmetic::div_mod::lemma_div_pos_is_pos(10_000, hz as int);
    vstd::arithmetic::div_mod::lemma_div_is_ordered_by_denominator(10_000, 1, hz as int);
    let p = pow2(timeout_psc(hz));
    vstd::arithmetic::div_mod::lemma_fundamental_div_mod(t, p);
    vstd::arithmetic::div_mod::lemma_mod_bound(t, p);
    assert((t / p) * p == p * (t / p)) by (nonlinear_arith);
    if timeout_psc(hz) == 2 {
        vstd::arithmetic::div_mod::lemma_div_is_ordered(t, 10_000, 4);
    }
}

} // verus!
