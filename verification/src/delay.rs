//! Delays with the systick timer: tick counts and their split into reloads
//!
//! Please be aware of potential overflows.
//! For example, the maximum delay with 48MHz is around 89 seconds

use vstd::prelude::*;

use crate::conv::{widen_u8, widen_u16, widen_u8_u16};
use crate::rcc::Clocks;

verus! {

/// How many SysTick ticks make one microsecond
#[derive(Clone, Copy, Debug, PartialEq, Eq, Structural)]
pub enum Scale {
    /// This many ticks per microsecond
    Mult(u32),
    /// One tick per this many microseconds
    Div(u32),
}

/// System timer (SysTick) as a delay provider
#[derive(Clone, Copy, Debug, PartialEq, Eq, Structural)]
pub struct Delay {
    pub scale: Scale,
}

/// The SysTick counter range: 24 bits
pub const SYSTICK_RANGE: u32 = 0x0100_0000;

/// The largest number of ticks waited for in one go, below the counter range
/// to leave some play for long running interrupts
pub const MAX_RVR: u32 = 0x007F_FFFF;

/// The largest number of milliseconds handed to one microsecond delay
pub const MAX_MS: u32 = 0x0000_FFFF;

/// The number of SysTick ticks of a delay of `us` microseconds.
pub open spec fn ticks_for(scale: Scale, us: u32) -> int {
    match scale {
        Scale::Div(x) => us as int / x as int,
        Scale::Mult(x) => us as int * x as int,
    }
}

/// The sum of a sequence of counts.
pub open spec fn sum(s: Seq<u32>) -> int
    decreases s.len(),
{
    if s.len() == 0 {
        0
    } else {
        sum(s.drop_last()) + s.last()
    }
}

/// A split of `total` into consecutive chunks: all but the last of size
/// `max`, the last of at most `max` and not zero.
pub open spec fn is_split(s: Seq<u32>, total: int, max: u32) -> bool {
    &&& sum(s) == total
    &&& forall|i: int| 0 <= i < s.len() ==> 0 < #[trigger] s[i] <= max
    &&& forall|i: int| 0 <= i < s.len() - 1 ==> #[trigger] s[i] == max
}

/// Splits `total` into chunks of at most `max`.
fn split(total: u32, max: u32) -> (r: Vec<u32>)
    requires
        max > 0,
    ensures
        is_split(r@, total as int, max),
        r@.len() == (total as int + max - 1) / max as int,
{
    let mut out: Vec<u32> = Vec::new();
    let mut left = total;
    assert(out@.len() * max == 0) by (nonlinear_arith)
        requires out@.len() == 0;
    while left != 0
        invariant
            max > 0,
            sum(out@) + left == total,
            forall|i: int| 0 <= i < out@.len() ==> 0 < #[trigger] out@[i] <= max,
            forall|i: int| 0 <= i < out@.len() - 1 ==> #[trigger] out@[i] == max,
            left > 0 ==> forall|i: int| 0 <= i < out@.len() ==> #[trigger] out@[i] == max,
            left > 0 ==> out@.len() * max + left == total,
            left == 0 && out@.len() > 0 ==> total == (out@.len() - 1) * max + out@.last(),
            left == 0 ==> out@.len() > 0 || total == 0,
        decreases left,
    {
        let current = if left <= max { left } else { max };
        let ghost old_out = out@;
        let ghost old_left = left;
        out.push(current);
        left = left - current;
        proof {
            assert(out@.drop_last() =~= old_out);
            assert(old_out.len() * max + old_left == total);
            assert((old_out.len() + 1) * max == old_out.len() * max + max) by (nonlinear_arith);
            if left != 0 {
                assert(current == max);
            }
        }
    }
    proof {
        if out@.len() == 0 {
            assert(total == 0);
            vstd::arithmetic::div_mod::lemma_fundamental_div_mod_converse(max - 1, max as int, 0, max - 1);
        } else {
            lemma_chunk_count(out@.len() as int, max as int, out@.last() as int, total as int);
        }
    }
    out
}

proof fn lemma_chunk_count(n: int, max: int, last: int, total: int)
    requires
        n >= 1,
        max > 0,
        0 < last <= max,
        total == (n - 1) * max + last,
    ensures
        (total + max - 1) / max == n,
{
    assert(total + max - 1 == n * max + (last - 1)) by (nonlinear_arith)
        requires total == (n - 1) * max + last;
    vstd::arithmetic::div_mod::lemma_fundamental_div_mod_converse(total + max - 1, max, n, last - 1);
}

impl Delay {
    /// Configures the system timer (SysTick) as a delay provider: ticks per
    /// microsecond from the system clock. The caller sets the SysTick clock
    /// source to the core, its reload to `SYSTICK_RANGE - 1`, clears the
    /// current value and enables the counter.
    pub fn new(clocks: Clocks) -> (r: Delay)
        requires
            clocks.sysclk().0 > 0,
        ensures
            clocks.sysclk().0 < 1_000_000 ==> r.scale == Scale::Div((1_000_000u32 / clocks.sysclk().0) as u32),
            clocks.sysclk().0 >= 1_000_000 ==> r.scale == Scale::Mult((clocks.sysclk().0 / 1_000_000) as u32),
    {
        let scale = if clocks.sysclk().0 < 1_000_000 {
            Scale::Div(1_000_000 / clocks.sysclk().0)
        } else {
            Scale::Mult(clocks.sysclk().0 / 1_000_000)
        };
        Delay { scale }
    }

    /// Whether the scale has a nonzero divider, as every scale `new` makes.
    pub open spec fn wf(&self) -> bool {
        match self.scale {
            Scale::Div(x) => x > 0,
            Scale::Mult(_) => true,
        }
    }

    /// The reload waits that make up a delay of `us` microseconds: the
    /// ticks of the delay in chunks of at most `MAX_RVR`, waited for one
    /// after the other.
    pub fn delay_us(&mut self, us: u32) -> (r: Vec<u32>)
        requires
            old(self).wf(),
            ticks_for(old(self).scale, us) <= u32::MAX,
        ensures
            *final(self) == *old(self),
            is_split(r@, ticks_for(old(self).scale, us), MAX_RVR),
    {
        let total_rvr = match self.scale {
            Scale::Div(x) => us / x,
            Scale::Mult(x) => us * x,
        };
        split(total_rvr, MAX_RVR)
    }

    /// A delay in microseconds given as a 16-bit count.
    pub fn delay_us_u16(&mut self, us: u16) -> (r: Vec<u32>)
        requires
            old(self).wf(),
            ticks_for(old(self).scale, us as u32) <= u32::MAX,
        ensures
            *final(self) == *old(self),
            is_split(r@, ticks_for(old(self).scale, us as u32), MAX_RVR),
    {
        self.delay_us(widen_u16(us))
    }

    /// The microsecond delays that make up a delay of `ms` milliseconds: at
    /// most `MAX_MS` milliseconds each (at 48 MHz a larger count would
    /// overflow the ticks), each converted to microseconds.
    pub fn delay_ms(&mut self, ms: u32) -> (r: Vec<u32>)
        ensures
            *final(self) == *old(self),
            r@.len() == (ms as int + MAX_MS - 1) / MAX_MS as int,
            forall|i: int| 0 <= i < r@.len() ==> #[trigger] r@[i] % 1000 == 0 && r@[i] <= MAX_MS * 1000,
            sum(r@) == ms as int * 1000,
    {
        let chunks = split(ms, MAX_MS);
        let mut out: Vec<u32> = Vec::new();
        let mut i: usize = 0;
        while i < chunks.len()
            invariant
                i <= chunks@.len(),
                is_split(chunks@, ms as int, MAX_MS),
                out@.len() == i,
                forall|j: int| 0 <= j < i ==> #[trigger] out@[j] == chunks@[j] * 1000,
                sum(out@) == sum(chunks@.take(i as int)) * 1000,
            decreases chunks@.len() - i,
        {
            let current_ms = chunks[i];
            let ghost old_out = out@;
            out.push(current_ms * 1000);
            i = i + 1;
            proof {
                assert(out@.drop_last() =~= old_out);
                assert(chunks@.take(i as int).drop_last() =~= chunks@.take((i - 1) as int));
            }
        }
        proof {
            assert(chunks@.take(i as int) =~= chunks@);
        }
        out
    }

    /// A delay in microseconds given as an 8-bit count.
    pub fn delay_us_u8(&mut self, us: u8) -> (r: Vec<u32>)
        requires
            old(self).wf(),
            ticks_for(old(self).scale, us as u32) <= u32::MAX,
        ensures
            *final(self) == *old(self),
            is_split(r@, ticks_for(old(self).scale, us as u32), MAX_RVR),
    {
        self.delay_us(widen_u8(us))
    }

    /// A delay in milliseconds given as a 16-bit count, as one microsecond
    /// delay.
    pub fn delay_ms_u16(&mut self, ms: u16) -> (r: u32)
        ensures
            *final(self) == *old(self),
            r == ms as int * 1000,
    {
        (ms as u32) * 1_000
    }

    /// A delay in milliseconds given as an 8-bit count.
    pub fn delay_ms_u8(&mut self, ms: u8) -> (r: u32)
        ensures
            *final(self) == *old(self),
            r == ms as int * 1000,
    {
        self.delay_ms_u16(widen_u8_u16(ms))
    }
}

} // verus!
