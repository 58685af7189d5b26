//! Time units

use vstd::prelude::*;

verus! {

/// Bits per second
#[derive(Debug, PartialEq, Eq, Structural, Clone, Copy)]
pub struct Bps(pub u32);

/// Hertz
#[derive(Debug, PartialEq, Eq, Structural, Clone, Copy)]
pub struct Hertz(pub u32);

/// Kilohertz
#[derive(Debug, PartialEq, Eq, Structural, Clone, Copy)]
pub struct KiloHertz(pub u32);

/// Megahertz
#[derive(Debug, PartialEq, Eq, Structural, Clone, Copy)]
pub struct MegaHertz(pub u32);

/// Microseconds
#[derive(Debug, PartialEq, Eq, Structural, Clone, Copy)]
pub struct MicroSecond(pub u32);

/// Milliseconds
#[derive(Debug, PartialEq, Eq, Structural, Clone, Copy)]
pub struct MilliSecond(pub u32);

/// Seconds
#[derive(Debug, PartialEq, Eq, Structural, Clone, Copy)]
pub struct Second(pub u32);

/// Extension trait that adds convenience methods to the `u32` type
pub trait U32Ext: Sized {
    /// Wrap in `Bps`
    fn bps(self) -> (r: Bps);

    /// Wrap in `Hertz`
    fn hz(self) -> (r: Hertz);

    /// Wrap in `KiloHertz`
    fn khz(self) -> (r: KiloHertz);

    /// Wrap in `MegaHertz`
    fn mhz(self) -> (r: MegaHertz);

    /// Wrap in `MicroSecond`
    fn us(self) -> (r: MicroSecond);

    /// Wrap in `MilliSecond`
    fn ms(self) -> (r: MilliSecond);

    /// Wrap in `Second`
    fn seconds(self) -> (r: Second);
}

impl U32Ext for u32 {
    fn bps(self) -> (r: Bps)
        ensures
            r.0 == self,
    {
        Bps(self)
    }

    fn hz(self) -> (r: Hertz)
        ensures
            r.0 == self,
    {
        Hertz(self)
    }

    fn khz(self) -> (r: KiloHertz)
        ensures
            r.0 == self,
    {
        KiloHertz(self)
    }

    fn mhz(self) -> (r: MegaHertz)
        ensures
            r.0 == self,
    {
        MegaHertz(self)
    }

    fn us(self) -> (r: MicroSecond)
        ensures
            r.0 == self,
    {
        MicroSecond(self)
    }

    fn ms(self) -> (r: MilliSecond)
        ensures
            r.0 == self,
    {
        MilliSecond(self)
    }

    fn seconds(self) -> (r: Second)
        ensures
            r.0 == self,
    {
        Second(self)
    }
}

/// The value `x * k` reduced modulo 2^32, the result of a 32-bit multiplication
/// that wraps around.
pub open spec fn wrap_mul_u32(x: u32, k: u32) -> u32 {
    ((x as nat * k as nat) % 0x1_0000_0000nat) as u32
}

impl From<KiloHertz> for Hertz {
    /// Scales by 1000; a value beyond the `u32` range wraps around.
    fn from(khz: KiloHertz) -> (r: Hertz) {
        Hertz(khz.0.wrapping_mul(1_000))
    }
}

impl vstd::std_specs::convert::FromSpecImpl<KiloHertz> for Hertz {
    open spec fn obeys_from_spec() -> bool {
        true
    }

    open spec fn from_spec(khz: KiloHertz) -> Hertz {
        Hertz(wrap_mul_u32(khz.0, 1_000))
    }
}

impl From<MegaHertz> for Hertz {
    /// Scales by 1_000_000; a value beyond the `u32` range wraps around.
    fn from(mhz: MegaHertz) -> (r: Hertz) {
        Hertz(mhz.0.wrapping_mul(1_000_000))
    }
}

impl vstd::std_specs::convert::FromSpecImpl<MegaHertz> for Hertz {
    open spec fn obeys_from_spec() -> bool {
        true
    }

    open spec fn from_spec(mhz: MegaHertz) -> Hertz {
        Hertz(wrap_mul_u32(mhz.0, 1_000_000))
    }
}

impl From<MegaHertz> for KiloHertz {
    /// Scales by 1000; a value beyond the `u32` range wraps around.
    fn from(mhz: MegaHertz) -> (r: KiloHertz) {
        KiloHertz(mhz.0.wrapping_mul(1_000))
    }
}

impl vstd::std_specs::convert::FromSpecImpl<MegaHertz> for KiloHertz {
    open spec fn obeys_from_spec() -> bool {
        true
    }

    open spec fn from_spec(mhz: MegaHertz) -> KiloHertz {
        KiloHertz(wrap_mul_u32(mhz.0, 1_000))
    }
}

impl From<Second> for MicroSecond {
    /// Scales by 1_000_000; a value beyond the `u32` range wraps around.
    fn from(period: Second) -> (r: MicroSecond) {
        MicroSecond(period.0.wrapping_mul(1_000_000))
    }
}

impl vstd::std_specs::convert::FromSpecImpl<Second> for MicroSecond {
    open spec fn obeys_from_spec() -> bool {
        true
    }

    open spec fn from_spec(period: Second) -> MicroSecond {
        MicroSecond(wrap_mul_u32(period.0, 1_000_000))
    }
}

impl From<Second> for MilliSecond {
    /// Scales by 1000; a value beyond the `u32` range wraps around.
    fn from(period: Second) -> (r: MilliSecond) {
        MilliSecond(period.0.wrapping_mul(1_000))
    }
}

impl vstd::std_specs::convert::FromSpecImpl<Second> for MilliSecond {
    open spec fn obeys_from_spec() -> bool {
        true
    }

    open spec fn from_spec(period: Second) -> MilliSecond {
        MilliSecond(wrap_mul_u32(period.0, 1_000))
    }
}

impl From<MicroSecond> for MilliSecond {
    /// Multiplies the count by 1000 (the unit is not divided down); a value
    /// beyond the `u32` range wraps around.
    fn from(period: MicroSecond) -> (r: MilliSecond) {
        MilliSecond(period.0.wrapping_mul(1_000))
    }
}

impl vstd::std_specs::convert::FromSpecImpl<MicroSecond> for MilliSecond {
    open spec fn obeys_from_spec() -> bool {
        true
    }

    open spec fn from_spec(period: MicroSecond) -> MilliSecond {
        MilliSecond(wrap_mul_u32(period.0, 1_000))
    }
}

/// The number of whole microseconds that `cycles` cycles of a clock of
/// frequency `clk` last, kept to its low 32 bits.
pub open spec fn duration_us(clk: u32, cycles: u32) -> u32 {
    ((cycles as int * 1_000_000) / clk as int) as u32
}

/// The number of whole cycles of a clock of frequency `clk` in `us`
/// microseconds, kept to its low 32 bits.
pub open spec fn cycles_in(clk: u32, us: u32) -> u32 {
    ((clk as int * us as int) / 1_000_000) as u32
}

impl Hertz {
    /// The time taken by `cycles` cycles of this clock.
    pub fn duration(self, cycles: u32) -> (r: MicroSecond)
        requires
            self.0 > 0,
        ensures
            r.0 == duration_us(self.0, cycles),
    {
        let cycles = cycles as u64;
        let clk = self.0 as u64;
        // cycles * 10^6 < 2^52, so the product never saturates
        assert(cycles * 1_000_000 <= 0xffff_ffffu64 * 1_000_000) by (nonlinear_arith)
            requires cycles <= 0xffff_ffffu64;
        let us = (cycles * 1_000_000_u64) / clk;
        MicroSecond(#[verifier::truncate] (us as u32))
    }
}

impl MicroSecond {
    /// The number of cycles of the clock `clk` in this period.
    pub fn cycles(self, clk: Hertz) -> (r: u32)
        requires
            self.0 > 0,
        ensures
            r == cycles_in(clk.0, self.0),
    {
        let clk = clk.0 as u64;
        let period = self.0 as u64;
        // clk * period < 2^64, so the product never saturates
        assert(clk * period <= 0xffff_ffffu64 * 0xffff_ffffu64) by (nonlinear_arith)
            requires clk <= 0xffff_ffffu64, period <= 0xffff_ffffu64;
        let cycles = (clk * period) / 1_000_000_u64;
        #[verifier::truncate] (cycles as u32)
    }

    /// The period of the frequency `freq`, as the conversion from `Hertz`.
    pub fn from_hertz(freq: Hertz) -> (r: MicroSecond)
        requires
            0 < freq.0 <= 1_000_000,
        ensures
            r.0 == 1_000_000int / (freq.0 as int),
    {
        MicroSecond(1_000_000 / freq.0)
    }
}

} // verus!
