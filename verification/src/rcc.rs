//! Reset and clock control: the clock tree and the peripheral enable registers

use vstd::prelude::*;

use crate::conv::widen_u8;
use crate::time::Hertz;

verus! {

/// Frequency of the internal 8 MHz oscillator
pub const HSI: u32 = 8_000_000;

/// Frequency of the internal 48 MHz oscillator
pub const HSI48: u32 = 48_000_000;

/// The oscillator that drives the system clock, directly or through the PLL
#[derive(Clone, Copy, Debug, PartialEq, Eq, Structural)]
pub enum SysClkSource {
    /// Internal 8 MHz oscillator
    HSI,
    /// External oscillator of the given frequency in Hertz
    HSE(u32),
    /// Internal 48 MHz oscillator
    HSI48,
}

/// The frequency in Hertz of a clock source.
pub open spec fn source_freq(src: SysClkSource) -> u32 {
    match src {
        SysClkSource::HSE(f) => f,
        SysClkSource::HSI48 => HSI48,
        SysClkSource::HSI => HSI,
    }
}

/// The frequency that a clock source feeds into the PLL: the HSI is halved,
/// the other sources pass through the PREDIV divider, which stays at one.
pub open spec fn pll_input_freq(src: SysClkSource) -> u32 {
    match src {
        SysClkSource::HSI => HSI / 2,
        SysClkSource::HSE(f) => f,
        SysClkSource::HSI48 => HSI48,
    }
}

/// Frequency of a clock source.
pub fn get_freq(c_src: &SysClkSource) -> (r: u32)
    ensures
        r == source_freq(*c_src),
{
    match c_src {
        SysClkSource::HSE(freq) => *freq,
        SysClkSource::HSI48 => HSI48,
        _ => HSI,
    }
}

/// The value of the PLLSRC field of RCC_CFGR that selects a clock source:
/// HSI/2, HSE/PREDIV or HSI48/PREDIV.
pub open spec fn pllsrc_bits_spec(src: SysClkSource) -> u8 {
    match src {
        SysClkSource::HSI => 0b00,
        SysClkSource::HSI48 => 0b11,
        SysClkSource::HSE(_) => 0b10,
    }
}

/// The value of the SW field of RCC_CFGR that switches the system clock to a
/// clock source directly.
pub open spec fn sww_bits_spec(src: SysClkSource) -> u8 {
    match src {
        SysClkSource::HSI => 0b00,
        SysClkSource::HSE(_) => 0b01,
        SysClkSource::HSI48 => 0b11,
    }
}

/// The value of the SW field of RCC_CFGR that selects the PLL output.
pub const SW_PLL: u8 = 0b10;

/// PLLSRC bits for a clock source.
pub fn pllsrc_bits(c_src: &SysClkSource) -> (r: u8)
    ensures
        r == pllsrc_bits_spec(*c_src),
{
    match c_src {
        SysClkSource::HSI => 0b00,
        SysClkSource::HSI48 => 0b11,
        SysClkSource::HSE(_) => 0b10,
    }
}

/// SW bits that switch the system clock to a clock source.
pub fn get_sww(c_src: &SysClkSource) -> (r: u8)
    ensures
        r == sww_bits_spec(*c_src),
{
    match c_src {
        SysClkSource::HSI => 0b00,
        SysClkSource::HSI48 => 0b11,
        SysClkSource::HSE(_) => 0b01,
    }
}

/// Image of the RCC registers that only software writes: the clock enable and
/// reset registers of the buses.
#[derive(Clone, Copy, Debug, PartialEq, Eq, Structural)]
pub struct RccRegisters {
    pub ahbenr: u32,
    pub apb1enr: u32,
    pub apb2enr: u32,
    pub ahbrstr: u32,
    pub apb1rstr: u32,
    pub apb2rstr: u32,
}

/// `word` with bit `bit` set.
pub open spec fn with_bit(word: u32, bit: u32) -> u32 {
    word | (1u32 << bit)
}

/// `word` with bit `bit` cleared.
pub open spec fn without_bit(word: u32, bit: u32) -> u32 {
    word & !(1u32 << bit)
}

/// Whether bit `bit` of `word` is set.
pub open spec fn bit_is_set(word: u32, bit: u32) -> bool {
    word & (1u32 << bit) != 0
}

/// Sets one bit of a register value.
pub fn set_bit(word: u32, bit: u32) -> (r: u32)
    requires
        bit < 32,
    ensures
        r == with_bit(word, bit),
        bit_is_set(r, bit),
        forall|b: u32| b < 32 && b != bit ==> bit_is_set(r, b) == bit_is_set(word, b),
{
    proof {
        assert(bit_is_set(word | (1u32 << bit), bit)) by (bit_vector)
            requires bit < 32;
        assert forall|b: u32| b < 32 && b != bit implies
            bit_is_set(word | (1u32 << bit), b) == bit_is_set(word, b) by {
            assert(b < 32 && b != bit ==> (((word | (1u32 << bit)) & (1u32 << b) != 0)
                == (word & (1u32 << b) != 0))) by (bit_vector);
        }
    }
    word | (1u32 << bit)
}

/// Clears one bit of a register value.
pub fn clear_bit(word: u32, bit: u32) -> (r: u32)
    requires
        bit < 32,
    ensures
        r == without_bit(word, bit),
        !bit_is_set(r, bit),
        forall|b: u32| b < 32 && b != bit ==> bit_is_set(r, b) == bit_is_set(word, b),
{
    proof {
        assert(!bit_is_set(word & !(1u32 << bit), bit)) by (bit_vector)
            requires bit < 32;
        assert forall|b: u32| b < 32 && b != bit implies
            bit_is_set(word & !(1u32 << bit), b) == bit_is_set(word, b) by {
            assert(b < 32 && b != bit ==> (((word & !(1u32 << bit)) & (1u32 << b) != 0)
                == (word & (1u32 << b) != 0))) by (bit_vector);
        }
    }
    word & !(1u32 << bit)
}

/// Bit of HSEON in RCC_CR
pub const CR_HSEON_BIT: u32 = 16;
/// Bit of PLLON in RCC_CR
pub const CR_PLLON_BIT: u32 = 24;

/// The RCC_CR value that starts the PLL, given the register's present value.
/// Every other bit keeps its value, HSEON among them: an HSE that feeds the
/// PLL stays on.
pub fn pll_on(cr: u32) -> (r: u32)
    ensures
        r == with_bit(cr, CR_PLLON_BIT),
        bit_is_set(r, CR_PLLON_BIT),
        bit_is_set(r, CR_HSEON_BIT) == bit_is_set(cr, CR_HSEON_BIT),
        forall|b: u32| b < 32 && b != CR_PLLON_BIT ==> bit_is_set(r, b) == bit_is_set(cr, b),
{
    set_bit(cr, CR_PLLON_BIT)
}

/// A bus on which a peripheral's clock is gated
#[derive(Clone, Copy, Debug, PartialEq, Eq, Structural)]
pub enum Bus {
    AHB,
    APB1,
    APB2,
}

impl RccRegisters {
    /// The enable register of a bus.
    pub open spec fn enr(self, bus: Bus) -> u32 {
        match bus {
            Bus::AHB => self.ahbenr,
            Bus::APB1 => self.apb1enr,
            Bus::APB2 => self.apb2enr,
        }
    }

    /// Turns on the clock of the peripheral at bit `bit` of the enable
    /// register of `bus`; every other register and bit is unchanged.
    pub fn enable(&mut self, bus: Bus, bit: u32)
        requires
            bit < 32,
        ensures
            final(self).enr(bus) == with_bit(old(self).enr(bus), bit),
            forall|b: Bus| b != bus ==> final(self).enr(b) == old(self).enr(b),
            final(self).ahbrstr == old(self).ahbrstr,
            final(self).apb1rstr == old(self).apb1rstr,
            final(self).apb2rstr == old(self).apb2rstr,
    {
        match bus {
            Bus::AHB => { self.ahbenr = set_bit(self.ahbenr, bit); },
            Bus::APB1 => { self.apb1enr = set_bit(self.apb1enr, bit); },
            Bus::APB2 => { self.apb2enr = set_bit(self.apb2enr, bit); },
        }
    }

    /// Turns off the clock of the peripheral at bit `bit` of the enable
    /// register of `bus`; every other register and bit is unchanged.
    pub fn disable(&mut self, bus: Bus, bit: u32)
        requires
            bit < 32,
        ensures
            final(self).enr(bus) == without_bit(old(self).enr(bus), bit),
            forall|b: Bus| b != bus ==> final(self).enr(b) == old(self).enr(b),
            final(self).ahbrstr == old(self).ahbrstr,
            final(self).apb1rstr == old(self).apb1rstr,
            final(self).apb2rstr == old(self).apb2rstr,
    {
        match bus {
            Bus::AHB => { self.ahbenr = clear_bit(self.ahbenr, bit); },
            Bus::APB1 => { self.apb1enr = clear_bit(self.apb1enr, bit); },
            Bus::APB2 => { self.apb2enr = clear_bit(self.apb2enr, bit); },
        }
    }
}

/// Extension trait that sets up the `RCC` peripheral
pub trait RccExt: Sized {
    /// Configure the clocks of the RCC peripheral
    fn configure(self) -> (r: CFGR);
}

impl RccExt for RccRegisters {
    /// Starts a clock configuration with nothing requested: the HSI as source
    /// and no constraint on the system, AHB and APB clocks.
    fn configure(self) -> (r: CFGR)
        ensures
            r.hclk is None,
            r.pclk is None,
            r.sysclk is None,
            r.clock_src == SysClkSource::HSI,
            !r.crs,
            r.rcc == self,
    {
        CFGR { hclk: None, pclk: None, sysclk: None, clock_src: SysClkSource::HSI, crs: false, rcc: self }
    }
}

/// Constrained RCC peripheral
pub struct Rcc {
    pub clocks: Clocks,
    pub regs: RccRegisters,
}

/// A requested clock configuration
pub struct CFGR {
    pub hclk: Option<u32>,
    pub pclk: Option<u32>,
    pub sysclk: Option<u32>,
    pub clock_src: SysClkSource,
    /// Whether the clock recovery system is to trim the HSI48
    pub crs: bool,
    pub rcc: RccRegisters,
}

/// The PLL settings of a clock setup
#[derive(Clone, Copy, Debug, PartialEq, Eq, Structural)]
pub struct PllSetup {
    /// PLLSRC field of RCC_CFGR
    pub pllsrc: u8,
    /// PLLMUL field of RCC_CFGR: the multiplier minus two
    pub pllmul: u8,
}

/// What `CFGR::freeze` decided, for the caller to program into RCC and FLASH
/// in this order: flash wait states, enable the source oscillator, then either
/// start the PLL and switch to it, or (after enabling the CRS when asked)
/// switch to the source directly.
#[derive(Clone, Copy, Debug, PartialEq, Eq, Structural)]
pub struct ClockSetup {
    /// LATENCY field of FLASH_ACR
    pub latency: u8,
    /// Oscillator to enable
    pub source: SysClkSource,
    /// PLL settings, when the PLL is used
    pub pll: Option<PllSetup>,
    /// HPRE field of RCC_CFGR
    pub hpre: u8,
    /// PPRE field of RCC_CFGR
    pub ppre: u8,
    /// SW field of RCC_CFGR
    pub sw: u8,
    /// Whether to enable the clock recovery system with automatic trimming
    pub enable_crs: bool,
}

/// The HPRE divider setting for a ratio of system clock to requested AHB clock.
pub open spec fn hpre_bits_for(ratio: u32) -> u8 {
    if ratio <= 1 {
        0b0111
    } else if ratio == 2 {
        0b1000
    } else if ratio <= 5 {
        0b1001
    } else if ratio <= 11 {
        0b1010
    } else if ratio <= 39 {
        0b1011
    } else if ratio <= 95 {
        0b1100
    } else if ratio <= 191 {
        0b1101
    } else if ratio <= 383 {
        0b1110
    } else {
        0b1111
    }
}

/// The PPRE divider setting for a ratio of AHB clock to requested APB clock.
pub open spec fn ppre_bits_for(ratio: u32) -> u8 {
    if ratio <= 1 {
        0b011
    } else if ratio == 2 {
        0b100
    } else if ratio <= 5 {
        0b101
    } else if ratio <= 11 {
        0b110
    } else {
        0b111
    }
}

/// Two to the power `k`, for small `k`.
pub open spec fn pow2(k: nat) -> nat
    decreases k,
{
    if k == 0 {
        1
    } else {
        2 * pow2((k - 1) as nat)
    }
}

impl CFGR {
    /// The requested system clock, the HSI frequency when none was requested.
    pub open spec fn sysclk_spec(self) -> u32 {
        match self.sysclk {
            Some(f) => f,
            None => HSI,
        }
    }

    /// Whether the PLL is bypassed: the requested system clock is the source
    /// frequency itself.
    pub open spec fn bypass_spec(self) -> bool {
        self.sysclk_spec() == source_freq(self.clock_src)
    }

    /// The PLL multiplier: the ratio of the requested system clock (the PLL
    /// input when none was requested) to the PLL input, rounded to the
    /// nearest integer (halves up) and kept within 1..=16.
    pub open spec fn pllmul_spec(self) -> int {
        let pin = pll_input_freq(self.clock_src) as int;
        let req = match self.sysclk {
            Some(f) => f as int,
            None => pin,
        };
        let m = ((2 * req + pin) / pin) / 2;
        if m < 1 {
            1
        } else if m > 16 {
            16
        } else {
            m
        }
    }

    /// Whether the PLL drives the system clock: it is not bypassed and its
    /// multiplier is above one.
    pub open spec fn uses_pll(self) -> bool {
        !self.bypass_spec() && self.pllmul_spec() != 1
    }

    /// The frequency that the system clock will actually run at: the PLL
    /// output when the PLL drives it, the source oscillator otherwise.
    pub open spec fn real_sysclk_spec(self) -> int {
        if !self.uses_pll() {
            source_freq(self.clock_src) as int
        } else {
            self.pllmul_spec() * pll_input_freq(self.clock_src)
        }
    }

    pub open spec fn hpre_spec(self) -> u8 {
        match self.hclk {
            Some(h) => hpre_bits_for((self.real_sysclk_spec() / h as int) as u32),
            None => 0b0111,
        }
    }

    /// The AHB clock: the system clock divided by the AHB prescaler.
    pub open spec fn hclk_spec(self) -> int {
        self.real_sysclk_spec() / hpre_divisor_spec(self.hpre_spec()) as int
    }

    pub open spec fn ppre_spec(self) -> u8 {
        match self.pclk {
            Some(p) => ppre_bits_for((self.hclk_spec() / p as int) as u32),
            None => 0b011,
        }
    }

    /// The APB clock: the AHB clock divided by two to the power `PPRE - 3`.
    pub open spec fn pclk_spec(self) -> int {
        self.hclk_spec() / pow2((self.ppre_spec() - 3) as nat) as int
    }

    /// The flash wait states for the frequency that the system clock actually
    /// runs at, which the flash sees: none up to 24 MHz, one up to 48 MHz
    /// (RM0091, FLASH_ACR LATENCY). When the PLL cannot reach the requested
    /// frequency exactly, these follow its output, not the request: a request
    /// of 49 MHz runs the PLL at 48 MHz with one wait state.
    pub open spec fn latency_spec(self) -> u8 {
        if self.real_sysclk_spec() <= 24_000_000 {
            0
        } else if self.real_sysclk_spec() <= 48_000_000 {
            1
        } else {
            2
        }
    }

    /// The inputs on which `freeze` computes without a division by zero, an
    /// arithmetic overflow or an AHB/APB request above its input clock.
    pub open spec fn freeze_ok(self) -> bool {
        let pin = pll_input_freq(self.clock_src) as int;
        let req = match self.sysclk {
            Some(f) => f as int,
            None => pin,
        };
        &&& !self.bypass_spec() ==> {
            &&& pin > 0
            &&& 2 * req + pin <= u32::MAX
            &&& self.real_sysclk_spec() <= u32::MAX
        }
        &&& (self.hclk matches Some(h) ==> 0 < h && h <= self.real_sysclk_spec())
        &&& (self.pclk matches Some(p) ==> 0 < p && p <= self.hclk_spec())
    }

    /// Selects an external oscillator of the given frequency as clock source.
    pub fn hse(self, freq: Hertz) -> (r: Self)
        ensures
            r.clock_src == SysClkSource::HSE(freq.0),
            r.hclk == self.hclk && r.pclk == self.pclk && r.sysclk == self.sysclk,
            r.crs == self.crs && r.rcc == self.rcc,
    {
        CFGR { clock_src: SysClkSource::HSE(freq.0), ..self }
    }

    /// Selects the internal 48 MHz oscillator as clock source.
    pub fn hsi48(self) -> (r: Self)
        ensures
            r.clock_src == SysClkSource::HSI48,
            r.hclk == self.hclk && r.pclk == self.pclk && r.sysclk == self.sysclk,
            r.crs == self.crs && r.rcc == self.rcc,
    {
        CFGR { clock_src: SysClkSource::HSI48, ..self }
    }

    /// Requests an AHB clock frequency.
    pub fn hclk(self, freq: Hertz) -> (r: Self)
        ensures
            r.hclk == Some(freq.0),
            r.clock_src == self.clock_src && r.pclk == self.pclk && r.sysclk == self.sysclk,
            r.crs == self.crs && r.rcc == self.rcc,
    {
        CFGR { hclk: Some(freq.0), ..self }
    }

    /// Requests an APB clock frequency.
    pub fn pclk(self, freq: Hertz) -> (r: Self)
        ensures
            r.pclk == Some(freq.0),
            r.clock_src == self.clock_src && r.hclk == self.hclk && r.sysclk == self.sysclk,
            r.crs == self.crs && r.rcc == self.rcc,
    {
        CFGR { pclk: Some(freq.0), ..self }
    }

    /// Requests a system clock frequency.
    pub fn sysclk(self, freq: Hertz) -> (r: Self)
        ensures
            r.sysclk == Some(freq.0),
            r.clock_src == self.clock_src && r.hclk == self.hclk && r.pclk == self.pclk,
            r.crs == self.crs && r.rcc == self.rcc,
    {
        CFGR { sysclk: Some(freq.0), ..self }
    }

    /// Requests the clock recovery system, which trims the HSI48 when it
    /// drives the system clock directly.
    pub fn enable_crs(self) -> (r: Self)
        ensures
            r.crs,
            r.clock_src == self.clock_src && r.hclk == self.hclk && r.pclk == self.pclk,
            r.sysclk == self.sysclk && r.rcc == self.rcc,
    {
        CFGR { crs: true, ..self }
    }

    /// Whether `freeze` can compute this configuration; it cannot where the
    /// arithmetic would overflow or an AHB or APB clock is requested that is
    /// zero or above the clock that feeds it.
    pub fn can_freeze(&self) -> (r: bool)
        ensures
            r == self.freeze_ok(),
    {
        let sysclk: u64 = match self.sysclk {
            Some(f) => f as u64,
            None => HSI as u64,
        };
        let src: u64 = get_freq(&self.clock_src) as u64;
        let pin: u64 = match self.clock_src {
            SysClkSource::HSI => (HSI / 2) as u64,
            _ => src,
        };
        let req: u64 = match self.sysclk {
            Some(f) => f as u64,
            None => pin,
        };
        let actual: u64;
        if sysclk == src {
            actual = src;
        } else {
            if pin == 0 || 2 * req + pin > u32::MAX as u64 {
                return false;
            }
            let m = (2 * req + pin) / pin / 2;
            let pllmul: u64 = if m < 1 { 1 } else if m > 16 { 16 } else { m };
            assert(pllmul == self.pllmul_spec());
            assert(pllmul * pin <= 16 * 0xffff_ffff) by (nonlinear_arith)
                requires pllmul <= 16, pin <= 0xffff_ffff;
            if pllmul == 1 {
                actual = src;
            } else {
                actual = pllmul * pin;
                if actual > u32::MAX as u64 {
                    return false;
                }
            }
        }
        assert(actual == self.real_sysclk_spec());
        let hpre: u8 = match self.hclk {
            Some(h) => {
                if h == 0 || h as u64 > actual {
                    return false;
                }
                hpre_bits_from_ratio((actual / h as u64) as u32)
            },
            None => 0b0111,
        };
        assert(hpre == self.hpre_spec());
        let hclk = (actual as u32) / hpre_divisor(hpre);
        assert(hclk == self.hclk_spec());
        match self.pclk {
            Some(p) => p > 0 && p <= hclk,
            None => true,
        }
    }

    /// Computes the clock tree: the PLL multiplier, the AHB and APB
    /// prescalers, the flash wait states and the resulting frequencies.
    pub fn freeze(self) -> (r: (Rcc, ClockSetup))
        requires
            self.freeze_ok(),
        ensures
            r.0.regs == self.rcc,
            r.0.clocks.sysclk().0 == self.real_sysclk_spec(),
            r.0.clocks.hclk().0 == self.hclk_spec(),
            r.0.clocks.pclk().0 == self.pclk_spec(),
            r.1.latency == self.latency_spec(),
            r.1.source == self.clock_src,
            r.1.hpre == self.hpre_spec(),
            r.1.ppre == self.ppre_spec(),
            r.1.pll == (if !self.uses_pll() {
                None
            } else {
                Some(PllSetup {
                    pllsrc: pllsrc_bits_spec(self.clock_src),
                    pllmul: (self.pllmul_spec() - 2) as u8,
                })
            }),
            r.1.sw == (if r.1.pll is Some { SW_PLL } else { sww_bits_spec(self.clock_src) }),
            r.1.enable_crs == (r.1.pll is None && self.crs),
    {
        let sysclk = match self.sysclk {
            Some(f) => f,
            None => HSI,
        };
        let src_clk_freq = get_freq(&self.clock_src);

        let r_sysclk: u32;
        let pllmul_bits: Option<u8>;
        if sysclk == src_clk_freq {
            // Bypass the PLL when the source already runs at the requested frequency
            pllmul_bits = None;
            r_sysclk = src_clk_freq;
        } else {
            let pll_in = match self.clock_src {
                SysClkSource::HSI => src_clk_freq / 2,
                SysClkSource::HSE(_) => src_clk_freq,
                SysClkSource::HSI48 => src_clk_freq,
            };
            let req = match self.sysclk {
                Some(f) => f,
                None => pll_in,
            };
            let m = (2 * req + pll_in) / pll_in / 2;
            let pllmul = if m < 1 { 1 } else if m > 16 { 16 } else { m };
            assert(pllmul == self.pllmul_spec());
            assert(pllmul * pll_in <= u32::MAX);
            if pllmul == 1 {
                // A multiplier of one leaves the source driving the system clock
                pllmul_bits = None;
                r_sysclk = src_clk_freq;
            } else {
                pllmul_bits = Some((pllmul - 2) as u8);
                r_sysclk = pllmul * pll_in;
            }
        }
        assert(r_sysclk == self.real_sysclk_spec());

        let hpre_bits: u8 = match self.hclk {
            Some(h) => hpre_bits_from_ratio(r_sysclk / h),
            None => 0b0111,
        };
        let hclk = r_sysclk / hpre_divisor(hpre_bits);
        assert(hclk == self.hclk_spec());

        let ppre_bits: u8 = match self.pclk {
            Some(p) => ppre_bits_from_ratio(hclk / p),
            None => 0b011,
        };
        proof {
            lemma_shl_pow2((ppre_bits - 0b011) as u32);
        }
        let shift: u8 = ppre_bits - 0b011;
        let ppre: u8 = 1u8 << shift;
        assert((1u8 << shift) as u32 == 1u32 << (shift as u32)) by (bit_vector)
            requires shift <= 4;
        let pclk = hclk / widen_u8(ppre);

        let latency: u8 = if r_sysclk <= 24_000_000 {
            0b000
        } else if r_sysclk <= 48_000_000 {
            0b001
        } else {
            0b010
        };

        let pll = match pllmul_bits {
            Some(b) => Some(PllSetup { pllsrc: pllsrc_bits(&self.clock_src), pllmul: b }),
            None => None,
        };
        let sw = match pll {
            Some(_) => SW_PLL,
            None => get_sww(&self.clock_src),
        };
        let enable_crs = pll.is_none() && self.crs;
        let setup = ClockSetup {
            latency,
            source: self.clock_src,
            pll,
            hpre: hpre_bits,
            ppre: ppre_bits,
            sw,
            enable_crs,
        };
        let clocks = Clocks { hclk: Hertz(hclk), pclk: Hertz(pclk), sysclk: Hertz(r_sysclk) };
        (Rcc { clocks, regs: self.rcc }, setup)
    }
}

/// `1 << k` is two to the power `k`.
pub proof fn lemma_shl_pow2(k: u32)
    requires
        k <= 8,
    ensures
        (1u32 << k) as nat == pow2(k as nat),
        (1u32 << k) >= 1,
{
    reveal_with_fuel(pow2, 9);
    assert(1u32 << 0u32 == 1) by (bit_vector);
    assert(1u32 << 1u32 == 2) by (bit_vector);
    assert(1u32 << 2u32 == 4) by (bit_vector);
    assert(1u32 << 3u32 == 8) by (bit_vector);
    assert(1u32 << 4u32 == 16) by (bit_vector);
    assert(1u32 << 5u32 == 32) by (bit_vector);
    assert(1u32 << 6u32 == 64) by (bit_vector);
    assert(1u32 << 7u32 == 128) by (bit_vector);
    assert(1u32 << 8u32 == 256) by (bit_vector);
}

/// Two to any power is at least one.
pub proof fn lemma_pow2_pos(k: nat)
    ensures
        pow2(k) >= 1,
    decreases k,
{
    if k > 0 {
        lemma_pow2_pos((k - 1) as nat);
    }
}

/// The flash wait states are the fewest that the flash allows at the
/// frequency the system clock runs at, one per 24 MHz step (at most two).
pub proof fn lemma_latency_fewest(cfg: CFGR)
    ensures
        cfg.latency_spec() <= 2,
        cfg.latency_spec() == 2 || cfg.real_sysclk_spec() <= 24_000_000 * (cfg.latency_spec() + 1),
        cfg.latency_spec() == 0 || cfg.real_sysclk_spec() > 24_000_000 * cfg.latency_spec(),
{
}

/// Whether `d` is at least as near to `r` as `e` is, the larger of the two
/// winning a tie.
pub open spec fn no_nearer(r: int, d: int, e: int) -> bool {
    let dd = if r >= d { r - d } else { d - r };
    let de = if r >= e { r - e } else { e - r };
    dd < de || (dd == de && d >= e)
}

/// The divider that a PPRE setting (0b011 to 0b111) applies to the AHB clock.
pub open spec fn ppre_divider(bits: u8) -> int {
    pow2((bits - 3) as nat) as int
}

/// The APB prescaler is the divider nearest to the ratio of AHB clock to
/// requested APB clock, among those that PPRE offers (1, 2, 4, 8, 16), the
/// larger one on a tie; a ratio that is itself one of them is taken exactly.
pub proof fn lemma_ppre_nearest(ratio: u32)
    ensures
        0b011 <= ppre_bits_for(ratio) <= 0b111,
        forall|b: u8| 0b011 <= b <= 0b111 ==> no_nearer(ratio as int, ppre_divider(ppre_bits_for(ratio)), #[trigger] ppre_divider(b)),
        forall|b: u8| 0b011 <= b <= 0b111 && ratio == #[trigger] ppre_divider(b) ==> ppre_divider(ppre_bits_for(ratio)) == ratio,
{
    reveal_with_fuel(pow2, 5);
    assert forall|b: u8| 0b011 <= b <= 0b111 implies no_nearer(ratio as int, ppre_divider(ppre_bits_for(ratio)), #[trigger] ppre_divider(b)) by {
        assert(b == 3 || b == 4 || b == 5 || b == 6 || b == 7);
    }
    assert forall|b: u8| 0b011 <= b <= 0b111 && ratio == #[trigger] ppre_divider(b) implies ppre_divider(ppre_bits_for(ratio)) == ratio by {
        assert(b == 3 || b == 4 || b == 5 || b == 6 || b == 7);
    }
}

/// The AHB prescaler is the divider nearest to the ratio of system clock to
/// requested AHB clock, among those that HPRE offers (1, 2, 4, 8, 16, 64,
/// 128, 256, 512), the larger one on a tie; a ratio that is itself one of
/// them is taken exactly.
pub proof fn lemma_hpre_nearest(ratio: u32)
    ensures
        0b0111 <= hpre_bits_for(ratio) <= 0b1111,
        forall|b: u8| 0b0111 <= b <= 0b1111 ==> no_nearer(ratio as int, hpre_divisor_spec(hpre_bits_for(ratio)) as int, #[trigger] hpre_divisor_spec(b) as int),
        forall|b: u8| 0b0111 <= b <= 0b1111 && ratio == #[trigger] hpre_divisor_spec(b) ==> hpre_divisor_spec(hpre_bits_for(ratio)) == ratio,
{
    assert forall|b: u8| 0b0111 <= b <= 0b1111 implies no_nearer(ratio as int, hpre_divisor_spec(hpre_bits_for(ratio)) as int, #[trigger] hpre_divisor_spec(b) as int) by {
        assert(7 <= b <= 15);
    }
}

/// A requested APB clock that divides the AHB clock by one of the dividers
/// of PPRE (1, 2, 4, 8 or 16) is met exactly.
pub proof fn lemma_pclk_exact(cfg: CFGR, p: u32, k: nat)
    requires
        cfg.pclk == Some(p),
        p > 0,
        k <= 4,
        p * pow2(k) == cfg.hclk_spec(),
    ensures
        cfg.pclk_spec() == p,
{
    reveal_with_fuel(pow2, 5);
    let h = cfg.hclk_spec();
    let q = pow2(k) as int;
    assert(h / (p as int) == q) by {
        vstd::arithmetic::div_mod::lemma_div_by_multiple(q, p as int);
        assert(q * p == p * q) by (nonlinear_arith);
    }
    assert(cfg.ppre_spec() == ppre_bits_for(q as u32));
    assert(k == 0 || k == 1 || k == 2 || k == 3 || k == 4);
    assert(ppre_divider(ppre_bits_for(q as u32)) == q);
    assert(h / q == p) by {
        vstd::arithmetic::div_mod::lemma_div_by_multiple(p as int, q);
    }
}

/// The frozen clocks never exceed the clock they are divided from: the APB
/// clock is at most the AHB clock, which is at most the system clock.
pub proof fn lemma_clocks_ordered(cfg: CFGR)
    ensures
        0 <= cfg.pclk_spec() <= cfg.hclk_spec() <= cfg.real_sysclk_spec(),
{
    let k1 = hpre_divisor_spec(cfg.hpre_spec()) as int;
    let k2 = pow2((cfg.ppre_spec() - 3) as nat) as int;
    lemma_pow2_pos((cfg.ppre_spec() - 3) as nat);
    let s = cfg.real_sysclk_spec();
    vstd::arithmetic::div_mod::lemma_div_is_ordered_by_denominator(s, 1, k1);
    vstd::arithmetic::div_mod::lemma_div_pos_is_pos(s, k1);
    let h = s / k1;
    vstd::arithmetic::div_mod::lemma_div_is_ordered_by_denominator(h, 1, k2);
    vstd::arithmetic::div_mod::lemma_div_pos_is_pos(h, k2);
}

/// When the PLL drives the system clock, it runs at the multiple of its input
/// frequency nearest to the requested frequency: as long as the request lies
/// between half the input and 16.5 times the input, the actual system clock
/// differs from the request by at most half the input frequency.
pub proof fn lemma_pll_nearest_multiple(cfg: CFGR, req: u32)
    requires
        cfg.sysclk == Some(req),
        cfg.uses_pll(),
        pll_input_freq(cfg.clock_src) > 0,
        2 * req >= pll_input_freq(cfg.clock_src),
        2 * req < 33 * pll_input_freq(cfg.clock_src),
    ensures
        2 * (cfg.real_sysclk_spec() - req) <= pll_input_freq(cfg.clock_src),
        2 * (req - cfg.real_sysclk_spec()) <= pll_input_freq(cfg.clock_src),
{
    let pin = pll_input_freq(cfg.clock_src) as int;
    let a = 2 * req + pin;
    vstd::arithmetic::div_mod::lemma_div_denominator(a, pin, 2);
    let q = a / (pin * 2);
    assert(cfg.pllmul_spec() == if q < 1 { 1 } else if q > 16 { 16 } else { q });
    vstd::arithmetic::div_mod::lemma_fundamental_div_mod(a, pin * 2);
    let r = a % (pin * 2);
    assert(0 <= r < pin * 2) by {
        vstd::arithmetic::div_mod::lemma_mod_bound(a, pin * 2);
    }
    assert(a == (pin * 2) * q + r);
    assert(q >= 1) by {
        if q < 1 {
            assert(q <= 0);
            assert((pin * 2) * q <= 0) by (nonlinear_arith)
                requires q <= 0, pin > 0;
        }
    }
    assert(q <= 16) by {
        if q > 16 {
            assert((pin * 2) * q >= (pin * 2) * 17) by (nonlinear_arith)
                requires q >= 17, pin > 0;
        }
    }
    assert(cfg.real_sysclk_spec() == q * pin);
    assert((pin * 2) * q == 2 * (q * pin)) by (nonlinear_arith);
}

/// The divider that an HPRE setting applies to the system clock: 1 for
/// 0b0xxx, then 2, 4, 8, 16, 64, 128, 256 and 512 (there is no division by
/// 32).
pub open spec fn hpre_divisor_spec(bits: u8) -> u32 {
    if bits <= 0b0111 {
        1
    } else if bits == 0b1000 {
        2
    } else if bits == 0b1001 {
        4
    } else if bits == 0b1010 {
        8
    } else if bits == 0b1011 {
        16
    } else if bits == 0b1100 {
        64
    } else if bits == 0b1101 {
        128
    } else if bits == 0b1110 {
        256
    } else {
        512
    }
}

/// The divider that an HPRE setting applies to the system clock.
pub fn hpre_divisor(bits: u8) -> (r: u32)
    ensures
        r == hpre_divisor_spec(bits),
        r >= 1,
{
    if bits <= 0b0111 {
        1
    } else if bits == 0b1000 {
        2
    } else if bits == 0b1001 {
        4
    } else if bits == 0b1010 {
        8
    } else if bits == 0b1011 {
        16
    } else if bits == 0b1100 {
        64
    } else if bits == 0b1101 {
        128
    } else if bits == 0b1110 {
        256
    } else {
        512
    }
}

/// The HPRE divider setting for a ratio of system clock to requested AHB clock.
pub fn hpre_bits_from_ratio(ratio: u32) -> (r: u8)
    ensures
        r == hpre_bits_for(ratio),
        0b0111 <= r <= 0b1111,
{
    if ratio <= 1 {
        0b0111
    } else if ratio == 2 {
        0b1000
    } else if ratio <= 5 {
        0b1001
    } else if ratio <= 11 {
        0b1010
    } else if ratio <= 39 {
        0b1011
    } else if ratio <= 95 {
        0b1100
    } else if ratio <= 191 {
        0b1101
    } else if ratio <= 383 {
        0b1110
    } else {
        0b1111
    }
}

/// The PPRE divider setting for a ratio of AHB clock to requested APB clock.
pub fn ppre_bits_from_ratio(ratio: u32) -> (r: u8)
    ensures
        r == ppre_bits_for(ratio),
        0b011 <= r <= 0b111,
{
    if ratio <= 1 {
        0b011
    } else if ratio == 2 {
        0b100
    } else if ratio <= 5 {
        0b101
    } else if ratio <= 11 {
        0b110
    } else {
        0b111
    }
}

/// Frozen clock frequencies
///
/// The existence of this value indicates that the clock configuration can no longer be changed
#[derive(Clone, Copy, Debug, PartialEq, Eq, Structural)]
pub struct Clocks {
    pub(crate) hclk: Hertz,
    pub(crate) pclk: Hertz,
    pub(crate) sysclk: Hertz,
}

impl Clocks {
    pub closed spec fn hclk_spec(&self) -> Hertz {
        self.hclk
    }

    pub closed spec fn pclk_spec(&self) -> Hertz {
        self.pclk
    }

    pub closed spec fn sysclk_spec(&self) -> Hertz {
        self.sysclk
    }

    /// Returns the frequency of the AHB
    #[verifier::when_used_as_spec(hclk_spec)]
    pub fn hclk(&self) -> (r: Hertz)
        ensures
            r == self.hclk_spec(),
    {
        self.hclk
    }

    /// Returns the frequency of the APB
    #[verifier::when_used_as_spec(pclk_spec)]
    pub fn pclk(&self) -> (r: Hertz)
        ensures
            r == self.pclk_spec(),
    {
        self.pclk
    }

    /// Returns the system (core) frequency
    #[verifier::when_used_as_spec(sysclk_spec)]
    pub fn sysclk(&self) -> (r: Hertz)
        ensures
            r == self.sysclk_spec(),
    {
        self.sysclk
    }
}

} // verus!
