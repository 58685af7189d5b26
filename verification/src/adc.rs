//! # API for the Analog to Digital converter
//!
//! Oneshot conversion with variable sampling times, and the internal
//! temperature sense, voltage reference and battery sense.

use vstd::prelude::*;

use crate::gpio::{Analog, Pin, Port};
use crate::rcc::{bit_is_set, with_bit, without_bit, set_bit, clear_bit, Bus, Rcc};

verus! {

/// Address of the VREFINT calibration value in ROM
pub const VREFCAL: usize = 0x1FFF_F7BA;

/// Address of the temperature sensor calibration value at 30 °C in ROM
pub const VTEMPCAL30: usize = 0x1FFF_F7B8;

/// Address of the temperature sensor calibration value at 110 °C in ROM
pub const VTEMPCAL110: usize = 0x1FFF_F7C2;

/// Supply voltage in millivolts at which the calibration values were taken
pub const VDD_CALIB: u16 = 3300;

/// ADC_CCR bit positions
pub const CCR_VREFEN: u32 = 22;
pub const CCR_TSEN: u32 = 23;
pub const CCR_VBATEN: u32 = 24;

/// Bit of ADCEN in RCC_APB2ENR
pub const ADCEN: u32 = 9;

/// ADC Sampling time
///
/// Options for the sampling time, each is T + 0.5 ADC clock cycles.
#[derive(Clone, Copy, Debug, PartialEq, Eq, Structural)]
pub enum AdcSampleTime {
    /// 1.5 cycles sampling time
    T_1,
    /// 7.5 cycles sampling time
    T_7,
    /// 13.5 cycles sampling time
    T_13,
    /// 28.5 cycles sampling time
    T_28,
    /// 41.5 cycles sampling time
    T_41,
    /// 55.5 cycles sampling time
    T_55,
    /// 71.5 cycles sampling time
    T_71,
    /// 239.5 cycles sampling time
    T_239,
}

impl AdcSampleTime {
    /// The SMP field of ADC_SMPR for this sampling time.
    pub open spec fn bits_spec(self) -> u8 {
        match self {
            AdcSampleTime::T_1 => 0b000,
            AdcSampleTime::T_7 => 0b001,
            AdcSampleTime::T_13 => 0b010,
            AdcSampleTime::T_28 => 0b011,
            AdcSampleTime::T_41 => 0b100,
            AdcSampleTime::T_55 => 0b101,
            AdcSampleTime::T_71 => 0b110,
            AdcSampleTime::T_239 => 0b111,
        }
    }

    /// The value written to ADC_SMPR.
    pub fn write_bits(self) -> (r: u8)
        ensures
            r == self.bits_spec(),
    {
        match self {
            AdcSampleTime::T_1 => 0b000_u8,
            AdcSampleTime::T_7 => 0b001_u8,
            AdcSampleTime::T_13 => 0b010_u8,
            AdcSampleTime::T_28 => 0b011_u8,
            AdcSampleTime::T_41 => 0b100_u8,
            AdcSampleTime::T_55 => 0b101_u8,
            AdcSampleTime::T_71 => 0b110_u8,
            AdcSampleTime::T_239 => 0b111_u8,
        }
    }

    /// Get the default sample time (currently 239.5 cycles)
    pub fn default() -> (r: Self)
        ensures
            r == AdcSampleTime::T_239,
    {
        AdcSampleTime::T_239
    }
}

/// ADC Result Alignment
#[derive(Clone, Copy, Debug, PartialEq, Eq, Structural)]
pub enum AdcAlign {
    /// Left aligned results (most significant bits)
    ///
    /// Results in all precisions returning a value in the range 0-65535.
    /// Depending on the precision the result will step by larger or smaller
    /// amounts.
    Left,
    /// Right aligned results (least significant bits)
    ///
    /// Results in all precisions returning values from 0-(2^bits-1) in
    /// steps of 1.
    Right,
    /// Left aligned results without correction of 6bit values.
    ///
    /// Returns left aligned results exactly as shown in RM0091 Fig.37.
    /// Where the values are left aligned within the u16, with the exception
    /// of 6 bit mode where the value is left aligned within the first byte of
    /// the u16.
    LeftAsRM,
}

impl AdcAlign {
    /// The value written to ADC_CFGR1 to select this alignment: only the
    /// ALIGN bit (bit 5), set for both left alignments.
    pub fn write_bits(self) -> (r: u32)
        ensures
            r == (if self == AdcAlign::Right { 0u32 } else { 0x20u32 }),
    {
        match self {
            AdcAlign::Left => 0x20,
            AdcAlign::Right => 0,
            AdcAlign::LeftAsRM => 0x20,
        }
    }

    /// Get the default alignment (currently right aligned)
    pub fn default() -> (r: Self)
        ensures
            r == AdcAlign::Right,
    {
        AdcAlign::Right
    }
}

/// ADC Sampling Precision
#[derive(Clone, Copy, Debug, PartialEq, Eq, Structural)]
pub enum AdcPrecision {
    /// 12 bit precision
    B_12,
    /// 10 bit precision
    B_10,
    /// 8 bit precision
    B_8,
    /// 6 bit precision
    B_6,
}

impl AdcPrecision {
    /// The RES field of ADC_CFGR1 for this precision.
    pub open spec fn res_spec(self) -> u32 {
        match self {
            AdcPrecision::B_12 => 0b00,
            AdcPrecision::B_10 => 0b01,
            AdcPrecision::B_8 => 0b10,
            AdcPrecision::B_6 => 0b11,
        }
    }

    /// The value written to ADC_CFGR1 to select this precision: only the
    /// RES field (bits 3 and 4).
    pub fn write_bits(self) -> (r: u32)
        ensures
            r == self.res_spec() << 3u32,
    {
        let res: u32 = match self {
            AdcPrecision::B_12 => 0b00,
            AdcPrecision::B_10 => 0b01,
            AdcPrecision::B_8 => 0b10,
            AdcPrecision::B_6 => 0b11,
        };
        res << 3u32
    }

    /// Get the default precision (currently 12 bit precision)
    pub fn default() -> (r: Self)
        ensures
            r == AdcPrecision::B_12,
    {
        AdcPrecision::B_12
    }
}

/// ADC channel of an analog input pin of port A (pins 0 to 7)
pub open spec fn porta_channel(pin: u8) -> u8 {
    pin
}

/// ADC channel of the internal temperature sensor
pub const VTEMP_CHANNEL: u8 = 16;

/// ADC channel of the internal voltage reference
pub const VREF_CHANNEL: u8 = 17;

/// ADC channel of the battery voltage
pub const VBAT_CHANNEL: u8 = 18;

/// Analog to Digital converter interface
pub struct Adc {
    sample_time: AdcSampleTime,
    align: AdcAlign,
    precision: AdcPrecision,
    ccr: u32,
}

/// A stored ADC config, can be restored by using the `Adc::restore_cfg` method
#[derive(Copy, Clone, Debug, PartialEq, Eq, Structural)]
pub struct StoredConfig(pub AdcSampleTime, pub AdcAlign, pub AdcPrecision);

/// The largest sample value for an alignment and precision.
pub open spec fn max_sample_for(align: AdcAlign, precision: AdcPrecision) -> u16 {
    match align {
        AdcAlign::Left => 0xffff,
        AdcAlign::LeftAsRM => match precision {
            AdcPrecision::B_6 => 0xff,
            _ => 0xffff,
        },
        AdcAlign::Right => match precision {
            AdcPrecision::B_12 => 0x0fff,
            AdcPrecision::B_10 => 0x03ff,
            AdcPrecision::B_8 => 0x00ff,
            AdcPrecision::B_6 => 0x003f,
        },
    }
}

/// The register values that start a conversion of one channel, in the order
/// they are written.
#[derive(Copy, Clone, Debug, PartialEq, Eq, Structural)]
pub struct ConversionSetup {
    /// ADC_CHSELR: the selected channel
    pub chselr: u32,
    /// ADC_SMPR
    pub smpr: u8,
    /// ADC_CFGR1: the alignment and the precision
    pub cfgr1: u32,
}

/// ADC_CFGR1 for an alignment and a precision: ALIGN (bit 5) set for both
/// left alignments, RES in bits 3 and 4.
pub open spec fn cfgr1_spec(align: AdcAlign, precision: AdcPrecision) -> u32 {
    (if align == AdcAlign::Right { 0u32 } else { 0x20u32 }) | (precision.res_spec() << 3u32)
}

/// The sample that `convert_result` makes of a value of ADC_DR: shifted into
/// the upper byte for left alignment at 6 bit precision.
pub open spec fn sample_from_dr(align: AdcAlign, precision: AdcPrecision, dr: u32) -> u16 {
    if align == AdcAlign::Left && precision == AdcPrecision::B_6 {
        ((dr as u16) << 8u16) as u16
    } else {
        dr as u16
    }
}

/// The number of bits of a precision.
pub open spec fn precision_bits(precision: AdcPrecision) -> u32 {
    match precision {
        AdcPrecision::B_12 => 12,
        AdcPrecision::B_10 => 10,
        AdcPrecision::B_8 => 8,
        AdcPrecision::B_6 => 6,
    }
}

/// What the converter leaves in ADC_DR for a sample `s` under a CFGR1 with
/// these settings (RM0091, data alignment): right aligned it is `s`; left
/// aligned it fills the 16-bit register from the top, except at 6 bit
/// precision, where it fills the low byte from the top.
pub open spec fn dr_image(align: AdcAlign, precision: AdcPrecision, s: u16) -> u32 {
    if align == AdcAlign::Right {
        s as u32
    } else if precision == AdcPrecision::B_6 {
        (s as u32) << 2u32
    } else {
        (s as u32) << (16 - precision_bits(precision)) as u32
    }
}

/// The value that the alignment documents for a sample `s`: right aligned
/// `s` itself; left aligned `s` moved to the top of the 16 bits; left
/// aligned as in the reference manual, the same except at 6 bit precision,
/// where `s` sits at the top of the low byte.
pub open spec fn aligned_sample(align: AdcAlign, precision: AdcPrecision, s: u16) -> u16 {
    if align == AdcAlign::Right {
        s
    } else if align == AdcAlign::LeftAsRM && precision == AdcPrecision::B_6 {
        ((s as u32) << 2u32) as u16
    } else {
        ((s as u32) << (16 - precision_bits(precision)) as u32) as u16
    }
}

impl Adc {
    pub closed spec fn config(&self) -> StoredConfig {
        StoredConfig(self.sample_time, self.align, self.precision)
    }

    /// Image of ADC_CCR
    pub closed spec fn ccr_spec(&self) -> u32 {
        self.ccr
    }

    /// Init a new Adc
    ///
    /// Sets all configurable parameters to defaults and enables the clock of
    /// the ADC in `rcc`; `ccr` is the current value of ADC_CCR. The caller
    /// then starts the HSI14 clock and performs the boot time calibration.
    pub fn new(rcc: &mut Rcc, ccr: u32) -> (r: Self)
        ensures
            r.config() == StoredConfig(AdcSampleTime::T_239, AdcAlign::Right, AdcPrecision::B_12),
            r.ccr_spec() == ccr,
            final(rcc).clocks == old(rcc).clocks,
            final(rcc).regs.enr(Bus::APB2) == with_bit(old(rcc).regs.enr(Bus::APB2), ADCEN),
            final(rcc).regs.enr(Bus::APB1) == old(rcc).regs.enr(Bus::APB1),
            final(rcc).regs.enr(Bus::AHB) == old(rcc).regs.enr(Bus::AHB),
    {
        rcc.regs.enable(Bus::APB2, ADCEN);
        Self {
            sample_time: AdcSampleTime::default(),
            align: AdcAlign::default(),
            precision: AdcPrecision::default(),
            ccr,
        }
    }

    /// The value to keep in ADC_CCR.
    pub fn ccr(&self) -> (r: u32)
        ensures
            r == self.ccr_spec(),
    {
        self.ccr
    }

    /// Saves a copy of the current ADC config
    pub fn save_cfg(&mut self) -> (r: StoredConfig)
        ensures
            r == old(self).config(),
            *final(self) == *old(self),
    {
        StoredConfig(self.sample_time, self.align, self.precision)
    }

    /// Restores a stored config
    pub fn restore_cfg(&mut self, cfg: StoredConfig)
        ensures
            final(self).config() == cfg,
            final(self).ccr_spec() == old(self).ccr_spec(),
    {
        self.sample_time = cfg.0;
        self.align = cfg.1;
        self.precision = cfg.2;
    }

    /// Resets the ADC config to default, returning the existing config as
    /// a stored config.
    pub fn default_cfg(&mut self) -> (r: StoredConfig)
        ensures
            r == old(self).config(),
            final(self).config() == StoredConfig(AdcSampleTime::T_239, AdcAlign::Right, AdcPrecision::B_12),
            final(self).ccr_spec() == old(self).ccr_spec(),
    {
        let cfg = self.save_cfg();
        self.sample_time = AdcSampleTime::default();
        self.align = AdcAlign::default();
        self.precision = AdcPrecision::default();
        cfg
    }

    /// Set the Adc sampling time
    pub fn set_sample_time(&mut self, t_samp: AdcSampleTime)
        ensures
            final(self).config() == StoredConfig(t_samp, old(self).config().1, old(self).config().2),
            final(self).ccr_spec() == old(self).ccr_spec(),
    {
        self.sample_time = t_samp;
    }

    /// Set the Adc result alignment
    pub fn set_align(&mut self, align: AdcAlign)
        ensures
            final(self).config() == StoredConfig(old(self).config().0, align, old(self).config().2),
            final(self).ccr_spec() == old(self).ccr_spec(),
    {
        self.align = align;
    }

    /// Set the Adc precision
    pub fn set_precision(&mut self, precision: AdcPrecision)
        ensures
            final(self).config() == StoredConfig(old(self).config().0, old(self).config().1, precision),
            final(self).ccr_spec() == old(self).ccr_spec(),
    {
        self.precision = precision;
    }

    /// Returns the largest possible sample value for the current settings
    pub fn max_sample(&self) -> (r: u16)
        ensures
            r == max_sample_for(self.config().1, self.config().2),
    {
        match self.align {
            AdcAlign::Left => u16::MAX,
            AdcAlign::LeftAsRM => match self.precision {
                AdcPrecision::B_6 => 0xff,
                _ => u16::MAX,
            },
            AdcAlign::Right => match self.precision {
                AdcPrecision::B_12 => 0x0fff,
                AdcPrecision::B_10 => 0x03ff,
                AdcPrecision::B_8 => 0x00ff,
                AdcPrecision::B_6 => 0x003f,
            },
        }
    }

    /// The register values that start a conversion of `chan`.
    pub fn convert_setup(&self, chan: u8) -> (r: ConversionSetup)
        requires
            chan < 32,
        ensures
            r.chselr == 1u32 << chan,
            r.smpr == self.config().0.bits_spec(),
            r.cfgr1 == cfgr1_spec(self.config().1, self.config().2),
    {
        ConversionSetup {
            chselr: 1u32 << chan,
            smpr: self.sample_time.write_bits(),
            cfgr1: self.align.write_bits() | self.precision.write_bits(),
        }
    }

    /// The sample for a conversion result read from ADC_DR: shifted into the
    /// upper byte for left alignment at 6 bit precision.
    pub fn convert_result(&self, dr: u32) -> (r: u16)
        ensures
            r == sample_from_dr(self.config().1, self.config().2, dr),
    {
        let res = dr as u16;
        if self.align == AdcAlign::Left && self.precision == AdcPrecision::B_6 {
            res << 8u16
        } else {
            res
        }
    }

    /// Converts a sample taken with the current settings into millivolts,
    /// given VDDA in millivolts.
    pub fn read_abs_mv(&self, v: u16, vdda: u16) -> (r: u16)
        ensures
            r == (v as int * vdda as int / max_sample_for(self.config().1, self.config().2) as int) as u16,
    {
        let max_samp = self.max_sample() as u32;
        assert(v as u32 * vdda as u32 <= 0xffff * 0xffff) by (nonlinear_arith)
            requires v <= 0xffff, vdda <= 0xffff;
        #[verifier::truncate] ((v as u32 * vdda as u32 / max_samp) as u16)
    }
}

/// The ADC channel that samples pin `i` of `port`, for the pins that have
/// one: PA0 to PA7 on channels 0 to 7, PB0 and PB1 on channels 8 and 9.
pub open spec fn pin_channel(port: Port, i: u8) -> Option<u8> {
    match port {
        Port::A => if i < 8 { Some(i as u8) } else { None },
        Port::B => if i < 2 { Some((8 + i) as u8) } else { None },
        _ => None,
    }
}

/// The ADC channel of an analog pin.
pub fn analog_channel(pin: &Pin<Analog>) -> (r: Option<u8>)
    ensures
        r == pin_channel(pin.port, pin.i),
{
    match pin.port {
        Port::A => if pin.i < 8 { Some(pin.i as u8) } else { None },
        Port::B => if pin.i < 2 { Some((8 + pin.i) as u8) } else { None },
        _ => None,
    }
}

/// A conversion gives the value that its alignment documents: for a sample
/// of the configured precision, the converter's ADC_DR under the CFGR1 of
/// `convert_setup`, taken through `convert_result`, is the aligned sample,
/// and never above `max_sample`.
pub proof fn lemma_convert_aligned(align: AdcAlign, precision: AdcPrecision, s: u16)
    requires
        (s as u32) < (1u32 << precision_bits(precision)),
    ensures
        sample_from_dr(align, precision, dr_image(align, precision, s)) == aligned_sample(align, precision, s),
        aligned_sample(align, precision, s) <= max_sample_for(align, precision),
{
    match precision {
        AdcPrecision::B_12 => {
            assert((s as u32) < 4096) by (bit_vector) requires (s as u32) < (1u32 << 12u32);
            assert((s as u32) <= 0x0fff);
        },
        AdcPrecision::B_10 => {
            assert((s as u32) < 1024) by (bit_vector) requires (s as u32) < (1u32 << 10u32);
        },
        AdcPrecision::B_8 => {
            assert((s as u32) < 256) by (bit_vector) requires (s as u32) < (1u32 << 8u32);
        },
        AdcPrecision::B_6 => {
            assert((s as u32) < 64) by (bit_vector) requires (s as u32) < (1u32 << 6u32);
            assert((((s as u32) << 2u32) as u16) << 8u16 == (((s as u32) << 10u32) as u16)) by (bit_vector)
                requires (s as u32) < 64;
            assert(((s as u32) << 2u32) as u16 <= 0xff) by (bit_vector) requires (s as u32) < 64;
        },
    }
}

/// The shifts and masks of the largest samples of each precision.
proof fn lemma_top_samples()
    by (bit_vector)
    ensures
        (1u32 << 12u32) == 4096 && (1u32 << 10u32) == 1024 && (1u32 << 8u32) == 256 && (1u32 << 6u32) == 64,
        ((4095u32 << 4u32) as u16) == 0xfff0u16,
        ((1023u32 << 6u32) as u16) == 0xffc0u16,
        ((255u32 << 8u32) as u16) == 0xff00u16,
        ((63u32 << 10u32) as u16) == 0xfc00u16,
        ((63u32 << 2u32) as u16) == 0xfcu16,
        (0xffffu32 & 0x10000u32) == 0 && (0xffu32 & 0x100u32) == 0 && (0xfffu32 & 0x1000u32) == 0,
        (0x3ffu32 & 0x400u32) == 0 && (0x3fu32 & 0x40u32) == 0,
{
}

/// `max_sample` is the top of the range that the alignment documents: with
/// right alignment it is the largest sample of the precision itself, 2^bits
/// - 1; in every alignment it is one less than a power of two, at least the
/// largest aligned sample and less than twice it, so that it is the smallest
/// value of all ones above every sample.
pub proof fn lemma_max_sample(align: AdcAlign, precision: AdcPrecision)
    ensures
        ({
            let top = ((1u32 << precision_bits(precision)) - 1) as u16;
            let m = max_sample_for(align, precision);
            &&& align == AdcAlign::Right ==> m == top && m == aligned_sample(align, precision, top)
            &&& aligned_sample(align, precision, top) <= m
            &&& m < 2 * aligned_sample(align, precision, top)
            &&& (m as u32) & (((m as u32) + 1) as u32) == 0
        }),
{
    lemma_top_samples();
}

/// The temperature conversion passes through the calibration points: at
/// the 3.3 V calibration supply, a reading equal to the 30 °C calibration
/// value gives 30.00 °C, and one equal to the 110 °C value gives 110.00 °C.
pub proof fn lemma_temperature_calibration_points(cal30: u16, cal110: u16)
    requires
        cal30 != cal110,
    ensures
        temperature(cal30, VDD_CALIB, cal30, cal110) == 3000,
        temperature(cal110, VDD_CALIB, cal30, cal110) == 11000,
{
    assert(scaled_sample(cal30, VDD_CALIB) == cal30) by {
        vstd::arithmetic::div_mod::lemma_div_by_multiple(cal30 as int, 3300);
    }
    assert(scaled_sample(cal110, VDD_CALIB) == cal110) by {
        vstd::arithmetic::div_mod::lemma_div_by_multiple(cal110 as int, 3300);
    }
    let d = (cal110 as int - cal30 as int) * 100;
    assert(temp_offset(cal110, VDD_CALIB, cal30) == d);
    assert(abs(d * 8000) == 8000 * abs(d)) by (nonlinear_arith);
    assert(abs(d) > 0);
    assert(abs(d * 8000) / abs(d) == 8000) by {
        vstd::arithmetic::div_mod::lemma_div_by_multiple(8000, abs(d));
    }
    assert((d * 8000 >= 0) == (d >= 0)) by (nonlinear_arith);
    assert(trunc_div(d * 8000, d) == 8000);
    assert(trunc_div(0int, d) == 0) by {
        vstd::arithmetic::div_mod::lemma_div_by_multiple(0, abs(d));
    }
}

/// Internal temperature sensor (ADC Channel 16)
#[derive(Debug)]
pub struct VTemp;

/// Internal voltage reference (ADC Channel 17)
#[derive(Debug)]
pub struct VRef;

/// Battery reference voltage (ADC Channel 18)
#[derive(Debug)]
pub struct VBat;

impl VTemp {
    /// Init a new VTemp
    pub fn new() -> (r: Self) {
        VTemp
    }

    /// Enable the internal temperature sense, this has a wake up time
    /// t<sub>START</sub> which can be found in your micro's datasheet, you
    /// must wait at least that long after enabling before taking a reading.
    /// Remember to disable when not in use.
    pub fn enable(&mut self, adc: &mut Adc)
        ensures
            *final(self) == *old(self),
            final(adc).ccr_spec() == with_bit(old(adc).ccr_spec(), CCR_TSEN),
            final(adc).config() == old(adc).config(),
    {
        adc.ccr = set_bit(adc.ccr, CCR_TSEN);
    }

    /// Disable the internal temperature sense.
    pub fn disable(&mut self, adc: &mut Adc)
        ensures
            *final(self) == *old(self),
            final(adc).ccr_spec() == without_bit(old(adc).ccr_spec(), CCR_TSEN),
            final(adc).config() == old(adc).config(),
    {
        adc.ccr = clear_bit(adc.ccr, CCR_TSEN);
    }

    /// Checks if the temperature sensor is enabled, does not account for the
    /// t<sub>START</sub> time however.
    pub fn is_enabled(&self, adc: &Adc) -> (r: bool)
        ensures
            r == bit_is_set(adc.ccr_spec(), CCR_TSEN),
    {
        adc.ccr & (1u32 << CCR_TSEN) != 0
    }
}

/// Integer division rounding toward zero, as machine division does.
pub open spec fn trunc_div(a: int, b: int) -> int {
    let q = abs(a) / abs(b);
    if (a >= 0) == (b >= 0) {
        q
    } else {
        -q
    }
}

/// Absolute value
pub open spec fn abs(a: int) -> int {
    if a >= 0 {
        a
    } else {
        -a
    }
}

/// The sample scaled to the calibration supply: the sensor reading taken at
/// VDDA `vdda` (in milli-volts), as it would read at the 3.3 V at which the
/// factory calibrated it.
pub open spec fn scaled_sample(vtemp: u16, vdda: u16) -> int {
    vtemp as int * vdda as int / VDD_CALIB as int
}

/// The scaled temperature sensor reading relative to the 30 °C calibration,
/// in hundredths.
pub open spec fn temp_offset(vtemp: u16, vdda: u16, cal30: u16) -> int {
    scaled_sample(vtemp, vdda) * 100 - cal30 as int * 100
}

/// The inputs on which `convert_temp` computes: the two calibration points
/// differ (else the slope divides by zero).
pub open spec fn convert_temp_ok(vtemp: u16, vdda: u16, cal30: u16, cal110: u16) -> bool {
    cal110 != cal30
}

/// The temperature in hundredths of a degree: linear between the 30 °C and
/// 110 °C calibration points, kept to 16 bits.
pub open spec fn temperature(vtemp: u16, vdda: u16, cal30: u16, cal110: u16) -> i16 {
    (trunc_div(temp_offset(vtemp, vdda, cal30) * 8000, (cal110 as int - cal30 as int) * 100) + 3000) as i16
}

impl VTemp {
    /// Whether `convert_temp` can compute on these values.
    pub fn can_convert_temp(vtemp: u16, vdda: u16, cal30: u16, cal110: u16) -> (r: bool)
        ensures
            r == convert_temp_ok(vtemp, vdda, cal30, cal110),
    {
        cal110 != cal30
    }

    /// Converts a temperature sensor sample `vtemp` taken at VDDA `vdda`
    /// (in milli-volts) into hundredths of a degree centigrade, given the
    /// factory calibration samples at 30 °C and 110 °C (taken at 3.3 V).
    pub fn convert_temp(vtemp: u16, vdda: u16, cal30: u16, cal110: u16) -> (r: i16)
        requires
            convert_temp_ok(vtemp, vdda, cal30, cal110),
        ensures
            r == temperature(vtemp, vdda, cal30, cal110),
    {
        let a: u64 = vtemp as u64;
        let b: u64 = vdda as u64;
        assert(a * b <= 0xffff * 0xffff) by (nonlinear_arith)
            requires a <= 0xffff, b <= 0xffff;
        let prod: u64 = a * b;
        let scaled: u64 = prod / 3300;
        assert(scaled <= 1_301_466) by {
            vstd::arithmetic::div_mod::lemma_div_is_ordered(prod as int, 0xffff * 0xffffint, 3300);
        }
        let off: i64 = (scaled as i64) * 100 - (cal30 as i64) * 100;
        assert(off == temp_offset(vtemp, vdda, cal30));
        let t: i64 = off * 8000;
        let d: i64 = (cal110 as i64) * 100 - (cal30 as i64) * 100;
        assert(d != 0);
        assert(d >= 100 || d <= -100);
        // division rounding toward zero, on the magnitudes
        let ut: u64 = if t >= 0 { t as u64 } else { (-t) as u64 };
        let ud: u64 = if d >= 0 { d as u64 } else { (-d) as u64 };
        let q = ut / ud;
        assert(q <= ut);
        let signed: i64 = if (t >= 0) == (d >= 0) { q as i64 } else { -(q as i64) };
        assert(signed == trunc_div(t as int, d as int));
        let temperature: i64 = signed + 3000;
        #[verifier::truncate] (temperature as i16)
    }
}

impl VRef {
    /// Init a new VRef
    pub fn new() -> (r: Self) {
        VRef
    }

    /// Enable the internal voltage reference, remember to disable when not in use.
    pub fn enable(&mut self, adc: &mut Adc)
        ensures
            *final(self) == *old(self),
            final(adc).ccr_spec() == with_bit(old(adc).ccr_spec(), CCR_VREFEN),
            final(adc).config() == old(adc).config(),
    {
        adc.ccr = set_bit(adc.ccr, CCR_VREFEN);
    }

    /// Disable the internal reference voltage.
    pub fn disable(&mut self, adc: &mut Adc)
        ensures
            *final(self) == *old(self),
            final(adc).ccr_spec() == without_bit(old(adc).ccr_spec(), CCR_VREFEN),
            final(adc).config() == old(adc).config(),
    {
        adc.ccr = clear_bit(adc.ccr, CCR_VREFEN);
    }

    /// Returns if the internal voltage reference is enabled.
    pub fn is_enabled(&self, adc: &Adc) -> (r: bool)
        ensures
            r == bit_is_set(adc.ccr_spec(), CCR_VREFEN),
    {
        adc.ccr & (1u32 << CCR_VREFEN) != 0
    }

    /// VDDA in milli-volts, from the factory calibration `vrefint_cal` of the
    /// internal reference and a sample `vref_val` of it taken now.
    pub fn read_vdda(vrefint_cal: u16, vref_val: u32) -> (r: u16)
        requires
            vref_val > 0,
        ensures
            r == (VDD_CALIB as int * vrefint_cal as int / vref_val as int) as u16,
    {
        assert(VDD_CALIB as u32 * vrefint_cal as u32 <= 3300 * 0xffff) by (nonlinear_arith)
            requires vrefint_cal <= 0xffff;
        #[verifier::truncate] ((VDD_CALIB as u32 * vrefint_cal as u32 / vref_val) as u16)
    }
}

impl VBat {
    /// Init a new VBat
    pub fn new() -> (r: Self) {
        VBat
    }

    /// Enable the internal VBat sense, remember to disable when not in use
    /// as otherwise it will sap current from the VBat source.
    pub fn enable(&mut self, adc: &mut Adc)
        ensures
            *final(self) == *old(self),
            final(adc).ccr_spec() == with_bit(old(adc).ccr_spec(), CCR_VBATEN),
            final(adc).config() == old(adc).config(),
    {
        adc.ccr = set_bit(adc.ccr, CCR_VBATEN);
    }

    /// Disable the internal VBat sense.
    pub fn disable(&mut self, adc: &mut Adc)
        ensures
            *final(self) == *old(self),
            final(adc).ccr_spec() == without_bit(old(adc).ccr_spec(), CCR_VBATEN),
            final(adc).config() == old(adc).config(),
    {
        adc.ccr = clear_bit(adc.ccr, CCR_VBATEN);
    }

    /// Returns if the internal VBat sense is enabled
    pub fn is_enabled(&self, adc: &Adc) -> (r: bool)
        ensures
            r == bit_is_set(adc.ccr_spec(), CCR_VBATEN),
    {
        adc.ccr & (1u32 << CCR_VBATEN) != 0
    }

    /// The value of VBat in milli-volts, from a sample of the VBat channel
    /// taken with the current settings and VDDA in milli-volts. The channel
    /// sees half of VBat.
    pub fn read(adc: &Adc, vdda: u16, sample: u16) -> (r: u16)
        requires
            2 * ((sample as int * vdda as int / max_sample_for(adc.config().1, adc.config().2) as int) as u16) <= u16::MAX,
        ensures
            r == 2 * ((sample as int * vdda as int / max_sample_for(adc.config().1, adc.config().2) as int) as u16),
    {
        let vbat_val = adc.read_abs_mv(sample, vdda);
        vbat_val * 2
    }
}

/// A step in reading an internal channel (the temperature sensor, the
/// reference voltage or the battery voltage); the caller performs the steps
/// in order.
#[derive(Debug, Clone, Copy, PartialEq, Eq, Structural)]
pub enum SensorStep {
    /// Switch the sensor on in ADC_CCR
    Enable,
    /// Wait the sensor's start-up time with the delay
    Wait,
    /// Read VDDA through the reference voltage
    ReadVdda,
    /// Save the ADC settings and switch to the default ones
    UseDefaults,
    /// Convert the sensor's channel
    Convert,
    /// Switch the sensor off again in ADC_CCR
    Disable,
    /// Restore the saved ADC settings
    Restore,
}

/// The steps of a temperature reading: a sensor that was off is switched on
/// and given its start-up time, with the delay when there is one and else
/// with a VDDA reading; then VDDA is read, the sensor converted with the
/// default settings, the sensor switched off again if it was off, and the
/// settings restored.
pub open spec fn temperature_plan(preenabled: bool, has_delay: bool) -> Seq<SensorStep> {
    (if preenabled {
        seq![]
    } else if has_delay {
        seq![SensorStep::Enable, SensorStep::Wait]
    } else {
        seq![SensorStep::Enable, SensorStep::ReadVdda]
    }) + seq![SensorStep::ReadVdda, SensorStep::UseDefaults, SensorStep::Convert] + (if preenabled {
        seq![]
    } else {
        seq![SensorStep::Disable]
    }) + seq![SensorStep::Restore]
}

/// The steps of a VDDA reading: the default settings, the reference switched
/// on around its conversion if it was off, then the settings restored.
pub open spec fn vdda_plan(preenabled: bool) -> Seq<SensorStep> {
    seq![SensorStep::UseDefaults] + (if preenabled {
        seq![SensorStep::Convert]
    } else {
        seq![SensorStep::Enable, SensorStep::Convert, SensorStep::Disable]
    }) + seq![SensorStep::Restore]
}

/// The steps of a battery reading: the battery channel switched on if it was
/// off, VDDA read and the channel converted, the channel switched off again
/// if it was off.
pub open spec fn vbat_plan(preenabled: bool) -> Seq<SensorStep> {
    (if preenabled { seq![] } else { seq![SensorStep::Enable] }) + seq![SensorStep::ReadVdda, SensorStep::Convert]
        + (if preenabled { seq![] } else { seq![SensorStep::Disable] })
}

/// Whether the sensor is on before step `k` of `steps`, when it was on at
/// the start as `on` says.
pub open spec fn sensor_on_before(steps: Seq<SensorStep>, k: nat, on: bool) -> bool
    decreases k,
{
    if k == 0 {
        on
    } else {
        match steps[k - 1] {
            SensorStep::Enable => true,
            SensorStep::Disable => false,
            _ => sensor_on_before(steps, (k - 1) as nat, on),
        }
    }
}

/// Whether a series of steps converts only while the sensor is on, and
/// leaves the sensor as it found it.
pub open spec fn leaves_sensor_as_found(steps: Seq<SensorStep>, on: bool) -> bool {
    &&& sensor_on_before(steps, steps.len(), on) == on
    &&& forall|k: nat| k < steps.len() && steps[k as int] == SensorStep::Convert ==> #[trigger] sensor_on_before(steps, k, on)
}

impl VTemp {
    /// The steps of a temperature reading, given whether the sensor was on
    /// and whether a delay is at hand.
    pub fn read_steps(preenabled: bool, has_delay: bool) -> (r: Vec<SensorStep>)
        ensures
            r@ == temperature_plan(preenabled, has_delay),
    {
        let mut v: Vec<SensorStep> = Vec::new();
        if !preenabled {
            v.push(SensorStep::Enable);
            if has_delay {
                v.push(SensorStep::Wait);
            } else {
                v.push(SensorStep::ReadVdda);
            }
        }
        v.push(SensorStep::ReadVdda);
        v.push(SensorStep::UseDefaults);
        v.push(SensorStep::Convert);
        if !preenabled {
            v.push(SensorStep::Disable);
        }
        v.push(SensorStep::Restore);
        assert(v@ =~= temperature_plan(preenabled, has_delay));
        v
    }
}

impl VRef {
    /// The steps of a VDDA reading, given whether the reference was on.
    pub fn read_vdda_steps(preenabled: bool) -> (r: Vec<SensorStep>)
        ensures
            r@ == vdda_plan(preenabled),
    {
        let mut v: Vec<SensorStep> = Vec::new();
        v.push(SensorStep::UseDefaults);
        if !preenabled {
            v.push(SensorStep::Enable);
        }
        v.push(SensorStep::Convert);
        if !preenabled {
            v.push(SensorStep::Disable);
        }
        v.push(SensorStep::Restore);
        assert(v@ =~= vdda_plan(preenabled));
        v
    }
}

impl VBat {
    /// The steps of a battery reading, given whether the channel was on.
    pub fn read_steps(preenabled: bool) -> (r: Vec<SensorStep>)
        ensures
            r@ == vbat_plan(preenabled),
    {
        let mut v: Vec<SensorStep> = Vec::new();
        if !preenabled {
            v.push(SensorStep::Enable);
        }
        v.push(SensorStep::ReadVdda);
        v.push(SensorStep::Convert);
        if !preenabled {
            v.push(SensorStep::Disable);
        }
        assert(v@ =~= vbat_plan(preenabled));
        v
    }
}

/// Reading the temperature, VDDA or the battery converts only while the
/// sensor is on, and leaves the sensor on or off as it was; the temperature
/// and VDDA readings end by restoring the ADC settings they found.
pub proof fn lemma_sensor_plans(preenabled: bool, has_delay: bool)
    ensures
        leaves_sensor_as_found(temperature_plan(preenabled, has_delay), preenabled),
        leaves_sensor_as_found(vdda_plan(preenabled), preenabled),
        leaves_sensor_as_found(vbat_plan(preenabled), preenabled),
        temperature_plan(preenabled, has_delay).last() == SensorStep::Restore,
        vdda_plan(preenabled).last() == SensorStep::Restore,
{
    reveal_with_fuel(sensor_on_before, 8);
    let t = temperature_plan(preenabled, has_delay);
    let d = vdda_plan(preenabled);
    let b = vbat_plan(preenabled);
    assert forall|k: nat| k < t.len() && t[k as int] == SensorStep::Convert implies #[trigger] sensor_on_before(t, k, preenabled) by {
        if preenabled {
            assert(k == 2);
        } else {
            assert(k == 4);
        }
    }
    assert forall|k: nat| k < d.len() && d[k as int] == SensorStep::Convert implies #[trigger] sensor_on_before(d, k, preenabled) by {
        if preenabled {
            assert(k == 1);
        } else {
            assert(k == 2);
        }
    }
    assert forall|k: nat| k < b.len() && b[k as int] == SensorStep::Convert implies #[trigger] sensor_on_before(b, k, preenabled) by {
        if preenabled {
            assert(k == 1);
        } else {
            assert(k == 2);
        }
    }
}

} // verus!
