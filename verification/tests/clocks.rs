use stm32f0xx_hal::rcc::{pll_on, ClockSetup, PllSetup, Rcc, RccExt, RccRegisters, SysClkSource, CFGR, SW_PLL};
use stm32f0xx_hal::time::{Hertz, KiloHertz, MegaHertz, MicroSecond, MilliSecond, Second, U32Ext};

fn regs() -> RccRegisters {
    RccRegisters { ahbenr: 0x14, apb1enr: 0, apb2enr: 0, ahbrstr: 0, apb1rstr: 0, apb2rstr: 0 }
}

fn freeze(cfgr: CFGR) -> (Rcc, ClockSetup) {
    cfgr.freeze()
}

#[test]
fn default_clocks_run_from_hsi_without_pll() {
    let (rcc, setup) = freeze(regs().configure());
    assert_eq!(rcc.clocks.sysclk(), Hertz(8_000_000));
    assert_eq!(rcc.clocks.hclk(), Hertz(8_000_000));
    assert_eq!(rcc.clocks.pclk(), Hertz(8_000_000));
    assert_eq!(setup.pll, None);
    assert_eq!(setup.hpre, 0b0111);
    assert_eq!(setup.ppre, 0b011);
    assert_eq!(setup.latency, 0);
    assert_eq!(setup.sw, 0b00);
    assert_eq!(setup.source, SysClkSource::HSI);
    assert!(!setup.enable_crs);
    assert_eq!(rcc.regs, regs());
}

#[test]
fn sysclk_48mhz_from_hsi_uses_pll_times_12() {
    let (rcc, setup) = freeze(regs().configure().sysclk(48.mhz().into()));
    assert_eq!(rcc.clocks.sysclk(), Hertz(48_000_000));
    assert_eq!(rcc.clocks.hclk(), Hertz(48_000_000));
    assert_eq!(rcc.clocks.pclk(), Hertz(48_000_000));
    assert_eq!(setup.pll, Some(PllSetup { pllsrc: 0b00, pllmul: 10 }));
    assert_eq!(setup.sw, SW_PLL);
    assert_eq!(setup.latency, 1);
}

#[test]
fn hsi48_at_48mhz_bypasses_pll_and_enables_crs() {
    let (rcc, setup) = freeze(regs().configure().hsi48().enable_crs().sysclk(Hertz(48_000_000)));
    assert_eq!(setup.pll, None);
    assert_eq!(setup.sw, 0b11);
    assert!(setup.enable_crs);
    assert_eq!(rcc.clocks.sysclk().0, 48_000_000);
}

#[test]
fn hse_pll_source_bits() {
    let (_rcc, setup) = freeze(regs().configure().hse(Hertz(8_000_000)).sysclk(Hertz(24_000_000)));
    assert_eq!(setup.pll, Some(PllSetup { pllsrc: 0b10, pllmul: 1 }));
    assert_eq!(setup.source, SysClkSource::HSE(8_000_000));
    assert_eq!(setup.latency, 0);
}

#[test]
fn ahb_and_apb_prescalers() {
    let cfgr = regs().configure().sysclk(Hertz(48_000_000)).hclk(Hertz(24_000_000)).pclk(Hertz(4_000_000));
    let (rcc, setup) = freeze(cfgr);
    assert_eq!(setup.hpre, 0b1000);
    assert_eq!(rcc.clocks.hclk(), Hertz(24_000_000));
    // 24 MHz / 4 MHz = 6 selects a divider of 8
    assert_eq!(setup.ppre, 0b110);
    assert_eq!(rcc.clocks.pclk(), Hertz(3_000_000));
    assert!(rcc.clocks.pclk().0 <= rcc.clocks.hclk().0);
}

#[test]
fn flash_latency_bands() {
    let (_, s1) = freeze(regs().configure().sysclk(Hertz(24_000_000)));
    let (_, s2) = freeze(regs().configure().sysclk(Hertz(32_000_000)));
    assert_eq!(s1.latency, 0);
    assert_eq!(s2.latency, 1);
}

#[test]
fn pll_multiplier_is_clamped() {
    // 80 MHz asks for a multiplier of 20 on the 4 MHz HSI/2, clamped to 16
    let (_rcc, setup) = freeze(regs().configure().sysclk(Hertz(80_000_000)));
    assert_eq!(setup.pll, Some(PllSetup { pllsrc: 0b00, pllmul: 14 }));
    assert_eq!(setup.latency, 2);
}

#[test]
fn pll_rounds_to_nearest_multiple() {
    // 38 MHz / 4 MHz = 9.5 rounds up to 10; 37 MHz rounds down to 9
    let (_, a) = freeze(regs().configure().sysclk(Hertz(38_000_000)));
    let (_, b) = freeze(regs().configure().sysclk(Hertz(37_000_000)));
    assert_eq!(a.pll.unwrap().pllmul, 8);
    assert_eq!(b.pll.unwrap().pllmul, 7);
}

#[test]
fn clocks_report_the_frequency_the_pll_runs_at() {
    // 30 MHz asks for 7.5 times the 4 MHz HSI/2, which rounds to 8: 32 MHz
    let (rcc, setup) = freeze(regs().configure().sysclk(Hertz(30_000_000)));
    assert_eq!(setup.pll, Some(PllSetup { pllsrc: 0b00, pllmul: 0b0110 }));
    assert_eq!(rcc.clocks.sysclk(), Hertz(32_000_000));
    assert_eq!(rcc.clocks.hclk(), Hertz(32_000_000));
    assert_eq!(rcc.clocks.pclk(), Hertz(32_000_000));
}

#[test]
fn ahb_prescaler_skips_division_by_32() {
    // 48 MHz / 1 MHz = 48 selects HPRE 0b1100, which divides by 64
    let cfgr = regs().configure().sysclk(Hertz(48_000_000)).hclk(Hertz(1_000_000));
    let (rcc, setup) = freeze(cfgr);
    assert_eq!(setup.hpre, 0b1100);
    assert_eq!(rcc.clocks.hclk(), Hertz(750_000));
    assert_eq!(rcc.clocks.pclk(), Hertz(750_000));
    let (rcc, setup) = freeze(regs().configure().sysclk(Hertz(48_000_000)).hclk(Hertz(100_000)));
    assert_eq!(setup.hpre, 0b1111);
    assert_eq!(rcc.clocks.hclk(), Hertz(93_750));
}

#[test]
fn multiplier_of_one_runs_from_the_source() {
    // 3 MHz asks for less than the HSI/2 input: the HSI drives the system clock
    let (rcc, setup) = freeze(regs().configure().sysclk(Hertz(3_000_000)));
    assert_eq!(setup.pll, None);
    assert_eq!(setup.sw, 0b00);
    assert_eq!(rcc.clocks.sysclk(), Hertz(8_000_000));
    // a 32 MHz crystal asked for 24 MHz runs at 32 MHz, with one wait state
    let (rcc, setup) = freeze(regs().configure().hse(Hertz(32_000_000)).sysclk(Hertz(24_000_000)));
    assert_eq!(setup.pll, None);
    assert_eq!(rcc.clocks.sysclk(), Hertz(32_000_000));
    assert_eq!(setup.latency, 1);
}

#[test]
fn unit_conversions() {
    let h: Hertz = KiloHertz(400).into();
    assert_eq!(h, Hertz(400_000));
    let h: Hertz = MegaHertz(48).into();
    assert_eq!(h, Hertz(48_000_000));
    let k: KiloHertz = MegaHertz(2).into();
    assert_eq!(k, KiloHertz(2_000));
    let us: MicroSecond = Second(3).into();
    assert_eq!(us, MicroSecond(3_000_000));
    let ms: MilliSecond = Second(3).into();
    assert_eq!(ms, MilliSecond(3_000));
    let ms: MilliSecond = MicroSecond(7).into();
    assert_eq!(ms, MilliSecond(7_000));
    assert_eq!(115_200.bps().0, 115_200);
    assert_eq!(5.us(), MicroSecond(5));
    assert_eq!(5.ms(), MilliSecond(5));
    assert_eq!(5.seconds(), Second(5));
    assert_eq!(5.khz(), KiloHertz(5));
    assert_eq!(5.hz(), Hertz(5));
}

#[test]
fn conversion_wraps_beyond_u32() {
    let h: Hertz = MegaHertz(5_000).into();
    assert_eq!(h.0, 5_000_000_000u64 as u32);
}

#[test]
fn durations_and_cycles() {
    assert_eq!(Hertz(8_000_000).duration(8).0, 1);
    assert_eq!(Hertz(48_000_000).duration(4_800).0, 100);
    assert_eq!(Hertz(3).duration(1).0, 333_333);
    assert_eq!(MicroSecond(10).cycles(Hertz(48_000_000)), 480);
    assert_eq!(MicroSecond(1).cycles(Hertz(999_999)), 0);
    assert_eq!(MicroSecond::from_hertz(Hertz(1_000)), MicroSecond(1_000));
    assert_eq!(MicroSecond::from_hertz(Hertz(3)), MicroSecond(333_333));
}

#[test]
fn cycles_keep_low_32_bits() {
    // 4e9 Hz for 4e9 us is 1.6e13 cycles, which wraps
    let c = MicroSecond(4_000_000_000).cycles(Hertz(4_000_000_000));
    assert_eq!(c, (16_000_000_000_000u64 % (1u64 << 32)) as u32);
}

#[test]
fn starting_the_pll_keeps_the_hse_on() {
    let hse_on_ready: u32 = 1 << 16 | 1 << 17 | 1 << 19;
    assert_eq!(pll_on(hse_on_ready), hse_on_ready | 1 << 24);
    assert_eq!(pll_on(0), 1 << 24);
}

#[test]
fn hse_drives_the_pll_at_48mhz() {
    let (rcc, setup) = freeze(regs().configure().hse(Hertz(8_000_000)).sysclk(Hertz(48_000_000)));
    assert_eq!(setup.pll, Some(PllSetup { pllsrc: 0b10, pllmul: 0b0100 }));
    assert_eq!(setup.sw, SW_PLL);
    assert_eq!(setup.source, SysClkSource::HSE(8_000_000));
    assert_eq!(setup.latency, 1);
    assert_eq!(rcc.clocks.sysclk(), Hertz(48_000_000));
}

#[test]
fn wait_states_follow_the_pll_output() {
    let (rcc, setup) = freeze(regs().configure().sysclk(Hertz(49_000_000)));
    assert_eq!(rcc.clocks.sysclk(), Hertz(48_000_000));
    assert_eq!(setup.latency, 1);
}
