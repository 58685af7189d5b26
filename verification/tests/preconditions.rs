use core::marker::PhantomData;

use stm32f0xx_hal::adc::{analog_channel, Adc, VTemp};
use stm32f0xx_hal::gpio::{Analog, Pin, Port};
use stm32f0xx_hal::i2c::timing_is_valid;
use stm32f0xx_hal::i2c_slave::I2CSlave;
use stm32f0xx_hal::rcc::{Rcc, RccExt, RccRegisters, CFGR};
use stm32f0xx_hal::time::{Hertz, KiloHertz};
use stm32f0xx_hal::tsc::Tsc;

fn regs() -> RccRegisters {
    RccRegisters { ahbenr: 0, apb1enr: 0, apb2enr: 0, ahbrstr: 0, apb1rstr: 0, apb2rstr: 0 }
}

fn rcc() -> Rcc {
    regs().configure().freeze().0
}

fn cfgr() -> CFGR {
    regs().configure()
}

#[test]
fn freeze_accepts_reachable_configurations() {
    assert!(cfgr().can_freeze());
    assert!(cfgr().sysclk(Hertz(48_000_000)).hclk(Hertz(24_000_000)).pclk(Hertz(12_000_000)).can_freeze());
    assert!(cfgr().hsi48().sysclk(Hertz(48_000_000)).can_freeze());
    assert!(cfgr().hse(Hertz(8_000_000)).sysclk(Hertz(8_000_000)).can_freeze());
}

#[test]
fn freeze_refuses_unreachable_configurations() {
    // a zero AHB clock divides by zero
    assert!(!cfgr().hclk(Hertz(0)).can_freeze());
    // an AHB clock above the system clock leaves no prescaler
    assert!(!cfgr().hclk(Hertz(9_000_000)).can_freeze());
    // an APB clock above the AHB clock leaves no prescaler
    assert!(!cfgr().hclk(Hertz(4_000_000)).pclk(Hertz(8_000_000)).can_freeze());
    assert!(!cfgr().pclk(Hertz(0)).can_freeze());
    // the PLL multiplier computation overflows
    assert!(!cfgr().sysclk(Hertz(u32::MAX)).can_freeze());
    // a stopped external oscillator feeds nothing to the PLL
    assert!(!cfgr().hse(Hertz(0)).sysclk(Hertz(48_000_000)).can_freeze());
}

#[test]
fn i2c_speeds_with_a_timing() {
    assert!(timing_is_valid(KiloHertz(100)));
    assert!(timing_is_valid(KiloHertz(400)));
    assert!(timing_is_valid(KiloHertz(1)));
    assert!(!timing_is_valid(KiloHertz(0)));
    assert!(!timing_is_valid(KiloHertz(4_000_001)));
    // the low period count truncates to zero, below the six cycles of SCLH
    assert!(!timing_is_valid(KiloHertz(15_564)));
}

#[test]
fn temperature_conversion_range() {
    assert!(VTemp::can_convert_temp(1700, 3300, 1750, 1350));
    assert!(!VTemp::can_convert_temp(1700, 3300, 1750, 1750));
    assert!(VTemp::can_convert_temp(65535, 65535, 0, 1));
    assert_eq!(VTemp::convert_temp(1700, 3300, 1750, 1350), 4000);
    // a sample taken at 3.0 V is scaled to the 3.3 V of the calibration first
    assert_eq!(VTemp::convert_temp(1870, 3000, 1700, 1300), 3000);
    // 1870 * 3600 / 3300 = 2040: (2040 - 1700) * 80 / (1300 - 1700) = -68 degrees
    assert_eq!(VTemp::convert_temp(1870, 3600, 1700, 1300), 3000 - 6800);
}

#[test]
fn analog_pins_and_their_channels() {
    let pin = |port: Port, i: u8| Pin::<Analog> { i, port, _mode: PhantomData };
    assert_eq!(analog_channel(&pin(Port::A, 0)), Some(0));
    assert_eq!(analog_channel(&pin(Port::A, 7)), Some(7));
    assert_eq!(analog_channel(&pin(Port::A, 8)), None);
    assert_eq!(analog_channel(&pin(Port::B, 1)), Some(9));
    assert_eq!(analog_channel(&pin(Port::B, 2)), None);
    assert_eq!(analog_channel(&pin(Port::C, 0)), None);
}

#[test]
fn register_images_are_handed_out() {
    let mut rcc = rcc();
    let adc = Adc::new(&mut rcc, 0x0040_0000);
    assert_eq!(adc.ccr(), 0x0040_0000);
    let (mut tsc, _) = Tsc::tsc((), &mut rcc, None);
    assert_eq!((tsc.iohcr(), tsc.ioscr(), tsc.iogcsr(), tsc.ioccr(), tsc.ier()), (0xffff_ffff, 0, 0, 0, 0));
    tsc.setup_sample_group(2, 3);
    tsc.enable_channel(2, 4);
    assert_eq!((tsc.ioscr(), tsc.iogcsr(), tsc.ioccr()), (1 << 6, 1 << 1, 1 << 7));
    let s = I2CSlave::i2c1_slave((), ((), ()), 0x10, &mut rcc);
    assert_eq!(s.received_count(), 0);
}
