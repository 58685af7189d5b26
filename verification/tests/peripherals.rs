use stm32f0xx_hal::adc::{
    Adc, AdcAlign, AdcPrecision, AdcSampleTime, SensorStep, StoredConfig, VBat, VRef, VTemp,
};
use stm32f0xx_hal::delay::{Delay, Scale, MAX_RVR};
use stm32f0xx_hal::flash::{flash_sectors, Error as FlashError, FlashExt, FlashSector, LockedFlash, WriteErase};
use stm32f0xx_hal::gpio::{Alternate, GpioExt, GpioRegisters, Input, Floating, Pin, Port, AF3};
use stm32f0xx_hal::i2c::{I2c, Timing};
use stm32f0xx_hal::pwm::{pwm_bdtr, pwm_ccmr, pwm_mode1, pwm_period};
use stm32f0xx_hal::rcc::{Rcc, RccExt, RccRegisters};
use stm32f0xx_hal::serial::{Error as SerialError, Event as SerialEvent, Serial};
use stm32f0xx_hal::signature::{FlashSize, Uid};
use stm32f0xx_hal::spi::{baud_rate, Error as SpiError, Mode, Phase, Poll, Polarity, Spi, CR1_BIDI_BITS};
use stm32f0xx_hal::time::{Bps, Hertz, KiloHertz};
use stm32f0xx_hal::timers::{prescaler_and_reload, timeout_is_valid, Timer};
use stm32f0xx_hal::tsc::{channel_of, ChargeDischargeTime, Config, Error as TscError, Event as TscEvent, MaxCount, Tsc};
use stm32f0xx_hal::usb::remap_pins;
use stm32f0xx_hal::watchdog::IwdgTimeout;

fn rcc() -> Rcc {
    let regs = RccRegisters { ahbenr: 0, apb1enr: 0, apb2enr: 0, ahbrstr: 0, apb1rstr: 0, apb2rstr: 0 };
    regs.configure().freeze().0
}

fn rcc48() -> Rcc {
    let regs = RccRegisters { ahbenr: 0, apb1enr: 0, apb2enr: 0, ahbrstr: 0, apb1rstr: 0, apb2rstr: 0 };
    regs.configure().sysclk(Hertz(48_000_000)).freeze().0
}

#[test]
fn timer_prescaler_and_reload_values() {
    assert_eq!(prescaler_and_reload(8_000_000, 1), (122, 65040));
    assert_eq!(prescaler_and_reload(8_000_000, 2), (61, 64516));
    assert_eq!(prescaler_and_reload(8_000_000, 1000), (0, 8000));
    assert_eq!(prescaler_and_reload(8_000_000, 50), (2, 53333));
    assert!(!timeout_is_valid(65_536, 1));
    assert!(!timeout_is_valid(8_000_000, 0));
    assert!(!timeout_is_valid(8_000_000, 9_000_000));
    assert!(timeout_is_valid(65_537, 1));
}

#[test]
fn timer_start_uses_timer_clock() {
    let rcc = rcc();
    let t = Timer::new((), rcc.clocks);
    assert_eq!(t.start(Hertz(1)), (122, 65040));
    let rcc = rcc48();
    let t = Timer::new(5u8, rcc.clocks);
    assert_eq!(t.start(Hertz(1000)), (0, 48000));
    assert_eq!(t.release(), 5u8);
    let (systick, rvr) = Timer::syst(7u8, Hertz(1000), &rcc);
    assert_eq!(rvr, 47_999);
    assert_eq!(systick.release(), 7u8);
    let (_, rvr) = Timer::syst((), Hertz(3), &rcc);
    assert_eq!(rvr, 15_999_999);
}

#[test]
fn watchdog_timeouts() {
    let t = IwdgTimeout::from_hertz(Hertz(100));
    assert_eq!((t.psc(), t.reload()), (0, 100));
    let t = IwdgTimeout::from_hertz(Hertz(1));
    assert_eq!((t.psc(), t.reload()), (2, 2500));
    let t = IwdgTimeout::from_hertz(Hertz(2));
    assert_eq!((t.psc(), t.reload()), (1, 2500));
    let t = IwdgTimeout::from_hertz(Hertz(20_000));
    assert_eq!((t.psc(), t.reload()), (0, 0));
}

#[test]
fn flash_program_packs_halfwords() {
    let size = FlashSize::from_raw(32);
    assert_eq!(size.bytes(), 32 * 1024);
    let mut locked = LockedFlash::new((), size);
    assert_eq!(locked.len(), 32 * 1024);
    assert_eq!(locked.address(), 0x0800_0000);
    let mut flash = locked.unlocked();
    let plan = flash.program(0x0800_0100, &[0x11, 0x22, 0x33]).unwrap();
    assert_eq!(plan, vec![(0x0800_0100, 0x2211), (0x0800_0102, 0xFF33)]);
    assert_eq!(flash.program(0x0800_0101, &[1]), Err(FlashError::Alignment));
    assert_eq!(flash.program_native(0x0800_0200, &[0xABCD, 0x1234]), vec![(0x0800_0200, 0xABCD), (0x0800_0202, 0x1234)]);
    assert_eq!(flash.program_native(0x0800_0201, &[]), vec![]);
    assert_eq!(flash.write(4, &[]).unwrap(), vec![]);
    assert_eq!(flash.write(4, &[5, 6]).unwrap(), vec![(0x0800_0004, 0x0605)]);
    assert_eq!(flash.erase(2048), 0x0800_0800);
    assert_eq!(flash.capacity(), 32 * 1024);
}

#[test]
fn flash_status_errors() {
    let mut locked = LockedFlash::new((), FlashSize::from_raw(16));
    let flash = locked.unlocked();
    assert_eq!(flash.ok(0), Ok(()));
    assert_eq!(flash.ok(1 << 2), Err(FlashError::Programming));
    assert_eq!(flash.ok(1 << 4), Err(FlashError::WriteProtection));
    assert_eq!(flash.ok((1 << 4) | (1 << 2)), Err(FlashError::Programming));
}

#[test]
fn flash_erase_plans() {
    let mut locked = LockedFlash::new((), FlashSize::from_raw(8));
    let flash = locked.unlocked();
    assert_eq!(flash.erase_plan(1024, 4096), vec![1024, 2048, 3072]);
    assert_eq!(flash.erase_plan(0, 0), vec![]);
    assert_eq!(flash.erase_plan(0, 8192), vec![0, 1024, 2048, 3072, 4096, 5120, 6144, 7168]);
    assert_eq!(flash.erase_plan(2048, 1024), vec![]);
    assert_eq!(flash.erase_plan(7168, 20000), vec![7168]);
    assert_eq!(flash.erase_plan(9000, 10000), vec![]);
    // an unaligned start erases pages from that address on
    assert_eq!(flash.erase_plan(1000, 1100), vec![1000]);
}

#[test]
fn flash_sector_iteration() {
    let mut it = flash_sectors(256 * 1024);
    assert_eq!(it.next(), Some(FlashSector { number: 0, offset: 0, size: 16 * 1024 }));
    assert_eq!(it.next(), Some(FlashSector { number: 1, offset: 16 * 1024, size: 16 * 1024 }));
    assert_eq!(it.next(), Some(FlashSector { number: 2, offset: 32 * 1024, size: 16 * 1024 }));
    let s = it.next().unwrap();
    assert_eq!((s.number, s.offset, s.size), (3, 48 * 1024, 64 * 1024));
    assert!(s.contains(48 * 1024) && s.contains(112 * 1024 - 1) && !s.contains(112 * 1024) && !s.contains(48 * 1024 - 1));
    assert_eq!(it.next(), Some(FlashSector { number: 4, offset: 112 * 1024, size: 128 * 1024 }));
    assert_eq!(it.next(), Some(FlashSector { number: 5, offset: 240 * 1024, size: 128 * 1024 }));
    assert_eq!(it.next(), None);
    assert_eq!(it.next(), None);
    let mut small = flash_sectors(2500);
    assert_eq!(small.next(), Some(FlashSector { number: 0, offset: 0, size: 16 * 1024 }));
    assert_eq!(small.next(), None);
    assert_eq!(flash_sectors(0).next(), None);
}

#[test]
fn adc_configuration() {
    let mut rcc = rcc();
    let mut adc = Adc::new(&mut rcc, 0);
    assert_eq!(rcc.regs.apb2enr, 1 << 9);
    assert_eq!(adc.max_sample(), 0x0fff);
    adc.set_precision(AdcPrecision::B_8);
    assert_eq!(adc.max_sample(), 0x00ff);
    adc.set_align(AdcAlign::Left);
    assert_eq!(adc.max_sample(), 0xffff);
    adc.set_align(AdcAlign::LeftAsRM);
    adc.set_precision(AdcPrecision::B_6);
    assert_eq!(adc.max_sample(), 0xff);
    adc.set_sample_time(AdcSampleTime::T_7);
    let saved = adc.default_cfg();
    assert_eq!(saved, StoredConfig(AdcSampleTime::T_7, AdcAlign::LeftAsRM, AdcPrecision::B_6));
    assert_eq!(adc.save_cfg(), StoredConfig(AdcSampleTime::T_239, AdcAlign::Right, AdcPrecision::B_12));
    adc.restore_cfg(saved);
    assert_eq!(adc.save_cfg(), saved);
    assert_eq!(AdcSampleTime::default(), AdcSampleTime::T_239);
    assert_eq!(AdcAlign::default(), AdcAlign::Right);
    assert_eq!(AdcPrecision::default(), AdcPrecision::B_12);
}

#[test]
fn adc_conversion_words() {
    let mut rcc = rcc();
    let mut adc = Adc::new(&mut rcc, 0);
    adc.set_align(AdcAlign::Left);
    adc.set_precision(AdcPrecision::B_6);
    adc.set_sample_time(AdcSampleTime::T_28);
    let setup = adc.convert_setup(16);
    assert_eq!(setup.chselr, 1 << 16);
    assert_eq!(setup.smpr, 0b011);
    // the last CFGR1 value keeps ALIGN next to RES
    assert_eq!(setup.cfgr1, 0x20 | (0b11 << 3));
    assert_eq!(adc.convert_result(0x2a), 0x2a00);
    adc.set_align(AdcAlign::Right);
    assert_eq!(adc.convert_result(0x2a), 0x2a);
    // left aligned 12-bit: the converter leaves the sample shifted up by four
    adc.set_align(AdcAlign::Left);
    adc.set_precision(AdcPrecision::B_12);
    assert_eq!(adc.convert_setup(3).cfgr1, 0x20);
    assert_eq!(adc.convert_result(0xABC << 4), 0xABC0);
    adc.set_align(AdcAlign::LeftAsRM);
    adc.set_precision(AdcPrecision::B_6);
    assert_eq!(adc.convert_setup(3).cfgr1, 0x20 | 0x18);
    assert_eq!(adc.convert_result(0x2a << 2), 0xa8);
}

#[test]
fn adc_internal_channels() {
    let mut rcc = rcc();
    let mut adc = Adc::new(&mut rcc, 0);
    let mut t = VTemp::new();
    let mut v = VRef::new();
    let mut b = VBat::new();
    assert!(!t.is_enabled(&adc));
    t.enable(&mut adc);
    v.enable(&mut adc);
    assert!(t.is_enabled(&adc) && v.is_enabled(&adc) && !b.is_enabled(&adc));
    b.enable(&mut adc);
    t.disable(&mut adc);
    assert!(!t.is_enabled(&adc) && b.is_enabled(&adc));
    v.disable(&mut adc);
    b.disable(&mut adc);
    assert!(!v.is_enabled(&adc) && !b.is_enabled(&adc));
}

#[test]
fn adc_voltages_and_temperature() {
    assert_eq!(VRef::read_vdda(1500, 1500), 3300);
    assert_eq!(VRef::read_vdda(1520, 1600), 3135);
    let mut rcc = rcc();
    let adc = Adc::new(&mut rcc, 0);
    assert_eq!(adc.read_abs_mv(0x0fff, 3300), 3300);
    assert_eq!(adc.read_abs_mv(2048, 3300), 1650);
    assert_eq!(VBat::read(&adc, 3300, 2048), 3300);
    assert_eq!(VTemp::convert_temp(1700, 3300, 1750, 1400), 4142);
    assert_eq!(VTemp::convert_temp(1750, 3300, 1750, 1400), 3000);
}

#[test]
fn delay_splits() {
    let rcc = rcc48();
    let mut d = Delay::new(rcc.clocks);
    assert_eq!(d.scale, Scale::Mult(48));
    assert_eq!(d.delay_us(10), vec![480]);
    let chunks = d.delay_us(200_000);
    assert_eq!(chunks, vec![MAX_RVR, 9_600_000 - MAX_RVR]);
    assert!(d.delay_us(0).is_empty());
    assert_eq!(d.delay_ms(70_000), vec![65_535_000, 4_465_000]);
    assert_eq!(d.delay_ms_u16(3), 3_000);
    assert_eq!(d.delay_ms_u8(3), 3_000);
    assert_eq!(d.delay_us_u16(2), vec![96]);
    assert_eq!(d.delay_us_u8(255), vec![12_240]);
    let mut slow = Delay { scale: Scale::Div(4) };
    assert_eq!(slow.delay_us(10), vec![2]);
}

#[test]
fn gpio_mode_fields() {
    let mut regs = GpioRegisters { moder: 0xffff_ffff, otyper: 0, ospeedr: 0xffff, pupdr: 0, afrl: 0, afrh: 0 };
    regs.into_push_pull_output(3);
    assert_eq!(regs.moder, 0xffff_ff7f);
    regs.into_alternate(9, 4);
    assert_eq!(regs.afrh, 0x40);
    assert_eq!((regs.moder >> 18) & 0b11, 0b10);
    regs.into_alternate(2, 1);
    assert_eq!(regs.afrl, 0x100);
    regs.into_pull_up_input(0);
    assert_eq!(regs.pupdr & 0b11, 0b01);
    assert_eq!(regs.moder & 0b11, 0);
    regs.into_open_drain_output(5);
    assert_eq!(regs.otyper, 1 << 5);
    regs.into_push_pull_output_hs(5);
    assert_eq!(regs.otyper, 0);
    assert_eq!(regs.ospeedr, 0xffff & !(1 << 5));
    regs.internal_pull_up(7, true);
    assert_eq!((regs.pupdr >> 14) & 0b11, 0b01);
    regs.into_analog(7);
    assert_eq!((regs.moder >> 14) & 0b11, 0b11);
    assert_eq!((regs.pupdr >> 14) & 0b11, 0);
    regs.into_pull_down_input(1);
    assert_eq!((regs.pupdr >> 2) & 0b11, 0b10);
    regs.into_floating_input(1);
    assert_eq!((regs.pupdr >> 2) & 0b11, 0);
    regs.set_open_drain(15);
    assert_eq!(regs.otyper, 1 << 15);
}

#[test]
fn gpio_split_and_pins() {
    let mut rcc = rcc();
    let pins: Vec<Pin<Input<Floating>>> = Port::B.split(&mut rcc);
    assert_eq!(rcc.regs.ahbenr, 1 << 18);
    assert_eq!(pins.len(), 16);
    let mut p = pins.into_iter().nth(6).unwrap();
    assert_eq!(p.i, 6);
    assert_eq!(p.set_high(), 1 << 6);
    assert_eq!(p.set_low(), 1 << 22);
    assert!(p.is_low(0) && p.is_high(1 << 6));
    assert!(p.is_set_high(0xffff) && p.is_set_low(0));
}

#[test]
fn i2c_master_timing_and_transfers() {
    let t = Timing::for_speed(KiloHertz(100));
    assert_eq!((t.presc, t.scll, t.sclh, t.sdadel, t.scldel), (1, 31, 27, 2, 4));
    assert_eq!(t.timingr(), 0x1042_1B1F);
    let t = Timing::for_speed(KiloHertz(400));
    assert_eq!((t.presc, t.scll, t.sclh, t.sdadel, t.scldel), (0, 15, 9, 1, 3));
    assert_eq!(t.timingr(), 0x0031_090F);
    let mut rcc = rcc();
    let (i2c, timingr) = I2c::i2c1((), ((), ()), KiloHertz(400), &mut rcc);
    assert_eq!(timingr, 0x0031_090F);
    assert_eq!(rcc.regs.apb1enr, 1 << 21);
    assert_eq!(i2c.release(), ((), ((), ())));
}

#[test]
fn spi_setup_words_and_status() {
    let mut rcc = rcc48();
    let mode = Mode { polarity: Polarity::IdleHigh, phase: Phase::CaptureOnSecondTransition };
    let (mut spi, cr1) = Spi::spi1((), ((), (), ()), mode, Hertz(1_000_000), &mut rcc);
    // 48 MHz / 1 MHz = 48 selects a divider of 64
    assert_eq!(cr1, 0x3 | 0x4 | (0b101 << 3) | 0x40 | 0x100 | 0x200);
    assert_eq!(rcc.regs.apb2enr, 1 << 12);
    assert_eq!(baud_rate(2), 0);
    assert_eq!(baud_rate(3), 1);
    assert_eq!(baud_rate(500), 7);
    assert_eq!(spi.set_send_only(0), CR1_BIDI_BITS);
    assert_eq!(spi.set_bidi(0xffff), 0xffff & !CR1_BIDI_BITS);
    assert_eq!(spi.check_read(1), Poll::Ready);
    assert_eq!(spi.check_read(0), Poll::WouldBlock);
    assert_eq!(spi.check_read(1 << 6 | 1), Poll::Failed(SpiError::Overrun));
    assert_eq!(spi.check_send(1 << 1), Poll::Ready);
    assert_eq!(spi.check_send(1 << 1 | 1 << 7), Poll::WouldBlock);
    assert_eq!(spi.check_send(1 << 5), Poll::Failed(SpiError::ModeFault));
    assert_eq!(spi.check_send(1 << 4), Poll::Failed(SpiError::Crc));
    assert_eq!(spi.send_buffer_size(0), 4);
    assert_eq!(spi.send_buffer_size(1 << 11), 3);
    assert_eq!(spi.send_buffer_size(2 << 11), 2);
    assert_eq!(spi.send_buffer_size(3 << 11), 0);
    let (spi16, cr2_16) = spi.into_16bit_width();
    assert_eq!(cr2_16, 0x0F00);
    assert_eq!(cr2_16 & (1 << 12), 0);
    let (spi8, cr2_8) = spi16.into_8bit_width();
    assert_eq!(cr2_8, 0x1700);
    assert_eq!(spi8.release(), ((), ((), (), ())));
}

#[test]
fn serial_setup_and_status() {
    let mut rcc = rcc48();
    let (mut serial, brr) = Serial::usart1((), ((), ()), Bps(115_200), &mut rcc);
    assert_eq!(brr, 416);
    assert_eq!(rcc.regs.apb2enr, 1 << 14);
    assert_eq!(serial.listen(SerialEvent::Rxne, 0), 1 << 5);
    assert_eq!(serial.unlisten(SerialEvent::Rxne, 0xff), 0xff & !(1 << 5));
    assert_eq!(serial.listen(SerialEvent::Txe, 0), 1 << 7);
    assert_eq!(serial.listen(SerialEvent::Idle, 0), 1 << 4);
    let (mut tx, mut rx) = serial.split();
    assert_eq!(rx.read(1 << 5), (Poll::Ready, 0));
    assert_eq!(rx.read(0), (Poll::WouldBlock, 0));
    assert_eq!(rx.read(1 | 1 << 5), (Poll::Failed(SerialError::Parity), 1));
    assert_eq!(rx.read(1 | 1 << 1 | 1 << 3), (Poll::Failed(SerialError::Parity), 1));
    assert_eq!(rx.read(1 << 1), (Poll::Failed(SerialError::Framing), 1 << 1));
    assert_eq!(rx.read(1 << 2), (Poll::Failed(SerialError::Noise), 1 << 2));
    assert_eq!(rx.read(1 << 3), (Poll::Failed(SerialError::Overrun), 1 << 3));
    assert_eq!(tx.write(1 << 7), Poll::Ready);
    assert_eq!(tx.write(0), Poll::WouldBlock);
    assert_eq!(tx.flush(1 << 6), Poll::Ready);
    assert_eq!(tx.flush(0), Poll::WouldBlock);
}

#[test]
fn tsc_setup_and_channels() {
    let mut rcc = rcc();
    let (mut tsc, cr) = Tsc::tsc((), &mut rcc, None);
    assert_eq!(cr, 0x1121_40A1);
    assert_eq!(rcc.regs.ahbenr, 1 << 24);
    let cfg = Config {
        clock_prescale: None,
        max_count: Some(MaxCount::U255),
        charge_transfer_high: Some(ChargeDischargeTime::C16),
        charge_transfer_low: None,
    };
    let (_t2, cr2) = Tsc::tsc((), &mut rcc, Some(cfg));
    assert_eq!(cr2, 0xF121_4001);
    tsc.setup_sample_group(2, 4);
    tsc.enable_channel(2, 3);
    let counts = [10, 20, 30, 40, 50, 60];
    assert_eq!(tsc.read(2, 3, counts), Ok(20));
    assert_eq!(tsc.read(1, 1, counts), Err(TscError::InvalidPin));
    tsc.disable_channel(2, 3);
    assert_eq!(tsc.read(2, 3, counts), Err(TscError::InvalidPin));
    assert_eq!(tsc.read_unchecked(6, counts), 60);
    assert_eq!(tsc.read_unchecked(7, counts), 0);
    assert_eq!(tsc.start(0xffff_ffff), 0xffff_ffef);
    assert_eq!(tsc.check_event(3), Some(TscEvent::EndOfAcquisition));
    assert_eq!(tsc.check_event(2), Some(TscEvent::MaxCountError));
    assert_eq!(tsc.check_event(0), None);
    assert_eq!(tsc.clear(TscEvent::MaxCountError), 2);
    assert_eq!(tsc.acquire(None), None);
    assert_eq!(tsc.acquire(Some(TscEvent::EndOfAcquisition)), Some(Ok(())));
    assert_eq!(tsc.acquire(Some(TscEvent::MaxCountError)), Some(Err(TscError::MaxCountError)));
    tsc.listen(TscEvent::EndOfAcquisition);
    tsc.unlisten(TscEvent::EndOfAcquisition);
    assert_eq!(tsc.free(), ());
}

#[test]
fn signature_values() {
    let uid = Uid::from_raw(3, 4, [7, b'A', b'B', b'C', b'D', b'E', b'F', b'G']);
    assert_eq!(uid.x(), 3);
    assert_eq!(uid.y(), 4);
    assert_eq!(uid.waf_num(), 7);
    assert_eq!(uid.lot_num(), b"ABCDEFG".to_vec());
    assert_eq!(FlashSize::from_raw(64).kilo_bytes(), 64);
}

#[test]
fn pwm_and_usb_words() {
    assert_eq!(pwm_mode1(0, false), 0x68);
    assert_eq!(pwm_mode1(0xffff, true), 0xffff & !0x1000);
    assert_eq!(pwm_ccmr(0, 0, [true, false, false, true]), (0x68, 0x6800));
    assert_eq!(pwm_ccmr(0x7, 0x9, [false, false, false, false]), (0x7, 0x9));
    assert_eq!(pwm_ccmr(0, 0, [true, true, true, true]), (0x6868, 0x6868));
    assert_eq!(pwm_bdtr(0, true, true), 0x4800);
    assert_eq!(pwm_bdtr(1, false, false), 1);
    assert_eq!(pwm_bdtr(0, false, true), 0x4000);
    assert_eq!(pwm_period(&rcc().clocks, Hertz(1_000)), (0, 8_000));
    let mut rcc = rcc();
    assert_eq!(remap_pins(&mut rcc, 0), 1 << 4);
    assert_eq!(rcc.regs.apb2enr, 1);
}

fn af3(port: Port, i: u8) -> Pin<Alternate<AF3>> {
    Pin { i, port, _mode: core::marker::PhantomData }
}

#[test]
fn touch_sense_channels_of_pins() {
    assert_eq!(channel_of(&af3(Port::A, 0)), Some((1, 1)));
    assert_eq!(channel_of(&af3(Port::A, 3)), Some((1, 4)));
    assert_eq!(channel_of(&af3(Port::A, 4)), Some((2, 1)));
    assert_eq!(channel_of(&af3(Port::A, 7)), Some((2, 4)));
    assert_eq!(channel_of(&af3(Port::A, 8)), None);
    assert_eq!(channel_of(&af3(Port::A, 9)), Some((4, 1)));
    assert_eq!(channel_of(&af3(Port::A, 12)), Some((4, 4)));
    assert_eq!(channel_of(&af3(Port::A, 13)), None);
    assert_eq!(channel_of(&af3(Port::B, 0)), Some((3, 2)));
    assert_eq!(channel_of(&af3(Port::B, 2)), Some((3, 4)));
    assert_eq!(channel_of(&af3(Port::B, 3)), Some((5, 1)));
    assert_eq!(channel_of(&af3(Port::B, 4)), Some((5, 2)));
    assert_eq!(channel_of(&af3(Port::B, 5)), None);
    assert_eq!(channel_of(&af3(Port::B, 6)), Some((5, 3)));
    assert_eq!(channel_of(&af3(Port::B, 7)), Some((5, 4)));
    assert_eq!(channel_of(&af3(Port::C, 0)), None);
}

#[test]
fn flash_unlock_and_relock() {
    let mut locked = LockedFlash::new((), FlashSize::from_raw(8));
    assert_eq!(locked.unlock_sequence(), [0x45670123, 0xCDEF89AB]);
    assert!(!locked.unlock_took_effect(0x80));
    assert!(locked.unlock_took_effect(0x00));
    let flash = locked.unlocked();
    assert_eq!(flash.relock(0x00), 0x80);
    assert_eq!(flash.relock(0x02), 0x82);
    assert_eq!(flash.relock(0x80), 0x80);
}

#[test]
fn internal_channel_reading_steps() {
    assert_eq!(
        VTemp::read_steps(false, true),
        vec![SensorStep::Enable, SensorStep::Wait, SensorStep::ReadVdda, SensorStep::UseDefaults, SensorStep::Convert, SensorStep::Disable, SensorStep::Restore]
    );
    assert_eq!(
        VTemp::read_steps(false, false),
        vec![SensorStep::Enable, SensorStep::ReadVdda, SensorStep::ReadVdda, SensorStep::UseDefaults, SensorStep::Convert, SensorStep::Disable, SensorStep::Restore]
    );
    assert_eq!(VTemp::read_steps(true, true), vec![SensorStep::ReadVdda, SensorStep::UseDefaults, SensorStep::Convert, SensorStep::Restore]);
    assert_eq!(VRef::read_vdda_steps(false), vec![SensorStep::UseDefaults, SensorStep::Enable, SensorStep::Convert, SensorStep::Disable, SensorStep::Restore]);
    assert_eq!(VRef::read_vdda_steps(true), vec![SensorStep::UseDefaults, SensorStep::Convert, SensorStep::Restore]);
    assert_eq!(VBat::read_steps(false), vec![SensorStep::Enable, SensorStep::ReadVdda, SensorStep::Convert, SensorStep::Disable]);
    assert_eq!(VBat::read_steps(true), vec![SensorStep::ReadVdda, SensorStep::Convert]);
}
