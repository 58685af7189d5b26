use core::marker::PhantomData;

use stm32f0xx_hal::spi::{EightBit, Error, SixteenBit, Spi, SpiAction, SpiPhase};

const RXNE: u32 = 1 << 0;
const TXE: u32 = 1 << 1;
const MODF: u32 = 1 << 5;
const OVR: u32 = 1 << 6;
const BSY: u32 = 1 << 7;

fn fifo(level: u32) -> u32 {
    level << 11
}

fn spi8() -> Spi<(), (), (), (), EightBit> {
    Spi { spi: (), pins: ((), (), ()), _width: PhantomData }
}

fn spi16() -> Spi<(), (), (), (), SixteenBit> {
    Spi { spi: (), pins: ((), (), ()), _width: PhantomData }
}

#[test]
fn spi_write_fills_the_fifo_before_looking_again() {
    let mut spi = spi8();
    let (mut t, start) = spi.write(&[1, 2, 3, 4, 5, 6]);
    assert_eq!(start, vec![SpiAction::ModifyCr1 { clear: 0, set: 0xC000 }]);
    assert_eq!(t.step(TXE | BSY), vec![]);
    assert_eq!(t.step(TXE), vec![]);
    assert_eq!(t.phase(), SpiPhase::Filling);
    assert_eq!(t.step(TXE | fifo(3)), vec![]);
    assert_eq!(
        t.step(TXE | fifo(1)),
        vec![SpiAction::Send(1), SpiAction::Send(2), SpiAction::Send(3)]
    );
    assert_eq!(
        t.step(TXE | fifo(0)),
        vec![SpiAction::Send(4), SpiAction::Send(5), SpiAction::Send(6)]
    );
    assert_eq!(t.phase(), SpiPhase::Flush);
    assert_eq!(t.step(BSY), vec![]);
    assert_eq!(t.outcome(), None);
    // the last status check ignores errors
    assert_eq!(t.step(OVR), vec![]);
    assert_eq!(t.outcome(), Some(Ok(())));
}

#[test]
fn spi_write_stops_on_a_mode_fault() {
    let mut spi = spi8();
    let (mut t, _) = spi.write(&[9]);
    assert_eq!(t.step(MODF | TXE), vec![]);
    assert_eq!(t.outcome(), Some(Err(Error::ModeFault)));
}

#[test]
fn spi_write_of_nothing_still_checks_status() {
    let mut spi = spi8();
    let (mut t, _) = spi.write(&[]);
    assert_eq!(t.step(TXE), vec![]);
    assert_eq!(t.phase(), SpiPhase::Flush);
    assert_eq!(t.step(TXE), vec![]);
    assert_eq!(t.outcome(), Some(Ok(())));
}

#[test]
fn spi_sixteen_bit_write_sends_one_word_per_status() {
    let mut spi = spi16();
    let (mut t, start) = spi.write(&[0x1234, 0x5678]);
    assert_eq!(start, vec![SpiAction::ModifyCr1 { clear: 0, set: 0xC000 }]);
    assert_eq!(t.step(TXE), vec![SpiAction::Send(0x1234)]);
    assert_eq!(t.step(0), vec![]);
    assert_eq!(t.step(TXE), vec![SpiAction::Send(0x5678)]);
    assert_eq!(t.phase(), SpiPhase::Flush);
    assert_eq!(t.step(TXE), vec![]);
    assert_eq!(t.outcome(), Some(Ok(())));
}

#[test]
fn spi_transfer_reads_back_each_word() {
    let mut spi = spi8();
    let (mut t, start) = spi.transfer(&[0xA5, 0x5A]);
    assert_eq!(start, vec![SpiAction::ModifyCr1 { clear: 0xC000, set: 0 }]);
    assert_eq!(t.step(TXE), vec![SpiAction::Send(0xA5)]);
    assert_eq!(t.step(0), vec![]);
    assert_eq!(t.step(RXNE), vec![SpiAction::Read]);
    t.received(0x11);
    assert_eq!(t.step(TXE), vec![SpiAction::Send(0x5A)]);
    assert_eq!(t.step(RXNE), vec![SpiAction::Read]);
    t.received(0x22);
    assert_eq!(t.words_read(), &[0x11, 0x22]);
    assert_eq!(t.outcome(), Some(Ok(())));
}

#[test]
fn spi_read_sends_zeros() {
    let mut spi = spi16();
    let (mut t, _) = spi.read(1);
    assert_eq!(t.step(TXE), vec![SpiAction::Send(0)]);
    assert_eq!(t.step(RXNE), vec![SpiAction::Read]);
    t.received(0xBEEF);
    assert_eq!(t.words_read(), &[0xBEEF]);
    assert_eq!(t.outcome(), Some(Ok(())));
}

#[test]
fn spi_transfer_overrun_is_an_error() {
    let mut spi = spi16();
    let (mut t, _) = spi.transfer(&[1, 2]);
    assert_eq!(t.step(TXE), vec![SpiAction::Send(1)]);
    assert_eq!(t.step(OVR | RXNE), vec![]);
    assert_eq!(t.outcome(), Some(Err(Error::Overrun)));
    assert_eq!(t.words_read(), &[] as &[u16]);
}

#[test]
fn spi_transfer_of_nothing_is_done() {
    let mut spi = spi8();
    let (t, _) = spi.transfer(&[]);
    assert_eq!(t.outcome(), Some(Ok(())));
}
