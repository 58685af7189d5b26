use stm32f0xx_hal::i2c_slave::{
    get_interrupt, own_address, Command, Direction, Error, I2CInterrupt, I2CSlave, State, ICR_ADDRCF,
    ICR_BERRCF, ICR_NACKCF, ICR_STOPCF, SLAVE_CR1,
};
use stm32f0xx_hal::rcc::{Rcc, RccExt, RccRegisters};

const ADDR: u32 = 1 << 3;
const DIR: u32 = 1 << 16;
const RXNE: u32 = 1 << 2;
const TXIS: u32 = 1 << 1;
const STOPF: u32 = 1 << 5;
const NACKF: u32 = 1 << 4;

fn rcc() -> Rcc {
    let regs = RccRegisters { ahbenr: 0, apb1enr: 0, apb2enr: 0, ahbrstr: 0, apb1rstr: 0, apb2rstr: 0 };
    regs.configure().freeze().0
}

fn slave() -> (I2CSlave<(), (), ()>, Rcc) {
    let mut rcc = rcc();
    let s = I2CSlave::i2c1_slave((), ((), ()), 0x55, &mut rcc);
    (s, rcc)
}

#[test]
fn slave_setup_enables_clock_and_address() {
    let (_s, rcc) = slave();
    assert_eq!(rcc.regs.apb1enr, 1 << 21);
    assert_eq!(own_address(0x55), 0x8000 | (0x55 << 1));
    assert_eq!(SLAVE_CR1, 0x0004_00BC);
}

#[test]
fn interrupt_priority_decoding() {
    assert_eq!(get_interrupt(0), None);
    assert_eq!(get_interrupt(RXNE | TXIS | STOPF), Some(I2CInterrupt::ReceiveBufferNotEmpty));
    assert_eq!(get_interrupt(ADDR | DIR), Some(I2CInterrupt::AddressMatch(Direction::Read)));
    assert_eq!(get_interrupt(ADDR), Some(I2CInterrupt::AddressMatch(Direction::Write)));
    assert_eq!(get_interrupt(NACKF | STOPF), Some(I2CInterrupt::NotAcknowledgeReceived));
    assert_eq!(get_interrupt(STOPF | TXIS), Some(I2CInterrupt::StopDetection));
    assert_eq!(get_interrupt(TXIS), Some(I2CInterrupt::TXBufIntStatus));
    assert_eq!(get_interrupt(1 << 8), Some(I2CInterrupt::BusError));
    assert_eq!(get_interrupt(1 << 7), Some(I2CInterrupt::TransferCompleteReload));
}

#[test]
fn write_transfer_delivers_register_and_data() {
    let (mut s, _) = slave();
    let (r, c) = s.interrupt(ADDR, 0, false);
    assert_eq!(r, Ok(State::Buzy(I2CInterrupt::AddressMatch(Direction::Write))));
    assert_eq!(c, vec![Command::ClearFlags(ICR_ADDRCF)]);
    let (r, c) = s.interrupt(RXNE, 0x10, false);
    assert_eq!(r, Ok(State::Buzy(I2CInterrupt::ReceiveBufferNotEmpty)));
    assert!(c.is_empty());
    let (r, _) = s.interrupt(RXNE, 0xAA, false);
    assert_eq!(r, Ok(State::Buzy(I2CInterrupt::ReceiveBufferNotEmpty)));
    let (r, c) = s.interrupt(RXNE, 0xBB, true);
    assert_eq!(r, Ok(State::DataReceived(0x10)));
    assert_eq!(c, vec![Command::ClearFlags(ICR_STOPCF)]);
    assert_eq!(s.get_received_data(), vec![0xAA, 0xBB]);
    assert!(s.get_received_data().is_empty());
}

#[test]
fn separate_stop_reports_data_received_and_keeps_it() {
    let (mut s, _) = slave();
    s.interrupt(ADDR, 0, false);
    s.interrupt(RXNE, 0x10, false);
    s.interrupt(RXNE, 0xAB, false);
    let (r, c) = s.interrupt(STOPF, 0, false);
    assert_eq!(r, Ok(State::DataReceived(0x10)));
    assert_eq!(c, vec![Command::ClearFlags(ICR_STOPCF), Command::TxInterrupts(false)]);
    assert_eq!(s.get_received_data(), vec![0xAB]);
    assert!(s.get_received_data().is_empty());
}

#[test]
fn read_transfer_after_register_write() {
    let (mut s, _) = slave();
    s.interrupt(ADDR, 0, false);
    s.interrupt(RXNE, 0x20, false);
    let (r, c) = s.interrupt(ADDR | DIR, 0, false);
    assert_eq!(r, Ok(State::DataRequested(0x20)));
    assert_eq!(c, vec![Command::TxInterrupts(true), Command::FlushTxdr]);
    let (r, c) = s.send_data(Some(&[1, 2, 3]));
    assert_eq!(r, Ok(()));
    assert_eq!(c, vec![Command::Transmit(1), Command::ClearFlags(ICR_ADDRCF)]);
    let (_, c) = s.interrupt(TXIS, 0, false);
    assert_eq!(c, vec![Command::Transmit(2)]);
    let (_, c) = s.interrupt(TXIS, 0, false);
    assert_eq!(c, vec![Command::Transmit(3)]);
    let (r, c) = s.interrupt(TXIS, 0, false);
    assert_eq!(r, Ok(State::Buzy(I2CInterrupt::TXBufIntStatus)));
    assert_eq!(c, vec![Command::Transmit(0xff)]);
    let (r, c) = s.interrupt(TXIS, 0, false);
    assert_eq!(r, Err(Error::OVERRUN));
    assert_eq!(c, vec![Command::Transmit(0xff)]);
    let (r, _) = s.interrupt(STOPF, 0, false);
    assert_eq!(r, Ok(State::Buzy(I2CInterrupt::StopDetection)));
}

#[test]
fn read_without_register_transmits_filler() {
    let (mut s, _) = slave();
    let (r, c) = s.interrupt(ADDR | DIR, 0, false);
    assert_eq!(r, Ok(State::Buzy(I2CInterrupt::AddressMatch(Direction::Read))));
    assert_eq!(
        c,
        vec![Command::ClearFlags(ICR_ADDRCF), Command::TxInterrupts(true), Command::Transmit(0xff)]
    );
    let (r, c) = s.interrupt(NACKF, 0, false);
    assert_eq!(r, Ok(State::Buzy(I2CInterrupt::NotAcknowledgeReceived)));
    assert_eq!(c, vec![Command::ClearFlags(ICR_NACKCF)]);
}

#[test]
fn send_data_refuses_none_and_oversized() {
    let (mut s, _) = slave();
    let (r, c) = s.send_data(None);
    assert_eq!(r, Ok(()));
    assert_eq!(c, vec![Command::Nack, Command::ClearFlags(ICR_ADDRCF), Command::Transmit(0xff)]);
    let big = [0u8; 33];
    let (r, c) = s.send_data(Some(&big));
    assert_eq!(r, Err(Error::OVERRUN));
    assert_eq!(c, vec![Command::Nack, Command::ClearFlags(ICR_ADDRCF), Command::Transmit(0xff)]);
}

#[test]
fn receive_overrun_after_thirty_one_bytes() {
    let (mut s, _) = slave();
    s.interrupt(ADDR, 0, false);
    s.interrupt(RXNE, 0x00, false);
    for k in 0..31u8 {
        let (r, _) = s.interrupt(RXNE, k, false);
        assert_eq!(r, Ok(State::Buzy(I2CInterrupt::ReceiveBufferNotEmpty)));
    }
    let (r, c) = s.interrupt(RXNE, 0xEE, false);
    assert_eq!(r, Err(Error::OVERRUN));
    assert_eq!(c, vec![Command::Nack]);
    let data = s.get_received_data();
    assert_eq!(data.len(), 31);
    assert_eq!(data[30], 30);
}

#[test]
fn unexpected_interrupts_report_errors() {
    let (mut s, _) = slave();
    let (r, c) = s.interrupt(1 << 8, 0, false);
    assert_eq!(r, Err(Error::BUS));
    assert_eq!(c, vec![Command::ClearFlags(ICR_BERRCF)]);
    let (r, c) = s.interrupt(STOPF, 0, false);
    assert_eq!(r, Err(Error::BUS));
    assert_eq!(c, vec![Command::ClearFlags(ICR_STOPCF), Command::TxInterrupts(false)]);
    let (r, c) = s.interrupt(0, 0, false);
    assert_eq!(r, Err(Error::UNKNOWN));
    assert!(c.is_empty());
    let (r, _) = s.interrupt(1 << 9, 0, false);
    assert_eq!(r, Err(Error::ARBITRATION));
    let (r, _) = s.interrupt(1 << 10, 0, false);
    assert_eq!(r, Err(Error::OVERRUN));
    let (r, _) = s.interrupt(1 << 12, 0, false);
    assert_eq!(r, Err(Error::TIMEOUT));
    let (r, _) = s.interrupt(1 << 13, 0, false);
    assert_eq!(r, Err(Error::UNKNOWN));
    let (r, _) = s.interrupt(NACKF, 0, false);
    assert_eq!(r, Err(Error::NACK));
}

#[test]
fn direction_conversions() {
    assert_eq!(Direction::from(true), Direction::Read);
    assert_eq!(Direction::from(false), Direction::Write);
    assert!(bool::from(Direction::Read));
    assert!(!bool::from(Direction::Write));
    assert_eq!(Error::from(I2CInterrupt::Overrun), Error::OVERRUN);
    assert_eq!(Error::from(I2CInterrupt::TransferComplete), Error::UNKNOWN);
}

#[test]
fn release_gives_back_peripheral_and_pins() {
    let mut rcc = rcc();
    let s: I2CSlave<u8, u16, u32> = I2CSlave::i2c1_slave(7u8, (8u16, 9u32), 0x10, &mut rcc);
    assert_eq!(s.release(), (7u8, (8u16, 9u32)));
}
