//! I2C slave: the interrupt-driven transfer state machine

use vstd::prelude::*;

use crate::rcc::{bit_is_set, Bus, Rcc};

verus! {

/// Size of the transfer buffer
pub const BUFFER_SIZE: usize = 32;

/// I2C slave state
/// DataRequested: Data requested by the master, 8bit register address attached
///
/// DataReceived: Data received from the master, 8bit register address attached
///
/// Buzy: I2C interrupt that is currently being handled
#[derive(Copy, Clone, Debug, PartialEq, Eq, Structural)]
pub enum State {
    DataRequested(u8),
    DataReceived(u8),
    Buzy(I2CInterrupt),
}

/// Progress of the current transfer
#[derive(PartialEq, Eq, Structural, Copy, Clone, Debug)]
pub enum TransferState {
    Idle,
    Addr(Direction),
    RegSet,
    Receiving,
    Transmitting,
}

/// I2C errors
#[derive(Debug, PartialEq, Eq, Structural, Copy, Clone)]
pub enum Error {
    /// Overrun/Underrun
    OVERRUN,
    /// Not Acknowledge received
    NACK,
    /// Bus error
    BUS,
    /// Arbitration lost
    ARBITRATION,
    /// Timeout / t LOW error
    TIMEOUT,
    /// Packet error checking
    PEC,
    /// Unknown error
    UNKNOWN,
}

/// direction as specified in the datasheet
#[derive(PartialEq, Eq, Structural, Copy, Clone, Debug)]
pub enum Direction {
    /// slave is receiver
    Write,
    /// slave is transmitter
    Read,
}

/// Enum representing the diffrent interuptt triggers from the STM32 reference manual:
/// The I2C slave interrupt request is generated when the following events occur:
#[derive(PartialEq, Eq, Structural, Copy, Clone, Debug)]
pub enum I2CInterrupt {
    /// • Receive buffer not empty (RXNE = 1)
    ReceiveBufferNotEmpty,
    /// • Transmit buffer interrupt status (TXIS = 1)
    TXBufIntStatus,
    /// • Stop detection (STOPF = 1)
    StopDetection,
    /// • Transfer complete reload (TCR = 1)
    TransferCompleteReload,
    /// • Transfer complete (TC = 1)
    TransferComplete,
    /// • Address matched with own address (ADDR = 1)
    AddressMatch(Direction),
    /// • Bus error (BERR = 1)
    BusError,
    /// • Arbitration lost (ARLO = 1)
    ArbitrationLost,
    /// • Overrun/Underrun (OVR = 1)
    Overrun,
    /// • Timeout / t LOW error  (TIMEOUT = 1)
    Timeout,
    /// • SMBus alert (ALERT = 1)
    SMBusAlert,
    /// • Not Acknowledge received (NACKF = 1)
    NotAcknowledgeReceived,
}

/// The error that an unexpected interrupt reports.
pub open spec fn interrupt_error(i: I2CInterrupt) -> Error {
    match i {
        I2CInterrupt::Overrun => Error::OVERRUN,
        I2CInterrupt::NotAcknowledgeReceived => Error::NACK,
        I2CInterrupt::BusError => Error::BUS,
        I2CInterrupt::ArbitrationLost => Error::ARBITRATION,
        I2CInterrupt::Timeout => Error::TIMEOUT,
        _ => Error::UNKNOWN,
    }
}

impl From<I2CInterrupt> for Error {
    fn from(i: I2CInterrupt) -> (r: Error) {
        match i {
            I2CInterrupt::Overrun => Error::OVERRUN,
            I2CInterrupt::NotAcknowledgeReceived => Error::NACK,
            I2CInterrupt::BusError => Error::BUS,
            I2CInterrupt::ArbitrationLost => Error::ARBITRATION,
            I2CInterrupt::Timeout => Error::TIMEOUT,
            _ => Error::UNKNOWN,
        }
    }
}

impl vstd::std_specs::convert::FromSpecImpl<I2CInterrupt> for Error {
    open spec fn obeys_from_spec() -> bool {
        true
    }

    open spec fn from_spec(i: I2CInterrupt) -> Error {
        interrupt_error(i)
    }
}

impl From<Direction> for bool {
    fn from(dir: Direction) -> (r: bool) {
        match dir {
            Direction::Read => true,
            Direction::Write => false,
        }
    }
}

impl vstd::std_specs::convert::FromSpecImpl<Direction> for bool {
    open spec fn obeys_from_spec() -> bool {
        true
    }

    open spec fn from_spec(dir: Direction) -> bool {
        direction_bit(dir)
    }
}

impl From<bool> for Direction {
    fn from(raw: bool) -> (r: Direction) {
        if raw {
            Direction::Read
        } else {
            Direction::Write
        }
    }
}

impl vstd::std_specs::convert::FromSpecImpl<bool> for Direction {
    open spec fn obeys_from_spec() -> bool {
        true
    }

    open spec fn from_spec(raw: bool) -> Direction {
        direction_of(raw)
    }
}

/// The DIR bit of I2C_ISR for a direction: set when the slave transmits.
pub open spec fn direction_bit(dir: Direction) -> bool {
    dir == Direction::Read
}

/// The direction that a DIR bit of I2C_ISR reports.
pub open spec fn direction_of(raw: bool) -> Direction {
    if raw {
        Direction::Read
    } else {
        Direction::Write
    }
}

/// A direction turned into its DIR bit and back is the same direction, and a
/// DIR bit turned into a direction and back is the same bit.
pub proof fn lemma_direction_round_trip(dir: Direction, raw: bool)
    ensures
        direction_of(direction_bit(dir)) == dir,
        direction_bit(direction_of(raw)) == raw,
{
}

// Bit positions in I2C_ISR
pub const ISR_TXIS: u32 = 1;
pub const ISR_RXNE: u32 = 2;
pub const ISR_ADDR: u32 = 3;
pub const ISR_NACKF: u32 = 4;
pub const ISR_STOPF: u32 = 5;
pub const ISR_TC: u32 = 6;
pub const ISR_TCR: u32 = 7;
pub const ISR_BERR: u32 = 8;
pub const ISR_ARLO: u32 = 9;
pub const ISR_OVR: u32 = 10;
pub const ISR_TIMEOUT: u32 = 12;
pub const ISR_ALERT: u32 = 13;
pub const ISR_DIR: u32 = 16;

// Masks in I2C_ICR
pub const ICR_ADDRCF: u32 = 0x0008;
pub const ICR_NACKCF: u32 = 0x0010;
pub const ICR_STOPCF: u32 = 0x0020;
pub const ICR_BERRCF: u32 = 0x0100;
pub const ICR_ARLOCF: u32 = 0x0200;
pub const ICR_OVRCF: u32 = 0x0400;
pub const ICR_TIMOUTCF: u32 = 0x1000;
pub const ICR_ALERTCF: u32 = 0x2000;

/// The interrupt that a value of I2C_ISR reports, by priority: RXNE, TCR, TC,
/// ADDR (with the direction from DIR), BERR, ARLO, OVR, TIMEOUT, ALERT,
/// NACKF, STOPF, TXIS.
pub open spec fn interrupt_flag(isr: u32) -> Option<I2CInterrupt> {
    if bit_is_set(isr, ISR_RXNE) {
        Some(I2CInterrupt::ReceiveBufferNotEmpty)
    } else if bit_is_set(isr, ISR_TCR) {
        Some(I2CInterrupt::TransferCompleteReload)
    } else if bit_is_set(isr, ISR_TC) {
        Some(I2CInterrupt::TransferComplete)
    } else if bit_is_set(isr, ISR_ADDR) {
        Some(I2CInterrupt::AddressMatch(
            if bit_is_set(isr, ISR_DIR) { Direction::Read } else { Direction::Write },
        ))
    } else if bit_is_set(isr, ISR_BERR) {
        Some(I2CInterrupt::BusError)
    } else if bit_is_set(isr, ISR_ARLO) {
        Some(I2CInterrupt::ArbitrationLost)
    } else if bit_is_set(isr, ISR_OVR) {
        Some(I2CInterrupt::Overrun)
    } else if bit_is_set(isr, ISR_TIMEOUT) {
        Some(I2CInterrupt::Timeout)
    } else if bit_is_set(isr, ISR_ALERT) {
        Some(I2CInterrupt::SMBusAlert)
    } else if bit_is_set(isr, ISR_NACKF) {
        Some(I2CInterrupt::NotAcknowledgeReceived)
    } else if bit_is_set(isr, ISR_STOPF) {
        Some(I2CInterrupt::StopDetection)
    } else if bit_is_set(isr, ISR_TXIS) {
        Some(I2CInterrupt::TXBufIntStatus)
    } else {
        None
    }
}

fn isr_bit(isr: u32, bit: u32) -> (r: bool)
    requires
        bit < 32,
    ensures
        r == bit_is_set(isr, bit),
{
    isr & (1u32 << bit) != 0
}

/// Finds what triggered the interrupt.
pub fn get_interrupt(isr: u32) -> (r: Option<I2CInterrupt>)
    ensures
        r == interrupt_flag(isr),
{
    if isr_bit(isr, ISR_RXNE) {
        return Some(I2CInterrupt::ReceiveBufferNotEmpty);
    }
    if isr_bit(isr, ISR_TCR) {
        return Some(I2CInterrupt::TransferCompleteReload);
    }
    if isr_bit(isr, ISR_TC) {
        return Some(I2CInterrupt::TransferComplete);
    }
    if isr_bit(isr, ISR_ADDR) {
        return Some(I2CInterrupt::AddressMatch(Direction::from(isr_bit(isr, ISR_DIR))));
    }
    if isr_bit(isr, ISR_BERR) {
        return Some(I2CInterrupt::BusError);
    }
    if isr_bit(isr, ISR_ARLO) {
        return Some(I2CInterrupt::ArbitrationLost);
    }
    if isr_bit(isr, ISR_OVR) {
        return Some(I2CInterrupt::Overrun);
    }
    if isr_bit(isr, ISR_TIMEOUT) {
        return Some(I2CInterrupt::Timeout);
    }
    if isr_bit(isr, ISR_ALERT) {
        return Some(I2CInterrupt::SMBusAlert);
    }
    if isr_bit(isr, ISR_NACKF) {
        return Some(I2CInterrupt::NotAcknowledgeReceived);
    }
    if isr_bit(isr, ISR_STOPF) {
        return Some(I2CInterrupt::StopDetection);
    }
    if isr_bit(isr, ISR_TXIS) {
        return Some(I2CInterrupt::TXBufIntStatus);
    }
    None
}

/// A register access that the interrupt handler asks the caller to perform
#[derive(PartialEq, Eq, Structural, Copy, Clone, Debug)]
pub enum Command {
    /// Write the byte to I2C_TXDR
    Transmit(u8),
    /// Write the mask to I2C_ICR, clearing those flags
    ClearFlags(u32),
    /// Set NACK in I2C_CR2
    Nack,
    /// Set (`true`) or clear (`false`) both TXIE and TCIE in I2C_CR1
    TxInterrupts(bool),
    /// Set TXE in I2C_ISR, flushing I2C_TXDR
    FlushTxdr,
}

/// The register accesses that clear an interrupt flag. RXNE is cleared by
/// reading I2C_RXDR, which the caller does before handling it; TC and TCR
/// only occur in master mode and need nothing.
pub open spec fn clear_commands(i: I2CInterrupt) -> Seq<Command> {
    match i {
        I2CInterrupt::ReceiveBufferNotEmpty => seq![],
        I2CInterrupt::TXBufIntStatus => seq![Command::Transmit(0xff)],
        I2CInterrupt::StopDetection => seq![Command::ClearFlags(ICR_STOPCF)],
        I2CInterrupt::TransferComplete => seq![],
        I2CInterrupt::TransferCompleteReload => seq![],
        I2CInterrupt::AddressMatch(_) => seq![Command::ClearFlags(ICR_ADDRCF)],
        I2CInterrupt::BusError => seq![Command::ClearFlags(ICR_BERRCF)],
        I2CInterrupt::ArbitrationLost => seq![Command::ClearFlags(ICR_ARLOCF)],
        I2CInterrupt::Overrun => seq![Command::ClearFlags(ICR_OVRCF)],
        I2CInterrupt::Timeout => seq![Command::ClearFlags(ICR_TIMOUTCF)],
        I2CInterrupt::SMBusAlert => seq![Command::ClearFlags(ICR_ALERTCF)],
        I2CInterrupt::NotAcknowledgeReceived => seq![Command::ClearFlags(ICR_NACKCF)],
    }
}

fn clear_interrupt(interrupt: I2CInterrupt, cmds: &mut Vec<Command>)
    ensures
        final(cmds)@ == old(cmds)@ + clear_commands(interrupt),
{
    match interrupt {
        I2CInterrupt::ReceiveBufferNotEmpty => {},
        I2CInterrupt::TXBufIntStatus => { cmds.push(Command::Transmit(0xff)); },
        I2CInterrupt::StopDetection => { cmds.push(Command::ClearFlags(ICR_STOPCF)); },
        I2CInterrupt::TransferComplete | I2CInterrupt::TransferCompleteReload => {},
        I2CInterrupt::AddressMatch(_) => { cmds.push(Command::ClearFlags(ICR_ADDRCF)); },
        I2CInterrupt::BusError => { cmds.push(Command::ClearFlags(ICR_BERRCF)); },
        I2CInterrupt::ArbitrationLost => { cmds.push(Command::ClearFlags(ICR_ARLOCF)); },
        I2CInterrupt::Overrun => { cmds.push(Command::ClearFlags(ICR_OVRCF)); },
        I2CInterrupt::Timeout => { cmds.push(Command::ClearFlags(ICR_TIMOUTCF)); },
        I2CInterrupt::SMBusAlert => { cmds.push(Command::ClearFlags(ICR_ALERTCF)); },
        I2CInterrupt::NotAcknowledgeReceived => { cmds.push(Command::ClearFlags(ICR_NACKCF)); },
    }
    proof {
        assert(final(cmds)@ =~= old(cmds)@ + clear_commands(interrupt));
    }
}

/// The software state of an I2C slave, as a value
pub struct SlaveView {
    pub buffer: Seq<u8>,
    pub transfer_len: nat,
    pub buffer_index: nat,
    pub register: u8,
    pub state: TransferState,
}

impl SlaveView {
    /// The bytes received so far in the current write transfer.
    pub open spec fn received(self) -> Seq<u8> {
        self.buffer.take(self.buffer_index as int)
    }

    pub open spec fn wf(self) -> bool {
        &&& self.buffer.len() == BUFFER_SIZE
        &&& self.transfer_len <= BUFFER_SIZE
        &&& self.buffer_index <= BUFFER_SIZE + 1
    }

    pub open spec fn with_state(self, state: TransferState) -> SlaveView {
        SlaveView { state, ..self }
    }

    pub open spec fn reset(self) -> SlaveView {
        SlaveView { transfer_len: 0, buffer_index: 0, ..self }
    }
}

/// One step of the slave state machine: the state after handling the
/// interrupt `flag` in state `s`, the value reported, and the register
/// accesses to perform. `rx` is the byte read from I2C_RXDR (when `flag` is
/// RXNE) and `stopf` the STOPF flag read after it.
pub open spec fn step(s: SlaveView, flag: I2CInterrupt, rx: u8, stopf: bool) -> (SlaveView, Result<State, Error>, Seq<Command>) {
    let busy = Ok(State::Buzy(flag));
    match (flag, s.state) {
        (I2CInterrupt::AddressMatch(dir), TransferState::Idle) => {
            if dir == Direction::Read {
                // enable TXIE to avoid a deadlock when the master reads without setting a register first
                (s.with_state(TransferState::Transmitting), busy,
                 seq![Command::ClearFlags(ICR_ADDRCF), Command::TxInterrupts(true), Command::Transmit(0xff)])
            } else {
                (s.with_state(TransferState::Addr(dir)), busy, seq![Command::ClearFlags(ICR_ADDRCF)])
            }
        },
        (I2CInterrupt::NotAcknowledgeReceived, TransferState::Addr(Direction::Read))
        | (I2CInterrupt::NotAcknowledgeReceived, TransferState::Transmitting) => {
            (s.reset(), busy, seq![Command::ClearFlags(ICR_NACKCF)])
        },
        (I2CInterrupt::AddressMatch(Direction::Read), TransferState::RegSet) => {
            (s.with_state(TransferState::Transmitting), Ok(State::DataRequested(s.register)),
             seq![Command::TxInterrupts(true), Command::FlushTxdr])
        },
        (I2CInterrupt::ReceiveBufferNotEmpty, TransferState::Addr(Direction::Write)) => {
            (SlaveView { state: TransferState::RegSet, register: rx, ..s }, busy, seq![])
        },
        (I2CInterrupt::ReceiveBufferNotEmpty, TransferState::RegSet)
        | (I2CInterrupt::ReceiveBufferNotEmpty, TransferState::Receiving) => {
            if s.buffer_index >= BUFFER_SIZE - 1 {
                (s, Err(Error::OVERRUN), seq![Command::Nack])
            } else {
                let s2 = SlaveView {
                    state: TransferState::Receiving,
                    buffer: s.buffer.update(s.buffer_index as int, rx),
                    buffer_index: s.buffer_index + 1,
                    ..s
                };
                if stopf {
                    (s2.with_state(TransferState::Idle), Ok(State::DataReceived(s.register)),
                     seq![Command::ClearFlags(ICR_STOPCF)])
                } else {
                    (s2, busy, seq![])
                }
            }
        },
        (I2CInterrupt::StopDetection, _) => {
            let ret = match s.state {
                TransferState::Receiving => Ok(State::DataReceived(s.register)),
                TransferState::Transmitting => busy,
                TransferState::RegSet => busy,
                _ => Err(Error::BUS),
            };
            // the bytes of a write transfer stay for `get_received_data`
            let next = if s.state == TransferState::Receiving {
                SlaveView { state: TransferState::Idle, transfer_len: 0, ..s }
            } else {
                s.with_state(TransferState::Idle).reset()
            };
            (next, ret, seq![Command::ClearFlags(ICR_STOPCF), Command::TxInterrupts(false)])
        },
        (I2CInterrupt::TXBufIntStatus, TransferState::Transmitting) => {
            if s.buffer_index < s.transfer_len {
                (SlaveView { buffer_index: s.buffer_index + 1, ..s }, busy,
                 seq![Command::Transmit(s.buffer[s.buffer_index as int])])
            } else if s.buffer_index == s.transfer_len {
                // need to write to end the clock stretching
                (SlaveView { buffer_index: s.buffer_index + 1, ..s }, busy, seq![Command::Transmit(0xff)])
            } else {
                (s, Err(Error::OVERRUN), seq![Command::Transmit(0xff)])
            }
        },
        (I2CInterrupt::TXBufIntStatus, _) => {
            (s, Err(Error::OVERRUN), seq![Command::Transmit(0xff)])
        },
        _ => {
            (s.with_state(TransferState::Idle).reset(), Err(interrupt_error(flag)), clear_commands(flag))
        },
    }
}

/// The state after receiving `bytes` one RXNE interrupt each, with no stop
/// condition seen.
pub open spec fn receive_bytes(s: SlaveView, bytes: Seq<u8>) -> SlaveView
    decreases bytes.len(),
{
    if bytes.len() == 0 {
        s
    } else {
        receive_bytes(step(s, I2CInterrupt::ReceiveBufferNotEmpty, bytes[0], false).0, bytes.skip(1))
    }
}

/// Bytes that the master writes after the register byte are collected in
/// order: from the register-set or receiving state, each RXNE interrupt
/// appends its byte to the received data, as long as the buffer keeps one
/// slot free.
pub proof fn lemma_receive_appends(s: SlaveView, bytes: Seq<u8>)
    requires
        s.wf(),
        s.state == TransferState::RegSet || s.state == TransferState::Receiving,
        s.buffer_index + bytes.len() < BUFFER_SIZE,
    ensures
        receive_bytes(s, bytes).wf(),
        receive_bytes(s, bytes).received() == s.received() + bytes,
        receive_bytes(s, bytes).register == s.register,
        receive_bytes(s, bytes).buffer_index == s.buffer_index + bytes.len(),
        bytes.len() > 0 ==> receive_bytes(s, bytes).state == TransferState::Receiving,
        bytes.len() == 0 ==> receive_bytes(s, bytes).state == s.state,
    decreases bytes.len(),
{
    if bytes.len() == 0 {
        assert(s.received() + bytes =~= s.received());
    } else {
        let s1 = step(s, I2CInterrupt::ReceiveBufferNotEmpty, bytes[0], false).0;
        assert(s1.received() =~= s.received().push(bytes[0]));
        lemma_receive_appends(s1, bytes.skip(1));
        assert(s.received().push(bytes[0]) + bytes.skip(1) =~= s.received() + bytes);
    }
}

/// A complete write transfer: the master addresses the slave for writing,
/// sends the register byte and then the data bytes, the last one together
/// with the stop condition. The slave reports `DataReceived` with the register,
/// returns to idle, and holds exactly the data bytes for `get_received_data`.
pub proof fn lemma_write_transfer(s: SlaveView, reg: u8, data: Seq<u8>, last: u8)
    requires
        s.wf(),
        s.state == TransferState::Idle,
        s.buffer_index == 0,
        data.len() + 1 < BUFFER_SIZE,
    ensures
        ({
            let s1 = step(s, I2CInterrupt::AddressMatch(Direction::Write), 0, false).0;
            let s2 = step(s1, I2CInterrupt::ReceiveBufferNotEmpty, reg, false).0;
            let s3 = receive_bytes(s2, data);
            let (s4, ret, _) = step(s3, I2CInterrupt::ReceiveBufferNotEmpty, last, true);
            &&& ret == Ok::<State, Error>(State::DataReceived(reg))
            &&& s4.state == TransferState::Idle
            &&& s4.wf()
            &&& s4.received() == data.push(last)
        }),
{
    let s1 = step(s, I2CInterrupt::AddressMatch(Direction::Write), 0, false).0;
    let s2 = step(s1, I2CInterrupt::ReceiveBufferNotEmpty, reg, false).0;
    assert(s2.received() =~= Seq::<u8>::empty());
    lemma_receive_appends(s2, data);
    let s3 = receive_bytes(s2, data);
    let s4 = step(s3, I2CInterrupt::ReceiveBufferNotEmpty, last, true).0;
    assert(s3.received() =~= data);
    assert(s3.buffer_index == data.len());
    assert(s4.buffer == s3.buffer.update(data.len() as int, last));
    assert(s4.buffer_index == data.len() + 1);
    assert(s4.received() =~= data.push(last));
}

/// A write transfer whose stop condition comes on its own: after the
/// register byte and at least one data byte, the stop interrupt reports
/// `DataReceived` with the register, returns to idle, and leaves exactly the
/// data bytes for `get_received_data`.
pub proof fn lemma_write_transfer_separate_stop(s: SlaveView, reg: u8, data: Seq<u8>)
    requires
        s.wf(),
        s.state == TransferState::Idle,
        s.buffer_index == 0,
        0 < data.len() < BUFFER_SIZE,
    ensures
        ({
            let s1 = step(s, I2CInterrupt::AddressMatch(Direction::Write), 0, false).0;
            let s2 = step(s1, I2CInterrupt::ReceiveBufferNotEmpty, reg, false).0;
            let s3 = receive_bytes(s2, data);
            let (s4, ret, _) = step(s3, I2CInterrupt::StopDetection, 0, false);
            &&& ret == Ok::<State, Error>(State::DataReceived(reg))
            &&& s4.state == TransferState::Idle
            &&& s4.wf()
            &&& s4.received() == data
        }),
{
    let s1 = step(s, I2CInterrupt::AddressMatch(Direction::Write), 0, false).0;
    let s2 = step(s1, I2CInterrupt::ReceiveBufferNotEmpty, reg, false).0;
    assert(s2.received() =~= Seq::<u8>::empty());
    lemma_receive_appends(s2, data);
    let s3 = receive_bytes(s2, data);
    assert(s3.received() =~= data);
}

/// The bytes transmitted by `n` TXIS interrupts, and the state after them.
pub open spec fn transmit_n(s: SlaveView, n: nat) -> (SlaveView, Seq<Command>)
    decreases n,
{
    if n == 0 {
        (s, seq![])
    } else {
        let (s1, _, c1) = step(s, I2CInterrupt::TXBufIntStatus, 0, false);
        let (s2, c2) = transmit_n(s1, (n - 1) as nat);
        (s2, c1 + c2)
    }
}

/// A read transfer sends the loaded data in order: after `send_data` has
/// transmitted the first byte, the following TXIS interrupts transmit the
/// remaining bytes one each, then 0xff to end the clock stretching.
pub proof fn lemma_transmit_in_order(s: SlaveView, n: nat)
    requires
        s.wf(),
        s.state == TransferState::Transmitting,
        1 <= s.buffer_index,
        s.buffer_index + n <= s.transfer_len,
    ensures
        transmit_n(s, n).1 == Seq::new(n, |k: int| Command::Transmit(s.buffer[s.buffer_index + k])),
        transmit_n(s, n).0.buffer_index == s.buffer_index + n,
        transmit_n(s, n).0.state == TransferState::Transmitting,
        transmit_n(s, n).0.buffer == s.buffer,
        transmit_n(s, n).0.transfer_len == s.transfer_len,
        step(transmit_n(s, n).0, I2CInterrupt::TXBufIntStatus, 0, false).2 == (
            if s.buffer_index + n < s.transfer_len {
                seq![Command::Transmit(s.buffer[(s.buffer_index + n) as int])]
            } else {
                seq![Command::Transmit(0xff)]
            }),
    decreases n,
{
    if n > 0 {
        let s1 = step(s, I2CInterrupt::TXBufIntStatus, 0, false).0;
        lemma_transmit_in_order(s1, (n - 1) as nat);
        let (s2, c2) = transmit_n(s1, (n - 1) as nat);
        assert(transmit_n(s, n).1 =~= Seq::new(n, |k: int| Command::Transmit(s.buffer[s.buffer_index + k])));
    }
}

/// I2C slave
pub struct I2CSlave<I2C, SCL, SDA> {
    i2c: I2C,
    transfer_buffer: Vec<u8>,
    transfer_len: usize,
    buffer_index: usize,
    register: u8,
    transfer_state: TransferState,
    pins: (SCL, SDA),
}

/// The value of I2C_CR1 that sets the peripheral up as a slave, before it is
/// enabled: clock stretching and the analog filter on, no digital filter, the
/// error, stop, NACK, address-match and receive interrupts on, wake-up on
/// address match on, and the transmit interrupts off.
pub const SLAVE_CR1: u32 = 0x0004_00BC;

/// I2C_CR1 PE bit: peripheral enable
pub const CR1_PE: u32 = 0x0000_0001;

/// The value of I2C_OAR1 that enables the 7-bit own address `address`.
pub open spec fn own_address_spec(address: u8) -> u32 {
    0x8000u32 | ((address as u32) << 1u32)
}

/// Computes I2C_OAR1 for a 7-bit own address.
pub fn own_address(address: u8) -> (r: u32)
    ensures
        r == own_address_spec(address),
        r & 0x8000 == 0x8000,
        (r & 0x3ff) >> 1u32 == address,
        r & 0x0400 == 0,
{
    let a = address as u32;
    assert((0x8000u32 | (a << 1u32)) & 0x8000 == 0x8000) by (bit_vector);
    assert(((0x8000u32 | (a << 1u32)) & 0x3ff) >> 1u32 == a) by (bit_vector)
        requires a < 256;
    assert((0x8000u32 | (a << 1u32)) & 0x0400 == 0) by (bit_vector)
        requires a < 256;
    0x8000u32 | (a << 1u32)
}

/// Bit of I2C1EN in RCC_APB1ENR
pub const I2C1EN: u32 = 21;

impl<I2C, SCL, SDA> I2CSlave<I2C, SCL, SDA> {
    pub closed spec fn view(&self) -> SlaveView {
        SlaveView {
            buffer: self.transfer_buffer@,
            transfer_len: self.transfer_len as nat,
            buffer_index: self.buffer_index as nat,
            register: self.register,
            state: self.transfer_state,
        }
    }

    pub closed spec fn peripheral(&self) -> I2C {
        self.i2c
    }

    pub closed spec fn pin_pair(&self) -> (SCL, SDA) {
        self.pins
    }

    /// Sets up I2C1 as a slave at the 7-bit address `address`: enables its
    /// clock in `rcc`; the caller pulses its reset, writes `SLAVE_CR1`, then
    /// `own_address(address)` to OAR1, and finally sets `CR1_PE`.
    pub fn i2c1_slave(i2c: I2C, pins: (SCL, SDA), address: u8, rcc: &mut Rcc) -> (r: Self)
        ensures
            r@.wf(),
            r@.state == TransferState::Idle,
            r@.transfer_len == 0,
            r@.buffer_index == 0,
            r@.register == 0,
            r@.buffer == Seq::new(BUFFER_SIZE as nat, |i: int| 0u8),
            r.peripheral() == i2c,
            r.pin_pair() == pins,
            final(rcc).clocks == old(rcc).clocks,
            final(rcc).regs.enr(Bus::APB1) == crate::rcc::with_bit(old(rcc).regs.enr(Bus::APB1), I2C1EN),
            final(rcc).regs.enr(Bus::APB2) == old(rcc).regs.enr(Bus::APB2),
            final(rcc).regs.enr(Bus::AHB) == old(rcc).regs.enr(Bus::AHB),
    {
        rcc.regs.enable(Bus::APB1, I2C1EN);
        let mut transfer_buffer: Vec<u8> = Vec::new();
        let mut i: usize = 0;
        while i < BUFFER_SIZE
            invariant
                i <= BUFFER_SIZE,
                transfer_buffer@ == Seq::new(i as nat, |j: int| 0u8),
            decreases BUFFER_SIZE - i,
        {
            transfer_buffer.push(0u8);
            i = i + 1;
            proof {
                assert(transfer_buffer@ =~= Seq::new(i as nat, |j: int| 0u8));
            }
        }
        I2CSlave {
            i2c,
            transfer_buffer,
            transfer_len: 0,
            buffer_index: 0,
            register: 0,
            transfer_state: TransferState::Idle,
            pins,
        }
    }

    /// Handles an I2C interrupt, given the value `isr` of I2C_ISR. When that
    /// value reports RXNE, `rx` is the byte that the caller read from
    /// I2C_RXDR (which clears RXNE) and `stopf` the STOPF flag of I2C_ISR read
    /// after it. Returns DataRequested, DataReceived, Buzy or an Error, and the
    /// register accesses to perform in order.
    pub fn interrupt(&mut self, isr: u32, rx: u8, stopf: bool) -> (r: (Result<State, Error>, Vec<Command>))
        requires
            old(self)@.wf(),
        ensures
            final(self)@.wf(),
            final(self).peripheral() == old(self).peripheral(),
            final(self).pin_pair() == old(self).pin_pair(),
            match interrupt_flag(isr) {
                None => {
                    &&& final(self)@ == old(self)@
                    &&& r.0 == Err::<State, Error>(Error::UNKNOWN)
                    &&& r.1@ == Seq::<Command>::empty()
                },
                Some(flag) => {
                    let (s, ret, cmds) = step(old(self)@, flag, rx, stopf);
                    &&& final(self)@ == s
                    &&& r.0 == ret
                    &&& r.1@ == cmds
                },
            },
    {
        let mut cmds: Vec<Command> = Vec::new();
        let flag = match get_interrupt(isr) {
            None => { return (Err(Error::UNKNOWN), cmds); },
            Some(f) => f,
        };
        let ghost s0 = self@;
        let busy: Result<State, Error> = Ok(State::Buzy(flag));
        let ret: Result<State, Error>;
        match (flag, self.transfer_state) {
            (I2CInterrupt::AddressMatch(dir), TransferState::Idle) => {
                self.transfer_state = TransferState::Addr(dir);
                cmds.push(Command::ClearFlags(ICR_ADDRCF));
                if dir == Direction::Read {
                    cmds.push(Command::TxInterrupts(true));
                    self.transfer_state = TransferState::Transmitting;
                    cmds.push(Command::Transmit(0xff));
                }
                ret = busy;
            },
            (I2CInterrupt::NotAcknowledgeReceived, TransferState::Addr(Direction::Read))
            | (I2CInterrupt::NotAcknowledgeReceived, TransferState::Transmitting) => {
                cmds.push(Command::ClearFlags(ICR_NACKCF));
                self.reset_i2c();
                ret = busy;
            },
            (I2CInterrupt::AddressMatch(Direction::Read), TransferState::RegSet) => {
                self.transfer_state = TransferState::Transmitting;
                cmds.push(Command::TxInterrupts(true));
                cmds.push(Command::FlushTxdr);
                ret = Ok(State::DataRequested(self.register));
            },
            (I2CInterrupt::ReceiveBufferNotEmpty, TransferState::Addr(Direction::Write)) => {
                self.transfer_state = TransferState::RegSet;
                self.register = rx;
                ret = busy;
            },
            (I2CInterrupt::ReceiveBufferNotEmpty, TransferState::RegSet)
            | (I2CInterrupt::ReceiveBufferNotEmpty, TransferState::Receiving) => {
                if self.buffer_index >= BUFFER_SIZE - 1 {
                    cmds.push(Command::Nack);
                    ret = Err(Error::OVERRUN);
                } else {
                    self.transfer_state = TransferState::Receiving;
                    self.transfer_buffer.set(self.buffer_index, rx);
                    self.buffer_index = self.buffer_index + 1;
                    if stopf {
                        self.transfer_state = TransferState::Idle;
                        cmds.push(Command::ClearFlags(ICR_STOPCF));
                        ret = Ok(State::DataReceived(self.register));
                    } else {
                        ret = busy;
                    }
                }
            },
            (I2CInterrupt::StopDetection, _) => {
                ret = match self.transfer_state {
                    TransferState::Receiving => Ok(State::DataReceived(self.register)),
                    TransferState::Transmitting => busy,
                    TransferState::RegSet => busy,
                    _ => Err(Error::BUS),
                };
                let received = self.transfer_state == TransferState::Receiving;
                self.transfer_state = TransferState::Idle;
                cmds.push(Command::ClearFlags(ICR_STOPCF));
                if received {
                    // the bytes of a write transfer stay for `get_received_data`
                    self.transfer_len = 0;
                } else {
                    self.reset_i2c();
                }
                cmds.push(Command::TxInterrupts(false));
            },
            (I2CInterrupt::TXBufIntStatus, TransferState::Transmitting) => {
                if self.buffer_index < self.transfer_len {
                    cmds.push(Command::Transmit(self.transfer_buffer[self.buffer_index]));
                    self.buffer_index = self.buffer_index + 1;
                    ret = busy;
                } else if self.buffer_index == self.transfer_len {
                    // need to write to end the clock stretching
                    cmds.push(Command::Transmit(0xff));
                    self.buffer_index = self.buffer_index + 1;
                    ret = busy;
                } else {
                    cmds.push(Command::Transmit(0xff));
                    ret = Err(Error::OVERRUN);
                }
            },
            (I2CInterrupt::TXBufIntStatus, _) => {
                // need to write to end the clock stretching
                cmds.push(Command::Transmit(0xff));
                ret = Err(Error::OVERRUN);
            },
            _ => {
                self.transfer_state = TransferState::Idle;
                clear_interrupt(flag, &mut cmds);
                self.reset_i2c();
                ret = Err(Error::from(flag));
            },
        }
        proof {
            let (s, rr, cc) = step(s0, flag, rx, stopf);
            assert(cmds@ =~= cc);
            assert(self@.buffer =~= s.buffer);
        }
        (ret, cmds)
    }

    /// Loads `buffer` for transmission and sends its first byte; `None`
    /// (or more than `BUFFER_SIZE` bytes) refuses the read with a NACK.
    pub fn send_data(&mut self, buffer: Option<&[u8]>) -> (r: (Result<(), Error>, Vec<Command>))
        requires
            old(self)@.wf(),
        ensures
            final(self)@.wf(),
            final(self).peripheral() == old(self).peripheral(),
            final(self).pin_pair() == old(self).pin_pair(),
            match buffer {
                Some(data) if data@.len() > BUFFER_SIZE => {
                    &&& final(self)@ == old(self)@
                    &&& r.0 == Err::<(), Error>(Error::OVERRUN)
                    &&& r.1@ == seq![Command::Nack, Command::ClearFlags(ICR_ADDRCF), Command::Transmit(0xff)]
                },
                None => {
                    &&& final(self)@ == old(self)@
                    &&& r.0 == Ok::<(), Error>(())
                    &&& r.1@ == seq![Command::Nack, Command::ClearFlags(ICR_ADDRCF), Command::Transmit(0xff)]
                },
                Some(data) => {
                    &&& final(self)@.buffer.take(data@.len() as int) == data@
                    &&& final(self)@.buffer.skip(data@.len() as int) == old(self)@.buffer.skip(data@.len() as int)
                    &&& final(self)@.transfer_len == data@.len()
                    &&& final(self)@.buffer_index == 1
                    &&& final(self)@.register == old(self)@.register
                    &&& final(self)@.state == TransferState::Transmitting
                    &&& r.0 == Ok::<(), Error>(())
                    &&& r.1@ == seq![Command::Transmit(final(self)@.buffer[0]), Command::ClearFlags(ICR_ADDRCF)]
                },
            },
    {
        let mut cmds: Vec<Command> = Vec::new();
        match buffer {
            Some(data) => {
                if data.len() > BUFFER_SIZE {
                    cmds.push(Command::Nack);
                    cmds.push(Command::ClearFlags(ICR_ADDRCF));
                    cmds.push(Command::Transmit(0xff));
                    proof {
                        assert(cmds@ =~= seq![Command::Nack, Command::ClearFlags(ICR_ADDRCF), Command::Transmit(0xff)]);
                    }
                    return (Err(Error::OVERRUN), cmds);
                }
                let ghost old_buf = self.transfer_buffer@;
                let mut index: usize = 0;
                while index < data.len()
                    invariant
                        index <= data@.len() <= BUFFER_SIZE,
                        self.transfer_buffer@.len() == BUFFER_SIZE,
                        old_buf.len() == BUFFER_SIZE,
                        forall|j: int| 0 <= j < index ==> self.transfer_buffer@[j] == data@[j],
                        forall|j: int| index <= j < BUFFER_SIZE ==> self.transfer_buffer@[j] == old_buf[j],
                        self.transfer_len == old(self).transfer_len,
                        self.buffer_index == old(self).buffer_index,
                        self.register == old(self).register,
                        self.transfer_state == old(self).transfer_state,
                        self.i2c == old(self).i2c,
                        self.pins == old(self).pins,
                    decreases data@.len() - index,
                {
                    self.transfer_buffer.set(index, data[index]);
                    index = index + 1;
                }
                self.transfer_len = data.len();
                self.buffer_index = 0;
                self.transfer_state = TransferState::Transmitting;
                cmds.push(Command::Transmit(self.transfer_buffer[self.buffer_index]));
                self.buffer_index = self.buffer_index + 1;
                cmds.push(Command::ClearFlags(ICR_ADDRCF));
                proof {
                    assert(self.transfer_buffer@.take(data@.len() as int) =~= data@);
                    assert(self.transfer_buffer@.skip(data@.len() as int) =~= old_buf.skip(data@.len() as int));
                    assert(cmds@ =~= seq![Command::Transmit(self.transfer_buffer@[0]), Command::ClearFlags(ICR_ADDRCF)]);
                }
                (Ok(()), cmds)
            },
            None => {
                cmds.push(Command::Nack);
                cmds.push(Command::ClearFlags(ICR_ADDRCF));
                cmds.push(Command::Transmit(0xff));
                proof {
                    assert(cmds@ =~= seq![Command::Nack, Command::ClearFlags(ICR_ADDRCF), Command::Transmit(0xff)]);
                }
                (Ok(()), cmds)
            },
        }
    }

    /// How many bytes of the current write transfer were received; at most
    /// `BUFFER_SIZE` of them can be handed out.
    pub fn received_count(&self) -> (r: usize)
        ensures
            r == self@.buffer_index,
    {
        self.buffer_index
    }

    /// Get the received data from the I2C peripheral and start over.
    pub fn get_received_data(&mut self) -> (r: Vec<u8>)
        requires
            old(self)@.wf(),
            old(self)@.buffer_index <= BUFFER_SIZE,
        ensures
            r@ == old(self)@.received(),
            final(self)@ == old(self)@.reset(),
            final(self).peripheral() == old(self).peripheral(),
            final(self).pin_pair() == old(self).pin_pair(),
    {
        let mut data: Vec<u8> = Vec::new();
        let mut i: usize = 0;
        while i < self.buffer_index
            invariant
                i <= self.buffer_index <= BUFFER_SIZE,
                self.transfer_buffer@.len() == BUFFER_SIZE,
                data@ == self.transfer_buffer@.take(i as int),
            decreases self.buffer_index - i,
        {
            data.push(self.transfer_buffer[i]);
            i = i + 1;
            proof {
                assert(data@ =~= self.transfer_buffer@.take(i as int));
            }
        }
        self.buffer_index = 0;
        self.transfer_len = 0;
        data
    }

    /// Release the I2C peripheral and pins
    pub fn release(self) -> (r: (I2C, (SCL, SDA)))
        ensures
            r.0 == self.peripheral(),
            r.1 == self.pin_pair(),
    {
        (self.i2c, self.pins)
    }

    fn reset_i2c(&mut self)
        ensures
            final(self)@ == old(self)@.reset(),
            final(self).i2c == old(self).i2c,
            final(self).pins == old(self).pins,
    {
        self.transfer_len = 0;
        self.buffer_index = 0;
    }
}

} // verus!
