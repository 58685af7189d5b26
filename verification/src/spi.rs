//! SPI master: baud rate selection, control words and status decoding
//!
//! The spi bus acts as the master (generating the clock) and you need to
//! handle the CS separately. The most significant bit is transmitted first.

use vstd::prelude::*;

use core::marker::PhantomData;

use crate::rcc::{bit_is_set, no_nearer, pow2, with_bit, Bus, Clocks, Rcc};
use crate::time::Hertz;

verus! {

/// Typestate for 8-bit transfer size
pub struct EightBit;

/// Typestate for 16-bit transfer size
pub struct SixteenBit;

/// SPI error
#[non_exhaustive]
#[derive(Debug, Clone, Copy, PartialEq, Eq, Structural)]
pub enum Error {
    /// Overrun occurred
    Overrun,
    /// Mode fault occurred
    ModeFault,
    /// CRC error
    Crc,
}

/// Clock polarity
#[derive(Debug, Clone, Copy, PartialEq, Eq, Structural)]
pub enum Polarity {
    /// Clock signal low when idle
    IdleLow,
    /// Clock signal high when idle
    IdleHigh,
}

/// Clock phase
#[derive(Debug, Clone, Copy, PartialEq, Eq, Structural)]
pub enum Phase {
    /// Data in "captured" on the first clock transition
    CaptureOnFirstTransition,
    /// Data in "captured" on the second clock transition
    CaptureOnSecondTransition,
}

/// SPI mode
#[derive(Debug, Clone, Copy, PartialEq, Eq, Structural)]
pub struct Mode {
    /// Clock polarity
    pub polarity: Polarity,
    /// Clock phase
    pub phase: Phase,
}

/// SPI abstraction
pub struct Spi<SPI, SCKPIN, MISOPIN, MOSIPIN, WIDTH> {
    pub spi: SPI,
    pub pins: (SCKPIN, MISOPIN, MOSIPIN),
    pub _width: PhantomData<WIDTH>,
}

/// Marks a pin that can serve as SCK of the SPI peripheral `SPI`
pub trait SckPin<SPI> {}

/// Marks a pin that can serve as MISO of the SPI peripheral `SPI`
pub trait MisoPin<SPI> {}

/// Marks a pin that can serve as MOSI of the SPI peripheral `SPI`
pub trait MosiPin<SPI> {}

/// The BR field of SPI_CR1 for a ratio of APB clock to requested speed: the
/// smallest divider of the APB clock (2, 4, ..., 256) that does not exceed
/// the ratio, at least 2.
pub open spec fn baud_rate_bits(ratio: u32) -> u32 {
    if ratio <= 2 {
        0b000
    } else if ratio <= 5 {
        0b001
    } else if ratio <= 11 {
        0b010
    } else if ratio <= 23 {
        0b011
    } else if ratio <= 47 {
        0b100
    } else if ratio <= 95 {
        0b101
    } else if ratio <= 191 {
        0b110
    } else {
        0b111
    }
}

/// The BR field for a ratio of APB clock to requested speed.
pub fn baud_rate(ratio: u32) -> (r: u32)
    ensures
        r == baud_rate_bits(ratio),
        r <= 7,
{
    if ratio <= 2 {
        0b000
    } else if ratio <= 5 {
        0b001
    } else if ratio <= 11 {
        0b010
    } else if ratio <= 23 {
        0b011
    } else if ratio <= 47 {
        0b100
    } else if ratio <= 95 {
        0b101
    } else if ratio <= 191 {
        0b110
    } else {
        0b111
    }
}

/// The divider of the APB clock that a BR setting (0 to 7) selects: 2, 4,
/// ..., 256.
pub open spec fn spi_divider(br: u32) -> int {
    pow2((br + 1) as nat) as int
}

/// The SPI clock divider is the one nearest to the ratio of APB clock to
/// requested speed, among those that BR offers (2, 4, ..., 256), the larger
/// one on a tie; a ratio that is itself one of them is taken exactly.
pub proof fn lemma_baud_rate_nearest(ratio: u32)
    ensures
        baud_rate_bits(ratio) <= 7,
        forall|b: u32| b <= 7 ==> no_nearer(ratio as int, spi_divider(baud_rate_bits(ratio)), #[trigger] spi_divider(b)),
        forall|b: u32| b <= 7 && ratio == #[trigger] spi_divider(b) ==> spi_divider(baud_rate_bits(ratio)) == ratio,
{
    reveal_with_fuel(pow2, 9);
    assert forall|b: u32| b <= 7 implies no_nearer(ratio as int, spi_divider(baud_rate_bits(ratio)), #[trigger] spi_divider(b)) by {
        assert(b == 0 || b == 1 || b == 2 || b == 3 || b == 4 || b == 5 || b == 6 || b == 7);
    }
    assert forall|b: u32| b <= 7 && ratio == #[trigger] spi_divider(b) implies spi_divider(baud_rate_bits(ratio)) == ratio by {
        assert(b == 0 || b == 1 || b == 2 || b == 3 || b == 4 || b == 5 || b == 6 || b == 7);
    }
}

/// The value of SPI_CR1 for master mode: the clock phase and polarity of
/// `mode`, the baud rate field `br`, MSB first, software slave management
/// with the internal slave select high, full duplex, and the SPI enabled.
pub open spec fn master_cr1(mode: Mode, br: u32) -> u32 {
    (if mode.phase == Phase::CaptureOnSecondTransition { 0x1u32 } else { 0u32 })
        | (if mode.polarity == Polarity::IdleHigh { 0x2u32 } else { 0u32 })
        | 0x4u32
        | (br << 3u32)
        | 0x40u32
        | 0x100u32
        | 0x200u32
}

/// The fields of an SPI_CR1 value put together from its bits.
proof fn lemma_cr1_fields(cpha: u32, cpol: u32, br: u32)
    by (bit_vector)
    requires
        cpha == 0 || cpha == 1,
        cpol == 0 || cpol == 2,
        br <= 7,
    ensures
        ({
            let v = cpha | cpol | 0x4u32 | (br << 3u32) | 0x40u32 | 0x100u32 | 0x200u32;
            &&& v & 1 == cpha
            &&& v & 2 == cpol
            &&& v & 4 != 0
            &&& (v >> 3u32) & 7 == br
            &&& v & 0x40 != 0
            &&& v & 0x80 == 0
            &&& v & 0x100 != 0
            &&& v & 0x200 != 0
            &&& v >> 10u32 == 0
        }),
{
}

/// SPI_CR1 for master mode, field by field: CPHA (bit 0) set for capture on
/// the second transition, CPOL (bit 1) set for a clock high when idle, MSTR
/// (bit 2) set, BR (bits 3 to 5) the divider setting, SPE (bit 6) set,
/// LSBFIRST (bit 7) clear for MSB first, SSI and SSM (bits 8 and 9) set, and
/// RXONLY, CRCL, CRCNEXT, CRCEN, BIDIOE and BIDIMODE (bits 10 to 15) clear.
pub proof fn lemma_master_cr1_fields(mode: Mode, br: u32)
    requires
        br <= 7,
    ensures
        ({
            let v = master_cr1(mode, br);
            &&& (v & 1 != 0) == (mode.phase == Phase::CaptureOnSecondTransition)
            &&& (v & 2 != 0) == (mode.polarity == Polarity::IdleHigh)
            &&& v & 4 != 0
            &&& (v >> 3u32) & 7 == br
            &&& v & 0x40 != 0
            &&& v & 0x80 == 0
            &&& v & 0x100 != 0
            &&& v & 0x200 != 0
            &&& v >> 10u32 == 0
        }),
{
    let cpha: u32 = if mode.phase == Phase::CaptureOnSecondTransition { 0x1u32 } else { 0u32 };
    let cpol: u32 = if mode.polarity == Polarity::IdleHigh { 0x2u32 } else { 0u32 };
    lemma_cr1_fields(cpha, cpol, br);
}

/// SPI_CR2 bit positions: the DS field (data size minus one) starts at bit
/// 8; FRXTH sets the RX FIFO threshold to 8 bits; SSOE enables the SS output.
pub const CR2_DS_SHIFT: u32 = 8;
pub const CR2_FRXTH: u32 = 12;
pub const CR2_SSOE: u32 = 2;

/// The DS field of a value of SPI_CR2: the frame size in bits, minus one.
pub open spec fn cr2_data_size(cr2: u32) -> u32 {
    (cr2 >> CR2_DS_SHIFT) & 0xf
}

/// SPI_CR2 value for 8-bit frames: RXNE at a quarter-full FIFO (8 bits),
/// 8-bit data size, SS output disabled
pub const CR2_EIGHT_BIT: u32 = 0x1700;

/// SPI_CR2 value for 16-bit frames: RXNE at a half-full FIFO (16 bits),
/// 16-bit data size, SS output disabled
pub const CR2_SIXTEEN_BIT: u32 = 0x0F00;

/// SPI_CR1 bits BIDIMODE and BIDIOE
pub const CR1_BIDI_BITS: u32 = 0xC000;

/// SPI_SR bit positions
pub const SR_RXNE: u32 = 0;
pub const SR_TXE: u32 = 1;
pub const SR_CRCERR: u32 = 4;
pub const SR_MODF: u32 = 5;
pub const SR_OVR: u32 = 6;
pub const SR_BSY: u32 = 7;

/// Bit of SPI1EN in RCC_APB2ENR
pub const SPI1EN: u32 = 12;

/// The outcome of polling a status register
#[derive(Debug, PartialEq, Eq, Structural)]
pub enum Poll<E> {
    /// The operation can proceed
    Ready,
    /// The operation has to wait
    WouldBlock,
    /// The peripheral reports an error
    Failed(E),
}

/// The error flags of SPI_SR, overrun first, then mode fault, then CRC.
pub open spec fn sr_error(sr: u32) -> Option<Error> {
    if bit_is_set(sr, SR_OVR) {
        Some(Error::Overrun)
    } else if bit_is_set(sr, SR_MODF) {
        Some(Error::ModeFault)
    } else if bit_is_set(sr, SR_CRCERR) {
        Some(Error::Crc)
    } else {
        None
    }
}

/// Whether a value of SPI_SR lets a byte be read.
pub open spec fn read_poll(sr: u32) -> Poll<Error> {
    match sr_error(sr) {
        Some(e) => Poll::Failed(e),
        None => if bit_is_set(sr, SR_RXNE) { Poll::Ready } else { Poll::WouldBlock },
    }
}

/// Whether a value of SPI_SR lets a byte be sent.
pub open spec fn send_poll(sr: u32) -> Poll<Error> {
    match sr_error(sr) {
        Some(e) => Poll::Failed(e),
        None => if bit_is_set(sr, SR_TXE) && !bit_is_set(sr, SR_BSY) {
            Poll::Ready
        } else {
            Poll::WouldBlock
        },
    }
}

/// The number of bytes that fit in the transmit FIFO for a value of SPI_SR,
/// after its FTLVL field (bits 11 and 12): 4 when empty, 3 when a quarter
/// full, 2 when half full, none when full.
pub open spec fn fifo_space(sr: u32) -> u8 {
    match (sr >> 11u32) & 0b11 {
        0 => 4u8,
        1 => 3u8,
        2 => 2u8,
        _ => 0u8,
    }
}

fn fifo_free(sr: u32) -> (r: u8)
    ensures
        r == fifo_space(sr),
{
    match (sr >> 11u32) & 0b11 {
        // FIFO empty
        0 => 4,
        // FIFO 1/4 full
        1 => 3,
        // FIFO 1/2 full
        2 => 2,
        // FIFO full
        _ => 0,
    }
}

fn poll_read(sr: u32) -> (r: Poll<Error>)
    ensures
        r == read_poll(sr),
{
    if sr_bit(sr, SR_OVR) {
        Poll::Failed(Error::Overrun)
    } else if sr_bit(sr, SR_MODF) {
        Poll::Failed(Error::ModeFault)
    } else if sr_bit(sr, SR_CRCERR) {
        Poll::Failed(Error::Crc)
    } else if sr_bit(sr, SR_RXNE) {
        Poll::Ready
    } else {
        Poll::WouldBlock
    }
}

fn poll_send(sr: u32) -> (r: Poll<Error>)
    ensures
        r == send_poll(sr),
{
    if sr_bit(sr, SR_OVR) {
        Poll::Failed(Error::Overrun)
    } else if sr_bit(sr, SR_MODF) {
        Poll::Failed(Error::ModeFault)
    } else if sr_bit(sr, SR_CRCERR) {
        Poll::Failed(Error::Crc)
    } else if sr_bit(sr, SR_TXE) && !sr_bit(sr, SR_BSY) {
        Poll::Ready
    } else {
        Poll::WouldBlock
    }
}

fn sr_bit(sr: u32, bit: u32) -> (r: bool)
    requires
        bit < 32,
    ensures
        r == bit_is_set(sr, bit),
{
    sr & (1u32 << bit) != 0
}

impl<SPI, SCKPIN, MISOPIN, MOSIPIN> Spi<SPI, SCKPIN, MISOPIN, MOSIPIN, EightBit> {
    /// Creates a new spi instance on SPI1: enables its clock in `rcc` and
    /// returns the value of SPI_CR1 to write (after clearing SPE and pulsing
    /// the reset); SPI_CR2 is then set up for 8-bit frames.
    pub fn spi1(
        spi: SPI,
        pins: (SCKPIN, MISOPIN, MOSIPIN),
        mode: Mode,
        speed: Hertz,
        rcc: &mut Rcc,
    ) -> (r: (Self, u32))
        requires
            0 < speed.0 <= old(rcc).clocks.pclk().0,
        ensures
            r.0.spi == spi,
            r.0.pins == pins,
            r.1 == master_cr1(mode, baud_rate_bits(old(rcc).clocks.pclk().0 / speed.0)),
            final(rcc).clocks == old(rcc).clocks,
            final(rcc).regs.enr(Bus::APB2) == with_bit(old(rcc).regs.enr(Bus::APB2), SPI1EN),
            final(rcc).regs.enr(Bus::APB1) == old(rcc).regs.enr(Bus::APB1),
            final(rcc).regs.enr(Bus::AHB) == old(rcc).regs.enr(Bus::AHB),
    {
        rcc.regs.enable(Bus::APB2, SPI1EN);
        let s = Spi { spi, pins, _width: PhantomData };
        let cr1 = s.spi_init(mode, speed, rcc.clocks);
        (s, cr1)
    }
}

impl<SPI, SCKPIN, MISOPIN, MOSIPIN, WIDTH> Spi<SPI, SCKPIN, MISOPIN, MOSIPIN, WIDTH> {
    /// The value of SPI_CR1 for master mode at `speed`.
    pub fn spi_init(&self, mode: Mode, speed: Hertz, clocks: Clocks) -> (r: u32)
        requires
            0 < speed.0 <= clocks.pclk().0,
        ensures
            r == master_cr1(mode, baud_rate_bits(clocks.pclk().0 / speed.0)),
    {
        let br = baud_rate(clocks.pclk().0 / speed.0);
        let cpha: u32 = if mode.phase == Phase::CaptureOnSecondTransition { 0x1 } else { 0 };
        let cpol: u32 = if mode.polarity == Polarity::IdleHigh { 0x2 } else { 0 };
        cpha | cpol | 0x4u32 | (br << 3u32) | 0x40u32 | 0x100u32 | 0x200u32
    }

    /// Switches to 8-bit frames, with the value the caller writes to SPI_CR2:
    /// 8-bit data size, RX FIFO threshold of 8 bits (FRXTH set), SS output
    /// disabled, every other bit clear.
    pub fn into_8bit_width(self) -> (r: (Spi<SPI, SCKPIN, MISOPIN, MOSIPIN, EightBit>, u32))
        ensures
            r.0.spi == self.spi,
            r.0.pins == self.pins,
            r.1 == CR2_EIGHT_BIT,
            r.1 == (7u32 << CR2_DS_SHIFT) | (1u32 << CR2_FRXTH),
            cr2_data_size(r.1) == 7,
            bit_is_set(r.1, CR2_FRXTH),
            !bit_is_set(r.1, CR2_SSOE),
    {
        assert(CR2_EIGHT_BIT == (7u32 << 8u32) | (1u32 << 12u32) && (CR2_EIGHT_BIT >> 8u32) & 0xf == 7
            && CR2_EIGHT_BIT & (1u32 << 12u32) != 0 && CR2_EIGHT_BIT & (1u32 << 2u32) == 0) by (bit_vector);
        (Spi { spi: self.spi, pins: self.pins, _width: PhantomData }, CR2_EIGHT_BIT)
    }

    /// Switches to 16-bit frames, with the value the caller writes to
    /// SPI_CR2: 16-bit data size, RX FIFO threshold of 16 bits (FRXTH clear),
    /// SS output disabled, every other bit clear.
    pub fn into_16bit_width(self) -> (r: (Spi<SPI, SCKPIN, MISOPIN, MOSIPIN, SixteenBit>, u32))
        ensures
            r.0.spi == self.spi,
            r.0.pins == self.pins,
            r.1 == CR2_SIXTEEN_BIT,
            r.1 == 15u32 << CR2_DS_SHIFT,
            cr2_data_size(r.1) == 15,
            !bit_is_set(r.1, CR2_FRXTH),
            !bit_is_set(r.1, CR2_SSOE),
    {
        assert(CR2_SIXTEEN_BIT == 15u32 << 8u32 && (CR2_SIXTEEN_BIT >> 8u32) & 0xf == 15
            && CR2_SIXTEEN_BIT & (1u32 << 12u32) == 0 && CR2_SIXTEEN_BIT & (1u32 << 2u32) == 0) by (bit_vector);
        (Spi { spi: self.spi, pins: self.pins, _width: PhantomData }, CR2_SIXTEEN_BIT)
    }

    /// SPI_CR1 for sending only: BIDIMODE and BIDIOE set.
    pub fn set_send_only(&mut self, cr1: u32) -> (r: u32)
        ensures
            *final(self) == *old(self),
            r == cr1 | CR1_BIDI_BITS,
    {
        cr1 | CR1_BIDI_BITS
    }

    /// SPI_CR1 for full duplex transfers: BIDIMODE and BIDIOE cleared.
    pub fn set_bidi(&mut self, cr1: u32) -> (r: u32)
        ensures
            *final(self) == *old(self),
            r == cr1 & !CR1_BIDI_BITS,
    {
        cr1 & !CR1_BIDI_BITS
    }

    /// Whether a byte can be read, given the value of SPI_SR.
    pub fn check_read(&mut self, sr: u32) -> (r: Poll<Error>)
        ensures
            *final(self) == *old(self),
            r == read_poll(sr),
    {
        poll_read(sr)
    }

    /// Whether a byte can be sent, given the value of SPI_SR.
    pub fn check_send(&mut self, sr: u32) -> (r: Poll<Error>)
        ensures
            *final(self) == *old(self),
            r == send_poll(sr),
    {
        poll_send(sr)
    }

    /// The number of bytes that fit in the transmit FIFO, given the value of
    /// SPI_SR: its FTLVL field (bits 11 and 12) says how full it is.
    pub fn send_buffer_size(&mut self, sr: u32) -> (r: u8)
        ensures
            *final(self) == *old(self),
            r == fifo_space(sr),
    {
        fifo_free(sr)
    }

    /// Releases the SPI peripheral and pins
    pub fn release(self) -> (r: (SPI, (SCKPIN, MISOPIN, MOSIPIN)))
        ensures
            r.0 == self.spi,
            r.1 == self.pins,
    {
        (self.spi, self.pins)
    }
}


/// One register access of a blocking SPI transfer.
#[derive(Debug, PartialEq, Eq, Structural, Clone, Copy)]
pub enum SpiAction {
    /// SPI_CR1 becomes `(SPI_CR1 & !clear) | set`
    ModifyCr1 { clear: u32, set: u32 },
    /// A word goes to SPI_DR (at the width of the frames)
    Send(u16),
    /// SPI_DR is read and its value handed to `SpiTransfer::received`
    Read,
}

/// What a blocking SPI transfer does with its words.
#[derive(Debug, PartialEq, Eq, Structural, Clone, Copy)]
pub enum SpiKind {
    /// Sends only, filling the transmit FIFO before it looks at SPI_SR
    /// again (8-bit frames)
    FifoWrite,
    /// Sends only, one word each time SPI_SR allows it (16-bit frames)
    WordWrite,
    /// Sends each word and reads the word that comes back
    Exchange,
}

/// Where a blocking SPI transfer stands.
#[derive(Debug, PartialEq, Eq, Structural, Clone, Copy)]
pub enum SpiPhase {
    /// SPI_SR is polled until a word can be sent
    CheckSend,
    /// SPI_SR is polled until the transmit FIFO has room
    Filling,
    /// SPI_SR is polled until a word can be read
    AwaitRead,
    /// SPI_DR is being read
    AwaitData,
    /// Every word went out; SPI_SR is polled once more until it leaves the
    /// waiting state, and its errors are ignored
    Flush,
    /// The transfer is over
    Done,
}

/// A blocking SPI transfer, driven by the values of SPI_SR and SPI_DR that
/// the caller reads; it answers with the register accesses to perform.
pub struct SpiTransfer {
    kind: SpiKind,
    words: Vec<u16>,
    phase: SpiPhase,
    index: usize,
    sent: usize,
    received: Vec<u16>,
    outcome: Option<Result<(), Error>>,
}

/// The state of a blocking SPI transfer.
#[verifier::ext_equal]
pub struct SpiState {
    pub kind: SpiKind,
    /// The words to send
    pub words: Seq<u16>,
    pub phase: SpiPhase,
    /// How many words are done: sent, or for an exchange sent and read back
    pub index: nat,
    /// How many words went to SPI_DR
    pub sent: nat,
    /// The words read back so far
    pub received: Seq<u16>,
    /// The result, once the transfer is over
    pub outcome: Option<Result<(), Error>>,
}

impl View for SpiTransfer {
    type V = SpiState;

    closed spec fn view(&self) -> SpiState {
        SpiState {
            kind: self.kind,
            words: self.words@,
            phase: self.phase,
            index: self.index as nat,
            sent: self.sent as nat,
            received: self.received@,
            outcome: self.outcome,
        }
    }
}

/// The consistent states of a blocking SPI transfer.
pub open spec fn spi_wf(s: SpiState) -> bool {
    &&& s.index <= s.words.len()
    &&& s.sent <= s.words.len()
    &&& (s.kind != SpiKind::Exchange ==> s.sent == s.index)
    &&& (s.kind == SpiKind::Exchange ==> s.sent == s.index || s.sent == s.index + 1)
    &&& (s.phase == SpiPhase::AwaitRead || s.phase == SpiPhase::AwaitData ==> s.sent == s.index + 1)
    &&& (s.phase == SpiPhase::CheckSend ==> s.sent == s.index)
    &&& (s.phase != SpiPhase::Done <==> s.outcome is None)
    &&& (s.kind == SpiKind::Exchange ==> s.received.len() == s.index)
    &&& (s.kind != SpiKind::Exchange ==> s.received.len() == 0)
    &&& (s.phase == SpiPhase::CheckSend ==> s.index < s.words.len() || (s.kind == SpiKind::FifoWrite
        && s.index == 0))
    &&& (s.phase == SpiPhase::CheckSend && s.kind == SpiKind::FifoWrite ==> s.index == 0)
    &&& (s.phase == SpiPhase::Filling ==> s.kind == SpiKind::FifoWrite && s.index < s.words.len())
    &&& (s.phase == SpiPhase::Flush ==> s.kind != SpiKind::Exchange && s.index == s.words.len())
    &&& (s.phase == SpiPhase::AwaitRead || s.phase == SpiPhase::AwaitData ==> s.kind == SpiKind::Exchange
        && s.index < s.words.len())
    &&& (s.outcome == Some(Ok::<(), Error>(())) ==> s.index == s.words.len())
}

/// `s` finished with `outcome`.
pub open spec fn spi_finish(s: SpiState, outcome: Result<(), Error>) -> SpiState {
    SpiState { phase: SpiPhase::Done, outcome: Some(outcome), ..s }
}

/// `s` in phase `phase`.
pub open spec fn spi_enter(s: SpiState, phase: SpiPhase) -> SpiState {
    SpiState { phase, ..s }
}

/// The number of words that go out for a FIFO with room for `cap` words.
pub open spec fn batch(s: SpiState, cap: u8) -> nat {
    let left = (s.words.len() - s.index) as nat;
    if (cap as nat) < left {
        cap as nat
    } else {
        left
    }
}

/// A `Send` of each of `ws`, in order.
pub open spec fn send_all(ws: Seq<u16>) -> Seq<SpiAction> {
    ws.map_values(|w: u16| SpiAction::Send(w))
}

/// The transfer's answer to a value of SPI_SR.
pub open spec fn spi_next(s: SpiState, sr: u32) -> (SpiState, Seq<SpiAction>) {
    match s.phase {
        SpiPhase::CheckSend => match send_poll(sr) {
            Poll::WouldBlock => (s, seq![]),
            Poll::Failed(e) => (spi_finish(s, Err(e)), seq![]),
            Poll::Ready => match s.kind {
                SpiKind::FifoWrite => if s.index < s.words.len() {
                    (spi_enter(s, SpiPhase::Filling), seq![])
                } else {
                    (spi_enter(s, SpiPhase::Flush), seq![])
                },
                SpiKind::WordWrite => {
                    let t = SpiState { index: s.index + 1, sent: s.sent + 1, ..s };
                    (
                        spi_enter(t, if t.index < s.words.len() { SpiPhase::CheckSend } else { SpiPhase::Flush }),
                        seq![SpiAction::Send(s.words[s.index as int])],
                    )
                },
                SpiKind::Exchange => (
                    SpiState { phase: SpiPhase::AwaitRead, sent: s.sent + 1, ..s },
                    seq![SpiAction::Send(s.words[s.index as int])],
                ),
            },
        },
        SpiPhase::Filling => if fifo_space(sr) == 0 {
            (s, seq![])
        } else {
            let k = batch(s, fifo_space(sr));
            let t = SpiState { index: s.index + k, sent: s.sent + k, ..s };
            (
                spi_enter(t, if t.index < s.words.len() { SpiPhase::Filling } else { SpiPhase::Flush }),
                send_all(s.words.subrange(s.index as int, (s.index + k) as int)),
            )
        },
        SpiPhase::AwaitRead => match read_poll(sr) {
            Poll::WouldBlock => (s, seq![]),
            Poll::Failed(e) => (spi_finish(s, Err(e)), seq![]),
            Poll::Ready => (spi_enter(s, SpiPhase::AwaitData), seq![SpiAction::Read]),
        },
        SpiPhase::Flush => match send_poll(sr) {
            Poll::WouldBlock => (s, seq![]),
            _ => (spi_finish(s, Ok(())), seq![]),
        },
        _ => (s, seq![]),
    }
}

/// The transfer's answer to a word read from SPI_DR.
pub open spec fn spi_received(s: SpiState, word: u16) -> SpiState {
    if s.phase != SpiPhase::AwaitData {
        s
    } else {
        let t = SpiState { received: s.received.push(word), index: s.index + 1, ..s };
        if t.index < s.words.len() {
            spi_enter(t, SpiPhase::CheckSend)
        } else {
            spi_finish(t, Ok(()))
        }
    }
}

/// A transfer of kind `kind` over `words` as it starts, after its SPI_CR1
/// access: a write sets BIDIMODE and BIDIOE, an exchange clears them. A
/// 16-bit write or an exchange with no words has nothing to wait for.
pub open spec fn spi_begin(kind: SpiKind, words: Seq<u16>) -> (SpiState, Seq<SpiAction>) {
    let s = SpiState {
        kind,
        words,
        phase: SpiPhase::CheckSend,
        index: 0,
        sent: 0,
        received: seq![],
        outcome: None,
    };
    let a = if kind == SpiKind::Exchange {
        seq![SpiAction::ModifyCr1 { clear: CR1_BIDI_BITS, set: 0 }]
    } else {
        seq![SpiAction::ModifyCr1 { clear: 0, set: CR1_BIDI_BITS }]
    };
    if words.len() > 0 || kind == SpiKind::FifoWrite {
        (s, a)
    } else if kind == SpiKind::WordWrite {
        (spi_enter(s, SpiPhase::Flush), a)
    } else {
        (spi_finish(s, Ok(())), a)
    }
}

/// The words that a list of accesses sends to SPI_DR, in order.
pub open spec fn spi_sends(actions: Seq<SpiAction>) -> Seq<u16>
    decreases actions.len(),
{
    if actions.len() == 0 {
        seq![]
    } else {
        let rest = spi_sends(actions.drop_last());
        match actions.last() {
            SpiAction::Send(w) => rest.push(w),
            _ => rest,
        }
    }
}


impl SpiTransfer {
    fn finish_with(&mut self, outcome: Result<(), Error>)
        ensures
            final(self)@ == spi_finish(old(self)@, outcome),
    {
        self.phase = SpiPhase::Done;
        self.outcome = Some(outcome);
    }

    fn fill(&mut self, cap: u8) -> (r: Vec<SpiAction>)
        requires
            spi_wf(old(self)@),
            old(self)@.phase == SpiPhase::Filling,
            cap > 0,
        ensures
            final(self)@ == spi_enter(
                SpiState {
                    index: old(self)@.index + batch(old(self)@, cap),
                    sent: old(self)@.sent + batch(old(self)@, cap),
                    ..old(self)@
                },
                if old(self)@.index + batch(old(self)@, cap) < old(self)@.words.len() {
                    SpiPhase::Filling
                } else {
                    SpiPhase::Flush
                },
            ),
            r@ == send_all(
                old(self)@.words.subrange(
                    old(self)@.index as int,
                    (old(self)@.index + batch(old(self)@, cap)) as int,
                ),
            ),
    {
        let left = self.words.len() - self.index;
        let k: usize = if (cap as usize) < left { cap as usize } else { left };
        let start = self.index;
        let mut r: Vec<SpiAction> = Vec::new();
        let mut i: usize = 0;
        while i < k
            invariant
                i <= k,
                start + k <= self.words.len(),
                self.index == start,
                r@ == send_all(self.words@.subrange(start as int, (start + i) as int)),
            decreases k - i,
        {
            r.push(SpiAction::Send(self.words[start + i]));
            i = i + 1;
            assert(r@ =~= send_all(self.words@.subrange(start as int, (start + i) as int)));
        }
        self.index = start + k;
        self.sent = start + k;
        if self.index < self.words.len() {
            self.phase = SpiPhase::Filling;
        } else {
            self.phase = SpiPhase::Flush;
        }
        r
    }

    /// Answers a value of SPI_SR with the register accesses that follow it.
    pub fn step(&mut self, sr: u32) -> (r: Vec<SpiAction>)
        requires
            spi_wf(old(self)@),
        ensures
            final(self)@ == spi_next(old(self)@, sr).0,
            r@ == spi_next(old(self)@, sr).1,
            spi_wf(final(self)@),
    {
        match self.phase {
            SpiPhase::CheckSend => match poll_send(sr) {
                Poll::WouldBlock => Vec::new(),
                Poll::Failed(e) => {
                    self.finish_with(Err(e));
                    Vec::new()
                },
                Poll::Ready => match self.kind {
                    SpiKind::FifoWrite => {
                        if self.index < self.words.len() {
                            self.phase = SpiPhase::Filling;
                        } else {
                            self.phase = SpiPhase::Flush;
                        }
                        Vec::new()
                    },
                    SpiKind::WordWrite => {
                        assert(self.index < self.words.len());
                        let w = self.words[self.index];
                        self.index = self.index + 1;
                        self.sent = self.sent + 1;
                        if self.index < self.words.len() {
                            self.phase = SpiPhase::CheckSend;
                        } else {
                            self.phase = SpiPhase::Flush;
                        }
                        vec![SpiAction::Send(w)]
                    },
                    SpiKind::Exchange => {
                        assert(self.sent == self.index && self.index < self.words.len());
                        let w = self.words[self.index];
                        self.sent = self.sent + 1;
                        self.phase = SpiPhase::AwaitRead;
                        vec![SpiAction::Send(w)]
                    },
                },
            },
            SpiPhase::Filling => {
                let cap = fifo_free(sr);
                if cap == 0 {
                    Vec::new()
                } else {
                    self.fill(cap)
                }
            },
            SpiPhase::AwaitRead => match poll_read(sr) {
                Poll::WouldBlock => Vec::new(),
                Poll::Failed(e) => {
                    self.finish_with(Err(e));
                    Vec::new()
                },
                Poll::Ready => {
                    self.phase = SpiPhase::AwaitData;
                    vec![SpiAction::Read]
                },
            },
            SpiPhase::Flush => match poll_send(sr) {
                Poll::WouldBlock => Vec::new(),
                _ => {
                    self.finish_with(Ok(()));
                    Vec::new()
                },
            },
            _ => Vec::new(),
        }
    }

    /// Takes a word read from SPI_DR.
    pub fn received(&mut self, word: u16)
        requires
            spi_wf(old(self)@),
        ensures
            final(self)@ == spi_received(old(self)@, word),
            spi_wf(final(self)@),
    {
        match self.phase {
            SpiPhase::AwaitData => {
                assert(self.index < self.words.len());
                self.received.push(word);
                self.index = self.index + 1;
                if self.index < self.words.len() {
                    self.phase = SpiPhase::CheckSend;
                } else {
                    self.finish_with(Ok(()));
                }
            },
            _ => {},
        }
    }

    /// The result of the transfer, once it is over.
    pub fn outcome(&self) -> (r: Option<Result<(), Error>>)
        ensures
            r == self@.outcome,
    {
        self.outcome
    }

    /// Where the transfer stands.
    pub fn phase(&self) -> (r: SpiPhase)
        ensures
            r == self@.phase,
    {
        self.phase
    }

    /// The words read back so far.
    pub fn words_read(&self) -> (r: &[u16])
        ensures
            r@ == self@.received,
    {
        self.received.as_slice()
    }

    fn begin(kind: SpiKind, words: Vec<u16>) -> (r: (SpiTransfer, Vec<SpiAction>))
        ensures
            r.0@ == spi_begin(kind, words@).0,
            r.1@ == spi_begin(kind, words@).1,
            spi_wf(r.0@),
    {
        let a = match kind {
            SpiKind::Exchange => vec![SpiAction::ModifyCr1 { clear: CR1_BIDI_BITS, set: 0 }],
            _ => vec![SpiAction::ModifyCr1 { clear: 0, set: CR1_BIDI_BITS }],
        };
        let empty = words.len() == 0;
        let mut t = SpiTransfer {
            kind,
            words,
            phase: SpiPhase::CheckSend,
            index: 0,
            sent: 0,
            received: Vec::new(),
            outcome: None,
        };
        if empty {
            match kind {
                SpiKind::WordWrite => t.phase = SpiPhase::Flush,
                SpiKind::Exchange => t.finish_with(Ok(())),
                SpiKind::FifoWrite => {},
            }
        }
        (t, a)
    }
}

fn widen_words(words: &[u8]) -> (r: Vec<u16>)
    ensures
        r@ == words@.map_values(|b: u8| b as u16),
{
    let mut r: Vec<u16> = Vec::new();
    let mut i: usize = 0;
    while i < words.len()
        invariant
            i <= words.len(),
            r@ == words@.take(i as int).map_values(|b: u8| b as u16),
        decreases words.len() - i,
    {
        r.push(words[i] as u16);
        i = i + 1;
        assert(r@ =~= words@.take(i as int).map_values(|b: u8| b as u16));
    }
    assert(words@.take(i as int) =~= words@);
    r
}

fn copy_words(words: &[u16]) -> (r: Vec<u16>)
    ensures
        r@ == words@,
{
    let mut r: Vec<u16> = Vec::new();
    let mut i: usize = 0;
    while i < words.len()
        invariant
            i <= words.len(),
            r@ == words@.take(i as int),
        decreases words.len() - i,
    {
        r.push(words[i]);
        i = i + 1;
        assert(r@ =~= words@.take(i as int));
    }
    assert(r@ =~= words@);
    r
}

fn zero_words(n: usize) -> (r: Vec<u16>)
    ensures
        r@ == Seq::new(n as nat, |i: int| 0u16),
{
    let mut r: Vec<u16> = Vec::new();
    let mut i: usize = 0;
    while i < n
        invariant
            i <= n,
            r@ == Seq::new(i as nat, |j: int| 0u16),
        decreases n - i,
    {
        r.push(0);
        i = i + 1;
        assert(r@ =~= Seq::new(i as nat, |j: int| 0u16));
    }
    r
}

impl<SPI, SCKPIN, MISOPIN, MOSIPIN> Spi<SPI, SCKPIN, MISOPIN, MOSIPIN, EightBit> {
    /// Starts sending `words` only: the transfer and its first register
    /// access.
    pub fn write(&mut self, words: &[u8]) -> (r: (SpiTransfer, Vec<SpiAction>))
        ensures
            *final(self) == *old(self),
            r.0@ == spi_begin(SpiKind::FifoWrite, words@.map_values(|b: u8| b as u16)).0,
            r.1@ == spi_begin(SpiKind::FifoWrite, words@.map_values(|b: u8| b as u16)).1,
            spi_wf(r.0@),
    {
        SpiTransfer::begin(SpiKind::FifoWrite, widen_words(words))
    }

    /// Starts sending `words` while reading as many back: the transfer and
    /// its first register access.
    pub fn transfer(&mut self, words: &[u8]) -> (r: (SpiTransfer, Vec<SpiAction>))
        ensures
            *final(self) == *old(self),
            r.0@ == spi_begin(SpiKind::Exchange, words@.map_values(|b: u8| b as u16)).0,
            r.1@ == spi_begin(SpiKind::Exchange, words@.map_values(|b: u8| b as u16)).1,
            spi_wf(r.0@),
    {
        SpiTransfer::begin(SpiKind::Exchange, widen_words(words))
    }

    /// Starts reading `len` words, sending a zero for each: the transfer and
    /// its first register access.
    pub fn read(&mut self, len: usize) -> (r: (SpiTransfer, Vec<SpiAction>))
        ensures
            *final(self) == *old(self),
            r.0@ == spi_begin(SpiKind::Exchange, Seq::new(len as nat, |i: int| 0u16)).0,
            r.1@ == spi_begin(SpiKind::Exchange, Seq::new(len as nat, |i: int| 0u16)).1,
            spi_wf(r.0@),
    {
        SpiTransfer::begin(SpiKind::Exchange, zero_words(len))
    }
}

impl<SPI, SCKPIN, MISOPIN, MOSIPIN> Spi<SPI, SCKPIN, MISOPIN, MOSIPIN, SixteenBit> {
    /// Starts sending `words` only: the transfer and its first register
    /// access.
    pub fn write(&mut self, words: &[u16]) -> (r: (SpiTransfer, Vec<SpiAction>))
        ensures
            *final(self) == *old(self),
            r.0@ == spi_begin(SpiKind::WordWrite, words@).0,
            r.1@ == spi_begin(SpiKind::WordWrite, words@).1,
            spi_wf(r.0@),
    {
        SpiTransfer::begin(SpiKind::WordWrite, copy_words(words))
    }

    /// Starts sending `words` while reading as many back: the transfer and
    /// its first register access.
    pub fn transfer(&mut self, words: &[u16]) -> (r: (SpiTransfer, Vec<SpiAction>))
        ensures
            *final(self) == *old(self),
            r.0@ == spi_begin(SpiKind::Exchange, words@).0,
            r.1@ == spi_begin(SpiKind::Exchange, words@).1,
            spi_wf(r.0@),
    {
        SpiTransfer::begin(SpiKind::Exchange, copy_words(words))
    }

    /// Starts reading `len` words, sending a zero for each: the transfer and
    /// its first register access.
    pub fn read(&mut self, len: usize) -> (r: (SpiTransfer, Vec<SpiAction>))
        ensures
            *final(self) == *old(self),
            r.0@ == spi_begin(SpiKind::Exchange, Seq::new(len as nat, |i: int| 0u16)).0,
            r.1@ == spi_begin(SpiKind::Exchange, Seq::new(len as nat, |i: int| 0u16)).1,
            spi_wf(r.0@),
    {
        SpiTransfer::begin(SpiKind::Exchange, zero_words(len))
    }
}


/// A value that the caller reads for a blocking SPI transfer.
pub enum SpiEvent {
    /// A value of SPI_SR
    Status(u32),
    /// A word read from SPI_DR
    Data(u16),
}

/// The transfer's answer to one event.
pub open spec fn spi_event(s: SpiState, e: SpiEvent) -> (SpiState, Seq<SpiAction>) {
    match e {
        SpiEvent::Status(sr) => spi_next(s, sr),
        SpiEvent::Data(w) => (spi_received(s, w), seq![]),
    }
}

/// The state after a series of events, and every register access answered
/// to them, in order.
pub open spec fn spi_run(s: SpiState, events: Seq<SpiEvent>) -> (SpiState, Seq<SpiAction>)
    decreases events.len(),
{
    if events.len() == 0 {
        (s, seq![])
    } else {
        let (t, a) = spi_run(s, events.drop_last());
        let (u, b) = spi_event(t, events.last());
        (u, a + b)
    }
}

proof fn lemma_spi_sends_concat(a: Seq<SpiAction>, b: Seq<SpiAction>)
    ensures
        spi_sends(a + b) == spi_sends(a) + spi_sends(b),
    decreases b.len(),
{
    if b.len() == 0 {
        assert(a + b =~= a);
        assert(spi_sends(a) + spi_sends(b) =~= spi_sends(a));
    } else {
        assert((a + b).drop_last() =~= a + b.drop_last());
        lemma_spi_sends_concat(a, b.drop_last());
        match b.last() {
            SpiAction::Send(w) => {
                assert(spi_sends(a) + spi_sends(b.drop_last()).push(w) =~= (spi_sends(a) + spi_sends(
                    b.drop_last(),
                )).push(w));
            },
            _ => {},
        }
    }
}

proof fn lemma_spi_sends_all(ws: Seq<u16>)
    ensures
        spi_sends(send_all(ws)) == ws,
    decreases ws.len(),
{
    if ws.len() == 0 {
        assert(send_all(ws) =~= seq![]);
    } else {
        lemma_spi_sends_all(ws.drop_last());
        assert(send_all(ws).drop_last() =~= send_all(ws.drop_last()));
        assert(ws.drop_last().push(ws.last()) =~= ws);
    }
}

/// One event sends to SPI_DR exactly the words between the count sent
/// before it and the count sent after it, and keeps the transfer consistent;
/// the words read back only grow.
pub proof fn lemma_spi_event_sends(s: SpiState, e: SpiEvent)
    requires
        spi_wf(s),
    ensures
        spi_wf(spi_event(s, e).0),
        spi_event(s, e).0.words == s.words,
        spi_event(s, e).0.kind == s.kind,
        s.sent <= spi_event(s, e).0.sent,
        spi_sends(spi_event(s, e).1) == s.words.subrange(s.sent as int, spi_event(s, e).0.sent as int),
        s.received.is_prefix_of(spi_event(s, e).0.received),
{
    reveal_with_fuel(spi_sends, 2);
    let (t, a) = spi_event(s, e);
    match e {
        SpiEvent::Status(sr) => {
            if s.phase == SpiPhase::Filling && fifo_space(sr) != 0 {
                lemma_spi_sends_all(s.words.subrange(s.sent as int, t.sent as int));
            } else if s.phase == SpiPhase::CheckSend && send_poll(sr) == Poll::<Error>::Ready && s.kind
                != SpiKind::FifoWrite {
                assert(s.words.subrange(s.sent as int, s.sent + 1int) =~= seq![s.words[s.sent as int]]);
                assert(spi_sends(a) =~= seq![s.words[s.sent as int]]);
            } else {
                assert(spi_sends(a) =~= seq![]);
            }
        },
        SpiEvent::Data(w) => {
            assert(spi_sends(a) =~= seq![]);
        },
    }
    assert(s.words.subrange(s.sent as int, s.sent as int) =~= seq![]);
}

/// Whatever a blocking SPI transfer is told, it stays consistent, and what
/// it sends to SPI_DR is the next of its words in order: over any series of
/// events, the words sent are those between the count sent before and the
/// count sent after.
pub proof fn lemma_spi_run_sends(s: SpiState, events: Seq<SpiEvent>)
    requires
        spi_wf(s),
    ensures
        spi_wf(spi_run(s, events).0),
        spi_run(s, events).0.words == s.words,
        spi_run(s, events).0.kind == s.kind,
        s.sent <= spi_run(s, events).0.sent,
        spi_sends(spi_run(s, events).1) == s.words.subrange(s.sent as int, spi_run(s, events).0.sent as int),
    decreases events.len(),
{
    if events.len() == 0 {
        assert(spi_sends(seq![]) =~= seq![]);
        assert(s.words.subrange(s.sent as int, s.sent as int) =~= seq![]);
    } else {
        let (t, a) = spi_run(s, events.drop_last());
        lemma_spi_run_sends(s, events.drop_last());
        lemma_spi_event_sends(t, events.last());
        let (u, b) = spi_event(t, events.last());
        lemma_spi_sends_concat(a, b);
        assert(s.words.subrange(s.sent as int, t.sent as int) + s.words.subrange(t.sent as int, u.sent as int)
            =~= s.words.subrange(s.sent as int, u.sent as int));
    }
}

/// A blocking SPI transfer that ends in success has sent every one of its
/// words to SPI_DR, in order, and an exchange has read back as many words,
/// whatever values of SPI_SR and SPI_DR it was shown.
pub proof fn lemma_spi_transfer_complete(kind: SpiKind, words: Seq<u16>, events: Seq<SpiEvent>)
    ensures
        ({
            let (s0, a0) = spi_begin(kind, words);
            let (s, a) = spi_run(s0, events);
            s.outcome == Some(Ok::<(), Error>(())) ==> spi_sends(a0 + a) == words && (kind
                == SpiKind::Exchange ==> s.received.len() == words.len())
        }),
{
    reveal_with_fuel(spi_sends, 2);
    let (s0, a0) = spi_begin(kind, words);
    let (s, a) = spi_run(s0, events);
    lemma_spi_run_sends(s0, events);
    lemma_spi_sends_concat(a0, a);
    assert(spi_sends(a0) =~= seq![]);
    if s.outcome == Some(Ok::<(), Error>(())) {
        assert(words.subrange(0, words.len() as int) =~= words);
        assert(seq![] + words =~= words);
    }
}


/// A blocking SPI transfer never sends more words in answer to a value of
/// SPI_SR than that value allows: a FIFO write at most the free space of the
/// transmit FIFO, any other transfer one word, and only when TXE is set and
/// BSY clear; it reads SPI_DR only in answer to a value with RXNE set.
pub proof fn lemma_spi_waits_for_flags(s: SpiState, sr: u32)
    requires
        spi_wf(s),
    ensures
        s.phase == SpiPhase::Filling ==> spi_sends(spi_next(s, sr).1).len() <= fifo_space(sr),
        s.phase != SpiPhase::Filling ==> spi_sends(spi_next(s, sr).1).len() <= 1,
        s.phase != SpiPhase::Filling && spi_sends(spi_next(s, sr).1).len() == 1 ==> bit_is_set(sr, SR_TXE)
            && !bit_is_set(sr, SR_BSY),
        spi_next(s, sr).1.contains(SpiAction::Read) ==> bit_is_set(sr, SR_RXNE),
{
    reveal_with_fuel(spi_sends, 2);
    let (t, a) = spi_next(s, sr);
    if s.phase == SpiPhase::Filling && fifo_space(sr) != 0 {
        lemma_spi_sends_all(s.words.subrange(s.index as int, t.index as int));
        assert(!a.contains(SpiAction::Read)) by {
            if a.contains(SpiAction::Read) {
                let k = choose|k: int| 0 <= k < a.len() && a[k] == SpiAction::Read;
                assert(a[k] is Send);
            }
        }
    } else if s.phase == SpiPhase::CheckSend && send_poll(sr) == Poll::<Error>::Ready && s.kind
        != SpiKind::FifoWrite {
        assert(spi_sends(a) =~= seq![s.words[s.index as int]]);
    } else {
        assert(spi_sends(a) =~= seq![]);
    }
    if a.contains(SpiAction::Read) {
        let k = choose|k: int| 0 <= k < a.len() && a[k] == SpiAction::Read;
        assert(s.phase == SpiPhase::AwaitRead && read_poll(sr) == Poll::<Error>::Ready);
    }
}


/// The words of SPI_DR, among `events`, that arrive while the transfer
/// waits for one, in order.
pub open spec fn accepted_words(s: SpiState, events: Seq<SpiEvent>) -> Seq<u16>
    decreases events.len(),
{
    if events.len() == 0 {
        seq![]
    } else {
        let before = accepted_words(s, events.drop_last());
        match events.last() {
            SpiEvent::Data(w) => if spi_run(s, events.drop_last()).0.phase == SpiPhase::AwaitData {
                before.push(w)
            } else {
                before
            },
            SpiEvent::Status(_) => before,
        }
    }
}

/// What an SPI exchange reads back is what SPI_DR held: over any series of
/// events, the words read grow by exactly the words read while the transfer
/// waited for them, in order.
pub proof fn lemma_spi_run_reads(s: SpiState, events: Seq<SpiEvent>)
    ensures
        spi_run(s, events).0.received == s.received + accepted_words(s, events),
    decreases events.len(),
{
    if events.len() == 0 {
        assert(s.received + seq![] =~= s.received);
    } else {
        lemma_spi_run_reads(s, events.drop_last());
        let t = spi_run(s, events.drop_last()).0;
        let before = accepted_words(s, events.drop_last());
        match events.last() {
            SpiEvent::Data(w) => {
                if t.phase == SpiPhase::AwaitData {
                    assert(s.received + before.push(w) =~= (s.received + before).push(w));
                }
            },
            SpiEvent::Status(sr) => {},
        }
    }
}

} // verus!
