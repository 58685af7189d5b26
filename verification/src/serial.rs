//! USART: baud rate divisor, control words and status decoding

use vstd::prelude::*;

use core::marker::PhantomData;

use crate::rcc::{bit_is_set, with_bit, without_bit, set_bit, clear_bit, Bus, Rcc};
use crate::spi::Poll;
use crate::time::Bps;

verus! {

/// Serial error
#[derive(Debug, Clone, Copy, PartialEq, Eq, Structural)]
pub enum Error {
    /// Framing error
    Framing,
    /// Noise error
    Noise,
    /// RX buffer overrun
    Overrun,
    /// Parity check error
    Parity,
}

/// Interrupt event
#[derive(Debug, Clone, Copy, PartialEq, Eq, Structural)]
pub enum Event {
    /// New data has been received
    Rxne,
    /// New data can be sent
    Txe,
    /// Idle line state detected
    Idle,
}

/// Marks a pin that can serve as TX of the USART `USART`
pub trait TxPin<USART> {}

/// Marks a pin that can serve as RX of the USART `USART`
pub trait RxPin<USART> {}

/// Serial abstraction
pub struct Serial<USART, TXPIN, RXPIN> {
    pub usart: USART,
    pub pins: (TXPIN, RXPIN),
}

/// Serial receiver
pub struct Rx<USART> {
    pub _usart: PhantomData<USART>,
}

/// Serial transmitter
pub struct Tx<USART> {
    pub _usart: PhantomData<USART>,
}

/// USART_ISR bit positions
pub const ISR_PE: u32 = 0;
pub const ISR_FE: u32 = 1;
pub const ISR_NF: u32 = 2;
pub const ISR_ORE: u32 = 3;
pub const ISR_RXNE: u32 = 5;
pub const ISR_TC: u32 = 6;
pub const ISR_TXE: u32 = 7;

/// USART_ICR bits that clear the error flags
pub const ICR_PECF: u32 = 0;
pub const ICR_FECF: u32 = 1;
pub const ICR_NCF: u32 = 2;
pub const ICR_ORECF: u32 = 3;

/// USART_CR1 bit positions
pub const CR1_UE: u32 = 0;
pub const CR1_RE: u32 = 2;
pub const CR1_TE: u32 = 3;
pub const CR1_IDLEIE: u32 = 4;
pub const CR1_RXNEIE: u32 = 5;
pub const CR1_TXEIE: u32 = 7;

/// Bit of USART1EN in RCC_APB2ENR
pub const USART1EN: u32 = 14;

/// The USART_CR1 bit that enables the interrupt of an event.
pub open spec fn event_bit(event: Event) -> u32 {
    match event {
        Event::Rxne => CR1_RXNEIE,
        Event::Txe => CR1_TXEIE,
        Event::Idle => CR1_IDLEIE,
    }
}

/// Whether a value of USART_ISR lets a byte be read: errors first (parity,
/// framing, noise, overrun), then a received byte.
pub open spec fn read_poll(isr: u32) -> Poll<Error> {
    if bit_is_set(isr, ISR_PE) {
        Poll::Failed(Error::Parity)
    } else if bit_is_set(isr, ISR_FE) {
        Poll::Failed(Error::Framing)
    } else if bit_is_set(isr, ISR_NF) {
        Poll::Failed(Error::Noise)
    } else if bit_is_set(isr, ISR_ORE) {
        Poll::Failed(Error::Overrun)
    } else if bit_is_set(isr, ISR_RXNE) {
        Poll::Ready
    } else {
        Poll::WouldBlock
    }
}

/// The USART_ICR bit that clears the flag of an error.
pub open spec fn error_clear_bit(e: Error) -> u32 {
    match e {
        Error::Parity => ICR_PECF,
        Error::Framing => ICR_FECF,
        Error::Noise => ICR_NCF,
        Error::Overrun => ICR_ORECF,
    }
}

/// What a read writes to USART_ICR, given the value of USART_ISR: the clear
/// bit of the error it reports, and nothing when it reports none.
pub open spec fn read_clear(isr: u32) -> u32 {
    match read_poll(isr) {
        Poll::Failed(e) => 1u32 << error_clear_bit(e),
        _ => 0,
    }
}

fn isr_bit(isr: u32, bit: u32) -> (r: bool)
    requires
        bit < 32,
    ensures
        r == bit_is_set(isr, bit),
{
    isr & (1u32 << bit) != 0
}

fn cr1_bit(event: Event) -> (r: u32)
    ensures
        r == event_bit(event),
        r < 32,
{
    match event {
        Event::Rxne => CR1_RXNEIE,
        Event::Txe => CR1_TXEIE,
        Event::Idle => CR1_IDLEIE,
    }
}

impl<USART, TXPIN, RXPIN> Serial<USART, TXPIN, RXPIN> {
    /// Creates a new serial instance on USART1: enables its clock in `rcc` and
    /// returns the baud rate divisor for USART_BRR. The caller then resets
    /// USART_CR2 and USART_CR3 and sets TE, RE and UE in USART_CR1.
    pub fn usart1(usart: USART, pins: (TXPIN, RXPIN), baud_rate: Bps, rcc: &mut Rcc) -> (r: (Self, u32))
        requires
            baud_rate.0 > 0,
        ensures
            r.0.usart == usart,
            r.0.pins == pins,
            r.1 == old(rcc).clocks.pclk().0 / baud_rate.0,
            final(rcc).clocks == old(rcc).clocks,
            final(rcc).regs.enr(Bus::APB2) == with_bit(old(rcc).regs.enr(Bus::APB2), USART1EN),
            final(rcc).regs.enr(Bus::APB1) == old(rcc).regs.enr(Bus::APB1),
            final(rcc).regs.enr(Bus::AHB) == old(rcc).regs.enr(Bus::AHB),
    {
        rcc.regs.enable(Bus::APB2, USART1EN);
        // Calculate correct baudrate divisor on the fly
        let brr = rcc.clocks.pclk().0 / baud_rate.0;
        (Serial { usart, pins }, brr)
    }

    /// USART_CR1 with the interrupt of `event` enabled.
    pub fn listen(&mut self, event: Event, cr1: u32) -> (r: u32)
        ensures
            *final(self) == *old(self),
            r == with_bit(cr1, event_bit(event)),
    {
        set_bit(cr1, cr1_bit(event))
    }

    /// USART_CR1 with the interrupt of `event` disabled.
    pub fn unlisten(&mut self, event: Event, cr1: u32) -> (r: u32)
        ensures
            *final(self) == *old(self),
            r == without_bit(cr1, event_bit(event)),
    {
        clear_bit(cr1, cr1_bit(event))
    }

    /// Splits the UART Peripheral in a Tx and an Rx part
    pub fn split(self) -> (r: (Tx<USART>, Rx<USART>)) {
        (Tx { _usart: PhantomData }, Rx { _usart: PhantomData })
    }

    /// Releases the USART peripheral and pins
    pub fn release(self) -> (r: (USART, (TXPIN, RXPIN)))
        ensures
            r.0 == self.usart,
            r.1 == self.pins,
    {
        (self.usart, self.pins)
    }
}

impl<USART> Rx<USART> {
    /// Whether a byte can be read from USART_RDR, given the value of USART_ISR,
    /// and the value to write to USART_ICR before returning, which clears the
    /// flag of the reported error so that the next read does not report it
    /// again (0 when no error is reported).
    pub fn read(&mut self, isr: u32) -> (r: (Poll<Error>, u32))
        ensures
            *final(self) == *old(self),
            r.0 == read_poll(isr),
            r.1 == read_clear(isr),
    {
        if isr_bit(isr, ISR_PE) {
            (Poll::Failed(Error::Parity), 1u32 << ICR_PECF)
        } else if isr_bit(isr, ISR_FE) {
            (Poll::Failed(Error::Framing), 1u32 << ICR_FECF)
        } else if isr_bit(isr, ISR_NF) {
            (Poll::Failed(Error::Noise), 1u32 << ICR_NCF)
        } else if isr_bit(isr, ISR_ORE) {
            (Poll::Failed(Error::Overrun), 1u32 << ICR_ORECF)
        } else if isr_bit(isr, ISR_RXNE) {
            (Poll::Ready, 0)
        } else {
            (Poll::WouldBlock, 0)
        }
    }
}

impl<USART> Tx<USART> {
    /// Whether all written bytes have left, given the value of USART_ISR.
    pub fn flush(&mut self, isr: u32) -> (r: Poll<Error>)
        ensures
            *final(self) == *old(self),
            r == (if bit_is_set(isr, ISR_TC) { Poll::<Error>::Ready } else { Poll::<Error>::WouldBlock }),
    {
        if isr_bit(isr, ISR_TC) {
            Poll::Ready
        } else {
            Poll::WouldBlock
        }
    }

    /// Whether a byte can be written to USART_TDR, given the value of USART_ISR.
    pub fn write(&mut self, isr: u32) -> (r: Poll<Error>)
        ensures
            *final(self) == *old(self),
            r == (if bit_is_set(isr, ISR_TXE) { Poll::<Error>::Ready } else { Poll::<Error>::WouldBlock }),
    {
        if isr_bit(isr, ISR_TXE) {
            Poll::Ready
        } else {
            Poll::WouldBlock
        }
    }
}

} // verus!
