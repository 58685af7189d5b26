//! I2C master: pin traits, bus timings and transfer control words

use vstd::prelude::*;

use crate::rcc::{bit_is_set, with_bit, Bus, Rcc};
use crate::time::KiloHertz;

verus! {

/// I2C abstraction
pub struct I2c<I2C, SCLPIN, SDAPIN> {
    pub i2c: I2C,
    pub pins: (SCLPIN, SDAPIN),
}

/// Marks a pin that can serve as SCL of the I2C peripheral `I2C`
pub trait SclPin<I2C> {}

/// Marks a pin that can serve as SDA of the I2C peripheral `I2C`
pub trait SdaPin<I2C> {}

/// I2C errors
#[derive(Debug, PartialEq, Eq, Structural, Clone, Copy)]
pub enum Error {
    OVERRUN,
    NACK,
}


/// Frequency of the HSI that clocks the I2C peripheral
pub const I2C_FREQ: u32 = 8_000_000;

/// Bit of I2C1EN in RCC_APB1ENR
pub const I2C1EN: u32 = 21;

/// The fields of I2C_TIMINGR
#[derive(Debug, PartialEq, Eq, Structural, Clone, Copy)]
pub struct Timing {
    pub presc: u8,
    pub scldel: u8,
    pub sdadel: u8,
    pub sclh: u8,
    pub scll: u8,
}

/// Whether `speed` is a standard mode speed (at most 100 kHz).
pub open spec fn standard_mode(speed: KiloHertz) -> bool {
    speed.0 <= 100
}

/// The SCL low period count: the HSI frequency (halved in standard mode)
/// over twice the speed, minus one, at least 255, kept to its low 8 bits.
pub open spec fn scll_spec(speed: KiloHertz) -> u8 {
    let presc: int = if standard_mode(speed) { 1 } else { 0 };
    let base = (I2C_FREQ as int / presc_divider(presc)) / 2 / speed.0 as int - 1;
    (if base > 255 { base } else { 255 }) as u8
}

/// The divider that a PRESC value of 0 or 1 applies.
pub open spec fn presc_divider(presc: int) -> int {
    if presc == 1 { 2 } else { 1 }
}

/// The timing for a bus speed.
pub open spec fn timing_spec(speed: KiloHertz) -> Timing {
    if standard_mode(speed) {
        Timing { presc: 1, scldel: 4, sdadel: 2, sclh: (scll_spec(speed) - 4) as u8, scll: scll_spec(speed) }
    } else {
        Timing { presc: 0, scldel: 3, sdadel: 1, sclh: (scll_spec(speed) - 6) as u8, scll: scll_spec(speed) }
    }
}

/// The speeds for which the timing computes without a division by zero or an
/// arithmetic underflow.
pub open spec fn timing_ok(speed: KiloHertz) -> bool {
    &&& speed.0 > 0
    &&& standard_mode(speed) || speed.0 <= 4_000_000
    &&& scll_spec(speed) >= (if standard_mode(speed) { 4u8 } else { 6u8 })
}

/// Whether a bus timing can be computed for `speed`.
pub fn timing_is_valid(speed: KiloHertz) -> (r: bool)
    ensures
        r == timing_ok(speed),
{
    if speed.0 == 0 {
        return false;
    }
    let standard = speed.0 <= 100;
    if !standard && speed.0 > 4_000_000 {
        return false;
    }
    let half: u32 = if standard { 2_000_000 } else { 4_000_000 };
    assert(half / speed.0 >= 1) by {
        vstd::arithmetic::div_mod::lemma_div_is_ordered(speed.0 as int, half as int, speed.0 as int);
        vstd::arithmetic::div_mod::lemma_div_by_multiple(1, speed.0 as int);
    }
    let base: u32 = half / speed.0 - 1;
    let scll = #[verifier::truncate] ((if base > 255 { base } else { 255 }) as u8);
    assert(scll == scll_spec(speed));
    scll >= (if standard { 4u8 } else { 6u8 })
}

/// The value of I2C_TIMINGR for a timing.
pub open spec fn timingr_spec(t: Timing) -> u32 {
    ((t.presc as u32) << 28u32) | ((t.scldel as u32) << 20u32) | ((t.sdadel as u32) << 16u32)
        | ((t.sclh as u32) << 8u32) | (t.scll as u32)
}

impl Timing {
    /// Computes the bus timing for `speed` from the 8 MHz HSI.
    pub fn for_speed(speed: KiloHertz) -> (r: Timing)
        requires
            timing_ok(speed),
        ensures
            r == timing_spec(speed),
    {
        let presc: u8;
        let scldel: u8;
        let sdadel: u8;
        let sclh: u8;
        let scll: u8;
        // Normal I2C speeds use a different scaling than fast mode below
        if speed.0 <= 100 {
            presc = 1;
            assert((I2C_FREQ >> 1u32) >> 1u32 == 2_000_000) by (bit_vector);
            let q = ((I2C_FREQ >> 1u32) >> 1u32) / speed.0;
            assert(q >= 1) by {
                vstd::arithmetic::div_mod::lemma_div_is_ordered(100, 2_000_000, speed.0 as int);
                vstd::arithmetic::div_mod::lemma_div_is_ordered_by_denominator(100, speed.0 as int, 100);
            }
            let base = q - 1;
            scll = #[verifier::truncate] ((if base > 255 { base } else { 255 }) as u8);
            sclh = scll - 4;
            sdadel = 2;
            scldel = 4;
        } else {
            presc = 0;
            assert((I2C_FREQ >> 0u32) >> 1u32 == 4_000_000) by (bit_vector);
            let q = ((I2C_FREQ >> 0u32) >> 1u32) / speed.0;
            assert(q >= 1) by {
                vstd::arithmetic::div_mod::lemma_div_is_ordered(speed.0 as int, 4_000_000, speed.0 as int);
                vstd::arithmetic::div_mod::lemma_div_by_multiple(1, speed.0 as int);
            }
            let base = q - 1;
            scll = #[verifier::truncate] ((if base > 255 { base } else { 255 }) as u8);
            sclh = scll - 6;
            sdadel = 1;
            scldel = 3;
        }
        Timing { presc, scldel, sdadel, sclh, scll }
    }

    /// The value of I2C_TIMINGR.
    pub fn timingr(&self) -> (r: u32)
        ensures
            r == timingr_spec(*self),
    {
        ((self.presc as u32) << 28u32) | ((self.scldel as u32) << 20u32) | ((self.sdadel as u32) << 16u32)
            | ((self.sclh as u32) << 8u32) | (self.scll as u32)
    }
}

/// The fields of I2C_CR2 that a transfer sets: SADD (bits 0 to 9), RD_WRN
/// (bit 10) and NBYTES (bits 16 to 23).
pub const CR2_TRANSFER_MASK: u32 = 0x00FF_07FF;

/// I2C_CR2 START bit
pub const CR2_START: u32 = 0x2000;

/// I2C_CR2 AUTOEND bit
pub const CR2_AUTOEND: u32 = 0x0200_0000;

/// I2C_ICR value that clears the STOP and NACK flags
pub const ICR_STOP_NACK: u32 = 0x0030;

impl<I2C, SCLPIN, SDAPIN> I2c<I2C, SCLPIN, SDAPIN> {
    /// Sets up I2C1 as a master at `speed`: enables its clock in `rcc` and
    /// returns the value of I2C_TIMINGR; the caller pulses the reset, clears
    /// PE, writes the timing and sets PE.
    pub fn i2c1(i2c: I2C, pins: (SCLPIN, SDAPIN), speed: KiloHertz, rcc: &mut Rcc) -> (r: (Self, u32))
        requires
            timing_ok(speed),
        ensures
            r.0.i2c == i2c,
            r.0.pins == pins,
            r.1 == timingr_spec(timing_spec(speed)),
            final(rcc).clocks == old(rcc).clocks,
            final(rcc).regs.enr(Bus::APB1) == with_bit(old(rcc).regs.enr(Bus::APB1), I2C1EN),
            final(rcc).regs.enr(Bus::APB2) == old(rcc).regs.enr(Bus::APB2),
            final(rcc).regs.enr(Bus::AHB) == old(rcc).regs.enr(Bus::AHB),
    {
        rcc.regs.enable(Bus::APB1, I2C1EN);
        let timing = Timing::for_speed(speed);
        (I2c { i2c, pins }, timing.timingr())
    }

    /// Releases the I2C peripheral and pins
    pub fn release(self) -> (r: (I2C, (SCLPIN, SDAPIN)))
        ensures
            r.0 == self.i2c,
            r.1 == self.pins,
    {
        (self.i2c, self.pins)
    }
}


/// Bit of TXIS in I2C_ISR: the transmit register is empty
pub const ISR_TXIS: u32 = 1;

/// Bit of RXNE in I2C_ISR: the receive register holds a byte
pub const ISR_RXNE: u32 = 2;

/// Bit of NACKF in I2C_ISR
pub const ISR_NACKF: u32 = 4;

/// Bit of STOPF in I2C_ISR
pub const ISR_STOPF: u32 = 5;

/// Bit of TC in I2C_ISR: the transfer is complete
pub const ISR_TC: u32 = 6;

/// I2C_CR2 RD_WRN bit: the transfer reads
pub const CR2_RD_WRN: u32 = 0x400;

/// The fields of I2C_CR2 that the write part of a transfer sets: SADD,
/// RD_WRN, NBYTES and AUTOEND.
pub const CR2_WRITE_FIELDS: u32 = 0x02FF_07FF;

/// One register access of a master transfer.
#[derive(Debug, PartialEq, Eq, Structural, Clone, Copy)]
pub enum MasterAction {
    /// I2C_CR2 becomes `(I2C_CR2 & !clear) | set`
    ModifyCr2 { clear: u32, set: u32 },
    /// A byte goes to I2C_TXDR
    WriteTxdr(u8),
    /// I2C_RXDR is read and its value handed to `MasterTransfer::received`
    ReadRxdr,
    /// A value goes to I2C_ICR
    WriteIcr(u32),
}

/// Where a master transfer stands.
#[derive(Debug, PartialEq, Eq, Structural, Clone, Copy)]
pub enum MasterPhase {
    /// The START of the write part was sent; I2C_ISR is polled until one of
    /// TXIS, NACKF, STOPF or TC is set
    AwaitStart,
    /// I2C_ISR is polled until TXIS is set, then the next byte is sent
    AwaitTxis,
    /// A byte was sent; the next I2C_ISR tells whether it was refused
    CheckNack,
    /// I2C_ISR is polled until TC is set, then the read part starts
    AwaitTc,
    /// I2C_ISR is polled until RXNE is set
    AwaitRxne,
    /// I2C_RXDR is being read
    AwaitRxdr,
    /// The transfer is over
    Done,
}

/// A blocking master transfer, driven by the values of I2C_ISR and I2C_RXDR
/// that the caller reads; it answers with the register accesses to perform.
pub struct MasterTransfer {
    addr: u8,
    bytes: Vec<u8>,
    read_len: usize,
    with_read: bool,
    phase: MasterPhase,
    sent: usize,
    buffer: Vec<u8>,
    outcome: Option<Result<(), Error>>,
}

/// The state of a master transfer.
#[verifier::ext_equal]
pub struct MasterState {
    /// The 7-bit address of the device
    pub addr: u8,
    /// The bytes to write
    pub bytes: Seq<u8>,
    /// The number of bytes to read after the write
    pub read_len: nat,
    /// Whether a read follows the write
    pub with_read: bool,
    pub phase: MasterPhase,
    /// How many bytes went to I2C_TXDR so far
    pub sent: nat,
    /// The bytes read so far
    pub buffer: Seq<u8>,
    /// The result, once the transfer is over
    pub outcome: Option<Result<(), Error>>,
}

impl View for MasterTransfer {
    type V = MasterState;

    closed spec fn view(&self) -> MasterState {
        MasterState {
            addr: self.addr,
            bytes: self.bytes@,
            read_len: self.read_len as nat,
            with_read: self.with_read,
            phase: self.phase,
            sent: self.sent as nat,
            buffer: self.buffer@,
            outcome: self.outcome,
        }
    }
}

/// Whether any of TXIS, NACKF, STOPF and TC is set in I2C_ISR.
pub open spec fn start_resolved(isr: u32) -> bool {
    bit_is_set(isr, ISR_TXIS) || bit_is_set(isr, ISR_NACKF) || bit_is_set(isr, ISR_STOPF)
        || bit_is_set(isr, ISR_TC)
}

/// The consistent states of a master transfer.
pub open spec fn master_wf(s: MasterState) -> bool {
    &&& s.sent <= s.bytes.len()
    &&& s.buffer.len() <= s.read_len
    &&& (s.phase != MasterPhase::Done <==> s.outcome is None)
    &&& (s.phase == MasterPhase::AwaitStart ==> s.sent == 0 && s.with_read)
    &&& (s.phase == MasterPhase::AwaitTxis ==> s.sent < s.bytes.len())
    &&& (s.phase == MasterPhase::CheckNack ==> s.sent > 0)
    &&& (s.phase == MasterPhase::AwaitTc ==> s.sent == s.bytes.len() && s.with_read)
    &&& (s.phase == MasterPhase::AwaitRxne || s.phase == MasterPhase::AwaitRxdr ==> s.sent
        == s.bytes.len() && s.with_read && s.buffer.len() < s.read_len)
    &&& (!s.with_read ==> s.buffer.len() == 0)
    &&& (s.phase == MasterPhase::AwaitStart || s.phase == MasterPhase::AwaitTxis || s.phase
        == MasterPhase::CheckNack || s.phase == MasterPhase::AwaitTc ==> s.buffer.len() == 0)
    &&& (s.outcome == Some(Ok::<(), Error>(())) ==> s.sent == s.bytes.len() && s.buffer.len() == (
    if s.with_read {
        s.read_len
    } else {
        0
    }))
}

/// `s` finished with `outcome`.
pub open spec fn finish(s: MasterState, outcome: Result<(), Error>) -> MasterState {
    MasterState { phase: MasterPhase::Done, outcome: Some(outcome), ..s }
}

/// `s` in phase `phase`.
pub open spec fn enter(s: MasterState, phase: MasterPhase) -> MasterState {
    MasterState { phase, ..s }
}

/// What follows the last byte of the write part: the wait for TC before the
/// read part, or the end of a plain write, which clears STOPF and NACKF.
pub open spec fn after_write(s: MasterState) -> (MasterState, Seq<MasterAction>) {
    if s.with_read {
        (enter(s, MasterPhase::AwaitTc), seq![])
    } else {
        (finish(s, Ok(())), seq![MasterAction::WriteIcr(ICR_STOP_NACK)])
    }
}

/// The I2C_CR2 accesses that start the read part: address, byte count and
/// RD_WRN, then START, then AUTOEND.
pub open spec fn read_setup(s: MasterState) -> Seq<MasterAction> {
    seq![
        MasterAction::ModifyCr2 {
            clear: CR2_TRANSFER_MASK,
            set: ((s.addr as u32) << 1u32) | (((s.read_len as u8) as u32) << 16u32) | CR2_RD_WRN,
        },
        MasterAction::ModifyCr2 { clear: 0, set: CR2_START },
        MasterAction::ModifyCr2 { clear: 0, set: CR2_AUTOEND },
    ]
}

/// The transfer's answer to a value of I2C_ISR.
pub open spec fn master_next(s: MasterState, isr: u32) -> (MasterState, Seq<MasterAction>) {
    match s.phase {
        MasterPhase::AwaitStart => if !start_resolved(isr) {
            (s, seq![])
        } else if bit_is_set(isr, ISR_NACKF) {
            (finish(s, Err(Error::NACK)), seq![MasterAction::WriteIcr(ICR_STOP_NACK)])
        } else if s.bytes.len() > 0 {
            (enter(s, MasterPhase::AwaitTxis), seq![])
        } else {
            after_write(s)
        },
        MasterPhase::AwaitTxis => if !bit_is_set(isr, ISR_TXIS) {
            (s, seq![])
        } else {
            (
                MasterState { phase: MasterPhase::CheckNack, sent: s.sent + 1, ..s },
                seq![MasterAction::WriteTxdr(s.bytes[s.sent as int])],
            )
        },
        MasterPhase::CheckNack => if bit_is_set(isr, ISR_NACKF) {
            (finish(s, Err(Error::NACK)), seq![MasterAction::WriteIcr(ICR_STOP_NACK)])
        } else if s.sent < s.bytes.len() {
            (enter(s, MasterPhase::AwaitTxis), seq![])
        } else {
            after_write(s)
        },
        MasterPhase::AwaitTc => if !bit_is_set(isr, ISR_TC) {
            (s, seq![])
        } else if s.read_len == 0 {
            (finish(s, Ok(())), read_setup(s).push(MasterAction::WriteIcr(ICR_STOP_NACK)))
        } else {
            (enter(s, MasterPhase::AwaitRxne), read_setup(s))
        },
        MasterPhase::AwaitRxne => if !bit_is_set(isr, ISR_RXNE) {
            (s, seq![])
        } else {
            (enter(s, MasterPhase::AwaitRxdr), seq![MasterAction::ReadRxdr])
        },
        _ => (s, seq![]),
    }
}

/// The transfer's answer to a value read from I2C_RXDR.
pub open spec fn master_received(s: MasterState, rxdr: u32) -> (MasterState, Seq<MasterAction>) {
    if s.phase != MasterPhase::AwaitRxdr {
        (s, seq![])
    } else {
        let t = MasterState { buffer: s.buffer.push(rxdr as u8), ..s };
        if t.buffer.len() < s.read_len {
            (enter(t, MasterPhase::AwaitRxne), seq![])
        } else {
            (finish(t, Ok(())), seq![MasterAction::WriteIcr(ICR_STOP_NACK)])
        }
    }
}

/// The bytes that a list of accesses writes to I2C_TXDR, in order.
pub open spec fn txdr_writes(actions: Seq<MasterAction>) -> Seq<u8>
    decreases actions.len(),
{
    if actions.len() == 0 {
        seq![]
    } else {
        let rest = txdr_writes(actions.drop_last());
        match actions.last() {
            MasterAction::WriteTxdr(b) => rest.push(b),
            _ => rest,
        }
    }
}

fn copy_bytes(bytes: &[u8]) -> (r: Vec<u8>)
    ensures
        r@ == bytes@,
{
    let mut r: Vec<u8> = Vec::new();
    let mut i: usize = 0;
    while i < bytes.len()
        invariant
            i <= bytes.len(),
            r@ == bytes@.take(i as int),
        decreases bytes.len() - i,
    {
        r.push(bytes[i]);
        i = i + 1;
        assert(r@ =~= bytes@.take(i as int));
    }
    assert(r@ =~= bytes@);
    r
}

fn isr_bit(isr: u32, bit: u32) -> (r: bool)
    requires
        bit < 32,
    ensures
        r == bit_is_set(isr, bit),
{
    isr & (1u32 << bit) != 0
}


/// The first I2C_CR2 access of a write part of `len` bytes to `addr`.
pub open spec fn write_setup(addr: u8, len: nat, autoend: bool) -> MasterAction {
    MasterAction::ModifyCr2 {
        clear: CR2_WRITE_FIELDS,
        set: ((addr as u32) << 1u32) | (((len as u8) as u32) << 16u32) | (if autoend {
            CR2_AUTOEND
        } else {
            0u32
        }),
    }
}

/// A plain write of `bytes` to `addr` as it starts: the write part is set up
/// with AUTOEND and started; with nothing to send it is over at once.
pub open spec fn write_begin(addr: u8, bytes: Seq<u8>) -> (MasterState, Seq<MasterAction>) {
    let s = MasterState {
        addr,
        bytes,
        read_len: 0,
        with_read: false,
        phase: MasterPhase::AwaitTxis,
        sent: 0,
        buffer: seq![],
        outcome: None,
    };
    let a = seq![write_setup(addr, bytes.len(), true), MasterAction::ModifyCr2 { clear: 0, set: CR2_START }];
    if bytes.len() == 0 {
        (finish(s, Ok(())), a.push(MasterAction::WriteIcr(ICR_STOP_NACK)))
    } else {
        (s, a)
    }
}

/// A write of `bytes` followed by a read of `read_len` bytes as it starts:
/// the write part is set up without AUTOEND and started.
pub open spec fn write_read_begin(addr: u8, bytes: Seq<u8>, read_len: nat) -> (MasterState, Seq<MasterAction>) {
    (
        MasterState {
            addr,
            bytes,
            read_len,
            with_read: true,
            phase: MasterPhase::AwaitStart,
            sent: 0,
            buffer: seq![],
            outcome: None,
        },
        seq![write_setup(addr, bytes.len(), false), MasterAction::ModifyCr2 { clear: 0, set: CR2_START }],
    )
}

impl MasterTransfer {
    fn finish_with(&mut self, outcome: Result<(), Error>)
        ensures
            final(self)@ == finish(old(self)@, outcome),
    {
        self.phase = MasterPhase::Done;
        self.outcome = Some(outcome);
    }

    fn after_write(&mut self) -> (r: Vec<MasterAction>)
        ensures
            final(self)@ == after_write(old(self)@).0,
            r@ == after_write(old(self)@).1,
    {
        if self.with_read {
            self.phase = MasterPhase::AwaitTc;
            Vec::new()
        } else {
            self.finish_with(Ok(()));
            vec![MasterAction::WriteIcr(ICR_STOP_NACK)]
        }
    }

    /// Answers a value of I2C_ISR with the register accesses that follow it.
    pub fn step(&mut self, isr: u32) -> (r: Vec<MasterAction>)
        requires
            master_wf(old(self)@),
        ensures
            final(self)@ == master_next(old(self)@, isr).0,
            r@ == master_next(old(self)@, isr).1,
            master_wf(final(self)@),
    {
        let nack = isr_bit(isr, ISR_NACKF);
        match self.phase {
            MasterPhase::AwaitStart => {
                if !(isr_bit(isr, ISR_TXIS) || nack || isr_bit(isr, ISR_STOPF) || isr_bit(isr, ISR_TC)) {
                    Vec::new()
                } else if nack {
                    self.finish_with(Err(Error::NACK));
                    vec![MasterAction::WriteIcr(ICR_STOP_NACK)]
                } else if self.bytes.len() > 0 {
                    self.phase = MasterPhase::AwaitTxis;
                    Vec::new()
                } else {
                    self.after_write()
                }
            },
            MasterPhase::AwaitTxis => {
                if !isr_bit(isr, ISR_TXIS) {
                    Vec::new()
                } else {
                    assert(self.sent < self.bytes.len());
                    let b = self.bytes[self.sent];
                    self.sent = self.sent + 1;
                    self.phase = MasterPhase::CheckNack;
                    vec![MasterAction::WriteTxdr(b)]
                }
            },
            MasterPhase::CheckNack => {
                if nack {
                    self.finish_with(Err(Error::NACK));
                    vec![MasterAction::WriteIcr(ICR_STOP_NACK)]
                } else if self.sent < self.bytes.len() {
                    self.phase = MasterPhase::AwaitTxis;
                    Vec::new()
                } else {
                    self.after_write()
                }
            },
            MasterPhase::AwaitTc => {
                if !isr_bit(isr, ISR_TC) {
                    Vec::new()
                } else {
                    let n = (#[verifier::truncate] (self.read_len as u8)) as u32;
                    let mut a = vec![
                        MasterAction::ModifyCr2 {
                            clear: CR2_TRANSFER_MASK,
                            set: ((self.addr as u32) << 1u32) | (n << 16u32) | CR2_RD_WRN,
                        },
                        MasterAction::ModifyCr2 { clear: 0, set: CR2_START },
                        MasterAction::ModifyCr2 { clear: 0, set: CR2_AUTOEND },
                    ];
                    if self.read_len == 0 {
                        self.finish_with(Ok(()));
                        a.push(MasterAction::WriteIcr(ICR_STOP_NACK));
                    } else {
                        self.phase = MasterPhase::AwaitRxne;
                    }
                    assert(a@ =~= master_next(old(self)@, isr).1);
                    a
                }
            },
            MasterPhase::AwaitRxne => {
                if !isr_bit(isr, ISR_RXNE) {
                    Vec::new()
                } else {
                    self.phase = MasterPhase::AwaitRxdr;
                    vec![MasterAction::ReadRxdr]
                }
            },
            _ => Vec::new(),
        }
    }

    /// Takes the value read from I2C_RXDR and answers with the register
    /// accesses that follow it.
    pub fn received(&mut self, rxdr: u32) -> (r: Vec<MasterAction>)
        requires
            master_wf(old(self)@),
        ensures
            final(self)@ == master_received(old(self)@, rxdr).0,
            r@ == master_received(old(self)@, rxdr).1,
            master_wf(final(self)@),
    {
        match self.phase {
            MasterPhase::AwaitRxdr => {
                self.buffer.push(#[verifier::truncate] (rxdr as u8));
                if self.buffer.len() < self.read_len {
                    self.phase = MasterPhase::AwaitRxne;
                    Vec::new()
                } else {
                    self.finish_with(Ok(()));
                    vec![MasterAction::WriteIcr(ICR_STOP_NACK)]
                }
            },
            _ => Vec::new(),
        }
    }

    /// The result of the transfer, once it is over.
    pub fn outcome(&self) -> (r: Option<Result<(), Error>>)
        ensures
            r == self@.outcome,
    {
        self.outcome
    }

    /// Where the transfer stands.
    pub fn phase(&self) -> (r: MasterPhase)
        ensures
            r == self@.phase,
    {
        self.phase
    }

    /// The bytes read so far.
    pub fn buffer(&self) -> (r: &[u8])
        ensures
            r@ == self@.buffer,
    {
        self.buffer.as_slice()
    }
}

impl<I2C, SCLPIN, SDAPIN> I2c<I2C, SCLPIN, SDAPIN> {
    /// Starts writing `bytes` to the device at `addr`, with AUTOEND: the
    /// transfer and the register accesses that start it.
    pub fn write(&mut self, addr: u8, bytes: &[u8]) -> (r: (MasterTransfer, Vec<MasterAction>))
        ensures
            *final(self) == *old(self),
            r.0@ == write_begin(addr, bytes@).0,
            r.1@ == write_begin(addr, bytes@).1,
            master_wf(r.0@),
    {
        let n = (#[verifier::truncate] (bytes.len() as u8)) as u32;
        let mut a = vec![
            MasterAction::ModifyCr2 { clear: CR2_WRITE_FIELDS, set: ((addr as u32) << 1u32) | (n << 16u32) | CR2_AUTOEND },
            MasterAction::ModifyCr2 { clear: 0, set: CR2_START },
        ];
        let mut t = MasterTransfer {
            addr,
            bytes: copy_bytes(bytes),
            read_len: 0,
            with_read: false,
            phase: MasterPhase::AwaitTxis,
            sent: 0,
            buffer: Vec::new(),
            outcome: None,
        };
        if bytes.len() == 0 {
            t.finish_with(Ok(()));
            a.push(MasterAction::WriteIcr(ICR_STOP_NACK));
        }
        assert(a@ =~= write_begin(addr, bytes@).1);
        (t, a)
    }

    /// Starts writing `bytes` to the device at `addr` and then reading
    /// `read_len` bytes from it: the transfer and the register accesses that
    /// start it.
    pub fn write_read(&mut self, addr: u8, bytes: &[u8], read_len: usize) -> (r: (MasterTransfer, Vec<MasterAction>))
        ensures
            *final(self) == *old(self),
            r.0@ == write_read_begin(addr, bytes@, read_len as nat).0,
            r.1@ == write_read_begin(addr, bytes@, read_len as nat).1,
            master_wf(r.0@),
    {
        let n = (#[verifier::truncate] (bytes.len() as u8)) as u32;
        let a = vec![
            MasterAction::ModifyCr2 { clear: CR2_WRITE_FIELDS, set: ((addr as u32) << 1u32) | (n << 16u32) },
            MasterAction::ModifyCr2 { clear: 0, set: CR2_START },
        ];
        let t = MasterTransfer {
            addr,
            bytes: copy_bytes(bytes),
            read_len,
            with_read: true,
            phase: MasterPhase::AwaitStart,
            sent: 0,
            buffer: Vec::new(),
            outcome: None,
        };
        let set = ((addr as u32) << 1u32) | (n << 16u32);
        assert(set | 0u32 == set) by (bit_vector);
        assert(a@ =~= write_read_begin(addr, bytes@, read_len as nat).1);
        (t, a)
    }
}


/// A value that the caller reads for a master transfer.
pub enum MasterEvent {
    /// A value of I2C_ISR
    Isr(u32),
    /// A value of I2C_RXDR
    Rxdr(u32),
}

/// The transfer's answer to one event.
pub open spec fn master_event(s: MasterState, e: MasterEvent) -> (MasterState, Seq<MasterAction>) {
    match e {
        MasterEvent::Isr(isr) => master_next(s, isr),
        MasterEvent::Rxdr(rxdr) => master_received(s, rxdr),
    }
}

/// The state after a series of events, and every register access answered
/// to them, in order.
pub open spec fn master_run(s: MasterState, events: Seq<MasterEvent>) -> (MasterState, Seq<MasterAction>)
    decreases events.len(),
{
    if events.len() == 0 {
        (s, seq![])
    } else {
        let (t, a) = master_run(s, events.drop_last());
        let (u, b) = master_event(t, events.last());
        (u, a + b)
    }
}

proof fn lemma_txdr_writes_concat(a: Seq<MasterAction>, b: Seq<MasterAction>)
    ensures
        txdr_writes(a + b) == txdr_writes(a) + txdr_writes(b),
    decreases b.len(),
{
    if b.len() == 0 {
        assert(a + b =~= a);
        assert(txdr_writes(b) =~= seq![]);
        assert(txdr_writes(a) + txdr_writes(b) =~= txdr_writes(a));
    } else {
        assert((a + b).drop_last() =~= a + b.drop_last());
        assert((a + b).last() == b.last());
        lemma_txdr_writes_concat(a, b.drop_last());
        match b.last() {
            MasterAction::WriteTxdr(x) => {
                assert(txdr_writes(a) + txdr_writes(b.drop_last()).push(x) =~= (txdr_writes(a)
                    + txdr_writes(b.drop_last())).push(x));
            },
            _ => {},
        }
    }
}

/// One event writes to I2C_TXDR exactly the bytes between the count sent
/// before it and the count sent after it, and keeps the transfer consistent.
pub proof fn lemma_master_event_writes(s: MasterState, e: MasterEvent)
    requires
        master_wf(s),
    ensures
        master_wf(master_event(s, e).0),
        s.sent <= master_event(s, e).0.sent,
        master_event(s, e).0.bytes == s.bytes,
        master_event(s, e).0.with_read == s.with_read,
        master_event(s, e).0.read_len == s.read_len,
        txdr_writes(master_event(s, e).1) == s.bytes.subrange(s.sent as int, master_event(s, e).0.sent as int),
{
    reveal_with_fuel(txdr_writes, 5);
    let (t, a) = master_event(s, e);
    match e {
        MasterEvent::Isr(isr) => {
            if s.phase == MasterPhase::AwaitTxis && bit_is_set(isr, ISR_TXIS) {
                assert(s.bytes.subrange(s.sent as int, s.sent + 1int) =~= seq![s.bytes[s.sent as int]]);
                assert(txdr_writes(a) =~= seq![s.bytes[s.sent as int]]);
            } else {
                assert(txdr_writes(a) =~= seq![]);
            }
        },
        MasterEvent::Rxdr(rxdr) => {
            assert(txdr_writes(a) =~= seq![]);
        },
    }
    assert(s.bytes.subrange(s.sent as int, s.sent as int) =~= seq![]);
}

/// Whatever a master transfer is told, it stays consistent, and what it
/// writes to I2C_TXDR is the next of its bytes in order: over any series of
/// events, the bytes written are those between the count sent before and the
/// count sent after.
pub proof fn lemma_master_run_writes(s: MasterState, events: Seq<MasterEvent>)
    requires
        master_wf(s),
    ensures
        master_wf(master_run(s, events).0),
        master_run(s, events).0.bytes == s.bytes,
        master_run(s, events).0.with_read == s.with_read,
        master_run(s, events).0.read_len == s.read_len,
        s.sent <= master_run(s, events).0.sent,
        txdr_writes(master_run(s, events).1) == s.bytes.subrange(s.sent as int, master_run(s, events).0.sent as int),
    decreases events.len(),
{
    if events.len() == 0 {
        assert(txdr_writes(seq![]) =~= seq![]);
        assert(s.bytes.subrange(s.sent as int, s.sent as int) =~= seq![]);
    } else {
        let (t, a) = master_run(s, events.drop_last());
        lemma_master_run_writes(s, events.drop_last());
        lemma_master_event_writes(t, events.last());
        let (u, b) = master_event(t, events.last());
        lemma_txdr_writes_concat(a, b);
        assert(s.bytes.subrange(s.sent as int, t.sent as int) + s.bytes.subrange(t.sent as int, u.sent as int)
            =~= s.bytes.subrange(s.sent as int, u.sent as int));
    }
}

/// A write that ends in success has written every byte to I2C_TXDR, in
/// order, whatever values of I2C_ISR it was shown.
pub proof fn lemma_write_sends_bytes(addr: u8, bytes: Seq<u8>, events: Seq<MasterEvent>)
    ensures
        ({
            let (s0, a0) = write_begin(addr, bytes);
            let (s, a) = master_run(s0, events);
            s.outcome == Some(Ok::<(), Error>(())) ==> txdr_writes(a0 + a) == bytes
        }),
{
    reveal_with_fuel(txdr_writes, 4);
    let (s0, a0) = write_begin(addr, bytes);
    let (s, a) = master_run(s0, events);
    lemma_master_run_writes(s0, events);
    lemma_txdr_writes_concat(a0, a);
    assert(txdr_writes(a0) =~= seq![]);
    if s.outcome == Some(Ok::<(), Error>(())) {
        assert(bytes.subrange(0, bytes.len() as int) =~= bytes);
        assert(seq![] + bytes =~= bytes);
    }
}

/// A write followed by a read that ends in success has written every byte
/// to I2C_TXDR, in order, and read exactly the requested number of bytes,
/// whatever values of I2C_ISR and I2C_RXDR it was shown.
pub proof fn lemma_write_read_complete(addr: u8, bytes: Seq<u8>, read_len: nat, events: Seq<MasterEvent>)
    ensures
        ({
            let (s0, a0) = write_read_begin(addr, bytes, read_len);
            let (s, a) = master_run(s0, events);
            s.outcome == Some(Ok::<(), Error>(())) ==> txdr_writes(a0 + a) == bytes && s.buffer.len()
                == read_len
        }),
{
    reveal_with_fuel(txdr_writes, 4);
    let (s0, a0) = write_read_begin(addr, bytes, read_len);
    let (s, a) = master_run(s0, events);
    lemma_master_run_writes(s0, events);
    lemma_txdr_writes_concat(a0, a);
    assert(txdr_writes(a0) =~= seq![]);
    if s.outcome == Some(Ok::<(), Error>(())) {
        assert(bytes.subrange(0, bytes.len() as int) =~= bytes);
        assert(seq![] + bytes =~= bytes);
    }
}


/// A master transfer writes to I2C_TXDR only in answer to a value of I2C_ISR
/// with TXIS set, one byte at most, and reads I2C_RXDR only in answer to one
/// with RXNE set.
pub proof fn lemma_master_waits_for_flags(s: MasterState, isr: u32)
    requires
        master_wf(s),
    ensures
        txdr_writes(master_next(s, isr).1).len() <= 1,
        txdr_writes(master_next(s, isr).1).len() == 1 ==> bit_is_set(isr, ISR_TXIS),
        master_next(s, isr).1.contains(MasterAction::ReadRxdr) ==> bit_is_set(isr, ISR_RXNE),
{
    reveal_with_fuel(txdr_writes, 5);
    let a = master_next(s, isr).1;
    if s.phase == MasterPhase::AwaitTxis && bit_is_set(isr, ISR_TXIS) {
        assert(txdr_writes(a) =~= seq![s.bytes[s.sent as int]]);
    } else {
        assert(txdr_writes(a) =~= seq![]);
    }
    if a.contains(MasterAction::ReadRxdr) {
        let k = choose|k: int| 0 <= k < a.len() && a[k] == MasterAction::ReadRxdr;
        assert(s.phase == MasterPhase::AwaitRxne && bit_is_set(isr, ISR_RXNE));
    }
}


/// The bytes of the I2C_RXDR values, among `events`, that arrive while the
/// transfer waits for one, in order.
pub open spec fn accepted_reads(s: MasterState, events: Seq<MasterEvent>) -> Seq<u8>
    decreases events.len(),
{
    if events.len() == 0 {
        seq![]
    } else {
        let before = accepted_reads(s, events.drop_last());
        match events.last() {
            MasterEvent::Rxdr(v) => if master_run(s, events.drop_last()).0.phase == MasterPhase::AwaitRxdr {
                before.push(v as u8)
            } else {
                before
            },
            MasterEvent::Isr(_) => before,
        }
    }
}

/// What a master transfer reads is what I2C_RXDR held: over any series of
/// events, the bytes read grow by exactly the values read while the
/// transfer waited for them, in order.
pub proof fn lemma_master_run_reads(s: MasterState, events: Seq<MasterEvent>)
    ensures
        master_run(s, events).0.buffer == s.buffer + accepted_reads(s, events),
    decreases events.len(),
{
    if events.len() == 0 {
        assert(s.buffer + seq![] =~= s.buffer);
    } else {
        lemma_master_run_reads(s, events.drop_last());
        let t = master_run(s, events.drop_last()).0;
        let before = accepted_reads(s, events.drop_last());
        match events.last() {
            MasterEvent::Rxdr(v) => {
                if t.phase == MasterPhase::AwaitRxdr {
                    assert(s.buffer + before.push(v as u8) =~= (s.buffer + before).push(v as u8));
                }
            },
            MasterEvent::Isr(isr) => {},
        }
    }
}

} // verus!
