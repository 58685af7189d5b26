//! Touch sense controller: configuration words, channel masks and events
//!
//! The Cs capacitance is a key parameter for sensitivity. For touchkey sensors, the Cs value is
//! usually comprised between 8.7nF to 22nF. For linear and rotary touch sensors, the value is
//! usually comprised between 47nF and 100nF. These values are given as reference for an
//! electrode fitting a human finger tip size across a few millimeters dielectric panel.

use vstd::prelude::*;

use crate::gpio::{Alternate, Pin, Port, AF3};
use crate::rcc::{bit_is_set, with_bit, without_bit, set_bit, clear_bit, Bus, Rcc};

verus! {

#[derive(Debug, Clone, Copy, PartialEq, Eq, Structural)]
pub enum Event {
    /// Max count error
    MaxCountError,
    /// End of acquisition
    EndOfAcquisition,
}

#[derive(Debug, Clone, Copy, PartialEq, Eq, Structural)]
pub enum Error {
    /// Max count error
    MaxCountError,
    /// Wrong GPIO for reading
    InvalidPin,
}

/// A pin usable by the touch sense controller `TSC`: its group (1 to 6) and
/// its offset within the group (1 to 4)
pub trait TscPin<TSC> {
    /// Returns the group a pin belongs to
    fn group() -> u8;

    /// Returns the offset of the pin within the control registers
    fn offset() -> u8;
}

/// Touch sense controller
pub struct Tsc<TSC> {
    tsc: TSC,
    iohcr: u32,
    ioscr: u32,
    iogcsr: u32,
    ioccr: u32,
    ier: u32,
}

/// Configuration of the touch sense controller
#[derive(Debug)]
pub struct Config {
    pub clock_prescale: Option<ClockPrescaler>,
    pub max_count: Option<MaxCount>,
    pub charge_transfer_high: Option<ChargeDischargeTime>,
    pub charge_transfer_low: Option<ChargeDischargeTime>,
}

#[derive(Debug, Clone, Copy, PartialEq, Eq, Structural)]
pub enum ClockPrescaler {
    Hclk,
    HclkDiv2,
    HclkDiv4,
    HclkDiv8,
    HclkDiv16,
    HclkDiv32,
    HclkDiv64,
    HclkDiv128,
}

impl ClockPrescaler {
    /// The PGPSC field value: the base two logarithm of the divider.
    pub open spec fn bits_spec(self) -> u32 {
        match self {
            ClockPrescaler::Hclk => 0b000,
            ClockPrescaler::HclkDiv2 => 0b001,
            ClockPrescaler::HclkDiv4 => 0b010,
            ClockPrescaler::HclkDiv8 => 0b011,
            ClockPrescaler::HclkDiv16 => 0b100,
            ClockPrescaler::HclkDiv32 => 0b101,
            ClockPrescaler::HclkDiv64 => 0b110,
            ClockPrescaler::HclkDiv128 => 0b111,
        }
    }

    pub fn bits(self) -> (r: u32)
        ensures
            r == self.bits_spec(),
    {
        match self {
            ClockPrescaler::Hclk => 0b000,
            ClockPrescaler::HclkDiv2 => 0b001,
            ClockPrescaler::HclkDiv4 => 0b010,
            ClockPrescaler::HclkDiv8 => 0b011,
            ClockPrescaler::HclkDiv16 => 0b100,
            ClockPrescaler::HclkDiv32 => 0b101,
            ClockPrescaler::HclkDiv64 => 0b110,
            ClockPrescaler::HclkDiv128 => 0b111,
        }
    }
}

#[derive(Debug, Clone, Copy, PartialEq, Eq, Structural)]
pub enum MaxCount {
    /// 000: 255
    U255,
    /// 001: 511
    U511,
    /// 010: 1023
    U1023,
    /// 011: 2047
    U2047,
    /// 100: 4095
    U4095,
    /// 101: 8191
    U8191,
    /// 110: 16383
    U16383,
}

impl MaxCount {
    /// The MCV field value.
    pub open spec fn bits_spec(self) -> u32 {
        match self {
            MaxCount::U255 => 0b000,
            MaxCount::U511 => 0b001,
            MaxCount::U1023 => 0b010,
            MaxCount::U2047 => 0b011,
            MaxCount::U4095 => 0b100,
            MaxCount::U8191 => 0b101,
            MaxCount::U16383 => 0b110,
        }
    }

    pub fn bits(self) -> (r: u32)
        ensures
            r == self.bits_spec(),
    {
        match self {
            MaxCount::U255 => 0b000,
            MaxCount::U511 => 0b001,
            MaxCount::U1023 => 0b010,
            MaxCount::U2047 => 0b011,
            MaxCount::U4095 => 0b100,
            MaxCount::U8191 => 0b101,
            MaxCount::U16383 => 0b110,
        }
    }
}

/// How many tsc cycles are spent charging / discharging
#[derive(Debug, Clone, Copy, PartialEq, Eq, Structural)]
pub enum ChargeDischargeTime {
    C1,
    C2,
    C3,
    C4,
    C5,
    C6,
    C7,
    C8,
    C9,
    C10,
    C11,
    C12,
    C13,
    C14,
    C15,
    C16,
}

impl ChargeDischargeTime {
    /// The CTPH/CTPL field value: the number of cycles minus one.
    pub open spec fn bits_spec(self) -> u32 {
        match self {
            ChargeDischargeTime::C1 => 0,
            ChargeDischargeTime::C2 => 1,
            ChargeDischargeTime::C3 => 2,
            ChargeDischargeTime::C4 => 3,
            ChargeDischargeTime::C5 => 4,
            ChargeDischargeTime::C6 => 5,
            ChargeDischargeTime::C7 => 6,
            ChargeDischargeTime::C8 => 7,
            ChargeDischargeTime::C9 => 8,
            ChargeDischargeTime::C10 => 9,
            ChargeDischargeTime::C11 => 10,
            ChargeDischargeTime::C12 => 11,
            ChargeDischargeTime::C13 => 12,
            ChargeDischargeTime::C14 => 13,
            ChargeDischargeTime::C15 => 14,
            ChargeDischargeTime::C16 => 15,
        }
    }

    pub fn bits(self) -> (r: u32)
        ensures
            r == self.bits_spec(),
    {
        match self {
            ChargeDischargeTime::C1 => 0,
            ChargeDischargeTime::C2 => 1,
            ChargeDischargeTime::C3 => 2,
            ChargeDischargeTime::C4 => 3,
            ChargeDischargeTime::C5 => 4,
            ChargeDischargeTime::C6 => 5,
            ChargeDischargeTime::C7 => 6,
            ChargeDischargeTime::C8 => 7,
            ChargeDischargeTime::C9 => 8,
            ChargeDischargeTime::C10 => 9,
            ChargeDischargeTime::C11 => 10,
            ChargeDischargeTime::C12 => 11,
            ChargeDischargeTime::C13 => 12,
            ChargeDischargeTime::C14 => 13,
            ChargeDischargeTime::C15 => 14,
            ChargeDischargeTime::C16 => 15,
        }
    }
}

/// Bit of TSCEN in RCC_AHBENR
pub const TSCEN: u32 = 24;

/// TSC_CR bits
pub const CR_TSCE: u32 = 0x0000_0001;
pub const CR_START: u32 = 0x0000_0002;
pub const CR_IODEF: u32 = 0x0000_0010;

/// TSC_ICR/TSC_ISR/TSC_IER bit of each event
pub open spec fn event_mask(event: Event) -> u32 {
    match event {
        Event::EndOfAcquisition => 0x1,
        Event::MaxCountError => 0x2,
    }
}

/// The value of TSC_CR for the configuration fields: charge transfer pulse
/// high and low times, spread spectrum on with a deviation of 16, the pulse
/// generator prescaler, the max count value, and the controller enabled.
pub open spec fn cr_spec(ctph: u32, ctpl: u32, pgpsc: u32, mcv: u32) -> u32 {
    (ctph << 28u32) | (ctpl << 24u32) | (16u32 << 17u32) | 0x1_0000u32 | (pgpsc << 12u32) | (mcv << 5u32) | CR_TSCE
}

/// The register bit of a pin: its offset within its group of four.
pub open spec fn bit_pos(group: u8, offset: u8) -> int {
    offset - 1 + 4 * (group - 1)
}

/// The pins for which `bit_pos` computes without underflow and names a bit of
/// a 32-bit register.
pub open spec fn pin_ok(group: u8, offset: u8) -> bool {
    &&& group >= 1
    &&& offset >= 1
    &&& bit_pos(group, offset) < 32
}

/// The group and offset of the touch sense channel of pin `i` of port `port`
/// in alternate function 3: PA0-PA3 form group 1, PA4-PA7 group 2, PB0-PB2
/// offsets 2 to 4 of group 3, PA9-PA12 group 4, and PB3, PB4, PB6, PB7 group
/// 5. Other pins have none.
pub open spec fn tsc_channel(port: Port, i: u8) -> Option<(u8, u8)> {
    match port {
        Port::A => if i <= 3 {
            Some((1u8, (i + 1) as u8))
        } else if i <= 7 {
            Some((2u8, (i - 3) as u8))
        } else if 9 <= i <= 12 {
            Some((4u8, (i - 8) as u8))
        } else {
            None
        },
        Port::B => if i <= 2 {
            Some((3u8, (i + 2) as u8))
        } else if i == 3 || i == 4 {
            Some((5u8, (i - 2) as u8))
        } else if i == 6 || i == 7 {
            Some((5u8, (i - 3) as u8))
        } else {
            None
        },
        _ => None,
    }
}

/// The touch sense channel of a pin in alternate function 3, as its group
/// and offset; `None` for a pin that has no channel.
pub fn channel_of(pin: &Pin<Alternate<AF3>>) -> (r: Option<(u8, u8)>)
    ensures
        r == tsc_channel(pin.port, pin.i),
        r matches Some((g, o)) ==> pin_ok(g, o),
{
    let i = pin.i;
    match pin.port {
        Port::A => if i <= 3 {
            Some((1, i + 1))
        } else if i <= 7 {
            Some((2, i - 3))
        } else if 9 <= i && i <= 12 {
            Some((4, i - 8))
        } else {
            None
        },
        Port::B => if i <= 2 {
            Some((3, i + 2))
        } else if i == 3 || i == 4 {
            Some((5, i - 2))
        } else if i == 6 || i == 7 {
            Some((5, i - 3))
        } else {
            None
        },
        _ => None,
    }
}

fn pin_bit(group: u8, offset: u8) -> (r: u32)
    requires
        pin_ok(group, offset),
    ensures
        r == bit_pos(group, offset),
        r < 32,
{
    (offset - 1 + (4 * (group - 1))) as u32
}

impl<TSC> Tsc<TSC> {
    pub closed spec fn peripheral(&self) -> TSC {
        self.tsc
    }

    /// Images of TSC_IOHCR, TSC_IOSCR, TSC_IOGCSR, TSC_IOCCR and TSC_IER
    pub closed spec fn iohcr_spec(&self) -> u32 {
        self.iohcr
    }

    pub closed spec fn ioscr_spec(&self) -> u32 {
        self.ioscr
    }

    pub closed spec fn iogcsr_spec(&self) -> u32 {
        self.iogcsr
    }

    pub closed spec fn ioccr_spec(&self) -> u32 {
        self.ioccr
    }

    pub closed spec fn ier_spec(&self) -> u32 {
        self.ier
    }

    /// The value to keep in TSC_IOHCR.
    pub fn iohcr(&self) -> (r: u32)
        ensures
            r == self.iohcr_spec(),
    {
        self.iohcr
    }

    /// The value to keep in TSC_IOSCR.
    pub fn ioscr(&self) -> (r: u32)
        ensures
            r == self.ioscr_spec(),
    {
        self.ioscr
    }

    /// The value to keep in TSC_IOGCSR.
    pub fn iogcsr(&self) -> (r: u32)
        ensures
            r == self.iogcsr_spec(),
    {
        self.iogcsr
    }

    /// The value to keep in TSC_IOCCR.
    pub fn ioccr(&self) -> (r: u32)
        ensures
            r == self.ioccr_spec(),
    {
        self.ioccr
    }

    /// The value to keep in TSC_IER.
    pub fn ier(&self) -> (r: u32)
        ensures
            r == self.ier_spec(),
    {
        self.ier
    }

    /// Initialise the touch controller peripheral: enables its clock in `rcc`
    /// and returns the value of TSC_CR for the configuration (charge transfer
    /// of 2 cycles, HCLK/16 and a max count of 8191 unless configured). The
    /// caller pulses the reset, writes TSC_CR and clears both events. The
    /// I/O registers hold their reset values.
    pub fn tsc(tsc: TSC, rcc: &mut Rcc, cfg: Option<Config>) -> (r: (Self, u32))
        ensures
            r.0.peripheral() == tsc,
            r.0.iohcr_spec() == 0xffff_ffff,
            r.0.ioscr_spec() == 0,
            r.0.iogcsr_spec() == 0,
            r.0.ioccr_spec() == 0,
            r.0.ier_spec() == 0,
            ({
                let (ctph, ctpl, pgpsc, mcv) = match cfg {
                    Some(c) => (
                        match c.charge_transfer_high { Some(t) => t.bits_spec(), None => 1u32 },
                        match c.charge_transfer_low { Some(t) => t.bits_spec(), None => 1u32 },
                        match c.clock_prescale { Some(p) => p.bits_spec(), None => 0b100u32 },
                        match c.max_count { Some(m) => m.bits_spec(), None => 0b101u32 },
                    ),
                    None => (1u32, 1u32, 0b100u32, 0b101u32),
                };
                r.1 == cr_spec(ctph, ctpl, pgpsc, mcv)
            }),
            final(rcc).clocks == old(rcc).clocks,
            final(rcc).regs.enr(Bus::AHB) == with_bit(old(rcc).regs.enr(Bus::AHB), TSCEN),
            final(rcc).regs.enr(Bus::APB1) == old(rcc).regs.enr(Bus::APB1),
            final(rcc).regs.enr(Bus::APB2) == old(rcc).regs.enr(Bus::APB2),
    {
        rcc.regs.enable(Bus::AHB, TSCEN);
        let config = match cfg {
            Some(c) => c,
            None => Config {
                clock_prescale: None,
                max_count: None,
                charge_transfer_high: None,
                charge_transfer_low: None,
            },
        };
        let ctph = match config.charge_transfer_high {
            Some(t) => t.bits(),
            None => ChargeDischargeTime::C2.bits(),
        };
        let ctpl = match config.charge_transfer_low {
            Some(t) => t.bits(),
            None => ChargeDischargeTime::C2.bits(),
        };
        let pgpsc = match config.clock_prescale {
            Some(p) => p.bits(),
            None => ClockPrescaler::HclkDiv16.bits(),
        };
        let mcv = match config.max_count {
            Some(m) => m.bits(),
            None => MaxCount::U8191.bits(),
        };
        let cr = (ctph << 28u32) | (ctpl << 24u32) | (16u32 << 17u32) | 0x1_0000u32 | (pgpsc << 12u32)
            | (mcv << 5u32) | CR_TSCE;
        (Tsc { tsc, iohcr: 0xffff_ffff, ioscr: 0, iogcsr: 0, ioccr: 0, ier: 0 }, cr)
    }

    /// Set up sample group: the pin at `group` and `offset` becomes the
    /// sampling pin of its group, with Schmitt trigger hysteresis, and the
    /// group takes part in acquisitions.
    pub fn setup_sample_group(&mut self, group: u8, offset: u8)
        requires
            pin_ok(group, offset),
        ensures
            final(self).iohcr_spec() == with_bit(old(self).iohcr_spec(), bit_pos(group, offset) as u32),
            final(self).ioscr_spec() == with_bit(old(self).ioscr_spec(), bit_pos(group, offset) as u32),
            final(self).iogcsr_spec() == with_bit(old(self).iogcsr_spec(), (group - 1) as u32),
            final(self).ioccr_spec() == old(self).ioccr_spec(),
            final(self).ier_spec() == old(self).ier_spec(),
            final(self).peripheral() == old(self).peripheral(),
    {
        let bit = pin_bit(group, offset);
        let group_pos = (group - 1) as u32;
        // Schmitt trigger hysteresis on sample IOs
        self.iohcr = set_bit(self.iohcr, bit);
        // Set the sampling pin
        self.ioscr = set_bit(self.ioscr, bit);
        // Set the acquisition group based on the channel pins
        self.iogcsr = set_bit(self.iogcsr, group_pos);
    }

    /// Add a GPIO for use as a channel
    pub fn enable_channel(&mut self, group: u8, offset: u8)
        requires
            pin_ok(group, offset),
        ensures
            final(self).ioccr_spec() == with_bit(old(self).ioccr_spec(), bit_pos(group, offset) as u32),
            final(self).iohcr_spec() == old(self).iohcr_spec(),
            final(self).ioscr_spec() == old(self).ioscr_spec(),
            final(self).iogcsr_spec() == old(self).iogcsr_spec(),
            final(self).ier_spec() == old(self).ier_spec(),
            final(self).peripheral() == old(self).peripheral(),
    {
        let bit = pin_bit(group, offset);
        self.ioccr = set_bit(self.ioccr, bit);
    }

    /// Remove a GPIO from use as a channel
    pub fn disable_channel(&mut self, group: u8, offset: u8)
        requires
            pin_ok(group, offset),
        ensures
            final(self).ioccr_spec() == without_bit(old(self).ioccr_spec(), bit_pos(group, offset) as u32),
            final(self).iohcr_spec() == old(self).iohcr_spec(),
            final(self).ioscr_spec() == old(self).ioscr_spec(),
            final(self).iogcsr_spec() == old(self).iogcsr_spec(),
            final(self).ier_spec() == old(self).ier_spec(),
            final(self).peripheral() == old(self).peripheral(),
    {
        let bit = pin_bit(group, offset);
        self.ioccr = clear_bit(self.ioccr, bit);
    }

    /// Starts a charge acquisition: TSC_CR with IODEF cleared (discharging
    /// the capacitors) and START set. The caller first clears both events.
    pub fn start(&self, cr: u32) -> (r: u32)
        ensures
            r == (cr & !CR_IODEF) | CR_START,
    {
        (cr & !CR_IODEF) | CR_START
    }

    /// Check for events on the TSC, given the value of TSC_ISR
    pub fn check_event(&self, isr: u32) -> (r: Option<Event>)
        ensures
            r == (if isr & 0x1 != 0 {
                Some(Event::EndOfAcquisition)
            } else if isr & 0x2 != 0 {
                Some(Event::MaxCountError)
            } else {
                None
            }),
    {
        if isr & 0x1 != 0 {
            Some(Event::EndOfAcquisition)
        } else if isr & 0x2 != 0 {
            Some(Event::MaxCountError)
        } else {
            None
        }
    }

    /// The value to write to TSC_ICR to clear an event
    pub fn clear(&self, event: Event) -> (r: u32)
        ensures
            r == event_mask(event),
    {
        match event {
            Event::EndOfAcquisition => 0x1,
            Event::MaxCountError => 0x2,
        }
    }

    /// One poll of a blocking acquisition: `None` while no event occurred,
    /// otherwise the outcome; the caller clears the event that occurred.
    pub fn acquire(&self, event: Option<Event>) -> (r: Option<Result<(), Error>>)
        ensures
            r == match event {
                Some(Event::MaxCountError) => Some(Err::<(), Error>(Error::MaxCountError)),
                Some(Event::EndOfAcquisition) => Some(Ok::<(), Error>(())),
                None => None::<Result<(), Error>>,
            },
    {
        match event {
            Some(Event::MaxCountError) => Some(Err(Error::MaxCountError)),
            Some(Event::EndOfAcquisition) => Some(Ok(())),
            None => None,
        }
    }

    /// Reads the count of the pin at `group` and `offset` from the values
    /// `counts` of the six group count registers, if the pin is enabled as a
    /// channel.
    pub fn read(&self, group: u8, offset: u8, counts: [u16; 6]) -> (r: Result<u16, Error>)
        requires
            pin_ok(group, offset),
        ensures
            bit_is_set(self.ioccr_spec(), bit_pos(group, offset) as u32) ==> r == Ok::<u16, Error>(
                if 1 <= group <= 6 { counts@[group - 1] } else { 0 }),
            !bit_is_set(self.ioccr_spec(), bit_pos(group, offset) as u32) ==> r == Err::<u16, Error>(Error::InvalidPin),
    {
        let bit = pin_bit(group, offset);
        // Check whether one of the enabled pins was supplied
        if self.ioccr & (1u32 << bit) != 0 {
            Ok(self.read_unchecked(group, counts))
        } else {
            Err(Error::InvalidPin)
        }
    }

    /// Reads the count of a group from the values `counts` of the six group
    /// count registers; 0 for a group that does not exist.
    pub fn read_unchecked(&self, group: u8, counts: [u16; 6]) -> (r: u16)
        ensures
            r == (if 1 <= group <= 6 { counts@[group - 1] } else { 0 }),
    {
        if group >= 1 && group <= 6 {
            counts[(group - 1) as usize]
        } else {
            0
        }
    }

    /// Enables an interrupt event
    pub fn listen(&mut self, event: Event)
        ensures
            final(self).ier_spec() == old(self).ier_spec() | event_mask(event),
            final(self).ioccr_spec() == old(self).ioccr_spec(),
            final(self).iohcr_spec() == old(self).iohcr_spec(),
            final(self).ioscr_spec() == old(self).ioscr_spec(),
            final(self).iogcsr_spec() == old(self).iogcsr_spec(),
            final(self).peripheral() == old(self).peripheral(),
    {
        let m = self.clear(event);
        self.ier = self.ier | m;
    }

    /// Disables an interrupt event
    pub fn unlisten(&mut self, event: Event)
        ensures
            final(self).ier_spec() == old(self).ier_spec() & !event_mask(event),
            final(self).ioccr_spec() == old(self).ioccr_spec(),
            final(self).iohcr_spec() == old(self).iohcr_spec(),
            final(self).ioscr_spec() == old(self).ioscr_spec(),
            final(self).iogcsr_spec() == old(self).iogcsr_spec(),
            final(self).peripheral() == old(self).peripheral(),
    {
        let m = self.clear(event);
        self.ier = self.ier & !m;
    }

    /// Releases the TSC peripheral
    pub fn free(self) -> (r: TSC)
        ensures
            r == self.peripheral(),
    {
        self.tsc
    }
}

/// Enabling a channel and disabling it again restores the channel register,
/// if the channel was disabled before.
pub proof fn lemma_channel_round_trip(ioccr: u32, bit: u32)
    requires
        bit < 32,
        !bit_is_set(ioccr, bit),
    ensures
        without_bit(with_bit(ioccr, bit), bit) == ioccr,
{
    assert(ioccr & (1u32 << bit) == 0 ==> ((ioccr | (1u32 << bit)) & !(1u32 << bit)) == ioccr) by (bit_vector)
        requires bit < 32;
}

} // verus!
