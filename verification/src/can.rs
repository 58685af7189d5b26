//! CAN peripheral resources

use vstd::prelude::*;

use crate::rcc::{with_bit, Bus, Rcc};

verus! {

/// Restricts the pin traits to the pins of this crate
pub trait Sealed {}

/// Marks a pin that can serve as CAN RX
pub trait RxPin: Sealed {}

/// Marks a pin that can serve as CAN TX
pub trait TxPin: Sealed {}

/// Resources used by the CAN peripheral.
pub struct CanInstance<CAN, T, R> {
    pub peripheral: CAN,
    pub tx: T,
    pub rx: R,
}

/// Bit of CANEN in RCC_APB1ENR
pub const CANEN: u32 = 25;

/// The number of filter banks of the peripheral
pub const NUM_FILTER_BANKS: u8 = 14;

impl<CAN, T: TxPin, R: RxPin> CanInstance<CAN, T, R> {
    /// Takes the CAN peripheral and its pins and enables its clock in `rcc`;
    /// the caller pulses its reset.
    pub fn new(peripheral: CAN, tx: T, rx: R, rcc: &mut Rcc) -> (r: Self)
        ensures
            r.peripheral == peripheral,
            r.tx == tx,
            r.rx == rx,
            final(rcc).clocks == old(rcc).clocks,
            final(rcc).regs.enr(Bus::APB1) == with_bit(old(rcc).regs.enr(Bus::APB1), CANEN),
            final(rcc).regs.enr(Bus::APB2) == old(rcc).regs.enr(Bus::APB2),
            final(rcc).regs.enr(Bus::AHB) == old(rcc).regs.enr(Bus::AHB),
    {
        rcc.regs.enable(Bus::APB1, CANEN);
        Self { peripheral, tx, rx }
    }

    /// Gives back the peripheral and the pins
    pub fn into_raw(self) -> (r: (CAN, T, R))
        ensures
            r.0 == self.peripheral,
            r.1 == self.tx,
            r.2 == self.rx,
    {
        (self.peripheral, self.tx, self.rx)
    }
}

} // verus!
