//! USB peripheral: its resources, packet memory and clock setup

use vstd::prelude::*;

use crate::rcc::{with_bit, Bus, Rcc, RccRegisters};

verus! {

/// The USB peripheral and its data pins (PA11 and PA12, floating inputs)
pub struct Peripheral<USB, DM, DP> {
    pub usb: USB,
    pub pin_dm: DM,
    pub pin_dp: DP,
}

/// Whether the peripheral has an internal pull-up on DP
pub const DP_PULL_UP_FEATURE: bool = true;

/// Address of the packet memory
pub const EP_MEMORY: usize = 0x4000_6000;

/// Size of the packet memory in bytes
pub const EP_MEMORY_SIZE: usize = 1024;

/// Bit of USBEN in RCC_APB1ENR
pub const USBEN: u32 = 23;

/// Bit of SYSCFGEN in RCC_APB2ENR
pub const SYSCFGEN: u32 = 0;

/// Bit of PA11_PA12_RMP in SYSCFG_CFGR1
pub const PA11_PA12_RMP: u32 = 4;

/// Core cycles to wait after enabling the peripheral
pub const STARTUP_DELAY_CYCLES: u32 = 72;

impl<USB, DM, DP> Peripheral<USB, DM, DP> {
    /// Enables the clock of the USB peripheral; the caller then pulses its
    /// reset, within a critical section.
    pub fn enable(regs: &mut RccRegisters)
        ensures
            final(regs).enr(Bus::APB1) == with_bit(old(regs).enr(Bus::APB1), USBEN),
            final(regs).enr(Bus::APB2) == old(regs).enr(Bus::APB2),
            final(regs).enr(Bus::AHB) == old(regs).enr(Bus::AHB),
    {
        regs.enable(Bus::APB1, USBEN);
    }
}

/// Remaps PA11/PA12 onto the pins of PA9/PA10, as TSSOP20 (STM32F042F) and
/// UFQFPN28 (STM32F042G) packages require for USB: enables the SYSCFG clock
/// in `rcc` and returns SYSCFG_CFGR1 with the remap bit set.
pub fn remap_pins(rcc: &mut Rcc, cfgr1: u32) -> (r: u32)
    ensures
        r == with_bit(cfgr1, PA11_PA12_RMP),
        final(rcc).clocks == old(rcc).clocks,
        final(rcc).regs.enr(Bus::APB2) == with_bit(old(rcc).regs.enr(Bus::APB2), SYSCFGEN),
        final(rcc).regs.enr(Bus::APB1) == old(rcc).regs.enr(Bus::APB1),
        final(rcc).regs.enr(Bus::AHB) == old(rcc).regs.enr(Bus::AHB),
{
    rcc.regs.enable(Bus::APB2, SYSCFGEN);
    crate::rcc::set_bit(cfgr1, PA11_PA12_RMP)
}

} // verus!
