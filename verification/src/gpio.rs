//! General Purpose Input / Output: pin mode register fields and pin access

use vstd::prelude::*;

use core::marker::PhantomData;

use crate::rcc::{bit_is_set, with_bit, Bus, Rcc};

verus! {

/// Extension trait to split a GPIO peripheral in independent pins and registers
pub trait GpioExt {
    /// The parts to split the GPIO into
    type Parts;

    /// Splits the GPIO block into independent pins and registers
    fn split(self, rcc: &mut Rcc) -> Self::Parts;
}

/// Alternate function 0
pub struct AF0;
/// Alternate function 1
pub struct AF1;
/// Alternate function 2
pub struct AF2;
/// Alternate function 3
pub struct AF3;
/// Alternate function 4
pub struct AF4;
/// Alternate function 5
pub struct AF5;
/// Alternate function 6
pub struct AF6;
/// Alternate function 7
pub struct AF7;

/// Alternate function mode (type state)
pub struct Alternate<AF> {
    pub _mode: PhantomData<AF>,
}

/// Input mode (type state)
pub struct Input<MODE> {
    pub _mode: PhantomData<MODE>,
}

/// Floating input (type state)
pub struct Floating;

/// Pulled down input (type state)
pub struct PullDown;

/// Pulled up input (type state)
pub struct PullUp;

/// Open drain input or output (type state)
pub struct OpenDrain;

/// Analog mode (type state)
pub struct Analog;

/// Output mode (type state)
pub struct Output<MODE> {
    pub _mode: PhantomData<MODE>,
}

/// Push pull output (type state)
pub struct PushPull;

/// A GPIO port
#[derive(Clone, Copy, Debug, PartialEq, Eq, Structural)]
pub enum Port {
    A,
    B,
    C,
    D,
    F,
}

/// The bit of a port's clock enable in RCC_AHBENR.
pub open spec fn port_enable_bit(port: Port) -> u32 {
    match port {
        Port::A => 17,
        Port::B => 18,
        Port::C => 19,
        Port::D => 20,
        Port::F => 22,
    }
}

fn port_enable(port: Port) -> (r: u32)
    ensures
        r == port_enable_bit(port),
        r < 32,
{
    match port {
        Port::A => 17,
        Port::B => 18,
        Port::C => 19,
        Port::D => 20,
        Port::F => 22,
    }
}

/// Fully erased pin
pub struct Pin<MODE> {
    pub i: u8,
    pub port: Port,
    pub _mode: PhantomData<MODE>,
}

impl GpioExt for Port {
    type Parts = Vec<Pin<Input<Floating>>>;

    /// Enables the clock of the port in `rcc` and hands out its sixteen pins,
    /// in their reset state of floating inputs.
    fn split(self, rcc: &mut Rcc) -> (r: Vec<Pin<Input<Floating>>>)
        ensures
            r@.len() == 16,
            forall|k: int| 0 <= k < 16 ==> (#[trigger] r@[k]).i == k && r@[k].port == self,
            final(rcc).clocks == old(rcc).clocks,
            final(rcc).regs.enr(Bus::AHB) == with_bit(old(rcc).regs.enr(Bus::AHB), port_enable_bit(self)),
            final(rcc).regs.enr(Bus::APB1) == old(rcc).regs.enr(Bus::APB1),
            final(rcc).regs.enr(Bus::APB2) == old(rcc).regs.enr(Bus::APB2),
    {
        rcc.regs.enable(Bus::AHB, port_enable(self));
        let mut pins: Vec<Pin<Input<Floating>>> = Vec::new();
        let mut k: u8 = 0;
        while k < 16
            invariant
                k <= 16,
                pins@.len() == k,
                forall|j: int| 0 <= j < k ==> (#[trigger] pins@[j]).i == j && pins@[j].port == self,
            decreases 16 - k,
        {
            pins.push(Pin { i: k, port: self, _mode: PhantomData });
            k = k + 1;
        }
        pins
    }
}

/// The 2-bit field of pin `pin` in a register with two bits per pin.
pub open spec fn field2(reg: u32, pin: u32) -> u32 {
    (reg >> ((2 * pin) as u32)) & 0b11
}

/// The 4-bit field of pin `pin` (0 to 7) in an alternate function register.
pub open spec fn field4(reg: u32, pin: u32) -> u32 {
    (reg >> ((4 * pin) as u32)) & 0b1111
}

proof fn lemma_field2_disjoint(reg: u32, value: u32, o1: u32, o2: u32)
    by (bit_vector)
    requires
        o1 < 32,
        o2 < 32,
        o1 % 2 == 0,
        o2 % 2 == 0,
        o1 != o2,
        value < 4,
    ensures
        (((reg & !(0b11u32 << o1)) | (value << o1)) >> o2) & 0b11 == (reg >> o2) & 0b11,
{
}

proof fn lemma_field4_disjoint(reg: u32, value: u32, o1: u32, o2: u32)
    by (bit_vector)
    requires
        o1 < 32,
        o2 < 32,
        o1 % 4 == 0,
        o2 % 4 == 0,
        o1 != o2,
        value < 16,
    ensures
        (((reg & !(0b1111u32 << o1)) | (value << o1)) >> o2) & 0b1111 == (reg >> o2) & 0b1111,
{
}

/// Replaces the 2-bit field of pin `pin`, keeping the others.
pub fn set_field2(reg: u32, pin: u32, value: u32) -> (r: u32)
    requires
        pin < 16,
        value < 4,
    ensures
        r == (reg & !(0b11u32 << ((2 * pin) as u32))) | (value << ((2 * pin) as u32)),
        field2(r, pin) == value,
        forall|q: u32| q < 16 && q != pin ==> field2(r, q) == field2(reg, q),
{
    let offset = 2 * pin;
    let r = (reg & !(0b11u32 << offset)) | (value << offset);
    assert((((reg & !(0b11u32 << offset)) | (value << offset)) >> offset) & 0b11 == value) by (bit_vector)
        requires offset <= 30, offset % 2 == 0, value < 4;
    assert forall|q: u32| q < 16 && q != pin implies field2(r, q) == field2(reg, q) by {
        lemma_field2_disjoint(reg, value, offset, (2 * q) as u32);
    }
    r
}

/// Replaces the 4-bit field of pin `pin` (0 to 7), keeping the others.
pub fn set_field4(reg: u32, pin: u32, value: u32) -> (r: u32)
    requires
        pin < 8,
        value < 16,
    ensures
        r == (reg & !(0b1111u32 << ((4 * pin) as u32))) | (value << ((4 * pin) as u32)),
        field4(r, pin) == value,
        forall|q: u32| q < 8 && q != pin ==> field4(r, q) == field4(reg, q),
{
    let offset = 4 * pin;
    let r = (reg & !(0b1111u32 << offset)) | (value << offset);
    assert((((reg & !(0b1111u32 << offset)) | (value << offset)) >> offset) & 0b1111 == value) by (bit_vector)
        requires offset <= 28, offset % 4 == 0, value < 16;
    assert forall|q: u32| q < 8 && q != pin implies field4(r, q) == field4(reg, q) by {
        lemma_field4_disjoint(reg, value, offset, (4 * q) as u32);
    }
    r
}

/// MODER field values
pub const MODE_INPUT: u32 = 0b00;
pub const MODE_OUTPUT: u32 = 0b01;
pub const MODE_ALTERNATE: u32 = 0b10;
pub const MODE_ANALOG: u32 = 0b11;

/// PUPDR field values
pub const PULL_NONE: u32 = 0b00;
pub const PULL_UP: u32 = 0b01;
pub const PULL_DOWN: u32 = 0b10;

/// Image of the configuration registers of a GPIO port
#[derive(Clone, Copy, Debug, PartialEq, Eq, Structural)]
pub struct GpioRegisters {
    pub moder: u32,
    pub otyper: u32,
    pub ospeedr: u32,
    pub pupdr: u32,
    pub afrl: u32,
    pub afrh: u32,
}

impl GpioRegisters {
    /// The alternate function selected for a pin.
    pub open spec fn af(self, pin: u32) -> u32 {
        if pin < 8 {
            field4(self.afrl, pin)
        } else {
            field4(self.afrh, (pin - 8) as u32)
        }
    }

    /// Whether the registers of pins other than `pin` are unchanged between
    /// `self` and `other`.
    pub open spec fn others_unchanged(self, other: GpioRegisters, pin: u32) -> bool {
        forall|q: u32| q < 16 && q != pin ==> {
            &&& #[trigger] field2(other.moder, q) == field2(self.moder, q)
            &&& field2(other.pupdr, q) == field2(self.pupdr, q)
            &&& bit_is_set(other.otyper, q) == bit_is_set(self.otyper, q)
            &&& other.af(q) == self.af(q)
        }
    }

    /// Configures the pin to operate in alternate function mode `af`
    pub fn into_alternate(&mut self, pin: u32, af: u32)
        requires
            pin < 16,
            af < 8,
        ensures
            field2(final(self).moder, pin) == MODE_ALTERNATE,
            final(self).af(pin) == af,
            final(self).pupdr == old(self).pupdr,
            final(self).otyper == old(self).otyper,
            final(self).ospeedr == old(self).ospeedr,
            old(self).others_unchanged(*final(self), pin),
    {
        let offset2 = 4 * pin;
        if offset2 < 32 {
            self.afrl = set_field4(self.afrl, pin, af);
        } else {
            self.afrh = set_field4(self.afrh, pin - 8, af);
        }
        self.moder = set_field2(self.moder, pin, MODE_ALTERNATE);
        proof {
            let s = *old(self);
            let f = *self;
            assert forall|q: u32| q < 16 && q != pin implies s.af(q) == f.af(q) by {
                if q >= 8 && pin >= 8 {
                    assert((q - 8) as u32 != (pin - 8) as u32);
                }
            }
        }
    }

    /// Sets the mode and pull fields of a pin, keeping its output type.
    fn set_mode_pull(&mut self, pin: u32, mode: u32, pull: u32)
        requires
            pin < 16,
            mode < 4,
            pull < 4,
        ensures
            field2(final(self).moder, pin) == mode,
            field2(final(self).pupdr, pin) == pull,
            final(self).otyper == old(self).otyper,
            final(self).ospeedr == old(self).ospeedr,
            final(self).afrl == old(self).afrl,
            final(self).afrh == old(self).afrh,
            old(self).others_unchanged(*final(self), pin),
    {
        self.pupdr = set_field2(self.pupdr, pin, pull);
        self.moder = set_field2(self.moder, pin, mode);
    }

    /// Configures the pin to operate as a floating input pin
    pub fn into_floating_input(&mut self, pin: u32)
        requires
            pin < 16,
        ensures
            field2(final(self).moder, pin) == MODE_INPUT,
            field2(final(self).pupdr, pin) == PULL_NONE,
            final(self).otyper == old(self).otyper,
            final(self).ospeedr == old(self).ospeedr,
            final(self).afrl == old(self).afrl,
            final(self).afrh == old(self).afrh,
            old(self).others_unchanged(*final(self), pin),
    {
        self.set_mode_pull(pin, MODE_INPUT, PULL_NONE);
    }

    /// Configures the pin to operate as a pulled down input pin
    pub fn into_pull_down_input(&mut self, pin: u32)
        requires
            pin < 16,
        ensures
            field2(final(self).moder, pin) == MODE_INPUT,
            field2(final(self).pupdr, pin) == PULL_DOWN,
            final(self).otyper == old(self).otyper,
            final(self).ospeedr == old(self).ospeedr,
            final(self).afrl == old(self).afrl,
            final(self).afrh == old(self).afrh,
            old(self).others_unchanged(*final(self), pin),
    {
        self.set_mode_pull(pin, MODE_INPUT, PULL_DOWN);
    }

    /// Configures the pin to operate as a pulled up input pin
    pub fn into_pull_up_input(&mut self, pin: u32)
        requires
            pin < 16,
        ensures
            field2(final(self).moder, pin) == MODE_INPUT,
            field2(final(self).pupdr, pin) == PULL_UP,
            final(self).otyper == old(self).otyper,
            final(self).ospeedr == old(self).ospeedr,
            final(self).afrl == old(self).afrl,
            final(self).afrh == old(self).afrh,
            old(self).others_unchanged(*final(self), pin),
    {
        self.set_mode_pull(pin, MODE_INPUT, PULL_UP);
    }

    /// Configures the pin to operate as an analog pin
    pub fn into_analog(&mut self, pin: u32)
        requires
            pin < 16,
        ensures
            field2(final(self).moder, pin) == MODE_ANALOG,
            field2(final(self).pupdr, pin) == PULL_NONE,
            final(self).otyper == old(self).otyper,
            final(self).ospeedr == old(self).ospeedr,
            final(self).afrl == old(self).afrl,
            final(self).afrh == old(self).afrh,
            old(self).others_unchanged(*final(self), pin),
    {
        self.set_mode_pull(pin, MODE_ANALOG, PULL_NONE);
    }

    /// Configures the pin to operate as an open drain output pin
    pub fn into_open_drain_output(&mut self, pin: u32)
        requires
            pin < 16,
        ensures
            field2(final(self).moder, pin) == MODE_OUTPUT,
            field2(final(self).pupdr, pin) == PULL_NONE,
            final(self).otyper == with_bit(old(self).otyper, pin),
            final(self).ospeedr == old(self).ospeedr,
            final(self).afrl == old(self).afrl,
            final(self).afrh == old(self).afrh,
            old(self).others_unchanged(*final(self), pin),
    {
        self.pupdr = set_field2(self.pupdr, pin, PULL_NONE);
        self.otyper = crate::rcc::set_bit(self.otyper, pin);
        self.moder = set_field2(self.moder, pin, MODE_OUTPUT);
    }

    /// Configures the pin to operate as an push pull output pin
    pub fn into_push_pull_output(&mut self, pin: u32)
        requires
            pin < 16,
        ensures
            field2(final(self).moder, pin) == MODE_OUTPUT,
            field2(final(self).pupdr, pin) == PULL_NONE,
            final(self).otyper == crate::rcc::without_bit(old(self).otyper, pin),
            final(self).ospeedr == old(self).ospeedr,
            final(self).afrl == old(self).afrl,
            final(self).afrh == old(self).afrh,
            old(self).others_unchanged(*final(self), pin),
    {
        self.pupdr = set_field2(self.pupdr, pin, PULL_NONE);
        self.otyper = crate::rcc::clear_bit(self.otyper, pin);
        self.moder = set_field2(self.moder, pin, MODE_OUTPUT);
    }

    /// Configures the pin to operate as an push pull output pin with quick
    /// fall and rise times: as `into_push_pull_output`, and bit `pin` of
    /// OSPEEDR cleared.
    pub fn into_push_pull_output_hs(&mut self, pin: u32)
        requires
            pin < 16,
        ensures
            field2(final(self).moder, pin) == MODE_OUTPUT,
            field2(final(self).pupdr, pin) == PULL_NONE,
            final(self).otyper == crate::rcc::without_bit(old(self).otyper, pin),
            final(self).ospeedr == crate::rcc::without_bit(old(self).ospeedr, pin),
            final(self).afrl == old(self).afrl,
            final(self).afrh == old(self).afrh,
            old(self).others_unchanged(*final(self), pin),
    {
        self.pupdr = set_field2(self.pupdr, pin, PULL_NONE);
        self.otyper = crate::rcc::clear_bit(self.otyper, pin);
        self.ospeedr = crate::rcc::clear_bit(self.ospeedr, pin);
        self.moder = set_field2(self.moder, pin, MODE_OUTPUT);
    }

    /// Enables / disables the internal pull up
    pub fn internal_pull_up(&mut self, pin: u32, on: bool)
        requires
            pin < 16,
        ensures
            field2(final(self).pupdr, pin) == (if on { PULL_UP } else { PULL_NONE }),
            final(self).moder == old(self).moder,
            final(self).otyper == old(self).otyper,
            final(self).ospeedr == old(self).ospeedr,
            final(self).afrl == old(self).afrl,
            final(self).afrh == old(self).afrh,
            forall|q: u32| q < 16 && q != pin ==> #[trigger] field2(final(self).pupdr, q) == field2(old(self).pupdr, q),
    {
        let value = if on { PULL_UP } else { PULL_NONE };
        self.pupdr = set_field2(self.pupdr, pin, value);
    }

    /// Turns pin alternate configuration pin into open drain
    pub fn set_open_drain(&mut self, pin: u32)
        requires
            pin < 16,
        ensures
            final(self).otyper == with_bit(old(self).otyper, pin),
            final(self).moder == old(self).moder,
            final(self).pupdr == old(self).pupdr,
            final(self).ospeedr == old(self).ospeedr,
            final(self).afrl == old(self).afrl,
            final(self).afrh == old(self).afrh,
    {
        self.otyper = crate::rcc::set_bit(self.otyper, pin);
    }
}

impl<MODE> Pin<MODE> {
    /// The GPIOx_BSRR value that drives the pin high.
    pub fn set_high(&mut self) -> (r: u32)
        requires
            old(self).i < 16,
        ensures
            r == 1u32 << old(self).i,
            *final(self) == *old(self),
    {
        1u32 << self.i
    }

    /// The GPIOx_BSRR value that drives the pin low.
    pub fn set_low(&mut self) -> (r: u32)
        requires
            old(self).i < 16,
        ensures
            r == 1u32 << (old(self).i + 16),
            *final(self) == *old(self),
    {
        1u32 << (self.i + 16)
    }

    /// Whether the pin reads low, given the value of GPIOx_IDR.
    pub fn is_low(&self, idr: u32) -> (r: bool)
        requires
            self.i < 16,
        ensures
            r == !bit_is_set(idr, self.i as u32),
    {
        idr & (1u32 << self.i) == 0
    }

    /// Whether the pin reads high, given the value of GPIOx_IDR.
    pub fn is_high(&self, idr: u32) -> (r: bool)
        requires
            self.i < 16,
        ensures
            r == bit_is_set(idr, self.i as u32),
    {
        !self.is_low(idr)
    }

    /// Whether the pin is driven low, given the value of GPIOx_ODR.
    pub fn is_set_low(&self, odr: u32) -> (r: bool)
        requires
            self.i < 16,
        ensures
            r == !bit_is_set(odr, self.i as u32),
    {
        odr & (1u32 << self.i) == 0
    }

    /// Whether the pin is driven high, given the value of GPIOx_ODR.
    pub fn is_set_high(&self, odr: u32) -> (r: bool)
        requires
            self.i < 16,
        ensures
            r == bit_is_set(odr, self.i as u32),
    {
        !self.is_set_low(odr)
    }
}

/// The effect of a GPIOx_BSRR write on the output data register: the low
/// half sets bits, the high half resets them, setting winning.
pub open spec fn bsrr_effect(odr: u32, bsrr: u32) -> u32 {
    ((odr & !(bsrr >> 16u32)) | (bsrr & 0xffff)) & 0xffff
}

/// Driving a pin high makes it read as set, and low as reset, and leaves the
/// other pins of the port as they were.
pub proof fn lemma_set_high_low(odr: u32, i: u32)
    requires
        i < 16,
        odr <= 0xffff,
    ensures
        bit_is_set(bsrr_effect(odr, 1u32 << i), i),
        !bit_is_set(bsrr_effect(odr, 1u32 << (i + 16)), i),
        forall|q: u32| q < 16 && q != i ==> (bit_is_set(#[trigger] bsrr_effect(odr, 1u32 << i), q) == bit_is_set(odr, q)),
        forall|q: u32| q < 16 && q != i ==> (bit_is_set(#[trigger] bsrr_effect(odr, 1u32 << (i + 16)), q) == bit_is_set(odr, q)),
{
    assert((((odr & !((1u32 << i) >> 16u32)) | ((1u32 << i) & 0xffff)) & 0xffff) & (1u32 << i) != 0) by (bit_vector)
        requires i < 16;
    assert((((odr & !((1u32 << (i + 16)) >> 16u32)) | ((1u32 << (i + 16)) & 0xffff)) & 0xffff) & (1u32 << i) == 0) by (bit_vector)
        requires i < 16;
    assert forall|q: u32| q < 16 && q != i implies (bit_is_set(#[trigger] bsrr_effect(odr, 1u32 << i), q) == bit_is_set(odr, q)) by {
        assert(q < 16 && q != i ==> (((((odr & !((1u32 << i) >> 16u32)) | ((1u32 << i) & 0xffff)) & 0xffff) & (1u32 << q) != 0) == (odr & (1u32 << q) != 0))) by (bit_vector)
            requires i < 16;
    }
    assert forall|q: u32| q < 16 && q != i implies (bit_is_set(#[trigger] bsrr_effect(odr, 1u32 << (i + 16)), q) == bit_is_set(odr, q)) by {
        assert(q < 16 && q != i ==> (((((odr & !((1u32 << (i + 16)) >> 16u32)) | ((1u32 << (i + 16)) & 0xffff)) & 0xffff) & (1u32 << q) != 0) == (odr & (1u32 << q) != 0))) by (bit_vector)
            requires i < 16;
    }
}

} // verus!
