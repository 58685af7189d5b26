//! Pulse width modulation: channel selection, output compare modes and the
//! period of the timer

use vstd::prelude::*;

use core::marker::PhantomData;

use crate::rcc::Clocks;
use crate::timers::{
    PinC1, PinC1N, PinC2, PinC2N, PinC3, PinC3N, PinC4, prescaler_spec, reload_spec,
    timer_clock, timer_clock_spec, timeout_ok, prescaler_and_reload,
};
use crate::time::Hertz;

verus! {

/// Pins that drive the output channels of the timer `TIM`; `P` names the
/// channels. Each constant says whether a channel is driven.
pub trait Pins<TIM, P> {
    const C1: bool = false;
    const C1N: bool = false;
    const C2: bool = false;
    const C2N: bool = false;
    const C3: bool = false;
    const C3N: bool = false;
    const C4: bool = false;
    type Channels;
}

/// Channel 1
pub struct C1;
/// Complementary output of channel 1
pub struct C1N;
/// Channel 2
pub struct C2;
/// Complementary output of channel 2
pub struct C2N;
/// Channel 3
pub struct C3;
/// Complementary output of channel 3
pub struct C3N;
/// Channel 4
pub struct C4;

/// A PWM output channel of a timer
pub struct PwmChannels<TIM, CHANNELS> {
    pub _channel: PhantomData<CHANNELS>,
    pub _tim: PhantomData<TIM>,
}

impl<TIM, P1, P2, P3, P4> Pins<TIM, (C1, C2, C3, C4)> for (P1, P2, P3, P4)
where
    P1: PinC1<TIM>,
    P2: PinC2<TIM>,
    P3: PinC3<TIM>,
    P4: PinC4<TIM>,
{
    const C1: bool = true;
    const C2: bool = true;
    const C3: bool = true;
    const C4: bool = true;
    type Channels = (PwmChannels<TIM, C1>, PwmChannels<TIM, C2>, PwmChannels<TIM, C3>, PwmChannels<TIM, C4>);
}

impl<TIM, P1, P1N, P2, P2N, P3, P3N> Pins<TIM, (C1, C1N, C2, C2N, C3, C3N)> for (P1, P1N, P2, P2N, P3, P3N)
where
    P1: PinC1<TIM>,
    P1N: PinC1N<TIM>,
    P2: PinC2<TIM>,
    P2N: PinC2N<TIM>,
    P3: PinC3<TIM>,
    P3N: PinC3N<TIM>,
{
    const C1: bool = true;
    const C1N: bool = true;
    const C2: bool = true;
    const C2N: bool = true;
    const C3: bool = true;
    const C3N: bool = true;
    type Channels = (PwmChannels<TIM, C1>, PwmChannels<TIM, C1N>, PwmChannels<TIM, C2>, PwmChannels<TIM, C2N>, PwmChannels<TIM, C3>, PwmChannels<TIM, C3N>);
}

impl<TIM, P1, P1N, P2, P2N> Pins<TIM, (C1, C1N, C2, C2N)> for (P1, P1N, P2, P2N)
where
    P1: PinC1<TIM>,
    P1N: PinC1N<TIM>,
    P2: PinC2<TIM>,
    P2N: PinC2N<TIM>,
{
    const C1: bool = true;
    const C1N: bool = true;
    const C2: bool = true;
    const C2N: bool = true;
    type Channels = (PwmChannels<TIM, C1>, PwmChannels<TIM, C1N>, PwmChannels<TIM, C2>, PwmChannels<TIM, C2N>);
}

impl<TIM, P2, P2N, P3, P3N> Pins<TIM, (C2, C2N, C3, C3N)> for (P2, P2N, P3, P3N)
where
    P2: PinC2<TIM>,
    P2N: PinC2N<TIM>,
    P3: PinC3<TIM>,
    P3N: PinC3N<TIM>,
{
    const C2: bool = true;
    const C2N: bool = true;
    const C3: bool = true;
    const C3N: bool = true;
    type Channels = (PwmChannels<TIM, C2>, PwmChannels<TIM, C2N>, PwmChannels<TIM, C3>, PwmChannels<TIM, C3N>);
}

impl<TIM, P1, P1N, P3, P3N> Pins<TIM, (C1, C1N, C3, C3N)> for (P1, P1N, P3, P3N)
where
    P1: PinC1<TIM>,
    P1N: PinC1N<TIM>,
    P3: PinC3<TIM>,
    P3N: PinC3N<TIM>,
{
    const C1: bool = true;
    const C1N: bool = true;
    const C3: bool = true;
    const C3N: bool = true;
    type Channels = (PwmChannels<TIM, C1>, PwmChannels<TIM, C1N>, PwmChannels<TIM, C3>, PwmChannels<TIM, C3N>);
}

impl<TIM, P2, P3, P4> Pins<TIM, (C2, C3, C4)> for (P2, P3, P4)
where
    P2: PinC2<TIM>,
    P3: PinC3<TIM>,
    P4: PinC4<TIM>,
{
    const C2: bool = true;
    const C3: bool = true;
    const C4: bool = true;
    type Channels = (PwmChannels<TIM, C2>, PwmChannels<TIM, C3>, PwmChannels<TIM, C4>);
}

impl<TIM, P1, P3, P4> Pins<TIM, (C1, C3, C4)> for (P1, P3, P4)
where
    P1: PinC1<TIM>,
    P3: PinC3<TIM>,
    P4: PinC4<TIM>,
{
    const C1: bool = true;
    const C3: bool = true;
    const C4: bool = true;
    type Channels = (PwmChannels<TIM, C1>, PwmChannels<TIM, C3>, PwmChannels<TIM, C4>);
}

impl<TIM, P1, P2, P4> Pins<TIM, (C1, C2, C4)> for (P1, P2, P4)
where
    P1: PinC1<TIM>,
    P2: PinC2<TIM>,
    P4: PinC4<TIM>,
{
    const C1: bool = true;
    const C2: bool = true;
    const C4: bool = true;
    type Channels = (PwmChannels<TIM, C1>, PwmChannels<TIM, C2>, PwmChannels<TIM, C4>);
}

impl<TIM, P1, P2, P3> Pins<TIM, (C1, C2, C3)> for (P1, P2, P3)
where
    P1: PinC1<TIM>,
    P2: PinC2<TIM>,
    P3: PinC3<TIM>,
{
    const C1: bool = true;
    const C2: bool = true;
    const C3: bool = true;
    type Channels = (PwmChannels<TIM, C1>, PwmChannels<TIM, C2>, PwmChannels<TIM, C3>);
}

impl<TIM, P3, P4> Pins<TIM, (C3, C4)> for (P3, P4)
where
    P3: PinC3<TIM>,
    P4: PinC4<TIM>,
{
    const C3: bool = true;
    const C4: bool = true;
    type Channels = (PwmChannels<TIM, C3>, PwmChannels<TIM, C4>);
}

impl<TIM, P2, P4> Pins<TIM, (C2, C4)> for (P2, P4)
where
    P2: PinC2<TIM>,
    P4: PinC4<TIM>,
{
    const C2: bool = true;
    const C4: bool = true;
    type Channels = (PwmChannels<TIM, C2>, PwmChannels<TIM, C4>);
}

impl<TIM, P2, P3> Pins<TIM, (C2, C3)> for (P2, P3)
where
    P2: PinC2<TIM>,
    P3: PinC3<TIM>,
{
    const C2: bool = true;
    const C3: bool = true;
    type Channels = (PwmChannels<TIM, C2>, PwmChannels<TIM, C3>);
}

impl<TIM, P1, P4> Pins<TIM, (C1, C4)> for (P1, P4)
where
    P1: PinC1<TIM>,
    P4: PinC4<TIM>,
{
    const C1: bool = true;
    const C4: bool = true;
    type Channels = (PwmChannels<TIM, C1>, PwmChannels<TIM, C4>);
}

impl<TIM, P1, P3> Pins<TIM, (C1, C3)> for (P1, P3)
where
    P1: PinC1<TIM>,
    P3: PinC3<TIM>,
{
    const C1: bool = true;
    const C3: bool = true;
    type Channels = (PwmChannels<TIM, C1>, PwmChannels<TIM, C3>);
}

impl<TIM, P1, P2> Pins<TIM, (C1, C2)> for (P1, P2)
where
    P1: PinC1<TIM>,
    P2: PinC2<TIM>,
{
    const C1: bool = true;
    const C2: bool = true;
    type Channels = (PwmChannels<TIM, C1>, PwmChannels<TIM, C2>);
}

impl<TIM, P1, P1N> Pins<TIM, (C1, C1N)> for (P1, P1N)
where
    P1: PinC1<TIM>,
    P1N: PinC1N<TIM>,
{
    const C1: bool = true;
    const C1N: bool = true;
    type Channels = (PwmChannels<TIM, C1>, PwmChannels<TIM, C1N>);
}

impl<TIM, P2, P2N> Pins<TIM, (C2, C2N)> for (P2, P2N)
where
    P2: PinC2<TIM>,
    P2N: PinC2N<TIM>,
{
    const C2: bool = true;
    const C2N: bool = true;
    type Channels = (PwmChannels<TIM, C2>, PwmChannels<TIM, C2N>);
}

impl<TIM, P3, P3N> Pins<TIM, (C3, C3N)> for (P3, P3N)
where
    P3: PinC3<TIM>,
    P3N: PinC3N<TIM>,
{
    const C3: bool = true;
    const C3N: bool = true;
    type Channels = (PwmChannels<TIM, C3>, PwmChannels<TIM, C3N>);
}

impl<TIM, P1> Pins<TIM, C1> for P1
where
    P1: PinC1<TIM>,
{
    const C1: bool = true;
    type Channels = (PwmChannels<TIM, C1>,);
}

impl<TIM, P2> Pins<TIM, C2> for P2
where
    P2: PinC2<TIM>,
{
    const C2: bool = true;
    type Channels = (PwmChannels<TIM, C2>,);
}

impl<TIM, P3> Pins<TIM, C3> for P3
where
    P3: PinC3<TIM>,
{
    const C3: bool = true;
    type Channels = (PwmChannels<TIM, C3>,);
}

impl<TIM, P4> Pins<TIM, C4> for P4
where
    P4: PinC4<TIM>,
{
    const C4: bool = true;
    type Channels = (PwmChannels<TIM, C4>,);
}

impl<TIM, P1N> Pins<TIM, C1N> for P1N
where
    P1N: PinC1N<TIM>,
{
    const C1N: bool = true;
    type Channels = (PwmChannels<TIM, C1N>,);
}

impl<TIM, P2N> Pins<TIM, C2N> for P2N
where
    P2N: PinC2N<TIM>,
{
    const C2N: bool = true;
    type Channels = (PwmChannels<TIM, C2N>,);
}

impl<TIM, P3N> Pins<TIM, C3N> for P3N
where
    P3N: PinC3N<TIM>,
{
    const C3N: bool = true;
    type Channels = (PwmChannels<TIM, C3N>,);
}

impl<TIM, P1: PinC1<TIM>, P2: PinC1<TIM>> PinC1<TIM> for (P1, P2) {}
impl<TIM, P1: PinC2<TIM>, P2: PinC2<TIM>> PinC2<TIM> for (P1, P2) {}
impl<TIM, P1: PinC3<TIM>, P2: PinC3<TIM>> PinC3<TIM> for (P1, P2) {}
impl<TIM, P1: PinC4<TIM>, P2: PinC4<TIM>> PinC4<TIM> for (P1, P2) {}
impl<TIM, P1: PinC1<TIM>, P2: PinC1<TIM>, P3: PinC1<TIM>> PinC1<TIM> for (P1, P2, P3) {}
impl<TIM, P1: PinC2<TIM>, P2: PinC2<TIM>, P3: PinC2<TIM>> PinC2<TIM> for (P1, P2, P3) {}
impl<TIM, P1: PinC3<TIM>, P2: PinC3<TIM>, P3: PinC3<TIM>> PinC3<TIM> for (P1, P2, P3) {}
impl<TIM, P1: PinC4<TIM>, P2: PinC4<TIM>, P3: PinC4<TIM>> PinC4<TIM> for (P1, P2, P3) {}
impl<TIM, P1: PinC1<TIM>, P2: PinC1<TIM>, P3: PinC1<TIM>, P4: PinC1<TIM>> PinC1<TIM> for (P1, P2, P3, P4) {}
impl<TIM, P1: PinC2<TIM>, P2: PinC2<TIM>, P3: PinC2<TIM>, P4: PinC2<TIM>> PinC2<TIM> for (P1, P2, P3, P4) {}
impl<TIM, P1: PinC3<TIM>, P2: PinC3<TIM>, P3: PinC3<TIM>, P4: PinC3<TIM>> PinC3<TIM> for (P1, P2, P3, P4) {}
impl<TIM, P1: PinC4<TIM>, P2: PinC4<TIM>, P3: PinC4<TIM>, P4: PinC4<TIM>> PinC4<TIM> for (P1, P2, P3, P4) {}

/// The CCMRx output compare bits of one channel in PWM mode 1 with preload:
/// OCxPE set and OCxM = 0b110, at bit offset 0 (channels 1 and 3) or 8
/// (channels 2 and 4) of the register.
pub open spec fn pwm_mode1_ccmr(ccmr: u32, shift: u32) -> u32 {
    (ccmr & !(0x70u32 << shift)) | (0x08u32 << shift) | (0x60u32 << shift)
}

/// Sets a channel of a CCMRx register to PWM mode 1 with preload enabled.
pub fn pwm_mode1(ccmr: u32, second_channel: bool) -> (r: u32)
    ensures
        r == pwm_mode1_ccmr(ccmr, if second_channel { 8u32 } else { 0u32 }),
{
    let shift: u32 = if second_channel { 8 } else { 0 };
    (ccmr & !(0x70u32 << shift)) | (0x08u32 << shift) | (0x60u32 << shift)
}

/// The CCMR1 and CCMR2 values that put the driven channels among
/// `channels` (channel 1 first) in PWM mode 1 with preload, every other bit
/// kept.
pub open spec fn pwm_ccmr_spec(ccmr1: u32, ccmr2: u32, channels: [bool; 4]) -> (u32, u32) {
    let c1 = if channels@[0] { pwm_mode1_ccmr(ccmr1, 0) } else { ccmr1 };
    let c2 = if channels@[1] { pwm_mode1_ccmr(c1, 8) } else { c1 };
    let c3 = if channels@[2] { pwm_mode1_ccmr(ccmr2, 0) } else { ccmr2 };
    let c4 = if channels@[3] { pwm_mode1_ccmr(c3, 8) } else { c3 };
    (c2, c4)
}

/// Sets the driven channels among `channels` (channel 1 first) to PWM
/// mode 1 with preload, in CCMR1 (channels 1 and 2) and CCMR2 (channels 3
/// and 4).
pub fn pwm_ccmr(ccmr1: u32, ccmr2: u32, channels: [bool; 4]) -> (r: (u32, u32))
    ensures
        r == pwm_ccmr_spec(ccmr1, ccmr2, channels),
{
    let c1 = if channels[0] { pwm_mode1(ccmr1, false) } else { ccmr1 };
    let c2 = if channels[1] { pwm_mode1(c1, true) } else { c1 };
    let c3 = if channels[2] { pwm_mode1(ccmr2, false) } else { ccmr2 };
    let c4 = if channels[3] { pwm_mode1(c3, true) } else { c3 };
    (c2, c4)
}

/// PWM mode 1 with preload in one channel's half of a CCMRx register: the
/// output compare field of that channel (OCxM, OCxPE) becomes 0b1101 (0x68
/// under the mask 0x78), and the field of the other channel and every bit
/// outside the two fields are kept.
proof fn lemma_mode1_fields(c: u32)
    by (bit_vector)
    ensures
        pwm_mode1_ccmr(c, 0) & 0x78 == 0x68,
        (pwm_mode1_ccmr(c, 0) >> 8u32) & 0x78 == (c >> 8u32) & 0x78,
        pwm_mode1_ccmr(c, 0) & !0x7878u32 == c & !0x7878u32,
        (pwm_mode1_ccmr(c, 8) >> 8u32) & 0x78 == 0x68,
        pwm_mode1_ccmr(c, 8) & 0x78 == c & 0x78,
        pwm_mode1_ccmr(c, 8) & !0x7878u32 == c & !0x7878u32,
{
}

/// The PWM setup of the channels: channel k (1 to 4; 1 and 2 in CCMR1 at
/// bits 0 and 8, 3 and 4 in CCMR2 at bits 0 and 8) is in PWM mode 1 with
/// preload exactly when it is driven, a channel that is not driven keeps its
/// field, and every bit outside the channels' fields is kept.
pub proof fn lemma_pwm_channels(ccmr1: u32, ccmr2: u32, channels: [bool; 4])
    ensures
        ({
            let (r1, r2) = pwm_ccmr_spec(ccmr1, ccmr2, channels);
            &&& channels@[0] ==> r1 & 0x78 == 0x68
            &&& !channels@[0] ==> r1 & 0x78 == ccmr1 & 0x78
            &&& channels@[1] ==> (r1 >> 8u32) & 0x78 == 0x68
            &&& !channels@[1] ==> (r1 >> 8u32) & 0x78 == (ccmr1 >> 8u32) & 0x78
            &&& channels@[2] ==> r2 & 0x78 == 0x68
            &&& !channels@[2] ==> r2 & 0x78 == ccmr2 & 0x78
            &&& channels@[3] ==> (r2 >> 8u32) & 0x78 == 0x68
            &&& !channels@[3] ==> (r2 >> 8u32) & 0x78 == (ccmr2 >> 8u32) & 0x78
            &&& r1 & !0x7878u32 == ccmr1 & !0x7878u32
            &&& r2 & !0x7878u32 == ccmr2 & !0x7878u32
        }),
{
    let c1 = if channels@[0] { pwm_mode1_ccmr(ccmr1, 0) } else { ccmr1 };
    let c3 = if channels@[2] { pwm_mode1_ccmr(ccmr2, 0) } else { ccmr2 };
    lemma_mode1_fields(ccmr1);
    lemma_mode1_fields(c1);
    lemma_mode1_fields(ccmr2);
    lemma_mode1_fields(c3);
}

/// TIMx_BDTR for PWM output: OSSR set when the complementary output of
/// channel 1 is driven, and AOE set on a timer with a break unit (TIM1,
/// TIM15, TIM16, TIM17), every other bit kept.
pub fn pwm_bdtr(bdtr: u32, c1n: bool, break_unit: bool) -> (r: u32)
    ensures
        r == (bdtr | (if c1n { BDTR_OSSR } else { 0u32 })) | (if break_unit { BDTR_AOE } else { 0u32 }),
{
    let b = if c1n { bdtr | BDTR_OSSR } else { bdtr | 0u32 };
    if break_unit { b | BDTR_AOE } else { b | 0u32 }
}

/// TIMx_CR1 after the PWM setup: edge-aligned, counting up, continuous, and
/// the counter enabled
pub const PWM_CR1: u32 = 0x0001;

/// TIMx_BDTR OSSR bit: off-state selection for run mode
pub const BDTR_OSSR: u32 = 0x0800;

/// TIMx_BDTR AOE bit: automatic output enable
pub const BDTR_AOE: u32 = 0x4000;

/// The PSC and ARR values of a PWM period at `freq`; the maximum duty is ARR.
pub fn pwm_period(clocks: &Clocks, freq: Hertz) -> (r: (u16, u16))
    requires
        timer_clock_spec(*clocks) <= u32::MAX,
        timeout_ok(timer_clock_spec(*clocks) as u32, freq.0),
    ensures
        r.0 == prescaler_spec(timer_clock_spec(*clocks) / freq.0 as int),
        r.1 == reload_spec(timer_clock_spec(*clocks) / freq.0 as int),
{
    let tclk = timer_clock(clocks);
    prescaler_and_reload(tclk, freq.0)
}

impl<TIM, CHANNELS> PwmChannels<TIM, CHANNELS> {
    pub fn new() -> (r: Self) {
        PwmChannels { _channel: PhantomData, _tim: PhantomData }
    }
}

} // verus!
