//! Capacitive touch channels: channel setup, threshold programming and
//! measurement readback.
use vstd::prelude::*;

use crate::regs::{RegisterFile, RegisterFileView, RtcPadConfig, TouchPadControl, TOUCH_CHANNEL_COUNT, TOUCH_REGISTER_COUNT};
use crate::rtc::{analog_pad, clear_bit, has_rtc_pulls, is_rtc_pin, lemma_rtc_table, rtc_channel, rtc_number};

verus! {

/// How one touch channel is wired.
#[derive(Debug, Clone, Copy, PartialEq, Eq, Structural)]
pub struct TouchChannelMapping {
    /// The touch channel number.
    pub channel: u8,
    /// The GPIO pin of the channel.
    pub pin: u8,
    /// The threshold and measurement register pair holding the channel.
    pub register: u8,
    /// Whether channel setup also configures the pad's RTC field group (the
    /// channels whose touch register is the pad register itself).
    pub pin_specific: bool,
}

/// The touch mapping of `pin`, or `None` for a pin without a touch channel.
pub open spec fn spec_touch_mapping(pin: u8) -> Option<TouchChannelMapping> {
    match pin {
        4 => Some(TouchChannelMapping { channel: 0, pin: 4, register: 0, pin_specific: true }),
        0 => Some(TouchChannelMapping { channel: 1, pin: 0, register: 0, pin_specific: true }),
        2 => Some(TouchChannelMapping { channel: 2, pin: 2, register: 1, pin_specific: true }),
        15 => Some(TouchChannelMapping { channel: 3, pin: 15, register: 1, pin_specific: true }),
        13 => Some(TouchChannelMapping { channel: 4, pin: 13, register: 2, pin_specific: true }),
        12 => Some(TouchChannelMapping { channel: 5, pin: 12, register: 2, pin_specific: true }),
        14 => Some(TouchChannelMapping { channel: 6, pin: 14, register: 3, pin_specific: true }),
        27 => Some(TouchChannelMapping { channel: 7, pin: 27, register: 3, pin_specific: true }),
        33 => Some(TouchChannelMapping { channel: 8, pin: 33, register: 4, pin_specific: false }),
        32 => Some(TouchChannelMapping { channel: 9, pin: 32, register: 4, pin_specific: false }),
        _ => None,
    }
}

/// Whether `pin` has a touch channel.
pub open spec fn is_touch_pin(pin: u8) -> bool {
    spec_touch_mapping(pin) is Some
}

/// Looks up the touch mapping of `pin`.
pub fn touch_mapping(pin: u8) -> (r: Option<TouchChannelMapping>)
    ensures
        r == spec_touch_mapping(pin),
{
    match pin {
        4 => Some(TouchChannelMapping { channel: 0, pin: 4, register: 0, pin_specific: true }),
        0 => Some(TouchChannelMapping { channel: 1, pin: 0, register: 0, pin_specific: true }),
        2 => Some(TouchChannelMapping { channel: 2, pin: 2, register: 1, pin_specific: true }),
        15 => Some(TouchChannelMapping { channel: 3, pin: 15, register: 1, pin_specific: true }),
        13 => Some(TouchChannelMapping { channel: 4, pin: 13, register: 2, pin_specific: true }),
        12 => Some(TouchChannelMapping { channel: 5, pin: 12, register: 2, pin_specific: true }),
        14 => Some(TouchChannelMapping { channel: 6, pin: 14, register: 3, pin_specific: true }),
        27 => Some(TouchChannelMapping { channel: 7, pin: 27, register: 3, pin_specific: true }),
        33 => Some(TouchChannelMapping { channel: 8, pin: 33, register: 4, pin_specific: false }),
        32 => Some(TouchChannelMapping { channel: 9, pin: 32, register: 4, pin_specific: false }),
        _ => None,
    }
}

/// Each touch pin has RTC-domain pulls; its channel is below
/// `TOUCH_CHANNEL_COUNT`, sits in register `channel / 2`, and takes the
/// pin-specific setup exactly when it is below 8; no two pins share a channel.
pub proof fn lemma_touch_table(a: u8, b: u8)
    ensures
        spec_touch_mapping(a) matches Some(m) ==> {
            &&& m.pin == a
            &&& has_rtc_pulls(a)
            &&& m.channel < TOUCH_CHANNEL_COUNT
            &&& m.register == m.channel / 2
            &&& m.pin_specific == (m.channel < 8)
        },
        is_touch_pin(a) && is_touch_pin(b) && a != b ==> spec_touch_mapping(a).unwrap().channel
            != spec_touch_mapping(b).unwrap().channel,
{
}

/// The 16-bit field of `channel` in a shared threshold or measurement
/// register: bits 31..16 for an even channel, bits 15..0 for an odd one.
pub open spec fn channel_field(reg: u32, channel: u8) -> u16 {
    if channel % 2 == 0 {
        (reg >> 16u32) as u16
    } else {
        (reg & 0xffffu32) as u16
    }
}

/// The register value written to set `channel`'s threshold to `value`; the
/// register is written whole, so the other channel's field reads back as zero.
pub open spec fn threshold_register(channel: u8, value: u16) -> u32 {
    if channel % 2 == 0 {
        (value as u32) << 16u32
    } else {
        value as u32
    }
}

/// The touch channel of `pin`.
pub open spec fn touch_channel(pin: u8) -> u8 {
    spec_touch_mapping(pin).unwrap().channel
}

/// The threshold and measurement register pair of `pin`'s touch channel.
pub open spec fn touch_register(pin: u8) -> int {
    touch_channel(pin) as int / 2
}

/// Returns the touch channel of `pin`.
pub fn touch_nr(pin: u8) -> (r: u8)
    requires
        is_touch_pin(pin),
    ensures
        r == touch_channel(pin),
        r < TOUCH_CHANNEL_COUNT,
{
    match touch_mapping(pin) {
        Some(m) => m.channel,
        None => 0,
    }
}

/// Returns the last measurement of `pin`'s touch channel, read from its field
/// of the shared measurement register.
pub fn touch_measurement(regs: &RegisterFile, pin: u8) -> (r: u16)
    requires
        regs.wf(),
        is_touch_pin(pin),
    ensures
        r == channel_field(regs.touch_outputs@[touch_register(pin)], touch_channel(pin)),
{
    let ch = touch_nr(pin);
    let reg = regs.touch_outputs[(ch / 2) as usize];
    if ch % 2 == 0 {
        (reg >> 16u32) as u16
    } else {
        (reg & 0xffffu32) as u16
    }
}

/// Writes the threshold register of `pin`'s touch channel with `threshold` in
/// the channel's field.
pub fn set_threshold(regs: &mut RegisterFile, pin: u8, threshold: u16)
    requires
        old(regs).wf(),
        is_touch_pin(pin),
    ensures
        final(regs)@ == (RegisterFileView {
            touch_thresholds: old(regs)@.touch_thresholds.update(
                touch_register(pin),
                threshold_register(touch_channel(pin), threshold),
            ),
            ..old(regs)@
        }),
{
    let ch = touch_nr(pin);
    let value: u32 = if ch % 2 == 0 {
        (threshold as u32) << 16u32
    } else {
        threshold as u32
    };
    regs.touch_thresholds.set((ch / 2) as usize, value);
}

/// The register file `v` after the drive-mode step of touch setup on `pin`:
/// its GPIO pad driver push-pull and its RTC output enable cleared.
pub open spec fn drive_mode_view(v: RegisterFileView, pin: u8) -> RegisterFileView {
    RegisterFileView {
        gpio_pad_driver: v.gpio_pad_driver.update(pin as int, false),
        rtc_enable: clear_bit(v.rtc_enable, rtc_channel(pin) as u8),
        ..v
    }
}

/// The register file `v` after touch setup on `pin`: the drive-mode step, the
/// channel's threshold register written with a zero threshold, the channel
/// powered up with its tie option cleared, the pad's RTC field group put in
/// analog mode for a pin-specific channel (left alone otherwise), and the
/// channel's work-enable bit set.
pub open spec fn touch_setup_view(v: RegisterFileView, pin: u8) -> RegisterFileView {
    let m = spec_touch_mapping(pin).unwrap();
    let d = drive_mode_view(v, pin);
    let c = rtc_channel(pin);
    RegisterFileView {
        touch_thresholds: d.touch_thresholds.update(m.register as int, threshold_register(m.channel, 0)),
        touch_pads: d.touch_pads.update(m.channel as int, TouchPadControl { xpd: true, tie_opt: false }),
        rtc_pads: if m.pin_specific {
            d.rtc_pads.update(c, analog_pad(d.rtc_pads[c], true))
        } else {
            d.rtc_pads
        },
        touch_work_enable: d.touch_work_enable | (1u16 << m.channel),
        ..d
    }
}

/// Prepares the drive of an RTC-capable `pin` for touch sensing: its GPIO pad
/// driver becomes push-pull and its RTC output enable is cleared.
pub fn set_drive_mode(regs: &mut RegisterFile, pin: u8)
    requires
        old(regs).wf(),
        is_rtc_pin(pin),
    ensures
        final(regs)@ == drive_mode_view(old(regs)@, pin),
{
    proof {
        lemma_rtc_table(pin, pin);
    }
    let c = rtc_number(pin);
    regs.gpio_pad_driver.set(pin as usize, false);
    regs.rtc_enable = regs.rtc_enable & !(1u32 << c);
}

/// Sets up `pin`'s touch channel: drive mode, a zero threshold, the channel's
/// pin-specific or shared initialization, then its work-enable bit.
pub fn set_touch(regs: &mut RegisterFile, pin: u8)
    requires
        old(regs).wf(),
        is_touch_pin(pin),
    ensures
        final(regs)@ == touch_setup_view(old(regs)@, pin),
{
    proof {
        lemma_touch_table(pin, pin);
        lemma_rtc_table(pin, pin);
    }
    let m = match touch_mapping(pin) {
        Some(m) => m,
        None => TouchChannelMapping { channel: 0, pin, register: 0, pin_specific: false },
    };
    set_drive_mode(regs, pin);
    set_threshold(regs, pin, 0);
    regs.touch_pads.set(m.channel as usize, TouchPadControl { xpd: true, tie_opt: false });
    if m.pin_specific {
        let c = rtc_number(pin) as usize;
        let pad = RtcPadConfig { fun_ie: false, mux_sel: true, fun_sel: 0, rue: false, rde: false };
        regs.rtc_pads.set(c, pad);
    }
    regs.touch_work_enable = regs.touch_work_enable | (1u16 << m.channel);
    assert(regs@ =~= touch_setup_view(old(regs)@, pin));
}

/// The two setup variants differ: a pin-specific channel leaves its pad input
/// disabled, routed to the RTC block with function 0 and both pulls off,
/// while a shared channel leaves the pad's RTC field group as it was; both
/// power the channel up with the tie option cleared and set its work-enable bit.
pub proof fn lemma_touch_setup_variants(v: RegisterFileView, pin: u8)
    requires
        v.wf(),
        is_touch_pin(pin),
    ensures
        ({
            let w = touch_setup_view(v, pin);
            let m = spec_touch_mapping(pin).unwrap();
            let c = rtc_channel(pin);
            &&& w.wf()
            &&& w.touch_pads[m.channel as int] == (TouchPadControl { xpd: true, tie_opt: false })
            &&& w.touch_work_enable & (1u16 << m.channel) != 0
            &&& !w.gpio_pad_driver[pin as int]
            &&& m.pin_specific ==> w.rtc_pads[c] == (RtcPadConfig {
                fun_ie: false,
                mux_sel: true,
                fun_sel: 0,
                rue: false,
                rde: false,
            })
            &&& !m.pin_specific ==> w.rtc_pads == v.rtc_pads
        }),
{
    lemma_touch_table(pin, pin);
    lemma_rtc_table(pin, pin);
    let m = spec_touch_mapping(pin).unwrap();
    let x = v.touch_work_enable;
    let k = m.channel;
    assert(k < 16 ==> (x | (1u16 << k)) & (1u16 << k) != 0) by (bit_vector);
}

} // verus!
