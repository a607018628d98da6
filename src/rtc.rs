//! Routing of pins between the IO mux and the RTC (analog) domain, pad hold,
//! the RTC-domain pull resistors, and the pull-resistor erratum workaround.
use vstd::prelude::*;

use crate::regs::{RegisterFile, RegisterFileView, RtcPadConfig, RTC_CHANNEL_COUNT};

verus! {

/// The RTC I/O register that holds a channel's field group.
#[derive(Debug, Clone, Copy, PartialEq, Eq, Structural)]
pub enum RtcPadRegister {
    SensorPads,
    AdcPad,
    PadDac1,
    PadDac2,
    Xtal32kPad,
    TouchPad0,
    TouchPad1,
    TouchPad2,
    TouchPad3,
    TouchPad4,
    TouchPad5,
    TouchPad6,
    TouchPad7,
}

/// How one pin reaches the RTC domain. The channel number also selects the
/// pin's output-enable bit, pad driver and pad-hold latch.
#[derive(Debug, Clone, Copy, PartialEq, Eq, Structural)]
pub struct RtcPinMapping {
    /// The GPIO pin number.
    pub pin: u8,
    /// The RTC channel number.
    pub rtc: u8,
    /// The register holding the channel's field group.
    pub register: RtcPadRegister,
    /// Whether the pad has RTC-domain pull resistors.
    pub has_resistors: bool,
}

/// The RTC function selected by a pad's function-select field.
#[derive(Debug, Clone, Copy, PartialEq, Eq, Structural)]
pub enum RtcFunction {
    /// RTC mode (select value 0).
    Rtc,
    /// Digital mode (select value 1).
    Digital,
}

impl RtcFunction {
    /// The function-select value of this function.
    pub open spec fn spec_code(self) -> u8 {
        match self {
            RtcFunction::Rtc => 0,
            RtcFunction::Digital => 1,
        }
    }

    /// Returns the function-select value of this function.
    pub fn code(self) -> (r: u8)
        ensures
            r == self.spec_code(),
    {
        match self {
            RtcFunction::Rtc => 0,
            RtcFunction::Digital => 1,
        }
    }
}

/// The RTC mapping of `pin`, or `None` for a pin that cannot enter the RTC domain.
pub open spec fn spec_rtc_pin_mapping(pin: u8) -> Option<RtcPinMapping> {
    match pin {
        36 => Some(RtcPinMapping { pin: 36, rtc: 0, register: RtcPadRegister::SensorPads, has_resistors: false }),
        37 => Some(RtcPinMapping { pin: 37, rtc: 1, register: RtcPadRegister::SensorPads, has_resistors: false }),
        38 => Some(RtcPinMapping { pin: 38, rtc: 2, register: RtcPadRegister::SensorPads, has_resistors: false }),
        39 => Some(RtcPinMapping { pin: 39, rtc: 3, register: RtcPadRegister::SensorPads, has_resistors: false }),
        34 => Some(RtcPinMapping { pin: 34, rtc: 4, register: RtcPadRegister::AdcPad, has_resistors: false }),
        35 => Some(RtcPinMapping { pin: 35, rtc: 5, register: RtcPadRegister::AdcPad, has_resistors: false }),
        25 => Some(RtcPinMapping { pin: 25, rtc: 6, register: RtcPadRegister::PadDac1, has_resistors: true }),
        26 => Some(RtcPinMapping { pin: 26, rtc: 7, register: RtcPadRegister::PadDac2, has_resistors: true }),
        33 => Some(RtcPinMapping { pin: 33, rtc: 8, register: RtcPadRegister::Xtal32kPad, has_resistors: true }),
        32 => Some(RtcPinMapping { pin: 32, rtc: 9, register: RtcPadRegister::Xtal32kPad, has_resistors: true }),
        4 => Some(RtcPinMapping { pin: 4, rtc: 10, register: RtcPadRegister::TouchPad0, has_resistors: true }),
        0 => Some(RtcPinMapping { pin: 0, rtc: 11, register: RtcPadRegister::TouchPad1, has_resistors: true }),
        2 => Some(RtcPinMapping { pin: 2, rtc: 12, register: RtcPadRegister::TouchPad2, has_resistors: true }),
        15 => Some(RtcPinMapping { pin: 15, rtc: 13, register: RtcPadRegister::TouchPad3, has_resistors: true }),
        13 => Some(RtcPinMapping { pin: 13, rtc: 14, register: RtcPadRegister::TouchPad4, has_resistors: true }),
        12 => Some(RtcPinMapping { pin: 12, rtc: 15, register: RtcPadRegister::TouchPad5, has_resistors: true }),
        14 => Some(RtcPinMapping { pin: 14, rtc: 16, register: RtcPadRegister::TouchPad6, has_resistors: true }),
        27 => Some(RtcPinMapping { pin: 27, rtc: 17, register: RtcPadRegister::TouchPad7, has_resistors: true }),
        _ => None,
    }
}

/// Whether `pin` can enter the RTC domain.
pub open spec fn is_rtc_pin(pin: u8) -> bool {
    spec_rtc_pin_mapping(pin) is Some
}

/// Whether `pin` has RTC-domain pull resistors (the pins that the pull erratum
/// concerns).
pub open spec fn has_rtc_pulls(pin: u8) -> bool {
    spec_rtc_pin_mapping(pin) matches Some(m) && m.has_resistors
}

/// The RTC channel of an RTC-capable pin.
pub open spec fn rtc_channel(pin: u8) -> int {
    spec_rtc_pin_mapping(pin).unwrap().rtc as int
}

/// Looks up the RTC mapping of `pin`.
pub fn rtc_pin_mapping(pin: u8) -> (r: Option<RtcPinMapping>)
    ensures
        r == spec_rtc_pin_mapping(pin),
{
    match pin {
        36 => Some(RtcPinMapping { pin: 36, rtc: 0, register: RtcPadRegister::SensorPads, has_resistors: false }),
        37 => Some(RtcPinMapping { pin: 37, rtc: 1, register: RtcPadRegister::SensorPads, has_resistors: false }),
        38 => Some(RtcPinMapping { pin: 38, rtc: 2, register: RtcPadRegister::SensorPads, has_resistors: false }),
        39 => Some(RtcPinMapping { pin: 39, rtc: 3, register: RtcPadRegister::SensorPads, has_resistors: false }),
        34 => Some(RtcPinMapping { pin: 34, rtc: 4, register: RtcPadRegister::AdcPad, has_resistors: false }),
        35 => Some(RtcPinMapping { pin: 35, rtc: 5, register: RtcPadRegister::AdcPad, has_resistors: false }),
        25 => Some(RtcPinMapping { pin: 25, rtc: 6, register: RtcPadRegister::PadDac1, has_resistors: true }),
        26 => Some(RtcPinMapping { pin: 26, rtc: 7, register: RtcPadRegister::PadDac2, has_resistors: true }),
        33 => Some(RtcPinMapping { pin: 33, rtc: 8, register: RtcPadRegister::Xtal32kPad, has_resistors: true }),
        32 => Some(RtcPinMapping { pin: 32, rtc: 9, register: RtcPadRegister::Xtal32kPad, has_resistors: true }),
        4 => Some(RtcPinMapping { pin: 4, rtc: 10, register: RtcPadRegister::TouchPad0, has_resistors: true }),
        0 => Some(RtcPinMapping { pin: 0, rtc: 11, register: RtcPadRegister::TouchPad1, has_resistors: true }),
        2 => Some(RtcPinMapping { pin: 2, rtc: 12, register: RtcPadRegister::TouchPad2, has_resistors: true }),
        15 => Some(RtcPinMapping { pin: 15, rtc: 13, register: RtcPadRegister::TouchPad3, has_resistors: true }),
        13 => Some(RtcPinMapping { pin: 13, rtc: 14, register: RtcPadRegister::TouchPad4, has_resistors: true }),
        12 => Some(RtcPinMapping { pin: 12, rtc: 15, register: RtcPadRegister::TouchPad5, has_resistors: true }),
        14 => Some(RtcPinMapping { pin: 14, rtc: 16, register: RtcPadRegister::TouchPad6, has_resistors: true }),
        27 => Some(RtcPinMapping { pin: 27, rtc: 17, register: RtcPadRegister::TouchPad7, has_resistors: true }),
        _ => None,
    }
}

/// Each mapping names its own pin, a channel below `RTC_CHANNEL_COUNT`, and no
/// two pins share a channel.
pub proof fn lemma_rtc_table(a: u8, b: u8)
    ensures
        spec_rtc_pin_mapping(a) matches Some(m) ==> m.pin == a && m.rtc < RTC_CHANNEL_COUNT,
        is_rtc_pin(a) && is_rtc_pin(b) && a != b ==> rtc_channel(a) != rtc_channel(b),
{
}

/// `x` with bit `k` cleared.
pub open spec fn clear_bit(x: u32, k: u8) -> u32 {
    x & !(1u32 << k)
}

/// `v` with the field group of RTC channel `c` replaced by `pad`.
pub open spec fn with_rtc_pad(v: RegisterFileView, c: int, pad: RtcPadConfig) -> RegisterFileView {
    RegisterFileView { rtc_pads: v.rtc_pads.update(c, pad), ..v }
}

/// The field group `pad` after an RTC configuration write.
pub open spec fn configured_pad(pad: RtcPadConfig, input_enable: bool, mux: bool, func: RtcFunction) -> RtcPadConfig {
    RtcPadConfig { fun_ie: input_enable, mux_sel: mux, fun_sel: func.spec_code(), ..pad }
}

/// The field group `pad` in analog mode: input disabled, routed to the RTC
/// block, function 0, and both pulls off where the pad has them.
pub open spec fn analog_pad(pad: RtcPadConfig, has_resistors: bool) -> RtcPadConfig {
    RtcPadConfig {
        fun_ie: false,
        mux_sel: true,
        fun_sel: 0,
        rue: if has_resistors { false } else { pad.rue },
        rde: if has_resistors { false } else { pad.rde },
    }
}

/// The register file `v` after `pin` enters analog mode: its RTC output
/// driver disabled, its pad driver push-pull, and its field group in analog mode.
pub open spec fn analog_view(v: RegisterFileView, pin: u8) -> RegisterFileView {
    let m = spec_rtc_pin_mapping(pin).unwrap();
    let c = m.rtc as int;
    RegisterFileView {
        rtc_enable: clear_bit(v.rtc_enable, m.rtc),
        rtc_pad_driver: v.rtc_pad_driver.update(c, false),
        rtc_pads: v.rtc_pads.update(c, analog_pad(v.rtc_pads[c], m.has_resistors)),
        ..v
    }
}

/// Returns the RTC channel of `pin`.
pub fn rtc_number(pin: u8) -> (r: u8)
    requires
        is_rtc_pin(pin),
    ensures
        r == rtc_channel(pin),
        r < RTC_CHANNEL_COUNT,
{
    match rtc_pin_mapping(pin) {
        Some(m) => m.rtc,
        None => 0,
    }
}

/// Sets the input enable, routing (`mux`: `true` for the RTC block, `false`
/// for the IO mux) and RTC function of `pin` in one write.
pub fn rtc_set_config(regs: &mut RegisterFile, pin: u8, input_enable: bool, mux: bool, func: RtcFunction)
    requires
        old(regs).wf(),
        is_rtc_pin(pin),
    ensures
        final(regs)@ == with_rtc_pad(
            old(regs)@,
            rtc_channel(pin),
            configured_pad(old(regs)@.rtc_pads[rtc_channel(pin)], input_enable, mux, func),
        ),
{
    let c = rtc_number(pin) as usize;
    let pad = configured_pad_exec(regs.rtc_pads[c], input_enable, mux, func);
    regs.rtc_pads.set(c, pad);
}

fn configured_pad_exec(pad: RtcPadConfig, input_enable: bool, mux: bool, func: RtcFunction) -> (r: RtcPadConfig)
    ensures
        r == configured_pad(pad, input_enable, mux, func),
{
    RtcPadConfig { fun_ie: input_enable, mux_sel: mux, fun_sel: func.code(), ..pad }
}

/// Sets or clears the pad-hold latch of `pin`; nothing else changes.
pub fn rtcio_pad_hold(regs: &mut RegisterFile, pin: u8, enable: bool)
    requires
        old(regs).wf(),
        is_rtc_pin(pin),
    ensures
        final(regs)@ == (RegisterFileView {
            hold_force: old(regs)@.hold_force.update(rtc_channel(pin), enable),
            ..old(regs)@
        }),
{
    let c = rtc_number(pin) as usize;
    regs.hold_force.set(c, enable);
}

/// Enables or disables the RTC-domain pull-up of `pin`.
pub fn rtcio_pullup(regs: &mut RegisterFile, pin: u8, enable: bool)
    requires
        old(regs).wf(),
        has_rtc_pulls(pin),
    ensures
        final(regs)@ == with_rtc_pad(
            old(regs)@,
            rtc_channel(pin),
            RtcPadConfig { rue: enable, ..old(regs)@.rtc_pads[rtc_channel(pin)] },
        ),
{
    let c = rtc_number(pin) as usize;
    let pad = RtcPadConfig { rue: enable, ..regs.rtc_pads[c] };
    regs.rtc_pads.set(c, pad);
}

/// Enables or disables the RTC-domain pull-down of `pin`.
pub fn rtcio_pulldown(regs: &mut RegisterFile, pin: u8, enable: bool)
    requires
        old(regs).wf(),
        has_rtc_pulls(pin),
    ensures
        final(regs)@ == with_rtc_pad(
            old(regs)@,
            rtc_channel(pin),
            RtcPadConfig { rde: enable, ..old(regs)@.rtc_pads[rtc_channel(pin)] },
        ),
{
    let c = rtc_number(pin) as usize;
    let pad = RtcPadConfig { rde: enable, ..regs.rtc_pads[c] };
    regs.rtc_pads.set(c, pad);
}

/// Puts `pin` in analog mode: clears its RTC output enable, makes its pad
/// driver push-pull, then in one write clears input enable, routes the pad to
/// the RTC block, selects function 0 and turns off both pulls where the pad
/// has them. Pad hold is left as it was.
pub fn set_analog(regs: &mut RegisterFile, pin: u8)
    requires
        old(regs).wf(),
        is_rtc_pin(pin),
    ensures
        final(regs)@ == analog_view(old(regs)@, pin),
{
    let m = match rtc_pin_mapping(pin) {
        Some(m) => m,
        None => RtcPinMapping { pin, rtc: 0, register: RtcPadRegister::SensorPads, has_resistors: false },
    };
    proof {
        lemma_rtc_table(pin, pin);
    }
    let c = m.rtc as usize;
    regs.rtc_enable = regs.rtc_enable & !(1u32 << m.rtc);
    regs.rtc_pad_driver.set(c, false);
    let old_pad = regs.rtc_pads[c];
    let pad = RtcPadConfig {
        fun_ie: false,
        mux_sel: true,
        fun_sel: 0,
        rue: if m.has_resistors { false } else { old_pad.rue },
        rde: if m.has_resistors { false } else { old_pad.rde },
    };
    regs.rtc_pads.set(c, pad);
    assert(regs@ =~= analog_view(old(regs)@, pin));
}

/// The register file `v` after the pull erratum workaround on `pin`: pins with
/// RTC-domain pulls get both pulls written there; every other pin is left alone.
pub open spec fn errata36_view(v: RegisterFileView, pin: u8, pull_up: bool, pull_down: bool) -> RegisterFileView {
    if has_rtc_pulls(pin) {
        let c = rtc_channel(pin);
        with_rtc_pad(v, c, RtcPadConfig { rue: pull_up, rde: pull_down, ..v.rtc_pads[c] })
    } else {
        v
    }
}

/// Works around the chip's pull-resistor erratum: on the pins whose digital
/// pull controls are unreliable (those with RTC-domain pulls), writes the pull
/// configuration through the RTC-domain resistor fields; on any other pin it
/// does nothing.
pub fn errata36(regs: &mut RegisterFile, pin: u8, pull_up: bool, pull_down: bool)
    requires
        old(regs).wf(),
    ensures
        final(regs)@ == errata36_view(old(regs)@, pin, pull_up, pull_down),
{
    let has_pullups = match rtc_pin_mapping(pin) {
        Some(m) => m.has_resistors,
        None => false,
    };
    if has_pullups {
        proof {
            lemma_rtc_table(pin, pin);
        }
        rtcio_pullup(regs, pin, pull_up);
        rtcio_pulldown(regs, pin, pull_down);
        assert(regs.rtc_pads@ =~= errata36_view(old(regs)@, pin, pull_up, pull_down).rtc_pads);
    }
}

/// Whatever the prior state, after analog-mode entry on `pin` its RTC output
/// enable is clear, its pad driver is push-pull, input enable is clear, the
/// pad is routed to the RTC block with function 0, and both pulls are off
/// where the pad has them; every other channel's output enable is unchanged
/// and pad hold is untouched.
pub proof fn lemma_analog_entry_result(v: RegisterFileView, pin: u8)
    requires
        v.wf(),
        is_rtc_pin(pin),
    ensures
        ({
            let w = analog_view(v, pin);
            let c = rtc_channel(pin);
            &&& w.wf()
            &&& w.rtc_enable & (1u32 << (c as u8)) == 0
            &&& w.rtc_enable | (1u32 << (c as u8)) == v.rtc_enable | (1u32 << (c as u8))
            &&& !w.rtc_pad_driver[c]
            &&& !w.rtc_pads[c].fun_ie
            &&& w.rtc_pads[c].mux_sel
            &&& w.rtc_pads[c].fun_sel == 0
            &&& has_rtc_pulls(pin) ==> !w.rtc_pads[c].rue && !w.rtc_pads[c].rde
            &&& w.hold_force == v.hold_force
        }),
{
    lemma_rtc_table(pin, pin);
    let k = spec_rtc_pin_mapping(pin).unwrap().rtc;
    let x = v.rtc_enable;
    assert((x & !(1u32 << k)) & (1u32 << k) == 0) by (bit_vector);
    assert((x & !(1u32 << k)) | (1u32 << k) == x | (1u32 << k)) by (bit_vector);
}

/// Entering analog mode twice on the same pin leaves the same register state
/// as entering it once.
pub proof fn lemma_analog_entry_idempotent(v: RegisterFileView, pin: u8)
    requires
        v.wf(),
        is_rtc_pin(pin),
    ensures
        analog_view(analog_view(v, pin), pin) == analog_view(v, pin),
{
    lemma_rtc_table(pin, pin);
    let k = spec_rtc_pin_mapping(pin).unwrap().rtc;
    let x = v.rtc_enable;
    assert((x & !(1u32 << k)) & !(1u32 << k) == x & !(1u32 << k)) by (bit_vector);
    let once = analog_view(v, pin);
    let twice = analog_view(once, pin);
    assert(twice.rtc_pad_driver =~= once.rtc_pad_driver);
    assert(twice.rtc_pads =~= once.rtc_pads);
}

/// The erratum workaround changes nothing on a pin without RTC-domain pulls;
/// on a pin with them it leaves the pull-up field equal to `pull_up` and the
/// pull-down field equal to `pull_down`, and touches nothing else.
pub proof fn lemma_errata36_effect(v: RegisterFileView, pin: u8, pull_up: bool, pull_down: bool)
    requires
        v.wf(),
    ensures
        !has_rtc_pulls(pin) ==> errata36_view(v, pin, pull_up, pull_down) == v,
        has_rtc_pulls(pin) ==> ({
            let w = errata36_view(v, pin, pull_up, pull_down);
            let c = rtc_channel(pin);
            &&& w.rtc_pads[c].rue == pull_up
            &&& w.rtc_pads[c].rde == pull_down
            &&& w.rtc_pads[c].fun_ie == v.rtc_pads[c].fun_ie
            &&& w.rtc_pads[c].mux_sel == v.rtc_pads[c].mux_sel
            &&& w.rtc_pads[c].fun_sel == v.rtc_pads[c].fun_sel
            &&& forall|i: int| 0 <= i < RTC_CHANNEL_COUNT && i != c ==> #[trigger] w.rtc_pads[i] == v.rtc_pads[i]
            &&& w.rtc_enable == v.rtc_enable
            &&& w.rtc_pad_driver == v.rtc_pad_driver
            &&& w.hold_force == v.hold_force
        }),
{
    lemma_rtc_table(pin, pin);
}

} // verus!
