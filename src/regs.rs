//! A simulated register file holding every hardware field that the pin logic
//! reads or writes. Each operation of the library is stated as a function
//! from the view of this file before the call to the view after it.
use vstd::prelude::*;

verus! {

/// Number of RTC I/O channels.
pub const RTC_CHANNEL_COUNT: usize = 18;

/// Number of GPIO pin configuration registers (one per pin number, gaps included).
pub const GPIO_PIN_COUNT: usize = 40;

/// Number of capacitive touch channels.
pub const TOUCH_CHANNEL_COUNT: usize = 10;

/// Number of touch threshold (and measurement) registers; each holds two channels.
pub const TOUCH_REGISTER_COUNT: usize = 5;

/// The RTC-domain field group of one RTC channel.
#[derive(Debug, Clone, Copy, PartialEq, Eq, Structural)]
pub struct RtcPadConfig {
    /// Input enable.
    pub fun_ie: bool,
    /// Routing: `true` routes the pad to the RTC block, `false` to the IO mux.
    pub mux_sel: bool,
    /// RTC function select (two bits).
    pub fun_sel: u8,
    /// Pull-up enable (meaningful only on pads with pull resistors).
    pub rue: bool,
    /// Pull-down enable (meaningful only on pads with pull resistors).
    pub rde: bool,
}

/// The touch-specific control fields of one touch channel.
#[derive(Debug, Clone, Copy, PartialEq, Eq, Structural)]
pub struct TouchPadControl {
    /// Touch sensor power-up.
    pub xpd: bool,
    /// Default-voltage tie option.
    pub tie_opt: bool,
}

/// The register fields touched by the pin logic.
#[derive(Debug, Clone, PartialEq, Eq)]
pub struct RegisterFile {
    /// RTC output-enable field: bit `n` enables the output driver of RTC channel `n`.
    pub rtc_enable: u32,
    /// Open-drain flag of each RTC channel's pad driver.
    pub rtc_pad_driver: Vec<bool>,
    /// RTC field group of each RTC channel.
    pub rtc_pads: Vec<RtcPadConfig>,
    /// Pad-hold latch of each RTC channel.
    pub hold_force: Vec<bool>,
    /// Open-drain flag of each GPIO pin's pad driver, by pin number.
    pub gpio_pad_driver: Vec<bool>,
    /// Touch control fields of each touch channel.
    pub touch_pads: Vec<TouchPadControl>,
    /// Touch threshold registers: channel `2k` in bits 31..16 of register `k`,
    /// channel `2k + 1` in bits 15..0.
    pub touch_thresholds: Vec<u32>,
    /// Touch measurement registers, laid out as the threshold registers.
    pub touch_outputs: Vec<u32>,
    /// Touch work-enable field: bit `n` enables touch channel `n`.
    pub touch_work_enable: u16,
    /// Interrupt status of pins 0 to 31.
    pub status: u32,
    /// Interrupt status of pins 32 to 39.
    pub status1: u32,
}

/// The mathematical value of a [`RegisterFile`].
pub ghost struct RegisterFileView {
    pub rtc_enable: u32,
    pub rtc_pad_driver: Seq<bool>,
    pub rtc_pads: Seq<RtcPadConfig>,
    pub hold_force: Seq<bool>,
    pub gpio_pad_driver: Seq<bool>,
    pub touch_pads: Seq<TouchPadControl>,
    pub touch_thresholds: Seq<u32>,
    pub touch_outputs: Seq<u32>,
    pub touch_work_enable: u16,
    pub status: u32,
    pub status1: u32,
}

impl View for RegisterFile {
    type V = RegisterFileView;

    open spec fn view(&self) -> RegisterFileView {
        RegisterFileView {
            rtc_enable: self.rtc_enable,
            rtc_pad_driver: self.rtc_pad_driver@,
            rtc_pads: self.rtc_pads@,
            hold_force: self.hold_force@,
            gpio_pad_driver: self.gpio_pad_driver@,
            touch_pads: self.touch_pads@,
            touch_thresholds: self.touch_thresholds@,
            touch_outputs: self.touch_outputs@,
            touch_work_enable: self.touch_work_enable,
            status: self.status,
            status1: self.status1,
        }
    }
}

impl RegisterFileView {
    /// Every per-channel and per-pin table has its hardware length.
    pub open spec fn wf(self) -> bool {
        &&& self.rtc_pad_driver.len() == RTC_CHANNEL_COUNT
        &&& self.rtc_pads.len() == RTC_CHANNEL_COUNT
        &&& self.hold_force.len() == RTC_CHANNEL_COUNT
        &&& self.gpio_pad_driver.len() == GPIO_PIN_COUNT
        &&& self.touch_pads.len() == TOUCH_CHANNEL_COUNT
        &&& self.touch_thresholds.len() == TOUCH_REGISTER_COUNT
        &&& self.touch_outputs.len() == TOUCH_REGISTER_COUNT
    }
}

impl RegisterFile {
    /// Every per-channel and per-pin table has its hardware length.
    pub open spec fn wf(&self) -> bool {
        self@.wf()
    }

    /// A register file with every field cleared.
    pub fn new() -> (r: RegisterFile)
        ensures
            r.wf(),
            r.rtc_enable == 0,
            forall|i: int| 0 <= i < RTC_CHANNEL_COUNT ==> !#[trigger] r.rtc_pad_driver@[i],
            forall|i: int| 0 <= i < RTC_CHANNEL_COUNT ==> #[trigger] r.rtc_pads@[i] == (RtcPadConfig {
                fun_ie: false,
                mux_sel: false,
                fun_sel: 0,
                rue: false,
                rde: false,
            }),
            forall|i: int| 0 <= i < RTC_CHANNEL_COUNT ==> !#[trigger] r.hold_force@[i],
            forall|i: int| 0 <= i < GPIO_PIN_COUNT ==> !#[trigger] r.gpio_pad_driver@[i],
            forall|i: int| 0 <= i < TOUCH_CHANNEL_COUNT ==> #[trigger] r.touch_pads@[i] == (TouchPadControl {
                xpd: false,
                tie_opt: false,
            }),
            forall|i: int| 0 <= i < TOUCH_REGISTER_COUNT ==> #[trigger] r.touch_thresholds@[i] == 0,
            forall|i: int| 0 <= i < TOUCH_REGISTER_COUNT ==> #[trigger] r.touch_outputs@[i] == 0,
            r.touch_work_enable == 0,
            r.status == 0,
            r.status1 == 0,
    {
        let pad = RtcPadConfig { fun_ie: false, mux_sel: false, fun_sel: 0, rue: false, rde: false };
        let touch = TouchPadControl { xpd: false, tie_opt: false };
        RegisterFile {
            rtc_enable: 0,
            rtc_pad_driver: vec![false; RTC_CHANNEL_COUNT],
            rtc_pads: vec![pad; RTC_CHANNEL_COUNT],
            hold_force: vec![false; RTC_CHANNEL_COUNT],
            gpio_pad_driver: vec![false; GPIO_PIN_COUNT],
            touch_pads: vec![touch; TOUCH_CHANNEL_COUNT],
            touch_thresholds: vec![0u32; TOUCH_REGISTER_COUNT],
            touch_outputs: vec![0u32; TOUCH_REGISTER_COUNT],
            touch_work_enable: 0,
            status: 0,
            status1: 0,
        }
    }
}

} // verus!
