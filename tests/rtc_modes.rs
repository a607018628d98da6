use esp32_gpio::regs::{RegisterFile, RtcPadConfig};
use esp32_gpio::rtc::{
    errata36, rtc_number, rtc_pin_mapping, rtc_set_config, rtcio_pad_hold, rtcio_pulldown,
    rtcio_pullup, set_analog, RtcFunction, RtcPadRegister,
};

const RTC_PINS: [u8; 18] = [36, 37, 38, 39, 34, 35, 25, 26, 33, 32, 4, 0, 2, 15, 13, 12, 14, 27];
const PULL_PINS: [u8; 12] = [25, 26, 33, 32, 4, 0, 2, 15, 13, 12, 14, 27];

/// A register file with every field set, so that clearing shows.
fn busy_regs() -> RegisterFile {
    let mut regs = RegisterFile::new();
    regs.rtc_enable = 0x3_ffff;
    for d in regs.rtc_pad_driver.iter_mut() {
        *d = true;
    }
    for p in regs.rtc_pads.iter_mut() {
        *p = RtcPadConfig { fun_ie: true, mux_sel: false, fun_sel: 3, rue: true, rde: true };
    }
    for d in regs.gpio_pad_driver.iter_mut() {
        *d = true;
    }
    regs
}

#[test]
fn rtc_table_matches_the_chip() {
    for (channel, &pin) in RTC_PINS.iter().enumerate() {
        let m = rtc_pin_mapping(pin).expect("rtc pin");
        assert_eq!(m.pin, pin);
        assert_eq!(m.rtc as usize, channel);
        assert_eq!(rtc_number(pin) as usize, channel);
        assert_eq!(m.has_resistors, PULL_PINS.contains(&pin));
    }
    assert_eq!(rtc_pin_mapping(36).unwrap().register, RtcPadRegister::SensorPads);
    assert_eq!(rtc_pin_mapping(32).unwrap().register, RtcPadRegister::Xtal32kPad);
    assert_eq!(rtc_pin_mapping(27).unwrap().register, RtcPadRegister::TouchPad7);
    for pin in [1u8, 3, 5, 16, 17, 18, 19, 21, 22, 23, 40] {
        assert_eq!(rtc_pin_mapping(pin), None);
    }
}

#[test]
fn errata_table_holds_exactly_the_pull_pins() {
    for pin in 0u8..40 {
        let mut regs = RegisterFile::new();
        errata36(&mut regs, pin, true, false);
        if PULL_PINS.contains(&pin) {
            let pad = regs.rtc_pads[rtc_number(pin) as usize];
            assert!(pad.rue);
            assert!(!pad.rde);
        } else {
            assert_eq!(regs, RegisterFile::new());
        }
    }
}

#[test]
fn errata_on_dac_pins_writes_rtc_pulls() {
    let mut regs = busy_regs();
    errata36(&mut regs, 25, true, false);
    assert_eq!(regs.rtc_pads[6], RtcPadConfig { fun_ie: true, mux_sel: false, fun_sel: 3, rue: true, rde: false });
    errata36(&mut regs, 26, false, true);
    assert_eq!(regs.rtc_pads[7], RtcPadConfig { fun_ie: true, mux_sel: false, fun_sel: 3, rue: false, rde: true });
}

#[test]
fn errata_leaves_pin_five_alone() {
    let before = busy_regs();
    let mut regs = before.clone();
    errata36(&mut regs, 5, true, false);
    assert_eq!(regs, before);
    errata36(&mut regs, 36, true, true);
    assert_eq!(regs, before);
}

#[test]
fn analog_entry_on_pin_with_pulls() {
    let mut regs = busy_regs();
    regs.hold_force[6] = true;
    set_analog(&mut regs, 25);
    assert_eq!(regs.rtc_enable, 0x3_ffff & !(1 << 6));
    assert!(!regs.rtc_pad_driver[6]);
    assert!(regs.rtc_pad_driver[5]);
    assert_eq!(regs.rtc_pads[6], RtcPadConfig { fun_ie: false, mux_sel: true, fun_sel: 0, rue: false, rde: false });
    assert_eq!(regs.rtc_pads[5], RtcPadConfig { fun_ie: true, mux_sel: false, fun_sel: 3, rue: true, rde: true });
    assert!(regs.hold_force[6]);
}

#[test]
fn analog_entry_on_pin_without_pulls_keeps_pull_fields() {
    let mut regs = busy_regs();
    set_analog(&mut regs, 36);
    assert_eq!(regs.rtc_enable, 0x3_fffe);
    assert!(!regs.rtc_pad_driver[0]);
    assert_eq!(regs.rtc_pads[0], RtcPadConfig { fun_ie: false, mux_sel: true, fun_sel: 0, rue: true, rde: true });
}

#[test]
fn analog_entry_is_idempotent() {
    for &pin in RTC_PINS.iter() {
        let mut once = busy_regs();
        set_analog(&mut once, pin);
        let mut twice = once.clone();
        set_analog(&mut twice, pin);
        assert_eq!(once, twice);
    }
}

#[test]
fn rtc_config_writes_one_field_group() {
    let mut regs = busy_regs();
    rtc_set_config(&mut regs, 4, false, true, RtcFunction::Digital);
    assert_eq!(regs.rtc_pads[10], RtcPadConfig { fun_ie: false, mux_sel: true, fun_sel: 1, rue: true, rde: true });
    rtc_set_config(&mut regs, 4, true, false, RtcFunction::Rtc);
    assert_eq!(regs.rtc_pads[10], RtcPadConfig { fun_ie: true, mux_sel: false, fun_sel: 0, rue: true, rde: true });
    assert_eq!(regs.rtc_enable, 0x3_ffff);
    assert!(!regs.hold_force[10]);
}

#[test]
fn pad_hold_is_separate_from_mode() {
    let mut regs = RegisterFile::new();
    rtcio_pad_hold(&mut regs, 27, true);
    assert!(regs.hold_force[17]);
    assert_eq!(regs.hold_force.iter().filter(|h| **h).count(), 1);
    set_analog(&mut regs, 27);
    assert!(regs.hold_force[17]);
    rtcio_pad_hold(&mut regs, 27, false);
    assert!(!regs.hold_force[17]);
}

#[test]
fn rtc_pulls_set_each_field() {
    let mut regs = RegisterFile::new();
    rtcio_pullup(&mut regs, 33, true);
    assert!(regs.rtc_pads[8].rue);
    assert!(!regs.rtc_pads[8].rde);
    rtcio_pulldown(&mut regs, 33, true);
    assert!(regs.rtc_pads[8].rde);
    rtcio_pullup(&mut regs, 33, false);
    assert!(!regs.rtc_pads[8].rue);
    assert!(regs.rtc_pads[8].rde);
}
