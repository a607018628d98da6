use esp32_gpio::regs::{RegisterFile, RtcPadConfig, TouchPadControl};
use esp32_gpio::touch::{set_drive_mode, set_threshold, set_touch, touch_mapping, touch_measurement, touch_nr};

const TOUCH_PINS: [u8; 10] = [4, 0, 2, 15, 13, 12, 14, 27, 33, 32];

fn busy_regs() -> RegisterFile {
    let mut regs = RegisterFile::new();
    regs.rtc_enable = 0x3_ffff;
    for p in regs.rtc_pads.iter_mut() {
        *p = RtcPadConfig { fun_ie: true, mux_sel: false, fun_sel: 2, rue: true, rde: true };
    }
    for t in regs.touch_pads.iter_mut() {
        *t = TouchPadControl { xpd: false, tie_opt: true };
    }
    for d in regs.gpio_pad_driver.iter_mut() {
        *d = true;
    }
    regs.touch_thresholds[0] = 0x1234_5678;
    regs.touch_thresholds[4] = 0x1234_5678;
    regs
}

#[test]
fn touch_table_matches_the_chip() {
    for (channel, &pin) in TOUCH_PINS.iter().enumerate() {
        let m = touch_mapping(pin).expect("touch pin");
        assert_eq!(m.channel as usize, channel);
        assert_eq!(touch_nr(pin) as usize, channel);
        assert_eq!(m.register as usize, channel / 2);
        assert_eq!(m.pin_specific, channel < 8);
    }
    for pin in [1u8, 5, 25, 26, 34, 36, 39] {
        assert_eq!(touch_mapping(pin), None);
    }
}

#[test]
fn pin_specific_channel_zero_configures_the_pad() {
    let mut regs = busy_regs();
    set_touch(&mut regs, 4);
    assert_eq!(regs.touch_pads[0], TouchPadControl { xpd: true, tie_opt: false });
    assert_eq!(regs.rtc_pads[10], RtcPadConfig { fun_ie: false, mux_sel: true, fun_sel: 0, rue: false, rde: false });
    assert!(!regs.gpio_pad_driver[4]);
    assert!(regs.gpio_pad_driver[10]);
    assert_eq!(regs.rtc_enable, 0x3_ffff & !(1 << 10));
    assert_eq!(regs.touch_thresholds[0], 0x0000_0000);
    assert_eq!(regs.touch_work_enable, 0b1);
}

#[test]
fn shared_channel_eight_leaves_the_pad_alone() {
    let mut regs = busy_regs();
    set_touch(&mut regs, 33);
    assert_eq!(regs.touch_pads[8], TouchPadControl { xpd: true, tie_opt: false });
    assert_eq!(regs.rtc_pads[8], RtcPadConfig { fun_ie: true, mux_sel: false, fun_sel: 2, rue: true, rde: true });
    assert!(!regs.gpio_pad_driver[33]);
    assert_eq!(regs.rtc_enable, 0x3_ffff & !(1 << 8));
    assert_eq!(regs.touch_work_enable, 1 << 8);
    assert_eq!(regs.touch_thresholds[4], 0);
}

#[test]
fn setup_of_several_channels_accumulates_enables() {
    let mut regs = RegisterFile::new();
    set_touch(&mut regs, 4);
    set_touch(&mut regs, 0);
    set_touch(&mut regs, 32);
    assert_eq!(regs.touch_work_enable, 0b10_0000_0011);
}

#[test]
fn thresholds_go_to_the_channel_field() {
    let mut regs = RegisterFile::new();
    set_threshold(&mut regs, 2, 0xabcd);
    assert_eq!(regs.touch_thresholds[1], 0xabcd_0000);
    set_threshold(&mut regs, 15, 0x0123);
    assert_eq!(regs.touch_thresholds[1], 0x0000_0123);
    set_threshold(&mut regs, 32, u16::MAX);
    assert_eq!(regs.touch_thresholds[4], 0x0000_ffff);
    assert_eq!(regs.touch_thresholds[0], 0);
}

#[test]
fn measurements_come_from_the_channel_field() {
    let mut regs = RegisterFile::new();
    regs.touch_outputs[3] = 0x1111_2222;
    assert_eq!(touch_measurement(&regs, 14), 0x1111);
    assert_eq!(touch_measurement(&regs, 27), 0x2222);
    regs.touch_outputs[4] = 0xffff_0000;
    assert_eq!(touch_measurement(&regs, 33), 0xffff);
    assert_eq!(touch_measurement(&regs, 32), 0);
}

#[test]
fn drive_mode_uses_the_gpio_register_of_the_pin() {
    let mut regs = busy_regs();
    set_drive_mode(&mut regs, 13);
    assert!(!regs.gpio_pad_driver[13]);
    assert!(regs.gpio_pad_driver[14]);
    assert_eq!(regs.rtc_enable, 0x3_ffff & !(1 << 14));
}
