use esp32_gpio::signal::{
    input_code_in_range, output_code_in_range, InputSignal, OutputSignal, INPUT_SIGNAL_MAX,
    ONE_INPUT, OUTPUT_SIGNAL_MAX, ZERO_INPUT,
};

#[test]
fn input_codes_match_the_datasheet() {
    assert_eq!(InputSignal::SPICLK.code(), 0);
    assert_eq!(InputSignal::U0RXD.code(), 14);
    assert_eq!(InputSignal::I2S0O_BCK.code(), 23);
    assert_eq!(InputSignal::PCMDIN.code(), 206);
    assert_eq!(InputSignal::SD_DATA0.code(), 512);
    assert_eq!(InputSignal::HS2_DATA3.code(), 527);
    assert_eq!(InputSignal::EMAC_TX_CLK.code(), 528);
    assert_eq!(InputSignal::MTMS.code(), 539);
}

#[test]
fn output_codes_match_the_datasheet() {
    assert_eq!(OutputSignal::SPICLK.code(), 0);
    assert_eq!(OutputSignal::TWAI_TX.code(), 123);
    assert_eq!(OutputSignal::GPIO.code(), 256);
    assert_eq!(OutputSignal::CLK_OUT1.code(), 512);
    assert_eq!(OutputSignal::HS1_STROBE.code(), 531);
    assert_eq!(OutputSignal::EMAC_TXD1.code(), 547);
    assert_eq!(OutputSignal::MTDO.code(), 548);
}

#[test]
fn largest_codes_are_the_maxima() {
    assert_eq!(INPUT_SIGNAL_MAX, 539);
    assert_eq!(OUTPUT_SIGNAL_MAX, 548);
    assert_eq!(InputSignal::MTMS.code(), INPUT_SIGNAL_MAX);
    assert_eq!(OutputSignal::MTDO.code(), OUTPUT_SIGNAL_MAX);
}

#[test]
fn range_check_rejects_codes_above_the_maximum() {
    assert!(input_code_in_range(0));
    assert!(input_code_in_range(539));
    assert!(!input_code_in_range(540));
    assert!(!input_code_in_range(u16::MAX));
    assert!(output_code_in_range(548));
    assert!(!output_code_in_range(549));
    assert!(!output_code_in_range(u16::MAX));
}

#[test]
fn codes_round_trip_to_names() {
    for s in [InputSignal::SPICLK, InputSignal::TWAI_RX, InputSignal::I2S1I_DATA_15, InputSignal::MTDI] {
        assert_eq!(InputSignal::from_code(s.code()), Some(s));
    }
    for s in [OutputSignal::U0TXD, OutputSignal::SIGNAL_228, OutputSignal::EMAC_CLK_180, OutputSignal::MTDO] {
        assert_eq!(OutputSignal::from_code(s.code()), Some(s));
    }
    for code in 0..=INPUT_SIGNAL_MAX {
        if let Some(s) = InputSignal::from_code(code) {
            assert_eq!(s.code(), code);
        }
    }
    for code in 0..=OUTPUT_SIGNAL_MAX {
        if let Some(s) = OutputSignal::from_code(code) {
            assert_eq!(s.code(), code);
        }
    }
}

#[test]
fn unassigned_and_out_of_range_codes_name_nothing() {
    assert_eq!(InputSignal::from_code(19), None);
    assert_eq!(InputSignal::from_code(300), None);
    assert_eq!(InputSignal::from_code(540), None);
    assert_eq!(OutputSignal::from_code(38), None);
    assert_eq!(OutputSignal::from_code(549), None);
    assert_eq!(OutputSignal::from_code(u16::MAX), None);
}

#[test]
fn tie_constants() {
    assert_eq!(ONE_INPUT, 0x38);
    assert_eq!(ZERO_INPUT, 0x30);
}
