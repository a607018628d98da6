//! The catalog of peripheral signals routed through the GPIO matrix, with the
//! mux code that the hardware assigns to each.
use vstd::prelude::*;

verus! {

/// Offset of the input-select field within a function-input register.
pub const FUNC_IN_SEL_OFFSET: usize = 0;

/// The largest input signal code.
pub const INPUT_SIGNAL_MAX: u16 = 539;

/// The largest output signal code.
pub const OUTPUT_SIGNAL_MAX: u16 = 548;

/// Input-select value that ties a peripheral input to constant logic 1.
pub const ONE_INPUT: u8 = 0x38;

/// Input-select value that ties a peripheral input to constant logic 0.
pub const ZERO_INPUT: u8 = 0x30;

/// Whether `code` may be written to an input-select field.
pub fn input_code_in_range(code: u16) -> (r: bool)
    ensures
        r == (code <= INPUT_SIGNAL_MAX),
{
    code <= INPUT_SIGNAL_MAX
}

/// Whether `code` may be written to an output-select field.
pub fn output_code_in_range(code: u16) -> (r: bool)
    ensures
        r == (code <= OUTPUT_SIGNAL_MAX),
{
    code <= OUTPUT_SIGNAL_MAX
}

/// Every input signal's code is in range and names that signal again; every
/// code that names a signal is that signal's code; no code above the maximum
/// names a signal.
pub proof fn lemma_input_signal_round_trip(s: InputSignal, code: u16)
    ensures
        s.spec_code() <= INPUT_SIGNAL_MAX,
        InputSignal::spec_from_code(s.spec_code()) == Some(s),
        InputSignal::spec_from_code(code) matches Some(t) ==> t.spec_code() == code,
        code > INPUT_SIGNAL_MAX ==> InputSignal::spec_from_code(code) is None,
{
}

/// Every output signal's code is in range and names that signal again; every
/// code that names a signal is that signal's code; no code above the maximum
/// names a signal.
#[verifier::spinoff_prover]
pub proof fn lemma_output_signal_round_trip(s: OutputSignal, code: u16)
    ensures
        s.spec_code() <= OUTPUT_SIGNAL_MAX,
        OutputSignal::spec_from_code(s.spec_code()) == Some(s),
        OutputSignal::spec_from_code(code) matches Some(t) ==> t.spec_code() == code,
        code > OUTPUT_SIGNAL_MAX ==> OutputSignal::spec_from_code(code) is None,
{
    match s {
        OutputSignal::SPICLK => {},
        OutputSignal::SPIQ => {},
        OutputSignal::SPID => {},
        OutputSignal::SPIHD => {},
        OutputSignal::SPIWP => {},
        OutputSignal::SPICS0 => {},
        OutputSignal::SPICS1 => {},
        OutputSignal::SPICS2 => {},
        OutputSignal::HSPICLK => {},
        OutputSignal::HSPIQ => {},
        OutputSignal::HSPID => {},
        OutputSignal::HSPICS0 => {},
        OutputSignal::HSPIHD => {},
        OutputSignal::HSPIWP => {},
        OutputSignal::U0TXD => {},
        OutputSignal::U0RTS => {},
        OutputSignal::U0DTR => {},
        OutputSignal::U1TXD => {},
        OutputSignal::U1RTS => {},
        OutputSignal::I2S0O_BCK => {},
        OutputSignal::I2S1O_BCK => {},
        OutputSignal::I2S0O_WS => {},
        OutputSignal::I2S1O_WS => {},
        OutputSignal::I2S0I_BCK => {},
        OutputSignal::I2S0I_WS => {},
        OutputSignal::I2CEXT0_SCL => {},
        OutputSignal::I2CEXT0_SDA => {},
        OutputSignal::SDIO_TOHOSTT => {},
        OutputSignal::PWM0_0A => {},
        OutputSignal::PWM0_0B => {},
        OutputSignal::PWM0_1A => {},
        OutputSignal::PWM0_1B => {},
        OutputSignal::PWM0_2A => {},
        OutputSignal::PWM0_2B => {},
        OutputSignal::HSPICS1 => {},
        OutputSignal::HSPICS2 => {},
        OutputSignal::VSPICLK => {},
        OutputSignal::VSPIQ => {},
        OutputSignal::VSPID => {},
        OutputSignal::VSPIHD => {},
        OutputSignal::VSPIWP => {},
        OutputSignal::VSPICS0 => {},
        OutputSignal::VSPICS1 => {},
        OutputSignal::VSPICS2 => {},
        OutputSignal::LEDC_HS_SIG0 => {},
        OutputSignal::LEDC_HS_SIG1 => {},
        OutputSignal::LEDC_HS_SIG2 => {},
        OutputSignal::LEDC_HS_SIG3 => {},
        OutputSignal::LEDC_HS_SIG4 => {},
        OutputSignal::LEDC_HS_SIG5 => {},
        OutputSignal::LEDC_HS_SIG6 => {},
        OutputSignal::LEDC_HS_SIG7 => {},
        OutputSignal::LEDC_LS_SIG0 => {},
        OutputSignal::LEDC_LS_SIG1 => {},
        OutputSignal::LEDC_LS_SIG2 => {},
        OutputSignal::LEDC_LS_SIG3 => {},
        OutputSignal::LEDC_LS_SIG4 => {},
        OutputSignal::LEDC_LS_SIG5 => {},
        OutputSignal::LEDC_LS_SIG6 => {},
        OutputSignal::LEDC_LS_SIG7 => {},
        OutputSignal::RMT_SIG_0 => {},
        OutputSignal::RMT_SIG_1 => {},
        OutputSignal::RMT_SIG_2 => {},
        OutputSignal::RMT_SIG_3 => {},
        OutputSignal::RMT_SIG_4 => {},
        OutputSignal::RMT_SIG_5 => {},
        OutputSignal::RMT_SIG_6 => {},
        OutputSignal::RMT_SIG_7 => {},
        OutputSignal::I2CEXT1_SCL => {},
        OutputSignal::I2CEXT1_SDA => {},
        OutputSignal::HOST_CCMD_OD_PULLUP_EN_N => {},
        OutputSignal::HOST_RST_N_1 => {},
        OutputSignal::HOST_RST_N_2 => {},
        OutputSignal::GPIO_SD0 => {},
        OutputSignal::GPIO_SD1 => {},
        OutputSignal::GPIO_SD2 => {},
        OutputSignal::GPIO_SD3 => {},
        OutputSignal::GPIO_SD4 => {},
        OutputSignal::GPIO_SD5 => {},
        OutputSignal::GPIO_SD6 => {},
        OutputSignal::GPIO_SD7 => {},
        OutputSignal::PWM1_0A => {},
        OutputSignal::PWM1_0B => {},
        OutputSignal::PWM1_1A => {},
        OutputSignal::PWM1_1B => {},
        OutputSignal::PWM1_2A => {},
        OutputSignal::PWM1_2B => {},
        OutputSignal::TWAI_TX => {},
        OutputSignal::TWAI_BUS_OFF_ON => {},
        OutputSignal::TWAI_CLKOUT => {},
        OutputSignal::I2S0O_DATA_0 => {},
        OutputSignal::I2S0O_DATA_1 => {},
        OutputSignal::I2S0O_DATA_2 => {},
        OutputSignal::I2S0O_DATA_3 => {},
        OutputSignal::I2S0O_DATA_4 => {},
        OutputSignal::I2S0O_DATA_5 => {},
        OutputSignal::I2S0O_DATA_6 => {},
        OutputSignal::I2S0O_DATA_7 => {},
        OutputSignal::I2S0O_DATA_8 => {},
        OutputSignal::I2S0O_DATA_9 => {},
        OutputSignal::I2S0O_DATA_10 => {},
        OutputSignal::I2S0O_DATA_11 => {},
        OutputSignal::I2S0O_DATA_12 => {},
        OutputSignal::I2S0O_DATA_13 => {},
        OutputSignal::I2S0O_DATA_14 => {},
        OutputSignal::I2S0O_DATA_15 => {},
        OutputSignal::I2S0O_DATA_16 => {},
        OutputSignal::I2S0O_DATA_17 => {},
        OutputSignal::I2S0O_DATA_18 => {},
        OutputSignal::I2S0O_DATA_19 => {},
        OutputSignal::I2S0O_DATA_20 => {},
        OutputSignal::I2S0O_DATA_21 => {},
        OutputSignal::I2S0O_DATA_22 => {},
        OutputSignal::I2S0O_DATA_23 => {},
        OutputSignal::I2S1I_BCK => {},
        OutputSignal::I2S1I_WS => {},
        OutputSignal::I2S1O_DATA_0 => {},
        OutputSignal::I2S1O_DATA_1 => {},
        OutputSignal::I2S1O_DATA_2 => {},
        OutputSignal::I2S1O_DATA_3 => {},
        OutputSignal::I2S1O_DATA_4 => {},
        OutputSignal::I2S1O_DATA_5 => {},
        OutputSignal::I2S1O_DATA_6 => {},
        OutputSignal::I2S1O_DATA_7 => {},
        OutputSignal::I2S1O_DATA_8 => {},
        OutputSignal::I2S1O_DATA_9 => {},
        OutputSignal::I2S1O_DATA_10 => {},
        OutputSignal::I2S1O_DATA_11 => {},
        OutputSignal::I2S1O_DATA_12 => {},
        OutputSignal::I2S1O_DATA_13 => {},
        OutputSignal::I2S1O_DATA_14 => {},
        OutputSignal::I2S1O_DATA_15 => {},
        OutputSignal::I2S1O_DATA_16 => {},
        OutputSignal::I2S1O_DATA_17 => {},
        OutputSignal::I2S1O_DATA_18 => {},
        OutputSignal::I2S1O_DATA_19 => {},
        OutputSignal::I2S1O_DATA_20 => {},
        OutputSignal::I2S1O_DATA_21 => {},
        OutputSignal::I2S1O_DATA_22 => {},
        OutputSignal::I2S1O_DATA_23 => {},
        OutputSignal::U2TXD => {},
        OutputSignal::U2RTS => {},
        OutputSignal::EMAC_MDC => {},
        OutputSignal::EMAC_MDO => {},
        OutputSignal::EMAC_CRS => {},
        OutputSignal::EMAC_COL => {},
        OutputSignal::BT_AUDIO0RQ => {},
        OutputSignal::BT_AUDIO1RQ => {},
        OutputSignal::BT_AUDIO2RQ => {},
        OutputSignal::BLE_AUDIO0RQ => {},
        OutputSignal::BLE_AUDIO1RQ => {},
        OutputSignal::BLE_AUDIO2RQ => {},
        OutputSignal::PCMFSYNC => {},
        OutputSignal::PCMCLK => {},
        OutputSignal::PCMDOUT => {},
        OutputSignal::BLE_AUDIO_SYNC0_P => {},
        OutputSignal::BLE_AUDIO_SYNC1_P => {},
        OutputSignal::BLE_AUDIO_SYNC2_P => {},
        OutputSignal::ANT_SEL0 => {},
        OutputSignal::ANT_SEL1 => {},
        OutputSignal::ANT_SEL2 => {},
        OutputSignal::ANT_SEL3 => {},
        OutputSignal::ANT_SEL4 => {},
        OutputSignal::ANT_SEL5 => {},
        OutputSignal::ANT_SEL6 => {},
        OutputSignal::ANT_SEL7 => {},
        OutputSignal::SIGNAL_224 => {},
        OutputSignal::SIGNAL_225 => {},
        OutputSignal::SIGNAL_226 => {},
        OutputSignal::SIGNAL_227 => {},
        OutputSignal::SIGNAL_228 => {},
        OutputSignal::GPIO => {},
        OutputSignal::CLK_OUT1 => {},
        OutputSignal::CLK_OUT2 => {},
        OutputSignal::CLK_OUT3 => {},
        OutputSignal::SD_CLK => {},
        OutputSignal::SD_CMD => {},
        OutputSignal::SD_DATA0 => {},
        OutputSignal::SD_DATA1 => {},
        OutputSignal::SD_DATA2 => {},
        OutputSignal::SD_DATA3 => {},
        OutputSignal::HS1_CLK => {},
        OutputSignal::HS1_CMD => {},
        OutputSignal::HS1_DATA0 => {},
        OutputSignal::HS1_DATA1 => {},
        OutputSignal::HS1_DATA2 => {},
        OutputSignal::HS1_DATA3 => {},
        OutputSignal::HS1_DATA4 => {},
        OutputSignal::HS1_DATA5 => {},
        OutputSignal::HS1_DATA6 => {},
        OutputSignal::HS1_DATA7 => {},
        OutputSignal::HS1_STROBE => {},
        OutputSignal::HS2_CLK => {},
        OutputSignal::HS2_CMD => {},
        OutputSignal::HS2_DATA0 => {},
        OutputSignal::HS2_DATA1 => {},
        OutputSignal::HS2_DATA2 => {},
        OutputSignal::HS2_DATA3 => {},
        OutputSignal::EMAC_TX_CLK => {},
        OutputSignal::EMAC_TX_ER => {},
        OutputSignal::EMAC_TXD3 => {},
        OutputSignal::EMAC_RX_ER => {},
        OutputSignal::EMAC_TXD2 => {},
        OutputSignal::EMAC_CLK_OUT => {},
        OutputSignal::EMAC_CLK_180 => {},
        OutputSignal::EMAC_TXD0 => {},
        OutputSignal::EMAC_TX_EN => {},
        OutputSignal::EMAC_TXD1 => {},
        OutputSignal::MTDO => {},
    }
    lemma_output_code_names_signal(code);
}

proof fn lemma_output_code_names_signal(code: u16)
    ensures
        OutputSignal::spec_from_code(code) matches Some(t) ==> t.spec_code() == code,
        code > OUTPUT_SIGNAL_MAX ==> OutputSignal::spec_from_code(code) is None,
{
    if code <= 99 {
        lemma_output_code_range_0(code);
    } else if code <= 189 {
        lemma_output_code_range_1(code);
    } else if code <= 548 {
        lemma_output_code_range_2(code);
    }
}

#[verifier::spinoff_prover]
proof fn lemma_output_code_range_0(code: u16)
    requires
        code <= 99,
    ensures
        OutputSignal::spec_from_code(code) matches Some(t) ==> t.spec_code() == code,
{
}

#[verifier::spinoff_prover]
proof fn lemma_output_code_range_1(code: u16)
    requires
        100 <= code && code <= 189,
    ensures
        OutputSignal::spec_from_code(code) matches Some(t) ==> t.spec_code() == code,
{
}

#[verifier::spinoff_prover]
proof fn lemma_output_code_range_2(code: u16)
    requires
        190 <= code && code <= 548,
    ensures
        OutputSignal::spec_from_code(code) matches Some(t) ==> t.spec_code() == code,
{
}


/// A peripheral input signal of the GPIO matrix.
#[allow(non_camel_case_types)]
#[derive(Debug, Clone, Copy, PartialEq, Eq, Structural)]
pub enum InputSignal {
    SPICLK,
    SPIQ,
    SPID,
    SPIHD,
    SPIWP,
    SPICS0,
    SPICS1,
    SPICS2,
    HSPICLK,
    HSPIQ,
    HSPID,
    HSPICS0,
    HSPIHD,
    HSPIWP,
    U0RXD,
    U0CTS,
    U0DSR,
    U1RXD,
    U1CTS,
    I2S0O_BCK,
    I2S1O_BCK,
    I2S0O_WS,
    I2S1O_WS,
    I2S0I_BCK,
    I2S0I_WS,
    I2CEXT0_SCL,
    I2CEXT0_SDA,
    PWM0_SYNC0,
    PWM0_SYNC1,
    PWM0_SYNC2,
    PWM0_F0,
    PWM0_F1,
    PWM0_F2,
    PCNT0_SIG_CH0,
    PCNT0_SIG_CH1,
    PCNT0_CTRL_CH0,
    PCNT0_CTRL_CH1,
    PCNT1_SIG_CH0,
    PCNT1_SIG_CH1,
    PCNT1_CTRL_CH0,
    PCNT1_CTRL_CH1,
    PCNT2_SIG_CH0,
    PCNT2_SIG_CH1,
    PCNT2_CTRL_CH0,
    PCNT2_CTRL_CH1,
    PCNT3_SIG_CH0,
    PCNT3_SIG_CH1,
    PCNT3_CTRL_CH0,
    PCNT3_CTRL_CH1,
    PCNT4_SIG_CH0,
    PCNT4_SIG_CH1,
    PCNT4_CTRL_CH0,
    PCNT4_CTRL_CH1,
    HSPICS1,
    HSPICS2,
    VSPICLK,
    VSPIQ,
    VSPID,
    VSPIHD,
    VSPIWP,
    VSPICS0,
    VSPICS1,
    VSPICS2,
    PCNT5_SIG_CH0,
    PCNT5_SIG_CH1,
    PCNT5_CTRL_CH0,
    PCNT5_CTRL_CH1,
    PCNT6_SIG_CH0,
    PCNT6_SIG_CH1,
    PCNT6_CTRL_CH0,
    PCNT6_CTRL_CH1,
    PCNT7_SIG_CH0,
    PCNT7_SIG_CH1,
    PCNT7_CTRL_CH0,
    PCNT7_CTRL_CH1,
    RMT_SIG_0,
    RMT_SIG_1,
    RMT_SIG_2,
    RMT_SIG_3,
    RMT_SIG_4,
    RMT_SIG_5,
    RMT_SIG_6,
    RMT_SIG_7,
    TWAI_RX,
    I2CEXT1_SCL,
    I2CEXT1_SDA,
    HOST_CARD_DETECT_N_1,
    HOST_CARD_DETECT_N_2,
    HOST_CARD_WRITE_PRT_1,
    HOST_CARD_WRITE_PRT_2,
    HOST_CARD_INT_N_1,
    HOST_CARD_INT_N_2,
    PWM1_SYNC0,
    PWM1_SYNC1,
    PWM1_SYNC2,
    PWM1_F0,
    PWM1_F1,
    PWM1_F2,
    PWM0_CAP0,
    PWM0_CAP1,
    PWM0_CAP2,
    PWM1_CAP0,
    PWM1_CAP1,
    PWM1_CAP2,
    I2S0I_DATA_0,
    I2S0I_DATA_1,
    I2S0I_DATA_2,
    I2S0I_DATA_3,
    I2S0I_DATA_4,
    I2S0I_DATA_5,
    I2S0I_DATA_6,
    I2S0I_DATA_7,
    I2S0I_DATA_8,
    I2S0I_DATA_9,
    I2S0I_DATA_10,
    I2S0I_DATA_11,
    I2S0I_DATA_12,
    I2S0I_DATA_13,
    I2S0I_DATA_14,
    I2S0I_DATA_15,
    I2S1I_BCK,
    I2S1I_WS,
    I2S1I_DATA_0,
    I2S1I_DATA_1,
    I2S1I_DATA_2,
    I2S1I_DATA_3,
    I2S1I_DATA_4,
    I2S1I_DATA_5,
    I2S1I_DATA_6,
    I2S1I_DATA_7,
    I2S1I_DATA_8,
    I2S1I_DATA_9,
    I2S1I_DATA_10,
    I2S1I_DATA_11,
    I2S1I_DATA_12,
    I2S1I_DATA_13,
    I2S1I_DATA_14,
    I2S1I_DATA_15,
    I2S0I_H_SYNC,
    I2S0I_V_SYNC,
    I2S0I_H_ENABLE,
    I2S1I_H_SYNC,
    I2S1I_V_SYNC,
    I2S1I_H_ENABLE,
    U2RXD,
    U2CTS,
    EMAC_MDC,
    EMAC_MDI,
    EMAC_CRS,
    EMAC_COL,
    PCMFSYNC,
    PCMCLK,
    PCMDIN,
    SD_DATA0,
    SD_DATA1,
    SD_DATA2,
    SD_DATA3,
    HS1_DATA0,
    HS1_DATA1,
    HS1_DATA2,
    HS1_DATA3,
    HS1_DATA4,
    HS1_DATA5,
    HS1_DATA6,
    HS1_DATA7,
    HS2_DATA0,
    HS2_DATA1,
    HS2_DATA2,
    HS2_DATA3,
    EMAC_TX_CLK,
    EMAC_RXD2,
    EMAC_TX_ER,
    EMAC_RX_CLK,
    EMAC_RX_ER,
    EMAC_RXD3,
    EMAC_RXD0,
    EMAC_RXD1,
    EMAC_RX_DV,
    MTDI,
    MTCK,
    MTMS,
}

impl InputSignal {
    /// The mux code of this signal.
    pub open spec fn spec_code(self) -> u16 {
        match self {
            InputSignal::SPICLK => 0,
            InputSignal::SPIQ => 1,
            InputSignal::SPID => 2,
            InputSignal::SPIHD => 3,
            InputSignal::SPIWP => 4,
            InputSignal::SPICS0 => 5,
            InputSignal::SPICS1 => 6,
            InputSignal::SPICS2 => 7,
            InputSignal::HSPICLK => 8,
            InputSignal::HSPIQ => 9,
            InputSignal::HSPID => 10,
            InputSignal::HSPICS0 => 11,
            InputSignal::HSPIHD => 12,
            InputSignal::HSPIWP => 13,
            InputSignal::U0RXD => 14,
            InputSignal::U0CTS => 15,
            InputSignal::U0DSR => 16,
            InputSignal::U1RXD => 17,
            InputSignal::U1CTS => 18,
            InputSignal::I2S0O_BCK => 23,
            InputSignal::I2S1O_BCK => 24,
            InputSignal::I2S0O_WS => 25,
            InputSignal::I2S1O_WS => 26,
            InputSignal::I2S0I_BCK => 27,
            InputSignal::I2S0I_WS => 28,
            InputSignal::I2CEXT0_SCL => 29,
            InputSignal::I2CEXT0_SDA => 30,
            InputSignal::PWM0_SYNC0 => 31,
            InputSignal::PWM0_SYNC1 => 32,
            InputSignal::PWM0_SYNC2 => 33,
            InputSignal::PWM0_F0 => 34,
            InputSignal::PWM0_F1 => 35,
            InputSignal::PWM0_F2 => 36,
            InputSignal::PCNT0_SIG_CH0 => 39,
            InputSignal::PCNT0_SIG_CH1 => 40,
            InputSignal::PCNT0_CTRL_CH0 => 41,
            InputSignal::PCNT0_CTRL_CH1 => 42,
            InputSignal::PCNT1_SIG_CH0 => 43,
            InputSignal::PCNT1_SIG_CH1 => 44,
            InputSignal::PCNT1_CTRL_CH0 => 45,
            InputSignal::PCNT1_CTRL_CH1 => 46,
            InputSignal::PCNT2_SIG_CH0 => 47,
            InputSignal::PCNT2_SIG_CH1 => 48,
            InputSignal::PCNT2_CTRL_CH0 => 49,
            InputSignal::PCNT2_CTRL_CH1 => 50,
            InputSignal::PCNT3_SIG_CH0 => 51,
            InputSignal::PCNT3_SIG_CH1 => 52,
            InputSignal::PCNT3_CTRL_CH0 => 53,
            InputSignal::PCNT3_CTRL_CH1 => 54,
            InputSignal::PCNT4_SIG_CH0 => 55,
            InputSignal::PCNT4_SIG_CH1 => 56,
            InputSignal::PCNT4_CTRL_CH0 => 57,
            InputSignal::PCNT4_CTRL_CH1 => 58,
            InputSignal::HSPICS1 => 61,
            InputSignal::HSPICS2 => 62,
            InputSignal::VSPICLK => 63,
            InputSignal::VSPIQ => 64,
            InputSignal::VSPID => 65,
            InputSignal::VSPIHD => 66,
            InputSignal::VSPIWP => 67,
            InputSignal::VSPICS0 => 68,
            InputSignal::VSPICS1 => 69,
            InputSignal::VSPICS2 => 70,
            InputSignal::PCNT5_SIG_CH0 => 71,
            InputSignal::PCNT5_SIG_CH1 => 72,
            InputSignal::PCNT5_CTRL_CH0 => 73,
            InputSignal::PCNT5_CTRL_CH1 => 74,
            InputSignal::PCNT6_SIG_CH0 => 75,
            InputSignal::PCNT6_SIG_CH1 => 76,
            InputSignal::PCNT6_CTRL_CH0 => 77,
            InputSignal::PCNT6_CTRL_CH1 => 78,
            InputSignal::PCNT7_SIG_CH0 => 79,
            InputSignal::PCNT7_SIG_CH1 => 80,
            InputSignal::PCNT7_CTRL_CH0 => 81,
            InputSignal::PCNT7_CTRL_CH1 => 82,
            InputSignal::RMT_SIG_0 => 83,
            InputSignal::RMT_SIG_1 => 84,
            InputSignal::RMT_SIG_2 => 85,
            InputSignal::RMT_SIG_3 => 86,
            InputSignal::RMT_SIG_4 => 87,
            InputSignal::RMT_SIG_5 => 88,
            InputSignal::RMT_SIG_6 => 89,
            InputSignal::RMT_SIG_7 => 90,
            InputSignal::TWAI_RX => 94,
            InputSignal::I2CEXT1_SCL => 95,
            InputSignal::I2CEXT1_SDA => 96,
            InputSignal::HOST_CARD_DETECT_N_1 => 97,
            InputSignal::HOST_CARD_DETECT_N_2 => 98,
            InputSignal::HOST_CARD_WRITE_PRT_1 => 99,
            InputSignal::HOST_CARD_WRITE_PRT_2 => 100,
            InputSignal::HOST_CARD_INT_N_1 => 101,
            InputSignal::HOST_CARD_INT_N_2 => 102,
            InputSignal::PWM1_SYNC0 => 103,
            InputSignal::PWM1_SYNC1 => 104,
            InputSignal::PWM1_SYNC2 => 105,
            InputSignal::PWM1_F0 => 106,
            InputSignal::PWM1_F1 => 107,
            InputSignal::PWM1_F2 => 108,
            InputSignal::PWM0_CAP0 => 109,
            InputSignal::PWM0_CAP1 => 110,
            InputSignal::PWM0_CAP2 => 111,
            InputSignal::PWM1_CAP0 => 112,
            InputSignal::PWM1_CAP1 => 113,
            InputSignal::PWM1_CAP2 => 114,
            InputSignal::I2S0I_DATA_0 => 140,
            InputSignal::I2S0I_DATA_1 => 141,
            InputSignal::I2S0I_DATA_2 => 142,
            InputSignal::I2S0I_DATA_3 => 143,
            InputSignal::I2S0I_DATA_4 => 144,
            InputSignal::I2S0I_DATA_5 => 145,
            InputSignal::I2S0I_DATA_6 => 146,
            InputSignal::I2S0I_DATA_7 => 147,
            InputSignal::I2S0I_DATA_8 => 148,
            InputSignal::I2S0I_DATA_9 => 149,
            InputSignal::I2S0I_DATA_10 => 150,
            InputSignal::I2S0I_DATA_11 => 151,
            InputSignal::I2S0I_DATA_12 => 152,
            InputSignal::I2S0I_DATA_13 => 153,
            InputSignal::I2S0I_DATA_14 => 154,
            InputSignal::I2S0I_DATA_15 => 155,
            InputSignal::I2S1I_BCK => 164,
            InputSignal::I2S1I_WS => 165,
            InputSignal::I2S1I_DATA_0 => 166,
            InputSignal::I2S1I_DATA_1 => 167,
            InputSignal::I2S1I_DATA_2 => 168,
            InputSignal::I2S1I_DATA_3 => 169,
            InputSignal::I2S1I_DATA_4 => 170,
            InputSignal::I2S1I_DATA_5 => 171,
            InputSignal::I2S1I_DATA_6 => 172,
            InputSignal::I2S1I_DATA_7 => 173,
            InputSignal::I2S1I_DATA_8 => 174,
            InputSignal::I2S1I_DATA_9 => 175,
            InputSignal::I2S1I_DATA_10 => 176,
            InputSignal::I2S1I_DATA_11 => 177,
            InputSignal::I2S1I_DATA_12 => 178,
            InputSignal::I2S1I_DATA_13 => 179,
            InputSignal::I2S1I_DATA_14 => 180,
            InputSignal::I2S1I_DATA_15 => 181,
            InputSignal::I2S0I_H_SYNC => 190,
            InputSignal::I2S0I_V_SYNC => 191,
            InputSignal::I2S0I_H_ENABLE => 192,
            InputSignal::I2S1I_H_SYNC => 193,
            InputSignal::I2S1I_V_SYNC => 194,
            InputSignal::I2S1I_H_ENABLE => 195,
            InputSignal::U2RXD => 198,
            InputSignal::U2CTS => 199,
            InputSignal::EMAC_MDC => 200,
            InputSignal::EMAC_MDI => 201,
            InputSignal::EMAC_CRS => 202,
            InputSignal::EMAC_COL => 203,
            InputSignal::PCMFSYNC => 204,
            InputSignal::PCMCLK => 205,
            InputSignal::PCMDIN => 206,
            InputSignal::SD_DATA0 => 512,
            InputSignal::SD_DATA1 => 513,
            InputSignal::SD_DATA2 => 514,
            InputSignal::SD_DATA3 => 515,
            InputSignal::HS1_DATA0 => 516,
            InputSignal::HS1_DATA1 => 517,
            InputSignal::HS1_DATA2 => 518,
            InputSignal::HS1_DATA3 => 519,
            InputSignal::HS1_DATA4 => 520,
            InputSignal::HS1_DATA5 => 521,
            InputSignal::HS1_DATA6 => 522,
            InputSignal::HS1_DATA7 => 523,
            InputSignal::HS2_DATA0 => 524,
            InputSignal::HS2_DATA1 => 525,
            InputSignal::HS2_DATA2 => 526,
            InputSignal::HS2_DATA3 => 527,
            InputSignal::EMAC_TX_CLK => 528,
            InputSignal::EMAC_RXD2 => 529,
            InputSignal::EMAC_TX_ER => 530,
            InputSignal::EMAC_RX_CLK => 531,
            InputSignal::EMAC_RX_ER => 532,
            InputSignal::EMAC_RXD3 => 533,
            InputSignal::EMAC_RXD0 => 534,
            InputSignal::EMAC_RXD1 => 535,
            InputSignal::EMAC_RX_DV => 536,
            InputSignal::MTDI => 537,
            InputSignal::MTCK => 538,
            InputSignal::MTMS => 539,
        }
    }

    /// The signal whose mux code is `code`, if any.
    pub open spec fn spec_from_code(code: u16) -> Option<InputSignal> {
        match code {
            0 => Some(InputSignal::SPICLK),
            1 => Some(InputSignal::SPIQ),
            2 => Some(InputSignal::SPID),
            3 => Some(InputSignal::SPIHD),
            4 => Some(InputSignal::SPIWP),
            5 => Some(InputSignal::SPICS0),
            6 => Some(InputSignal::SPICS1),
            7 => Some(InputSignal::SPICS2),
            8 => Some(InputSignal::HSPICLK),
            9 => Some(InputSignal::HSPIQ),
            10 => Some(InputSignal::HSPID),
            11 => Some(InputSignal::HSPICS0),
            12 => Some(InputSignal::HSPIHD),
            13 => Some(InputSignal::HSPIWP),
            14 => Some(InputSignal::U0RXD),
            15 => Some(InputSignal::U0CTS),
            16 => Some(InputSignal::U0DSR),
            17 => Some(InputSignal::U1RXD),
            18 => Some(InputSignal::U1CTS),
            23 => Some(InputSignal::I2S0O_BCK),
            24 => Some(InputSignal::I2S1O_BCK),
            25 => Some(InputSignal::I2S0O_WS),
            26 => Some(InputSignal::I2S1O_WS),
            27 => Some(InputSignal::I2S0I_BCK),
            28 => Some(InputSignal::I2S0I_WS),
            29 => Some(InputSignal::I2CEXT0_SCL),
            30 => Some(InputSignal::I2CEXT0_SDA),
            31 => Some(InputSignal::PWM0_SYNC0),
            32 => Some(InputSignal::PWM0_SYNC1),
            33 => Some(InputSignal::PWM0_SYNC2),
            34 => Some(InputSignal::PWM0_F0),
            35 => Some(InputSignal::PWM0_F1),
            36 => Some(InputSignal::PWM0_F2),
            39 => Some(InputSignal::PCNT0_SIG_CH0),
            40 => Some(InputSignal::PCNT0_SIG_CH1),
            41 => Some(InputSignal::PCNT0_CTRL_CH0),
            42 => Some(InputSignal::PCNT0_CTRL_CH1),
            43 => Some(InputSignal::PCNT1_SIG_CH0),
            44 => Some(InputSignal::PCNT1_SIG_CH1),
            45 => Some(InputSignal::PCNT1_CTRL_CH0),
            46 => Some(InputSignal::PCNT1_CTRL_CH1),
            47 => Some(InputSignal::PCNT2_SIG_CH0),
            48 => Some(InputSignal::PCNT2_SIG_CH1),
            49 => Some(InputSignal::PCNT2_CTRL_CH0),
            50 => Some(InputSignal::PCNT2_CTRL_CH1),
            51 => Some(InputSignal::PCNT3_SIG_CH0),
            52 => Some(InputSignal::PCNT3_SIG_CH1),
            53 => Some(InputSignal::PCNT3_CTRL_CH0),
            54 => Some(InputSignal::PCNT3_CTRL_CH1),
            55 => Some(InputSignal::PCNT4_SIG_CH0),
            56 => Some(InputSignal::PCNT4_SIG_CH1),
            57 => Some(InputSignal::PCNT4_CTRL_CH0),
            58 => Some(InputSignal::PCNT4_CTRL_CH1),
            61 => Some(InputSignal::HSPICS1),
            62 => Some(InputSignal::HSPICS2),
            63 => Some(InputSignal::VSPICLK),
            64 => Some(InputSignal::VSPIQ),
            65 => Some(InputSignal::VSPID),
            66 => Some(InputSignal::VSPIHD),
            67 => Some(InputSignal::VSPIWP),
            68 => Some(InputSignal::VSPICS0),
            69 => Some(InputSignal::VSPICS1),
            70 => Some(InputSignal::VSPICS2),
            71 => Some(InputSignal::PCNT5_SIG_CH0),
            72 => Some(InputSignal::PCNT5_SIG_CH1),
            73 => Some(InputSignal::PCNT5_CTRL_CH0),
            74 => Some(InputSignal::PCNT5_CTRL_CH1),
            75 => Some(InputSignal::PCNT6_SIG_CH0),
            76 => Some(InputSignal::PCNT6_SIG_CH1),
            77 => Some(InputSignal::PCNT6_CTRL_CH0),
            78 => Some(InputSignal::PCNT6_CTRL_CH1),
            79 => Some(InputSignal::PCNT7_SIG_CH0),
            80 => Some(InputSignal::PCNT7_SIG_CH1),
            81 => Some(InputSignal::PCNT7_CTRL_CH0),
            82 => Some(InputSignal::PCNT7_CTRL_CH1),
            83 => Some(InputSignal::RMT_SIG_0),
            84 => Some(InputSignal::RMT_SIG_1),
            85 => Some(InputSignal::RMT_SIG_2),
            86 => Some(InputSignal::RMT_SIG_3),
            87 => Some(InputSignal::RMT_SIG_4),
            88 => Some(InputSignal::RMT_SIG_5),
            89 => Some(InputSignal::RMT_SIG_6),
            90 => Some(InputSignal::RMT_SIG_7),
            94 => Some(InputSignal::TWAI_RX),
            95 => Some(InputSignal::I2CEXT1_SCL),
            96 => Some(InputSignal::I2CEXT1_SDA),
            97 => Some(InputSignal::HOST_CARD_DETECT_N_1),
            98 => Some(InputSignal::HOST_CARD_DETECT_N_2),
            99 => Some(InputSignal::HOST_CARD_WRITE_PRT_1),
            100 => Some(InputSignal::HOST_CARD_WRITE_PRT_2),
            101 => Some(InputSignal::HOST_CARD_INT_N_1),
            102 => Some(InputSignal::HOST_CARD_INT_N_2),
            103 => Some(InputSignal::PWM1_SYNC0),
            104 => Some(InputSignal::PWM1_SYNC1),
            105 => Some(InputSignal::PWM1_SYNC2),
            106 => Some(InputSignal::PWM1_F0),
            107 => Some(InputSignal::PWM1_F1),
            108 => Some(InputSignal::PWM1_F2),
            109 => Some(InputSignal::PWM0_CAP0),
            110 => Some(InputSignal::PWM0_CAP1),
            111 => Some(InputSignal::PWM0_CAP2),
            112 => Some(InputSignal::PWM1_CAP0),
            113 => Some(InputSignal::PWM1_CAP1),
            114 => Some(InputSignal::PWM1_CAP2),
            140 => Some(InputSignal::I2S0I_DATA_0),
            141 => Some(InputSignal::I2S0I_DATA_1),
            142 => Some(InputSignal::I2S0I_DATA_2),
            143 => Some(InputSignal::I2S0I_DATA_3),
            144 => Some(InputSignal::I2S0I_DATA_4),
            145 => Some(InputSignal::I2S0I_DATA_5),
            146 => Some(InputSignal::I2S0I_DATA_6),
            147 => Some(InputSignal::I2S0I_DATA_7),
            148 => Some(InputSignal::I2S0I_DATA_8),
            149 => Some(InputSignal::I2S0I_DATA_9),
            150 => Some(InputSignal::I2S0I_DATA_10),
            151 => Some(InputSignal::I2S0I_DATA_11),
            152 => Some(InputSignal::I2S0I_DATA_12),
            153 => Some(InputSignal::I2S0I_DATA_13),
            154 => Some(InputSignal::I2S0I_DATA_14),
            155 => Some(InputSignal::I2S0I_DATA_15),
            164 => Some(InputSignal::I2S1I_BCK),
            165 => Some(InputSignal::I2S1I_WS),
            166 => Some(InputSignal::I2S1I_DATA_0),
            167 => Some(InputSignal::I2S1I_DATA_1),
            168 => Some(InputSignal::I2S1I_DATA_2),
            169 => Some(InputSignal::I2S1I_DATA_3),
            170 => Some(InputSignal::I2S1I_DATA_4),
            171 => Some(InputSignal::I2S1I_DATA_5),
            172 => Some(InputSignal::I2S1I_DATA_6),
            173 => Some(InputSignal::I2S1I_DATA_7),
            174 => Some(InputSignal::I2S1I_DATA_8),
            175 => Some(InputSignal::I2S1I_DATA_9),
            176 => Some(InputSignal::I2S1I_DATA_10),
            177 => Some(InputSignal::I2S1I_DATA_11),
            178 => Some(InputSignal::I2S1I_DATA_12),
            179 => Some(InputSignal::I2S1I_DATA_13),
            180 => Some(InputSignal::I2S1I_DATA_14),
            181 => Some(InputSignal::I2S1I_DATA_15),
            190 => Some(InputSignal::I2S0I_H_SYNC),
            191 => Some(InputSignal::I2S0I_V_SYNC),
            192 => Some(InputSignal::I2S0I_H_ENABLE),
            193 => Some(InputSignal::I2S1I_H_SYNC),
            194 => Some(InputSignal::I2S1I_V_SYNC),
            195 => Some(InputSignal::I2S1I_H_ENABLE),
            198 => Some(InputSignal::U2RXD),
            199 => Some(InputSignal::U2CTS),
            200 => Some(InputSignal::EMAC_MDC),
            201 => Some(InputSignal::EMAC_MDI),
            202 => Some(InputSignal::EMAC_CRS),
            203 => Some(InputSignal::EMAC_COL),
            204 => Some(InputSignal::PCMFSYNC),
            205 => Some(InputSignal::PCMCLK),
            206 => Some(InputSignal::PCMDIN),
            512 => Some(InputSignal::SD_DATA0),
            513 => Some(InputSignal::SD_DATA1),
            514 => Some(InputSignal::SD_DATA2),
            515 => Some(InputSignal::SD_DATA3),
            516 => Some(InputSignal::HS1_DATA0),
            517 => Some(InputSignal::HS1_DATA1),
            518 => Some(InputSignal::HS1_DATA2),
            519 => Some(InputSignal::HS1_DATA3),
            520 => Some(InputSignal::HS1_DATA4),
            521 => Some(InputSignal::HS1_DATA5),
            522 => Some(InputSignal::HS1_DATA6),
            523 => Some(InputSignal::HS1_DATA7),
            524 => Some(InputSignal::HS2_DATA0),
            525 => Some(InputSignal::HS2_DATA1),
            526 => Some(InputSignal::HS2_DATA2),
            527 => Some(InputSignal::HS2_DATA3),
            528 => Some(InputSignal::EMAC_TX_CLK),
            529 => Some(InputSignal::EMAC_RXD2),
            530 => Some(InputSignal::EMAC_TX_ER),
            531 => Some(InputSignal::EMAC_RX_CLK),
            532 => Some(InputSignal::EMAC_RX_ER),
            533 => Some(InputSignal::EMAC_RXD3),
            534 => Some(InputSignal::EMAC_RXD0),
            535 => Some(InputSignal::EMAC_RXD1),
            536 => Some(InputSignal::EMAC_RX_DV),
            537 => Some(InputSignal::MTDI),
            538 => Some(InputSignal::MTCK),
            539 => Some(InputSignal::MTMS),
            _ => None,
        }
    }

    /// Returns the mux code of this signal.
    pub fn code(self) -> (r: u16)
        ensures
            r == self.spec_code(),
    {
        match self {
            InputSignal::SPICLK => 0,
            InputSignal::SPIQ => 1,
            InputSignal::SPID => 2,
            InputSignal::SPIHD => 3,
            InputSignal::SPIWP => 4,
            InputSignal::SPICS0 => 5,
            InputSignal::SPICS1 => 6,
            InputSignal::SPICS2 => 7,
            InputSignal::HSPICLK => 8,
            InputSignal::HSPIQ => 9,
            InputSignal::HSPID => 10,
            InputSignal::HSPICS0 => 11,
            InputSignal::HSPIHD => 12,
            InputSignal::HSPIWP => 13,
            InputSignal::U0RXD => 14,
            InputSignal::U0CTS => 15,
            InputSignal::U0DSR => 16,
            InputSignal::U1RXD => 17,
            InputSignal::U1CTS => 18,
            InputSignal::I2S0O_BCK => 23,
            InputSignal::I2S1O_BCK => 24,
            InputSignal::I2S0O_WS => 25,
            InputSignal::I2S1O_WS => 26,
            InputSignal::I2S0I_BCK => 27,
            InputSignal::I2S0I_WS => 28,
            InputSignal::I2CEXT0_SCL => 29,
            InputSignal::I2CEXT0_SDA => 30,
            InputSignal::PWM0_SYNC0 => 31,
            InputSignal::PWM0_SYNC1 => 32,
            InputSignal::PWM0_SYNC2 => 33,
            InputSignal::PWM0_F0 => 34,
            InputSignal::PWM0_F1 => 35,
            InputSignal::PWM0_F2 => 36,
            InputSignal::PCNT0_SIG_CH0 => 39,
            InputSignal::PCNT0_SIG_CH1 => 40,
            InputSignal::PCNT0_CTRL_CH0 => 41,
            InputSignal::PCNT0_CTRL_CH1 => 42,
            InputSignal::PCNT1_SIG_CH0 => 43,
            InputSignal::PCNT1_SIG_CH1 => 44,
            InputSignal::PCNT1_CTRL_CH0 => 45,
            InputSignal::PCNT1_CTRL_CH1 => 46,
            InputSignal::PCNT2_SIG_CH0 => 47,
            InputSignal::PCNT2_SIG_CH1 => 48,
            InputSignal::PCNT2_CTRL_CH0 => 49,
            InputSignal::PCNT2_CTRL_CH1 => 50,
            InputSignal::PCNT3_SIG_CH0 => 51,
            InputSignal::PCNT3_SIG_CH1 => 52,
            InputSignal::PCNT3_CTRL_CH0 => 53,
            InputSignal::PCNT3_CTRL_CH1 => 54,
            InputSignal::PCNT4_SIG_CH0 => 55,
            InputSignal::PCNT4_SIG_CH1 => 56,
            InputSignal::PCNT4_CTRL_CH0 => 57,
            InputSignal::PCNT4_CTRL_CH1 => 58,
            InputSignal::HSPICS1 => 61,
            InputSignal::HSPICS2 => 62,
            InputSignal::VSPICLK => 63,
            InputSignal::VSPIQ => 64,
            InputSignal::VSPID => 65,
            InputSignal::VSPIHD => 66,
            InputSignal::VSPIWP => 67,
            InputSignal::VSPICS0 => 68,
            InputSignal::VSPICS1 => 69,
            InputSignal::VSPICS2 => 70,
            InputSignal::PCNT5_SIG_CH0 => 71,
            InputSignal::PCNT5_SIG_CH1 => 72,
            InputSignal::PCNT5_CTRL_CH0 => 73,
            InputSignal::PCNT5_CTRL_CH1 => 74,
            InputSignal::PCNT6_SIG_CH0 => 75,
            InputSignal::PCNT6_SIG_CH1 => 76,
            InputSignal::PCNT6_CTRL_CH0 => 77,
            InputSignal::PCNT6_CTRL_CH1 => 78,
            InputSignal::PCNT7_SIG_CH0 => 79,
            InputSignal::PCNT7_SIG_CH1 => 80,
            InputSignal::PCNT7_CTRL_CH0 => 81,
            InputSignal::PCNT7_CTRL_CH1 => 82,
            InputSignal::RMT_SIG_0 => 83,
            InputSignal::RMT_SIG_1 => 84,
            InputSignal::RMT_SIG_2 => 85,
            InputSignal::RMT_SIG_3 => 86,
            InputSignal::RMT_SIG_4 => 87,
            InputSignal::RMT_SIG_5 => 88,
            InputSignal::RMT_SIG_6 => 89,
            InputSignal::RMT_SIG_7 => 90,
            InputSignal::TWAI_RX => 94,
            InputSignal::I2CEXT1_SCL => 95,
            InputSignal::I2CEXT1_SDA => 96,
            InputSignal::HOST_CARD_DETECT_N_1 => 97,
            InputSignal::HOST_CARD_DETECT_N_2 => 98,
            InputSignal::HOST_CARD_WRITE_PRT_1 => 99,
            InputSignal::HOST_CARD_WRITE_PRT_2 => 100,
            InputSignal::HOST_CARD_INT_N_1 => 101,
            InputSignal::HOST_CARD_INT_N_2 => 102,
            InputSignal::PWM1_SYNC0 => 103,
            InputSignal::PWM1_SYNC1 => 104,
            InputSignal::PWM1_SYNC2 => 105,
            InputSignal::PWM1_F0 => 106,
            InputSignal::PWM1_F1 => 107,
            InputSignal::PWM1_F2 => 108,
            InputSignal::PWM0_CAP0 => 109,
            InputSignal::PWM0_CAP1 => 110,
            InputSignal::PWM0_CAP2 => 111,
            InputSignal::PWM1_CAP0 => 112,
            InputSignal::PWM1_CAP1 => 113,
            InputSignal::PWM1_CAP2 => 114,
            InputSignal::I2S0I_DATA_0 => 140,
            InputSignal::I2S0I_DATA_1 => 141,
            InputSignal::I2S0I_DATA_2 => 142,
            InputSignal::I2S0I_DATA_3 => 143,
            InputSignal::I2S0I_DATA_4 => 144,
            InputSignal::I2S0I_DATA_5 => 145,
            InputSignal::I2S0I_DATA_6 => 146,
            InputSignal::I2S0I_DATA_7 => 147,
            InputSignal::I2S0I_DATA_8 => 148,
            InputSignal::I2S0I_DATA_9 => 149,
            InputSignal::I2S0I_DATA_10 => 150,
            InputSignal::I2S0I_DATA_11 => 151,
            InputSignal::I2S0I_DATA_12 => 152,
            InputSignal::I2S0I_DATA_13 => 153,
            InputSignal::I2S0I_DATA_14 => 154,
            InputSignal::I2S0I_DATA_15 => 155,
            InputSignal::I2S1I_BCK => 164,
            InputSignal::I2S1I_WS => 165,
            InputSignal::I2S1I_DATA_0 => 166,
            InputSignal::I2S1I_DATA_1 => 167,
            InputSignal::I2S1I_DATA_2 => 168,
            InputSignal::I2S1I_DATA_3 => 169,
            InputSignal::I2S1I_DATA_4 => 170,
            InputSignal::I2S1I_DATA_5 => 171,
            InputSignal::I2S1I_DATA_6 => 172,
            InputSignal::I2S1I_DATA_7 => 173,
            InputSignal::I2S1I_DATA_8 => 174,
            InputSignal::I2S1I_DATA_9 => 175,
            InputSignal::I2S1I_DATA_10 => 176,
            InputSignal::I2S1I_DATA_11 => 177,
            InputSignal::I2S1I_DATA_12 => 178,
            InputSignal::I2S1I_DATA_13 => 179,
            InputSignal::I2S1I_DATA_14 => 180,
            InputSignal::I2S1I_DATA_15 => 181,
            InputSignal::I2S0I_H_SYNC => 190,
            InputSignal::I2S0I_V_SYNC => 191,
            InputSignal::I2S0I_H_ENABLE => 192,
            InputSignal::I2S1I_H_SYNC => 193,
            InputSignal::I2S1I_V_SYNC => 194,
            InputSignal::I2S1I_H_ENABLE => 195,
            InputSignal::U2RXD => 198,
            InputSignal::U2CTS => 199,
            InputSignal::EMAC_MDC => 200,
            InputSignal::EMAC_MDI => 201,
            InputSignal::EMAC_CRS => 202,
            InputSignal::EMAC_COL => 203,
            InputSignal::PCMFSYNC => 204,
            InputSignal::PCMCLK => 205,
            InputSignal::PCMDIN => 206,
            InputSignal::SD_DATA0 => 512,
            InputSignal::SD_DATA1 => 513,
            InputSignal::SD_DATA2 => 514,
            InputSignal::SD_DATA3 => 515,
            InputSignal::HS1_DATA0 => 516,
            InputSignal::HS1_DATA1 => 517,
            InputSignal::HS1_DATA2 => 518,
            InputSignal::HS1_DATA3 => 519,
            InputSignal::HS1_DATA4 => 520,
            InputSignal::HS1_DATA5 => 521,
            InputSignal::HS1_DATA6 => 522,
            InputSignal::HS1_DATA7 => 523,
            InputSignal::HS2_DATA0 => 524,
            InputSignal::HS2_DATA1 => 525,
            InputSignal::HS2_DATA2 => 526,
            InputSignal::HS2_DATA3 => 527,
            InputSignal::EMAC_TX_CLK => 528,
            InputSignal::EMAC_RXD2 => 529,
            InputSignal::EMAC_TX_ER => 530,
            InputSignal::EMAC_RX_CLK => 531,
            InputSignal::EMAC_RX_ER => 532,
            InputSignal::EMAC_RXD3 => 533,
            InputSignal::EMAC_RXD0 => 534,
            InputSignal::EMAC_RXD1 => 535,
            InputSignal::EMAC_RX_DV => 536,
            InputSignal::MTDI => 537,
            InputSignal::MTCK => 538,
            InputSignal::MTMS => 539,
        }
    }

    /// Returns the signal whose mux code is `code`; `None` for an unassigned
    /// code, among them every code above `INPUT_SIGNAL_MAX`.
    pub fn from_code(code: u16) -> (r: Option<InputSignal>)
        ensures
            r == Self::spec_from_code(code),
    {
        match code {
            0 => Some(InputSignal::SPICLK),
            1 => Some(InputSignal::SPIQ),
            2 => Some(InputSignal::SPID),
            3 => Some(InputSignal::SPIHD),
            4 => Some(InputSignal::SPIWP),
            5 => Some(InputSignal::SPICS0),
            6 => Some(InputSignal::SPICS1),
            7 => Some(InputSignal::SPICS2),
            8 => Some(InputSignal::HSPICLK),
            9 => Some(InputSignal::HSPIQ),
            10 => Some(InputSignal::HSPID),
            11 => Some(InputSignal::HSPICS0),
            12 => Some(InputSignal::HSPIHD),
            13 => Some(InputSignal::HSPIWP),
            14 => Some(InputSignal::U0RXD),
            15 => Some(InputSignal::U0CTS),
            16 => Some(InputSignal::U0DSR),
            17 => Some(InputSignal::U1RXD),
            18 => Some(InputSignal::U1CTS),
            23 => Some(InputSignal::I2S0O_BCK),
            24 => Some(InputSignal::I2S1O_BCK),
            25 => Some(InputSignal::I2S0O_WS),
            26 => Some(InputSignal::I2S1O_WS),
            27 => Some(InputSignal::I2S0I_BCK),
            28 => Some(InputSignal::I2S0I_WS),
            29 => Some(InputSignal::I2CEXT0_SCL),
            30 => Some(InputSignal::I2CEXT0_SDA),
            31 => Some(InputSignal::PWM0_SYNC0),
            32 => Some(InputSignal::PWM0_SYNC1),
            33 => Some(InputSignal::PWM0_SYNC2),
            34 => Some(InputSignal::PWM0_F0),
            35 => Some(InputSignal::PWM0_F1),
            36 => Some(InputSignal::PWM0_F2),
            39 => Some(InputSignal::PCNT0_SIG_CH0),
            40 => Some(InputSignal::PCNT0_SIG_CH1),
            41 => Some(InputSignal::PCNT0_CTRL_CH0),
            42 => Some(InputSignal::PCNT0_CTRL_CH1),
            43 => Some(InputSignal::PCNT1_SIG_CH0),
            44 => Some(InputSignal::PCNT1_SIG_CH1),
            45 => Some(InputSignal::PCNT1_CTRL_CH0),
            46 => Some(InputSignal::PCNT1_CTRL_CH1),
            47 => Some(InputSignal::PCNT2_SIG_CH0),
            48 => Some(InputSignal::PCNT2_SIG_CH1),
            49 => Some(InputSignal::PCNT2_CTRL_CH0),
            50 => Some(InputSignal::PCNT2_CTRL_CH1),
            51 => Some(InputSignal::PCNT3_SIG_CH0),
            52 => Some(InputSignal::PCNT3_SIG_CH1),
            53 => Some(InputSignal::PCNT3_CTRL_CH0),
            54 => Some(InputSignal::PCNT3_CTRL_CH1),
            55 => Some(InputSignal::PCNT4_SIG_CH0),
            56 => Some(InputSignal::PCNT4_SIG_CH1),
            57 => Some(InputSignal::PCNT4_CTRL_CH0),
            58 => Some(InputSignal::PCNT4_CTRL_CH1),
            61 => Some(InputSignal::HSPICS1),
            62 => Some(InputSignal::HSPICS2),
            63 => Some(InputSignal::VSPICLK),
            64 => Some(InputSignal::VSPIQ),
            65 => Some(InputSignal::VSPID),
            66 => Some(InputSignal::VSPIHD),
            67 => Some(InputSignal::VSPIWP),
            68 => Some(InputSignal::VSPICS0),
            69 => Some(InputSignal::VSPICS1),
            70 => Some(InputSignal::VSPICS2),
            71 => Some(InputSignal::PCNT5_SIG_CH0),
            72 => Some(InputSignal::PCNT5_SIG_CH1),
            73 => Some(InputSignal::PCNT5_CTRL_CH0),
            74 => Some(InputSignal::PCNT5_CTRL_CH1),
            75 => Some(InputSignal::PCNT6_SIG_CH0),
            76 => Some(InputSignal::PCNT6_SIG_CH1),
            77 => Some(InputSignal::PCNT6_CTRL_CH0),
            78 => Some(InputSignal::PCNT6_CTRL_CH1),
            79 => Some(InputSignal::PCNT7_SIG_CH0),
            80 => Some(InputSignal::PCNT7_SIG_CH1),
            81 => Some(InputSignal::PCNT7_CTRL_CH0),
            82 => Some(InputSignal::PCNT7_CTRL_CH1),
            83 => Some(InputSignal::RMT_SIG_0),
            84 => Some(InputSignal::RMT_SIG_1),
            85 => Some(InputSignal::RMT_SIG_2),
            86 => Some(InputSignal::RMT_SIG_3),
            87 => Some(InputSignal::RMT_SIG_4),
            88 => Some(InputSignal::RMT_SIG_5),
            89 => Some(InputSignal::RMT_SIG_6),
            90 => Some(InputSignal::RMT_SIG_7),
            94 => Some(InputSignal::TWAI_RX),
            95 => Some(InputSignal::I2CEXT1_SCL),
            96 => Some(InputSignal::I2CEXT1_SDA),
            97 => Some(InputSignal::HOST_CARD_DETECT_N_1),
            98 => Some(InputSignal::HOST_CARD_DETECT_N_2),
            99 => Some(InputSignal::HOST_CARD_WRITE_PRT_1),
            100 => Some(InputSignal::HOST_CARD_WRITE_PRT_2),
            101 => Some(InputSignal::HOST_CARD_INT_N_1),
            102 => Some(InputSignal::HOST_CARD_INT_N_2),
            103 => Some(InputSignal::PWM1_SYNC0),
            104 => Some(InputSignal::PWM1_SYNC1),
            105 => Some(InputSignal::PWM1_SYNC2),
            106 => Some(InputSignal::PWM1_F0),
            107 => Some(InputSignal::PWM1_F1),
            108 => Some(InputSignal::PWM1_F2),
            109 => Some(InputSignal::PWM0_CAP0),
            110 => Some(InputSignal::PWM0_CAP1),
            111 => Some(InputSignal::PWM0_CAP2),
            112 => Some(InputSignal::PWM1_CAP0),
            113 => Some(InputSignal::PWM1_CAP1),
            114 => Some(InputSignal::PWM1_CAP2),
            140 => Some(InputSignal::I2S0I_DATA_0),
            141 => Some(InputSignal::I2S0I_DATA_1),
            142 => Some(InputSignal::I2S0I_DATA_2),
            143 => Some(InputSignal::I2S0I_DATA_3),
            144 => Some(InputSignal::I2S0I_DATA_4),
            145 => Some(InputSignal::I2S0I_DATA_5),
            146 => Some(InputSignal::I2S0I_DATA_6),
            147 => Some(InputSignal::I2S0I_DATA_7),
            148 => Some(InputSignal::I2S0I_DATA_8),
            149 => Some(InputSignal::I2S0I_DATA_9),
            150 => Some(InputSignal::I2S0I_DATA_10),
            151 => Some(InputSignal::I2S0I_DATA_11),
            152 => Some(InputSignal::I2S0I_DATA_12),
            153 => Some(InputSignal::I2S0I_DATA_13),
            154 => Some(InputSignal::I2S0I_DATA_14),
            155 => Some(InputSignal::I2S0I_DATA_15),
            164 => Some(InputSignal::I2S1I_BCK),
            165 => Some(InputSignal::I2S1I_WS),
            166 => Some(InputSignal::I2S1I_DATA_0),
            167 => Some(InputSignal::I2S1I_DATA_1),
            168 => Some(InputSignal::I2S1I_DATA_2),
            169 => Some(InputSignal::I2S1I_DATA_3),
            170 => Some(InputSignal::I2S1I_DATA_4),
            171 => Some(InputSignal::I2S1I_DATA_5),
            172 => Some(InputSignal::I2S1I_DATA_6),
            173 => Some(InputSignal::I2S1I_DATA_7),
            174 => Some(InputSignal::I2S1I_DATA_8),
            175 => Some(InputSignal::I2S1I_DATA_9),
            176 => Some(InputSignal::I2S1I_DATA_10),
            177 => Some(InputSignal::I2S1I_DATA_11),
            178 => Some(InputSignal::I2S1I_DATA_12),
            179 => Some(InputSignal::I2S1I_DATA_13),
            180 => Some(InputSignal::I2S1I_DATA_14),
            181 => Some(InputSignal::I2S1I_DATA_15),
            190 => Some(InputSignal::I2S0I_H_SYNC),
            191 => Some(InputSignal::I2S0I_V_SYNC),
            192 => Some(InputSignal::I2S0I_H_ENABLE),
            193 => Some(InputSignal::I2S1I_H_SYNC),
            194 => Some(InputSignal::I2S1I_V_SYNC),
            195 => Some(InputSignal::I2S1I_H_ENABLE),
            198 => Some(InputSignal::U2RXD),
            199 => Some(InputSignal::U2CTS),
            200 => Some(InputSignal::EMAC_MDC),
            201 => Some(InputSignal::EMAC_MDI),
            202 => Some(InputSignal::EMAC_CRS),
            203 => Some(InputSignal::EMAC_COL),
            204 => Some(InputSignal::PCMFSYNC),
            205 => Some(InputSignal::PCMCLK),
            206 => Some(InputSignal::PCMDIN),
            512 => Some(InputSignal::SD_DATA0),
            513 => Some(InputSignal::SD_DATA1),
            514 => Some(InputSignal::SD_DATA2),
            515 => Some(InputSignal::SD_DATA3),
            516 => Some(InputSignal::HS1_DATA0),
            517 => Some(InputSignal::HS1_DATA1),
            518 => Some(InputSignal::HS1_DATA2),
            519 => Some(InputSignal::HS1_DATA3),
            520 => Some(InputSignal::HS1_DATA4),
            521 => Some(InputSignal::HS1_DATA5),
            522 => Some(InputSignal::HS1_DATA6),
            523 => Some(InputSignal::HS1_DATA7),
            524 => Some(InputSignal::HS2_DATA0),
            525 => Some(InputSignal::HS2_DATA1),
            526 => Some(InputSignal::HS2_DATA2),
            527 => Some(InputSignal::HS2_DATA3),
            528 => Some(InputSignal::EMAC_TX_CLK),
            529 => Some(InputSignal::EMAC_RXD2),
            530 => Some(InputSignal::EMAC_TX_ER),
            531 => Some(InputSignal::EMAC_RX_CLK),
            532 => Some(InputSignal::EMAC_RX_ER),
            533 => Some(InputSignal::EMAC_RXD3),
            534 => Some(InputSignal::EMAC_RXD0),
            535 => Some(InputSignal::EMAC_RXD1),
            536 => Some(InputSignal::EMAC_RX_DV),
            537 => Some(InputSignal::MTDI),
            538 => Some(InputSignal::MTCK),
            539 => Some(InputSignal::MTMS),
            _ => None,
        }
    }
}
/// A peripheral output signal of the GPIO matrix.
#[allow(non_camel_case_types)]
#[derive(Debug, Clone, Copy, PartialEq, Eq, Structural)]
pub enum OutputSignal {
    SPICLK,
    SPIQ,
    SPID,
    SPIHD,
    SPIWP,
    SPICS0,
    SPICS1,
    SPICS2,
    HSPICLK,
    HSPIQ,
    HSPID,
    HSPICS0,
    HSPIHD,
    HSPIWP,
    U0TXD,
    U0RTS,
    U0DTR,
    U1TXD,
    U1RTS,
    I2S0O_BCK,
    I2S1O_BCK,
    I2S0O_WS,
    I2S1O_WS,
    I2S0I_BCK,
    I2S0I_WS,
    I2CEXT0_SCL,
    I2CEXT0_SDA,
    SDIO_TOHOSTT,
    PWM0_0A,
    PWM0_0B,
    PWM0_1A,
    PWM0_1B,
    PWM0_2A,
    PWM0_2B,
    HSPICS1,
    HSPICS2,
    VSPICLK,
    VSPIQ,
    VSPID,
    VSPIHD,
    VSPIWP,
    VSPICS0,
    VSPICS1,
    VSPICS2,
    LEDC_HS_SIG0,
    LEDC_HS_SIG1,
    LEDC_HS_SIG2,
    LEDC_HS_SIG3,
    LEDC_HS_SIG4,
    LEDC_HS_SIG5,
    LEDC_HS_SIG6,
    LEDC_HS_SIG7,
    LEDC_LS_SIG0,
    LEDC_LS_SIG1,
    LEDC_LS_SIG2,
    LEDC_LS_SIG3,
    LEDC_LS_SIG4,
    LEDC_LS_SIG5,
    LEDC_LS_SIG6,
    LEDC_LS_SIG7,
    RMT_SIG_0,
    RMT_SIG_1,
    RMT_SIG_2,
    RMT_SIG_3,
    RMT_SIG_4,
    RMT_SIG_5,
    RMT_SIG_6,
    RMT_SIG_7,
    I2CEXT1_SCL,
    I2CEXT1_SDA,
    HOST_CCMD_OD_PULLUP_EN_N,
    HOST_RST_N_1,
    HOST_RST_N_2,
    GPIO_SD0,
    GPIO_SD1,
    GPIO_SD2,
    GPIO_SD3,
    GPIO_SD4,
    GPIO_SD5,
    GPIO_SD6,
    GPIO_SD7,
    PWM1_0A,
    PWM1_0B,
    PWM1_1A,
    PWM1_1B,
    PWM1_2A,
    PWM1_2B,
    TWAI_TX,
    TWAI_BUS_OFF_ON,
    TWAI_CLKOUT,
    I2S0O_DATA_0,
    I2S0O_DATA_1,
    I2S0O_DATA_2,
    I2S0O_DATA_3,
    I2S0O_DATA_4,
    I2S0O_DATA_5,
    I2S0O_DATA_6,
    I2S0O_DATA_7,
    I2S0O_DATA_8,
    I2S0O_DATA_9,
    I2S0O_DATA_10,
    I2S0O_DATA_11,
    I2S0O_DATA_12,
    I2S0O_DATA_13,
    I2S0O_DATA_14,
    I2S0O_DATA_15,
    I2S0O_DATA_16,
    I2S0O_DATA_17,
    I2S0O_DATA_18,
    I2S0O_DATA_19,
    I2S0O_DATA_20,
    I2S0O_DATA_21,
    I2S0O_DATA_22,
    I2S0O_DATA_23,
    I2S1I_BCK,
    I2S1I_WS,
    I2S1O_DATA_0,
    I2S1O_DATA_1,
    I2S1O_DATA_2,
    I2S1O_DATA_3,
    I2S1O_DATA_4,
    I2S1O_DATA_5,
    I2S1O_DATA_6,
    I2S1O_DATA_7,
    I2S1O_DATA_8,
    I2S1O_DATA_9,
    I2S1O_DATA_10,
    I2S1O_DATA_11,
    I2S1O_DATA_12,
    I2S1O_DATA_13,
    I2S1O_DATA_14,
    I2S1O_DATA_15,
    I2S1O_DATA_16,
    I2S1O_DATA_17,
    I2S1O_DATA_18,
    I2S1O_DATA_19,
    I2S1O_DATA_20,
    I2S1O_DATA_21,
    I2S1O_DATA_22,
    I2S1O_DATA_23,
    U2TXD,
    U2RTS,
    EMAC_MDC,
    EMAC_MDO,
    EMAC_CRS,
    EMAC_COL,
    BT_AUDIO0RQ,
    BT_AUDIO1RQ,
    BT_AUDIO2RQ,
    BLE_AUDIO0RQ,
    BLE_AUDIO1RQ,
    BLE_AUDIO2RQ,
    PCMFSYNC,
    PCMCLK,
    PCMDOUT,
    BLE_AUDIO_SYNC0_P,
    BLE_AUDIO_SYNC1_P,
    BLE_AUDIO_SYNC2_P,
    ANT_SEL0,
    ANT_SEL1,
    ANT_SEL2,
    ANT_SEL3,
    ANT_SEL4,
    ANT_SEL5,
    ANT_SEL6,
    ANT_SEL7,
    SIGNAL_224,
    SIGNAL_225,
    SIGNAL_226,
    SIGNAL_227,
    SIGNAL_228,
    GPIO,
    CLK_OUT1,
    CLK_OUT2,
    CLK_OUT3,
    SD_CLK,
    SD_CMD,
    SD_DATA0,
    SD_DATA1,
    SD_DATA2,
    SD_DATA3,
    HS1_CLK,
    HS1_CMD,
    HS1_DATA0,
    HS1_DATA1,
    HS1_DATA2,
    HS1_DATA3,
    HS1_DATA4,
    HS1_DATA5,
    HS1_DATA6,
    HS1_DATA7,
    HS1_STROBE,
    HS2_CLK,
    HS2_CMD,
    HS2_DATA0,
    HS2_DATA1,
    HS2_DATA2,
    HS2_DATA3,
    EMAC_TX_CLK,
    EMAC_TX_ER,
    EMAC_TXD3,
    EMAC_RX_ER,
    EMAC_TXD2,
    EMAC_CLK_OUT,
    EMAC_CLK_180,
    EMAC_TXD0,
    EMAC_TX_EN,
    EMAC_TXD1,
    MTDO,
}

impl OutputSignal {
    /// The mux code of this signal.
    pub open spec fn spec_code(self) -> u16 {
        match self {
            OutputSignal::SPICLK => 0,
            OutputSignal::SPIQ => 1,
            OutputSignal::SPID => 2,
            OutputSignal::SPIHD => 3,
            OutputSignal::SPIWP => 4,
            OutputSignal::SPICS0 => 5,
            OutputSignal::SPICS1 => 6,
            OutputSignal::SPICS2 => 7,
            OutputSignal::HSPICLK => 8,
            OutputSignal::HSPIQ => 9,
            OutputSignal::HSPID => 10,
            OutputSignal::HSPICS0 => 11,
            OutputSignal::HSPIHD => 12,
            OutputSignal::HSPIWP => 13,
            OutputSignal::U0TXD => 14,
            OutputSignal::U0RTS => 15,
            OutputSignal::U0DTR => 16,
            OutputSignal::U1TXD => 17,
            OutputSignal::U1RTS => 18,
            OutputSignal::I2S0O_BCK => 23,
            OutputSignal::I2S1O_BCK => 24,
            OutputSignal::I2S0O_WS => 25,
            OutputSignal::I2S1O_WS => 26,
            OutputSignal::I2S0I_BCK => 27,
            OutputSignal::I2S0I_WS => 28,
            OutputSignal::I2CEXT0_SCL => 29,
            OutputSignal::I2CEXT0_SDA => 30,
            OutputSignal::SDIO_TOHOSTT => 31,
            OutputSignal::PWM0_0A => 32,
            OutputSignal::PWM0_0B => 33,
            OutputSignal::PWM0_1A => 34,
            OutputSignal::PWM0_1B => 35,
            OutputSignal::PWM0_2A => 36,
            OutputSignal::PWM0_2B => 37,
            OutputSignal::HSPICS1 => 61,
            OutputSignal::HSPICS2 => 62,
            OutputSignal::VSPICLK => 63,
            OutputSignal::VSPIQ => 64,
            OutputSignal::VSPID => 65,
            OutputSignal::VSPIHD => 66,
            OutputSignal::VSPIWP => 67,
            OutputSignal::VSPICS0 => 68,
            OutputSignal::VSPICS1 => 69,
            OutputSignal::VSPICS2 => 70,
            OutputSignal::LEDC_HS_SIG0 => 71,
            OutputSignal::LEDC_HS_SIG1 => 72,
            OutputSignal::LEDC_HS_SIG2 => 73,
            OutputSignal::LEDC_HS_SIG3 => 74,
            OutputSignal::LEDC_HS_SIG4 => 75,
            OutputSignal::LEDC_HS_SIG5 => 76,
            OutputSignal::LEDC_HS_SIG6 => 77,
            OutputSignal::LEDC_HS_SIG7 => 78,
            OutputSignal::LEDC_LS_SIG0 => 79,
            OutputSignal::LEDC_LS_SIG1 => 80,
            OutputSignal::LEDC_LS_SIG2 => 81,
            OutputSignal::LEDC_LS_SIG3 => 82,
            OutputSignal::LEDC_LS_SIG4 => 83,
            OutputSignal::LEDC_LS_SIG5 => 84,
            OutputSignal::LEDC_LS_SIG6 => 85,
            OutputSignal::LEDC_LS_SIG7 => 86,
            OutputSignal::RMT_SIG_0 => 87,
            OutputSignal::RMT_SIG_1 => 88,
            OutputSignal::RMT_SIG_2 => 89,
            OutputSignal::RMT_SIG_3 => 90,
            OutputSignal::RMT_SIG_4 => 91,
            OutputSignal::RMT_SIG_5 => 92,
            OutputSignal::RMT_SIG_6 => 93,
            OutputSignal::RMT_SIG_7 => 94,
            OutputSignal::I2CEXT1_SCL => 95,
            OutputSignal::I2CEXT1_SDA => 96,
            OutputSignal::HOST_CCMD_OD_PULLUP_EN_N => 97,
            OutputSignal::HOST_RST_N_1 => 98,
            OutputSignal::HOST_RST_N_2 => 99,
            OutputSignal::GPIO_SD0 => 100,
            OutputSignal::GPIO_SD1 => 101,
            OutputSignal::GPIO_SD2 => 102,
            OutputSignal::GPIO_SD3 => 103,
            OutputSignal::GPIO_SD4 => 104,
            OutputSignal::GPIO_SD5 => 105,
            OutputSignal::GPIO_SD6 => 106,
            OutputSignal::GPIO_SD7 => 107,
            OutputSignal::PWM1_0A => 108,
            OutputSignal::PWM1_0B => 109,
            OutputSignal::PWM1_1A => 110,
            OutputSignal::PWM1_1B => 111,
            OutputSignal::PWM1_2A => 112,
            OutputSignal::PWM1_2B => 113,
            OutputSignal::TWAI_TX => 123,
            OutputSignal::TWAI_BUS_OFF_ON => 124,
            OutputSignal::TWAI_CLKOUT => 125,
            OutputSignal::I2S0O_DATA_0 => 140,
            OutputSignal::I2S0O_DATA_1 => 141,
            OutputSignal::I2S0O_DATA_2 => 142,
            OutputSignal::I2S0O_DATA_3 => 143,
            OutputSignal::I2S0O_DATA_4 => 144,
            OutputSignal::I2S0O_DATA_5 => 145,
            OutputSignal::I2S0O_DATA_6 => 146,
            OutputSignal::I2S0O_DATA_7 => 147,
            OutputSignal::I2S0O_DATA_8 => 148,
            OutputSignal::I2S0O_DATA_9 => 149,
            OutputSignal::I2S0O_DATA_10 => 150,
            OutputSignal::I2S0O_DATA_11 => 151,
            OutputSignal::I2S0O_DATA_12 => 152,
            OutputSignal::I2S0O_DATA_13 => 153,
            OutputSignal::I2S0O_DATA_14 => 154,
            OutputSignal::I2S0O_DATA_15 => 155,
            OutputSignal::I2S0O_DATA_16 => 156,
            OutputSignal::I2S0O_DATA_17 => 157,
            OutputSignal::I2S0O_DATA_18 => 158,
            OutputSignal::I2S0O_DATA_19 => 159,
            OutputSignal::I2S0O_DATA_20 => 160,
            OutputSignal::I2S0O_DATA_21 => 161,
            OutputSignal::I2S0O_DATA_22 => 162,
            OutputSignal::I2S0O_DATA_23 => 163,
            OutputSignal::I2S1I_BCK => 164,
            OutputSignal::I2S1I_WS => 165,
            OutputSignal::I2S1O_DATA_0 => 166,
            OutputSignal::I2S1O_DATA_1 => 167,
            OutputSignal::I2S1O_DATA_2 => 168,
            OutputSignal::I2S1O_DATA_3 => 169,
            OutputSignal::I2S1O_DATA_4 => 170,
            OutputSignal::I2S1O_DATA_5 => 171,
            OutputSignal::I2S1O_DATA_6 => 172,
            OutputSignal::I2S1O_DATA_7 => 173,
            OutputSignal::I2S1O_DATA_8 => 174,
            OutputSignal::I2S1O_DATA_9 => 175,
            OutputSignal::I2S1O_DATA_10 => 176,
            OutputSignal::I2S1O_DATA_11 => 177,
            OutputSignal::I2S1O_DATA_12 => 178,
            OutputSignal::I2S1O_DATA_13 => 179,
            OutputSignal::I2S1O_DATA_14 => 180,
            OutputSignal::I2S1O_DATA_15 => 181,
            OutputSignal::I2S1O_DATA_16 => 182,
            OutputSignal::I2S1O_DATA_17 => 183,
            OutputSignal::I2S1O_DATA_18 => 184,
            OutputSignal::I2S1O_DATA_19 => 185,
            OutputSignal::I2S1O_DATA_20 => 186,
            OutputSignal::I2S1O_DATA_21 => 187,
            OutputSignal::I2S1O_DATA_22 => 188,
            OutputSignal::I2S1O_DATA_23 => 189,
            OutputSignal::U2TXD => 198,
            OutputSignal::U2RTS => 199,
            OutputSignal::EMAC_MDC => 200,
            OutputSignal::EMAC_MDO => 201,
            OutputSignal::EMAC_CRS => 202,
            OutputSignal::EMAC_COL => 203,
            OutputSignal::BT_AUDIO0RQ => 204,
            OutputSignal::BT_AUDIO1RQ => 205,
            OutputSignal::BT_AUDIO2RQ => 206,
            OutputSignal::BLE_AUDIO0RQ => 207,
            OutputSignal::BLE_AUDIO1RQ => 208,
            OutputSignal::BLE_AUDIO2RQ => 209,
            OutputSignal::PCMFSYNC => 210,
            OutputSignal::PCMCLK => 211,
            OutputSignal::PCMDOUT => 212,
            OutputSignal::BLE_AUDIO_SYNC0_P => 213,
            OutputSignal::BLE_AUDIO_SYNC1_P => 214,
            OutputSignal::BLE_AUDIO_SYNC2_P => 215,
            OutputSignal::ANT_SEL0 => 216,
            OutputSignal::ANT_SEL1 => 217,
            OutputSignal::ANT_SEL2 => 218,
            OutputSignal::ANT_SEL3 => 219,
            OutputSignal::ANT_SEL4 => 220,
            OutputSignal::ANT_SEL5 => 221,
            OutputSignal::ANT_SEL6 => 222,
            OutputSignal::ANT_SEL7 => 223,
            OutputSignal::SIGNAL_224 => 224,
            OutputSignal::SIGNAL_225 => 225,
            OutputSignal::SIGNAL_226 => 226,
            OutputSignal::SIGNAL_227 => 227,
            OutputSignal::SIGNAL_228 => 228,
            OutputSignal::GPIO => 256,
            OutputSignal::CLK_OUT1 => 512,
            OutputSignal::CLK_OUT2 => 513,
            OutputSignal::CLK_OUT3 => 514,
            OutputSignal::SD_CLK => 515,
            OutputSignal::SD_CMD => 516,
            OutputSignal::SD_DATA0 => 517,
            OutputSignal::SD_DATA1 => 518,
            OutputSignal::SD_DATA2 => 519,
            OutputSignal::SD_DATA3 => 520,
            OutputSignal::HS1_CLK => 521,
            OutputSignal::HS1_CMD => 522,
            OutputSignal::HS1_DATA0 => 523,
            OutputSignal::HS1_DATA1 => 524,
            OutputSignal::HS1_DATA2 => 525,
            OutputSignal::HS1_DATA3 => 526,
            OutputSignal::HS1_DATA4 => 527,
            OutputSignal::HS1_DATA5 => 528,
            OutputSignal::HS1_DATA6 => 529,
            OutputSignal::HS1_DATA7 => 530,
            OutputSignal::HS1_STROBE => 531,
            OutputSignal::HS2_CLK => 532,
            OutputSignal::HS2_CMD => 533,
            OutputSignal::HS2_DATA0 => 534,
            OutputSignal::HS2_DATA1 => 535,
            OutputSignal::HS2_DATA2 => 536,
            OutputSignal::HS2_DATA3 => 537,
            OutputSignal::EMAC_TX_CLK => 538,
            OutputSignal::EMAC_TX_ER => 539,
            OutputSignal::EMAC_TXD3 => 540,
            OutputSignal::EMAC_RX_ER => 541,
            OutputSignal::EMAC_TXD2 => 542,
            OutputSignal::EMAC_CLK_OUT => 543,
            OutputSignal::EMAC_CLK_180 => 544,
            OutputSignal::EMAC_TXD0 => 545,
            OutputSignal::EMAC_TX_EN => 546,
            OutputSignal::EMAC_TXD1 => 547,
            OutputSignal::MTDO => 548,
        }
    }

    /// The signal whose mux code is `code`, if any.
    pub open spec fn spec_from_code(code: u16) -> Option<OutputSignal> {
        match code {
            0 => Some(OutputSignal::SPICLK),
            1 => Some(OutputSignal::SPIQ),
            2 => Some(OutputSignal::SPID),
            3 => Some(OutputSignal::SPIHD),
            4 => Some(OutputSignal::SPIWP),
            5 => Some(OutputSignal::SPICS0),
            6 => Some(OutputSignal::SPICS1),
            7 => Some(OutputSignal::SPICS2),
            8 => Some(OutputSignal::HSPICLK),
            9 => Some(OutputSignal::HSPIQ),
            10 => Some(OutputSignal::HSPID),
            11 => Some(OutputSignal::HSPICS0),
            12 => Some(OutputSignal::HSPIHD),
            13 => Some(OutputSignal::HSPIWP),
            14 => Some(OutputSignal::U0TXD),
            15 => Some(OutputSignal::U0RTS),
            16 => Some(OutputSignal::U0DTR),
            17 => Some(OutputSignal::U1TXD),
            18 => Some(OutputSignal::U1RTS),
            23 => Some(OutputSignal::I2S0O_BCK),
            24 => Some(OutputSignal::I2S1O_BCK),
            25 => Some(OutputSignal::I2S0O_WS),
            26 => Some(OutputSignal::I2S1O_WS),
            27 => Some(OutputSignal::I2S0I_BCK),
            28 => Some(OutputSignal::I2S0I_WS),
            29 => Some(OutputSignal::I2CEXT0_SCL),
            30 => Some(OutputSignal::I2CEXT0_SDA),
            31 => Some(OutputSignal::SDIO_TOHOSTT),
            32 => Some(OutputSignal::PWM0_0A),
            33 => Some(OutputSignal::PWM0_0B),
            34 => Some(OutputSignal::PWM0_1A),
            35 => Some(OutputSignal::PWM0_1B),
            36 => Some(OutputSignal::PWM0_2A),
            37 => Some(OutputSignal::PWM0_2B),
            61 => Some(OutputSignal::HSPICS1),
            62 => Some(OutputSignal::HSPICS2),
            63 => Some(OutputSignal::VSPICLK),
            64 => Some(OutputSignal::VSPIQ),
            65 => Some(OutputSignal::VSPID),
            66 => Some(OutputSignal::VSPIHD),
            67 => Some(OutputSignal::VSPIWP),
            68 => Some(OutputSignal::VSPICS0),
            69 => Some(OutputSignal::VSPICS1),
            70 => Some(OutputSignal::VSPICS2),
            71 => Some(OutputSignal::LEDC_HS_SIG0),
            72 => Some(OutputSignal::LEDC_HS_SIG1),
            73 => Some(OutputSignal::LEDC_HS_SIG2),
            74 => Some(OutputSignal::LEDC_HS_SIG3),
            75 => Some(OutputSignal::LEDC_HS_SIG4),
            76 => Some(OutputSignal::LEDC_HS_SIG5),
            77 => Some(OutputSignal::LEDC_HS_SIG6),
            78 => Some(OutputSignal::LEDC_HS_SIG7),
            79 => Some(OutputSignal::LEDC_LS_SIG0),
            80 => Some(OutputSignal::LEDC_LS_SIG1),
            81 => Some(OutputSignal::LEDC_LS_SIG2),
            82 => Some(OutputSignal::LEDC_LS_SIG3),
            83 => Some(OutputSignal::LEDC_LS_SIG4),
            84 => Some(OutputSignal::LEDC_LS_SIG5),
            85 => Some(OutputSignal::LEDC_LS_SIG6),
            86 => Some(OutputSignal::LEDC_LS_SIG7),
            87 => Some(OutputSignal::RMT_SIG_0),
            88 => Some(OutputSignal::RMT_SIG_1),
            89 => Some(OutputSignal::RMT_SIG_2),
            90 => Some(OutputSignal::RMT_SIG_3),
            91 => Some(OutputSignal::RMT_SIG_4),
            92 => Some(OutputSignal::RMT_SIG_5),
            93 => Some(OutputSignal::RMT_SIG_6),
            94 => Some(OutputSignal::RMT_SIG_7),
            95 => Some(OutputSignal::I2CEXT1_SCL),
            96 => Some(OutputSignal::I2CEXT1_SDA),
            97 => Some(OutputSignal::HOST_CCMD_OD_PULLUP_EN_N),
            98 => Some(OutputSignal::HOST_RST_N_1),
            99 => Some(OutputSignal::HOST_RST_N_2),
            100 => Some(OutputSignal::GPIO_SD0),
            101 => Some(OutputSignal::GPIO_SD1),
            102 => Some(OutputSignal::GPIO_SD2),
            103 => Some(OutputSignal::GPIO_SD3),
            104 => Some(OutputSignal::GPIO_SD4),
            105 => Some(OutputSignal::GPIO_SD5),
            106 => Some(OutputSignal::GPIO_SD6),
            107 => Some(OutputSignal::GPIO_SD7),
            108 => Some(OutputSignal::PWM1_0A),
            109 => Some(OutputSignal::PWM1_0B),
            110 => Some(OutputSignal::PWM1_1A),
            111 => Some(OutputSignal::PWM1_1B),
            112 => Some(OutputSignal::PWM1_2A),
            113 => Some(OutputSignal::PWM1_2B),
            123 => Some(OutputSignal::TWAI_TX),
            124 => Some(OutputSignal::TWAI_BUS_OFF_ON),
            125 => Some(OutputSignal::TWAI_CLKOUT),
            140 => Some(OutputSignal::I2S0O_DATA_0),
            141 => Some(OutputSignal::I2S0O_DATA_1),
            142 => Some(OutputSignal::I2S0O_DATA_2),
            143 => Some(OutputSignal::I2S0O_DATA_3),
            144 => Some(OutputSignal::I2S0O_DATA_4),
            145 => Some(OutputSignal::I2S0O_DATA_5),
            146 => Some(OutputSignal::I2S0O_DATA_6),
            147 => Some(OutputSignal::I2S0O_DATA_7),
            148 => Some(OutputSignal::I2S0O_DATA_8),
            149 => Some(OutputSignal::I2S0O_DATA_9),
            150 => Some(OutputSignal::I2S0O_DATA_10),
            151 => Some(OutputSignal::I2S0O_DATA_11),
            152 => Some(OutputSignal::I2S0O_DATA_12),
            153 => Some(OutputSignal::I2S0O_DATA_13),
            154 => Some(OutputSignal::I2S0O_DATA_14),
            155 => Some(OutputSignal::I2S0O_DATA_15),
            156 => Some(OutputSignal::I2S0O_DATA_16),
            157 => Some(OutputSignal::I2S0O_DATA_17),
            158 => Some(OutputSignal::I2S0O_DATA_18),
            159 => Some(OutputSignal::I2S0O_DATA_19),
            160 => Some(OutputSignal::I2S0O_DATA_20),
            161 => Some(OutputSignal::I2S0O_DATA_21),
            162 => Some(OutputSignal::I2S0O_DATA_22),
            163 => Some(OutputSignal::I2S0O_DATA_23),
            164 => Some(OutputSignal::I2S1I_BCK),
            165 => Some(OutputSignal::I2S1I_WS),
            166 => Some(OutputSignal::I2S1O_DATA_0),
            167 => Some(OutputSignal::I2S1O_DATA_1),
            168 => Some(OutputSignal::I2S1O_DATA_2),
            169 => Some(OutputSignal::I2S1O_DATA_3),
            170 => Some(OutputSignal::I2S1O_DATA_4),
            171 => Some(OutputSignal::I2S1O_DATA_5),
            172 => Some(OutputSignal::I2S1O_DATA_6),
            173 => Some(OutputSignal::I2S1O_DATA_7),
            174 => Some(OutputSignal::I2S1O_DATA_8),
            175 => Some(OutputSignal::I2S1O_DATA_9),
            176 => Some(OutputSignal::I2S1O_DATA_10),
            177 => Some(OutputSignal::I2S1O_DATA_11),
            178 => Some(OutputSignal::I2S1O_DATA_12),
            179 => Some(OutputSignal::I2S1O_DATA_13),
            180 => Some(OutputSignal::I2S1O_DATA_14),
            181 => Some(OutputSignal::I2S1O_DATA_15),
            182 => Some(OutputSignal::I2S1O_DATA_16),
            183 => Some(OutputSignal::I2S1O_DATA_17),
            184 => Some(OutputSignal::I2S1O_DATA_18),
            185 => Some(OutputSignal::I2S1O_DATA_19),
            186 => Some(OutputSignal::I2S1O_DATA_20),
            187 => Some(OutputSignal::I2S1O_DATA_21),
            188 => Some(OutputSignal::I2S1O_DATA_22),
            189 => Some(OutputSignal::I2S1O_DATA_23),
            198 => Some(OutputSignal::U2TXD),
            199 => Some(OutputSignal::U2RTS),
            200 => Some(OutputSignal::EMAC_MDC),
            201 => Some(OutputSignal::EMAC_MDO),
            202 => Some(OutputSignal::EMAC_CRS),
            203 => Some(OutputSignal::EMAC_COL),
            204 => Some(OutputSignal::BT_AUDIO0RQ),
            205 => Some(OutputSignal::BT_AUDIO1RQ),
            206 => Some(OutputSignal::BT_AUDIO2RQ),
            207 => Some(OutputSignal::BLE_AUDIO0RQ),
            208 => Some(OutputSignal::BLE_AUDIO1RQ),
            209 => Some(OutputSignal::BLE_AUDIO2RQ),
            210 => Some(OutputSignal::PCMFSYNC),
            211 => Some(OutputSignal::PCMCLK),
            212 => Some(OutputSignal::PCMDOUT),
            213 => Some(OutputSignal::BLE_AUDIO_SYNC0_P),
            214 => Some(OutputSignal::BLE_AUDIO_SYNC1_P),
            215 => Some(OutputSignal::BLE_AUDIO_SYNC2_P),
            216 => Some(OutputSignal::ANT_SEL0),
            217 => Some(OutputSignal::ANT_SEL1),
            218 => Some(OutputSignal::ANT_SEL2),
            219 => Some(OutputSignal::ANT_SEL3),
            220 => Some(OutputSignal::ANT_SEL4),
            221 => Some(OutputSignal::ANT_SEL5),
            222 => Some(OutputSignal::ANT_SEL6),
            223 => Some(OutputSignal::ANT_SEL7),
            224 => Some(OutputSignal::SIGNAL_224),
            225 => Some(OutputSignal::SIGNAL_225),
            226 => Some(OutputSignal::SIGNAL_226),
            227 => Some(OutputSignal::SIGNAL_227),
            228 => Some(OutputSignal::SIGNAL_228),
            256 => Some(OutputSignal::GPIO),
            512 => Some(OutputSignal::CLK_OUT1),
            513 => Some(OutputSignal::CLK_OUT2),
            514 => Some(OutputSignal::CLK_OUT3),
            515 => Some(OutputSignal::SD_CLK),
            516 => Some(OutputSignal::SD_CMD),
            517 => Some(OutputSignal::SD_DATA0),
            518 => Some(OutputSignal::SD_DATA1),
            519 => Some(OutputSignal::SD_DATA2),
            520 => Some(OutputSignal::SD_DATA3),
            521 => Some(OutputSignal::HS1_CLK),
            522 => Some(OutputSignal::HS1_CMD),
            523 => Some(OutputSignal::HS1_DATA0),
            524 => Some(OutputSignal::HS1_DATA1),
            525 => Some(OutputSignal::HS1_DATA2),
            526 => Some(OutputSignal::HS1_DATA3),
            527 => Some(OutputSignal::HS1_DATA4),
            528 => Some(OutputSignal::HS1_DATA5),
            529 => Some(OutputSignal::HS1_DATA6),
            530 => Some(OutputSignal::HS1_DATA7),
            531 => Some(OutputSignal::HS1_STROBE),
            532 => Some(OutputSignal::HS2_CLK),
            533 => Some(OutputSignal::HS2_CMD),
            534 => Some(OutputSignal::HS2_DATA0),
            535 => Some(OutputSignal::HS2_DATA1),
            536 => Some(OutputSignal::HS2_DATA2),
            537 => Some(OutputSignal::HS2_DATA3),
            538 => Some(OutputSignal::EMAC_TX_CLK),
            539 => Some(OutputSignal::EMAC_TX_ER),
            540 => Some(OutputSignal::EMAC_TXD3),
            541 => Some(OutputSignal::EMAC_RX_ER),
            542 => Some(OutputSignal::EMAC_TXD2),
            543 => Some(OutputSignal::EMAC_CLK_OUT),
            544 => Some(OutputSignal::EMAC_CLK_180),
            545 => Some(OutputSignal::EMAC_TXD0),
            546 => Some(OutputSignal::EMAC_TX_EN),
            547 => Some(OutputSignal::EMAC_TXD1),
            548 => Some(OutputSignal::MTDO),
            _ => None,
        }
    }

    /// Returns the mux code of this signal.
    pub fn code(self) -> (r: u16)
        ensures
            r == self.spec_code(),
    {
        match self {
            OutputSignal::SPICLK => 0,
            OutputSignal::SPIQ => 1,
            OutputSignal::SPID => 2,
            OutputSignal::SPIHD => 3,
            OutputSignal::SPIWP => 4,
            OutputSignal::SPICS0 => 5,
            OutputSignal::SPICS1 => 6,
            OutputSignal::SPICS2 => 7,
            OutputSignal::HSPICLK => 8,
            OutputSignal::HSPIQ => 9,
            OutputSignal::HSPID => 10,
            OutputSignal::HSPICS0 => 11,
            OutputSignal::HSPIHD => 12,
            OutputSignal::HSPIWP => 13,
            OutputSignal::U0TXD => 14,
            OutputSignal::U0RTS => 15,
            OutputSignal::U0DTR => 16,
            OutputSignal::U1TXD => 17,
            OutputSignal::U1RTS => 18,
            OutputSignal::I2S0O_BCK => 23,
            OutputSignal::I2S1O_BCK => 24,
            OutputSignal::I2S0O_WS => 25,
            OutputSignal::I2S1O_WS => 26,
            OutputSignal::I2S0I_BCK => 27,
            OutputSignal::I2S0I_WS => 28,
            OutputSignal::I2CEXT0_SCL => 29,
            OutputSignal::I2CEXT0_SDA => 30,
            OutputSignal::SDIO_TOHOSTT => 31,
            OutputSignal::PWM0_0A => 32,
            OutputSignal::PWM0_0B => 33,
            OutputSignal::PWM0_1A => 34,
            OutputSignal::PWM0_1B => 35,
            OutputSignal::PWM0_2A => 36,
            OutputSignal::PWM0_2B => 37,
            OutputSignal::HSPICS1 => 61,
            OutputSignal::HSPICS2 => 62,
            OutputSignal::VSPICLK => 63,
            OutputSignal::VSPIQ => 64,
            OutputSignal::VSPID => 65,
            OutputSignal::VSPIHD => 66,
            OutputSignal::VSPIWP => 67,
            OutputSignal::VSPICS0 => 68,
            OutputSignal::VSPICS1 => 69,
            OutputSignal::VSPICS2 => 70,
            OutputSignal::LEDC_HS_SIG0 => 71,
            OutputSignal::LEDC_HS_SIG1 => 72,
            OutputSignal::LEDC_HS_SIG2 => 73,
            OutputSignal::LEDC_HS_SIG3 => 74,
            OutputSignal::LEDC_HS_SIG4 => 75,
            OutputSignal::LEDC_HS_SIG5 => 76,
            OutputSignal::LEDC_HS_SIG6 => 77,
            OutputSignal::LEDC_HS_SIG7 => 78,
            OutputSignal::LEDC_LS_SIG0 => 79,
            OutputSignal::LEDC_LS_SIG1 => 80,
            OutputSignal::LEDC_LS_SIG2 => 81,
            OutputSignal::LEDC_LS_SIG3 => 82,
            OutputSignal::LEDC_LS_SIG4 => 83,
            OutputSignal::LEDC_LS_SIG5 => 84,
            OutputSignal::LEDC_LS_SIG6 => 85,
            OutputSignal::LEDC_LS_SIG7 => 86,
            OutputSignal::RMT_SIG_0 => 87,
            OutputSignal::RMT_SIG_1 => 88,
            OutputSignal::RMT_SIG_2 => 89,
            OutputSignal::RMT_SIG_3 => 90,
            OutputSignal::RMT_SIG_4 => 91,
            OutputSignal::RMT_SIG_5 => 92,
            OutputSignal::RMT_SIG_6 => 93,
            OutputSignal::RMT_SIG_7 => 94,
            OutputSignal::I2CEXT1_SCL => 95,
            OutputSignal::I2CEXT1_SDA => 96,
            OutputSignal::HOST_CCMD_OD_PULLUP_EN_N => 97,
            OutputSignal::HOST_RST_N_1 => 98,
            OutputSignal::HOST_RST_N_2 => 99,
            OutputSignal::GPIO_SD0 => 100,
            OutputSignal::GPIO_SD1 => 101,
            OutputSignal::GPIO_SD2 => 102,
            OutputSignal::GPIO_SD3 => 103,
            OutputSignal::GPIO_SD4 => 104,
            OutputSignal::GPIO_SD5 => 105,
            OutputSignal::GPIO_SD6 => 106,
            OutputSignal::GPIO_SD7 => 107,
            OutputSignal::PWM1_0A => 108,
            OutputSignal::PWM1_0B => 109,
            OutputSignal::PWM1_1A => 110,
            OutputSignal::PWM1_1B => 111,
            OutputSignal::PWM1_2A => 112,
            OutputSignal::PWM1_2B => 113,
            OutputSignal::TWAI_TX => 123,
            OutputSignal::TWAI_BUS_OFF_ON => 124,
            OutputSignal::TWAI_CLKOUT => 125,
            OutputSignal::I2S0O_DATA_0 => 140,
            OutputSignal::I2S0O_DATA_1 => 141,
            OutputSignal::I2S0O_DATA_2 => 142,
            OutputSignal::I2S0O_DATA_3 => 143,
            OutputSignal::I2S0O_DATA_4 => 144,
            OutputSignal::I2S0O_DATA_5 => 145,
            OutputSignal::I2S0O_DATA_6 => 146,
            OutputSignal::I2S0O_DATA_7 => 147,
            OutputSignal::I2S0O_DATA_8 => 148,
            OutputSignal::I2S0O_DATA_9 => 149,
            OutputSignal::I2S0O_DATA_10 => 150,
            OutputSignal::I2S0O_DATA_11 => 151,
            OutputSignal::I2S0O_DATA_12 => 152,
            OutputSignal::I2S0O_DATA_13 => 153,
            OutputSignal::I2S0O_DATA_14 => 154,
            OutputSignal::I2S0O_DATA_15 => 155,
            OutputSignal::I2S0O_DATA_16 => 156,
            OutputSignal::I2S0O_DATA_17 => 157,
            OutputSignal::I2S0O_DATA_18 => 158,
            OutputSignal::I2S0O_DATA_19 => 159,
            OutputSignal::I2S0O_DATA_20 => 160,
            OutputSignal::I2S0O_DATA_21 => 161,
            OutputSignal::I2S0O_DATA_22 => 162,
            OutputSignal::I2S0O_DATA_23 => 163,
            OutputSignal::I2S1I_BCK => 164,
            OutputSignal::I2S1I_WS => 165,
            OutputSignal::I2S1O_DATA_0 => 166,
            OutputSignal::I2S1O_DATA_1 => 167,
            OutputSignal::I2S1O_DATA_2 => 168,
            OutputSignal::I2S1O_DATA_3 => 169,
            OutputSignal::I2S1O_DATA_4 => 170,
            OutputSignal::I2S1O_DATA_5 => 171,
            OutputSignal::I2S1O_DATA_6 => 172,
            OutputSignal::I2S1O_DATA_7 => 173,
            OutputSignal::I2S1O_DATA_8 => 174,
            OutputSignal::I2S1O_DATA_9 => 175,
            OutputSignal::I2S1O_DATA_10 => 176,
            OutputSignal::I2S1O_DATA_11 => 177,
            OutputSignal::I2S1O_DATA_12 => 178,
            OutputSignal::I2S1O_DATA_13 => 179,
            OutputSignal::I2S1O_DATA_14 => 180,
            OutputSignal::I2S1O_DATA_15 => 181,
            OutputSignal::I2S1O_DATA_16 => 182,
            OutputSignal::I2S1O_DATA_17 => 183,
            OutputSignal::I2S1O_DATA_18 => 184,
            OutputSignal::I2S1O_DATA_19 => 185,
            OutputSignal::I2S1O_DATA_20 => 186,
            OutputSignal::I2S1O_DATA_21 => 187,
            OutputSignal::I2S1O_DATA_22 => 188,
            OutputSignal::I2S1O_DATA_23 => 189,
            OutputSignal::U2TXD => 198,
            OutputSignal::U2RTS => 199,
            OutputSignal::EMAC_MDC => 200,
            OutputSignal::EMAC_MDO => 201,
            OutputSignal::EMAC_CRS => 202,
            OutputSignal::EMAC_COL => 203,
            OutputSignal::BT_AUDIO0RQ => 204,
            OutputSignal::BT_AUDIO1RQ => 205,
            OutputSignal::BT_AUDIO2RQ => 206,
            OutputSignal::BLE_AUDIO0RQ => 207,
            OutputSignal::BLE_AUDIO1RQ => 208,
            OutputSignal::BLE_AUDIO2RQ => 209,
            OutputSignal::PCMFSYNC => 210,
            OutputSignal::PCMCLK => 211,
            OutputSignal::PCMDOUT => 212,
            OutputSignal::BLE_AUDIO_SYNC0_P => 213,
            OutputSignal::BLE_AUDIO_SYNC1_P => 214,
            OutputSignal::BLE_AUDIO_SYNC2_P => 215,
            OutputSignal::ANT_SEL0 => 216,
            OutputSignal::ANT_SEL1 => 217,
            OutputSignal::ANT_SEL2 => 218,
            OutputSignal::ANT_SEL3 => 219,
            OutputSignal::ANT_SEL4 => 220,
            OutputSignal::ANT_SEL5 => 221,
            OutputSignal::ANT_SEL6 => 222,
            OutputSignal::ANT_SEL7 => 223,
            OutputSignal::SIGNAL_224 => 224,
            OutputSignal::SIGNAL_225 => 225,
            OutputSignal::SIGNAL_226 => 226,
            OutputSignal::SIGNAL_227 => 227,
            OutputSignal::SIGNAL_228 => 228,
            OutputSignal::GPIO => 256,
            OutputSignal::CLK_OUT1 => 512,
            OutputSignal::CLK_OUT2 => 513,
            OutputSignal::CLK_OUT3 => 514,
            OutputSignal::SD_CLK => 515,
            OutputSignal::SD_CMD => 516,
            OutputSignal::SD_DATA0 => 517,
            OutputSignal::SD_DATA1 => 518,
            OutputSignal::SD_DATA2 => 519,
            OutputSignal::SD_DATA3 => 520,
            OutputSignal::HS1_CLK => 521,
            OutputSignal::HS1_CMD => 522,
            OutputSignal::HS1_DATA0 => 523,
            OutputSignal::HS1_DATA1 => 524,
            OutputSignal::HS1_DATA2 => 525,
            OutputSignal::HS1_DATA3 => 526,
            OutputSignal::HS1_DATA4 => 527,
            OutputSignal::HS1_DATA5 => 528,
            OutputSignal::HS1_DATA6 => 529,
            OutputSignal::HS1_DATA7 => 530,
            OutputSignal::HS1_STROBE => 531,
            OutputSignal::HS2_CLK => 532,
            OutputSignal::HS2_CMD => 533,
            OutputSignal::HS2_DATA0 => 534,
            OutputSignal::HS2_DATA1 => 535,
            OutputSignal::HS2_DATA2 => 536,
            OutputSignal::HS2_DATA3 => 537,
            OutputSignal::EMAC_TX_CLK => 538,
            OutputSignal::EMAC_TX_ER => 539,
            OutputSignal::EMAC_TXD3 => 540,
            OutputSignal::EMAC_RX_ER => 541,
            OutputSignal::EMAC_TXD2 => 542,
            OutputSignal::EMAC_CLK_OUT => 543,
            OutputSignal::EMAC_CLK_180 => 544,
            OutputSignal::EMAC_TXD0 => 545,
            OutputSignal::EMAC_TX_EN => 546,
            OutputSignal::EMAC_TXD1 => 547,
            OutputSignal::MTDO => 548,
        }
    }

    /// Returns the signal whose mux code is `code`; `None` for an unassigned
    /// code, among them every code above `OUTPUT_SIGNAL_MAX`.
    pub fn from_code(code: u16) -> (r: Option<OutputSignal>)
        ensures
            r == Self::spec_from_code(code),
    {
        match code {
            0 => Some(OutputSignal::SPICLK),
            1 => Some(OutputSignal::SPIQ),
            2 => Some(OutputSignal::SPID),
            3 => Some(OutputSignal::SPIHD),
            4 => Some(OutputSignal::SPIWP),
            5 => Some(OutputSignal::SPICS0),
            6 => Some(OutputSignal::SPICS1),
            7 => Some(OutputSignal::SPICS2),
            8 => Some(OutputSignal::HSPICLK),
            9 => Some(OutputSignal::HSPIQ),
            10 => Some(OutputSignal::HSPID),
            11 => Some(OutputSignal::HSPICS0),
            12 => Some(OutputSignal::HSPIHD),
            13 => Some(OutputSignal::HSPIWP),
            14 => Some(OutputSignal::U0TXD),
            15 => Some(OutputSignal::U0RTS),
            16 => Some(OutputSignal::U0DTR),
            17 => Some(OutputSignal::U1TXD),
            18 => Some(OutputSignal::U1RTS),
            23 => Some(OutputSignal::I2S0O_BCK),
            24 => Some(OutputSignal::I2S1O_BCK),
            25 => Some(OutputSignal::I2S0O_WS),
            26 => Some(OutputSignal::I2S1O_WS),
            27 => Some(OutputSignal::I2S0I_BCK),
            28 => Some(OutputSignal::I2S0I_WS),
            29 => Some(OutputSignal::I2CEXT0_SCL),
            30 => Some(OutputSignal::I2CEXT0_SDA),
            31 => Some(OutputSignal::SDIO_TOHOSTT),
            32 => Some(OutputSignal::PWM0_0A),
            33 => Some(OutputSignal::PWM0_0B),
            34 => Some(OutputSignal::PWM0_1A),
            35 => Some(OutputSignal::PWM0_1B),
            36 => Some(OutputSignal::PWM0_2A),
            37 => Some(OutputSignal::PWM0_2B),
            61 => Some(OutputSignal::HSPICS1),
            62 => Some(OutputSignal::HSPICS2),
            63 => Some(OutputSignal::VSPICLK),
            64 => Some(OutputSignal::VSPIQ),
            65 => Some(OutputSignal::VSPID),
            66 => Some(OutputSignal::VSPIHD),
            67 => Some(OutputSignal::VSPIWP),
            68 => Some(OutputSignal::VSPICS0),
            69 => Some(OutputSignal::VSPICS1),
            70 => Some(OutputSignal::VSPICS2),
            71 => Some(OutputSignal::LEDC_HS_SIG0),
            72 => Some(OutputSignal::LEDC_HS_SIG1),
            73 => Some(OutputSignal::LEDC_HS_SIG2),
            74 => Some(OutputSignal::LEDC_HS_SIG3),
            75 => Some(OutputSignal::LEDC_HS_SIG4),
            76 => Some(OutputSignal::LEDC_HS_SIG5),
            77 => Some(OutputSignal::LEDC_HS_SIG6),
            78 => Some(OutputSignal::LEDC_HS_SIG7),
            79 => Some(OutputSignal::LEDC_LS_SIG0),
            80 => Some(OutputSignal::LEDC_LS_SIG1),
            81 => Some(OutputSignal::LEDC_LS_SIG2),
            82 => Some(OutputSignal::LEDC_LS_SIG3),
            83 => Some(OutputSignal::LEDC_LS_SIG4),
            84 => Some(OutputSignal::LEDC_LS_SIG5),
            85 => Some(OutputSignal::LEDC_LS_SIG6),
            86 => Some(OutputSignal::LEDC_LS_SIG7),
            87 => Some(OutputSignal::RMT_SIG_0),
            88 => Some(OutputSignal::RMT_SIG_1),
            89 => Some(OutputSignal::RMT_SIG_2),
            90 => Some(OutputSignal::RMT_SIG_3),
            91 => Some(OutputSignal::RMT_SIG_4),
            92 => Some(OutputSignal::RMT_SIG_5),
            93 => Some(OutputSignal::RMT_SIG_6),
            94 => Some(OutputSignal::RMT_SIG_7),
            95 => Some(OutputSignal::I2CEXT1_SCL),
            96 => Some(OutputSignal::I2CEXT1_SDA),
            97 => Some(OutputSignal::HOST_CCMD_OD_PULLUP_EN_N),
            98 => Some(OutputSignal::HOST_RST_N_1),
            99 => Some(OutputSignal::HOST_RST_N_2),
            100 => Some(OutputSignal::GPIO_SD0),
            101 => Some(OutputSignal::GPIO_SD1),
            102 => Some(OutputSignal::GPIO_SD2),
            103 => Some(OutputSignal::GPIO_SD3),
            104 => Some(OutputSignal::GPIO_SD4),
            105 => Some(OutputSignal::GPIO_SD5),
            106 => Some(OutputSignal::GPIO_SD6),
            107 => Some(OutputSignal::GPIO_SD7),
            108 => Some(OutputSignal::PWM1_0A),
            109 => Some(OutputSignal::PWM1_0B),
            110 => Some(OutputSignal::PWM1_1A),
            111 => Some(OutputSignal::PWM1_1B),
            112 => Some(OutputSignal::PWM1_2A),
            113 => Some(OutputSignal::PWM1_2B),
            123 => Some(OutputSignal::TWAI_TX),
            124 => Some(OutputSignal::TWAI_BUS_OFF_ON),
            125 => Some(OutputSignal::TWAI_CLKOUT),
            140 => Some(OutputSignal::I2S0O_DATA_0),
            141 => Some(OutputSignal::I2S0O_DATA_1),
            142 => Some(OutputSignal::I2S0O_DATA_2),
            143 => Some(OutputSignal::I2S0O_DATA_3),
            144 => Some(OutputSignal::I2S0O_DATA_4),
            145 => Some(OutputSignal::I2S0O_DATA_5),
            146 => Some(OutputSignal::I2S0O_DATA_6),
            147 => Some(OutputSignal::I2S0O_DATA_7),
            148 => Some(OutputSignal::I2S0O_DATA_8),
            149 => Some(OutputSignal::I2S0O_DATA_9),
            150 => Some(OutputSignal::I2S0O_DATA_10),
            151 => Some(OutputSignal::I2S0O_DATA_11),
            152 => Some(OutputSignal::I2S0O_DATA_12),
            153 => Some(OutputSignal::I2S0O_DATA_13),
            154 => Some(OutputSignal::I2S0O_DATA_14),
            155 => Some(OutputSignal::I2S0O_DATA_15),
            156 => Some(OutputSignal::I2S0O_DATA_16),
            157 => Some(OutputSignal::I2S0O_DATA_17),
            158 => Some(OutputSignal::I2S0O_DATA_18),
            159 => Some(OutputSignal::I2S0O_DATA_19),
            160 => Some(OutputSignal::I2S0O_DATA_20),
            161 => Some(OutputSignal::I2S0O_DATA_21),
            162 => Some(OutputSignal::I2S0O_DATA_22),
            163 => Some(OutputSignal::I2S0O_DATA_23),
            164 => Some(OutputSignal::I2S1I_BCK),
            165 => Some(OutputSignal::I2S1I_WS),
            166 => Some(OutputSignal::I2S1O_DATA_0),
            167 => Some(OutputSignal::I2S1O_DATA_1),
            168 => Some(OutputSignal::I2S1O_DATA_2),
            169 => Some(OutputSignal::I2S1O_DATA_3),
            170 => Some(OutputSignal::I2S1O_DATA_4),
            171 => Some(OutputSignal::I2S1O_DATA_5),
            172 => Some(OutputSignal::I2S1O_DATA_6),
            173 => Some(OutputSignal::I2S1O_DATA_7),
            174 => Some(OutputSignal::I2S1O_DATA_8),
            175 => Some(OutputSignal::I2S1O_DATA_9),
            176 => Some(OutputSignal::I2S1O_DATA_10),
            177 => Some(OutputSignal::I2S1O_DATA_11),
            178 => Some(OutputSignal::I2S1O_DATA_12),
            179 => Some(OutputSignal::I2S1O_DATA_13),
            180 => Some(OutputSignal::I2S1O_DATA_14),
            181 => Some(OutputSignal::I2S1O_DATA_15),
            182 => Some(OutputSignal::I2S1O_DATA_16),
            183 => Some(OutputSignal::I2S1O_DATA_17),
            184 => Some(OutputSignal::I2S1O_DATA_18),
            185 => Some(OutputSignal::I2S1O_DATA_19),
            186 => Some(OutputSignal::I2S1O_DATA_20),
            187 => Some(OutputSignal::I2S1O_DATA_21),
            188 => Some(OutputSignal::I2S1O_DATA_22),
            189 => Some(OutputSignal::I2S1O_DATA_23),
            198 => Some(OutputSignal::U2TXD),
            199 => Some(OutputSignal::U2RTS),
            200 => Some(OutputSignal::EMAC_MDC),
            201 => Some(OutputSignal::EMAC_MDO),
            202 => Some(OutputSignal::EMAC_CRS),
            203 => Some(OutputSignal::EMAC_COL),
            204 => Some(OutputSignal::BT_AUDIO0RQ),
            205 => Some(OutputSignal::BT_AUDIO1RQ),
            206 => Some(OutputSignal::BT_AUDIO2RQ),
            207 => Some(OutputSignal::BLE_AUDIO0RQ),
            208 => Some(OutputSignal::BLE_AUDIO1RQ),
            209 => Some(OutputSignal::BLE_AUDIO2RQ),
            210 => Some(OutputSignal::PCMFSYNC),
            211 => Some(OutputSignal::PCMCLK),
            212 => Some(OutputSignal::PCMDOUT),
            213 => Some(OutputSignal::BLE_AUDIO_SYNC0_P),
            214 => Some(OutputSignal::BLE_AUDIO_SYNC1_P),
            215 => Some(OutputSignal::BLE_AUDIO_SYNC2_P),
            216 => Some(OutputSignal::ANT_SEL0),
            217 => Some(OutputSignal::ANT_SEL1),
            218 => Some(OutputSignal::ANT_SEL2),
            219 => Some(OutputSignal::ANT_SEL3),
            220 => Some(OutputSignal::ANT_SEL4),
            221 => Some(OutputSignal::ANT_SEL5),
            222 => Some(OutputSignal::ANT_SEL6),
            223 => Some(OutputSignal::ANT_SEL7),
            224 => Some(OutputSignal::SIGNAL_224),
            225 => Some(OutputSignal::SIGNAL_225),
            226 => Some(OutputSignal::SIGNAL_226),
            227 => Some(OutputSignal::SIGNAL_227),
            228 => Some(OutputSignal::SIGNAL_228),
            256 => Some(OutputSignal::GPIO),
            512 => Some(OutputSignal::CLK_OUT1),
            513 => Some(OutputSignal::CLK_OUT2),
            514 => Some(OutputSignal::CLK_OUT3),
            515 => Some(OutputSignal::SD_CLK),
            516 => Some(OutputSignal::SD_CMD),
            517 => Some(OutputSignal::SD_DATA0),
            518 => Some(OutputSignal::SD_DATA1),
            519 => Some(OutputSignal::SD_DATA2),
            520 => Some(OutputSignal::SD_DATA3),
            521 => Some(OutputSignal::HS1_CLK),
            522 => Some(OutputSignal::HS1_CMD),
            523 => Some(OutputSignal::HS1_DATA0),
            524 => Some(OutputSignal::HS1_DATA1),
            525 => Some(OutputSignal::HS1_DATA2),
            526 => Some(OutputSignal::HS1_DATA3),
            527 => Some(OutputSignal::HS1_DATA4),
            528 => Some(OutputSignal::HS1_DATA5),
            529 => Some(OutputSignal::HS1_DATA6),
            530 => Some(OutputSignal::HS1_DATA7),
            531 => Some(OutputSignal::HS1_STROBE),
            532 => Some(OutputSignal::HS2_CLK),
            533 => Some(OutputSignal::HS2_CMD),
            534 => Some(OutputSignal::HS2_DATA0),
            535 => Some(OutputSignal::HS2_DATA1),
            536 => Some(OutputSignal::HS2_DATA2),
            537 => Some(OutputSignal::HS2_DATA3),
            538 => Some(OutputSignal::EMAC_TX_CLK),
            539 => Some(OutputSignal::EMAC_TX_ER),
            540 => Some(OutputSignal::EMAC_TXD3),
            541 => Some(OutputSignal::EMAC_RX_ER),
            542 => Some(OutputSignal::EMAC_TXD2),
            543 => Some(OutputSignal::EMAC_CLK_OUT),
            544 => Some(OutputSignal::EMAC_CLK_180),
            545 => Some(OutputSignal::EMAC_TXD0),
            546 => Some(OutputSignal::EMAC_TX_EN),
            547 => Some(OutputSignal::EMAC_TXD1),
            548 => Some(OutputSignal::MTDO),
            _ => None,
        }
    }
}

} // verus!
