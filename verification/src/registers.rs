//! The registers of the chip that the driver uses: the address of each, followed by the masks of
//! its fields.
use vstd::prelude::*;

verus! {

/// Distance from an RX synthesizer register to its TX twin.
pub const TX_SYNTH_OFFSET: u16 = 0x40;

/// Distance from a TX FIR register to its RX twin.
pub const RX_FIR_OFFSET: u16 = 0x90;

/// TX synthesizer word burst start, fraction first.
pub const TX_FRACT_BYTE2: u16 = 0x275;


// General
pub const TX_ENABLE_FILTER_CONTROL: u16 = 0x002;
pub const TX_CHANNEL_ENABLE: u8 = 0xC0;
pub const THB3_ENABLE_INTERP: u8 = 0x30;
pub const THB2_EN: u8 = 0x08;
pub const THB1_EN: u8 = 0x04;
pub const TX_FIR_ENABLE_INTERPOLATION: u8 = 0x03;
pub const RX_ENABLE_FILTER_CONTROL: u16 = 0x003;
pub const RX_CHANNEL_ENABLE: u8 = 0xC0;
pub const DEC3_ENABLE_DECIMATION: u8 = 0x30;
pub const RHB2_EN: u8 = 0x08;
pub const RHB1_EN: u8 = 0x04;
pub const RX_FIR_ENABLE_DECIMATION: u8 = 0x03;
pub const INPUT_SELECT: u16 = 0x004;
pub const TX_OUTPUT: u8 = 0x40;
pub const RFPLL_DIVIDERS: u16 = 0x005;
pub const TX_VCO_DIVIDER: u8 = 0xF0;
pub const RX_VCO_DIVIDER: u8 = 0x0F;
pub const RX_CLOCK_DATA_DELAY: u16 = 0x006;
pub const TX_CLOCK_DATA_DELAY: u16 = 0x007;
pub const CLOCK_ENABLE: u16 = 0x009;
pub const XO_BYPASS: u8 = 0x10;
pub const DIGITAL_POWER_UP: u8 = 0x04;
pub const CLOCK_ENABLE_DFLT: u8 = 0x02;
pub const BBPLL_ENABLE: u8 = 0x01;
pub const BBPLL: u16 = 0x00A;
pub const CLKOUT_SELECT: u8 = 0xE0;
pub const CLKOUT_ENABLE: u8 = 0x10;
pub const DAC_CLK_DIV2: u8 = 0x08;
pub const BBPLL_DIVIDER: u8 = 0x07;
pub const TEMP_OFFSET: u16 = 0x00B;
pub const START_TEMP_READING: u16 = 0x00C;
pub const TEMP_SENSE2: u16 = 0x00D;
pub const TEMP_SENSE_PERIODIC_ENABLE: u8 = 0x01;
pub const TEMP_SENSOR_CONFIG: u16 = 0x00F;
pub const PARALLEL_PORT_CONF1: u16 = 0x010;
pub const PARALLEL_PORT_CONF2: u16 = 0x011;
pub const INVERT_RX2: u8 = 0x20;
pub const PARALLEL_PORT_CONF3: u16 = 0x012;
pub const HALF_DUPLEX_MODE: u8 = 0x08;
pub const SINGLE_PORT_MODE: u8 = 0x04;
pub const ENSM_MODE: u16 = 0x013;
pub const FDD_MODE: u8 = 0x01;
pub const ENSM_CONFIG1: u16 = 0x014;
pub const ENABLE_RX_DATA_PORT_FOR_CAL: u8 = 0x80;
pub const FORCE_RX_ON: u8 = 0x40;
pub const FORCE_TX_ON: u8 = 0x20;
pub const ENABLE_ENSM_PIN_CTRL: u8 = 0x10;
pub const LEVEL_MODE: u8 = 0x08;
pub const FORCE_ALERT_STATE: u8 = 0x04;
pub const TO_ALERT: u8 = 0x01;
pub const ENSM_CONFIG2: u16 = 0x015;
pub const FDD_EXTERNAL_CTRL_ENABLE: u8 = 0x80;
pub const POWER_DOWN_RX_SYNTH: u8 = 0x40;
pub const POWER_DOWN_TX_SYNTH: u8 = 0x20;
pub const TXNRX_SPI_CTRL: u8 = 0x10;
pub const SYNTH_ENABLE_PIN_CTRL_MODE: u8 = 0x08;
pub const DUAL_SYNTH_MODE: u8 = 0x04;
pub const RX_SYNTH_READY_MASK: u8 = 0x02;
pub const TX_SYNTH_READY_MASK: u8 = 0x01;
pub const CALIBRATION_CONTROL: u16 = 0x016;
pub const RX_BB_TUNE_CAL: u8 = 0x80;
pub const TX_BB_TUNE_CAL: u8 = 0x40;
pub const TX_QUAD_CAL: u8 = 0x10;
pub const RX_GAIN_STEP_CAL: u8 = 0x08;
pub const RFDC_CAL: u8 = 0x02;
pub const BBDC_CAL: u8 = 0x01;
pub const STATE: u16 = 0x017;
pub const ENSM_STATE: u8 = 0x0F;
pub const AUXDAC1_WORD: u16 = 0x018;
pub const AUXDAC2_WORD: u16 = 0x019;
pub const AUXDAC1_CONFIG: u16 = 0x01A;
pub const AUXDAC2_CONFIG: u16 = 0x01B;
pub const AUXADC_CLOCK_DIVIDER: u16 = 0x01C;
pub const AUXADC_CONFIG: u16 = 0x01D;
pub const AUTO_GPO: u16 = 0x020;
pub const AGC_ATTACK_DELAY: u16 = 0x022;
pub const ATTACK_DELAY: u8 = 0x3F;
pub const AUXDAC_ENABLE_CONTROL: u16 = 0x023;
pub const AUXDAC_AUTO_TX_BAR: u8 = 0x30;
pub const AUXDAC_AUTO_RX_BAR: u8 = 0x0C;
pub const AUXDAC_INIT_BAR: u8 = 0x03;
pub const EXTERNAL_LNA_CONTROL: u16 = 0x026;
pub const AUXDAC_MANUAL_SELECT: u8 = 0x80;
pub const EXTERNAL_LNA2_CTRL: u8 = 0x40;
pub const EXTERNAL_LNA1_CTRL: u8 = 0x20;
pub const GPO_MANUAL_SELECT: u8 = 0x10;
pub const GPO_FORCE_AND_INIT: u16 = 0x027;
pub const GPO0_RX_DELAY: u16 = 0x028;
pub const GPO1_RX_DELAY: u16 = 0x029;
pub const GPO2_RX_DELAY: u16 = 0x02A;
pub const GPO3_RX_DELAY: u16 = 0x02B;
pub const GPO0_TX_DELAY: u16 = 0x02C;
pub const GPO1_TX_DELAY: u16 = 0x02D;
pub const GPO2_TX_DELAY: u16 = 0x02E;
pub const GPO3_TX_DELAY: u16 = 0x02F;
pub const AUXDAC1_RX_DELAY: u16 = 0x030;
pub const AUXDAC1_TX_DELAY: u16 = 0x031;
pub const AUXDAC2_RX_DELAY: u16 = 0x032;
pub const AUXDAC2_TX_DELAY: u16 = 0x033;
pub const CONTROL_OUTPUT_POINTER: u16 = 0x035;
pub const CONTROL_OUTPUT_ENABLE: u16 = 0x036;
pub const PRODUCT_ID: u16 = 0x037;
pub const DEVICE_ID: u8 = 0xF8;
pub const DEVICE_REVISION: u8 = 0x07;
pub const REFERENCE_CLOCK_CYCLES: u16 = 0x03A;
pub const LVDS_BIAS_CONTROL: u16 = 0x03C;
pub const LVDS_INVERT_CTRL1: u16 = 0x03D;
pub const LVDS_INVERT_CTRL2: u16 = 0x03E;

// Baseband PLL
pub const SDM_CONTROL1: u16 = 0x03F;
pub const INIT_BB_FO_CAL: u8 = 0x04;
pub const BBPLL_RESET_BAR: u8 = 0x01;
pub const CLOCK_CONTROL: u16 = 0x040;
pub const REF_FREQ_SCALER: u8 = 0x03;
pub const FRACT_BB_FREQ_WORD1: u16 = 0x041;
pub const FRACT_BB_FREQ_WORD2: u16 = 0x042;
pub const FRACT_BB_FREQ_WORD3: u16 = 0x043;
pub const INTEGER_BB_FREQ_WORD: u16 = 0x044;
pub const CP_CURRENT: u16 = 0x046;
pub const LOOP_FILTER3: u16 = 0x04A;
pub const VCO_CONTROL: u16 = 0x04B;
pub const FREQ_CAL_ENABLE: u8 = 0x80;
pub const FREQ_CAL_COUNT_LENGTH: u8 = 0x60;
pub const SDM_CONTROL: u16 = 0x04E;
pub const CAL_CLOCK_DIV_4: u8 = 0x10;
pub const VCO_PROGRAM1: u16 = 0x051;
pub const VCO_PROGRAM2: u16 = 0x052;
pub const CH1_OVERFLOW: u16 = 0x05E;
pub const BBPLL_LOCK: u8 = 0x80;

// TX filter, monitor and attenuation
pub const TX_FILTER_COEF_ADDR: u16 = 0x060;
pub const TX_FILTER_COEF_WRITE_DATA1: u16 = 0x061;
pub const TX_FILTER_COEF_WRITE_DATA2: u16 = 0x062;
pub const TX_FILTER_COEF_READ_DATA2: u16 = 0x064;
pub const TX_FILTER_CONF: u16 = 0x065;
pub const FIR_WRITE: u8 = 0x04;
pub const FIR_START_CLK: u8 = 0x02;
pub const TX_FIR_GAIN_6DB: u8 = 0x01;
pub const TX_MON_LOW_GAIN: u16 = 0x067;
pub const TX_MON_TRACK: u8 = 0x20;
pub const TX_MON_HIGH_GAIN: u16 = 0x068;
pub const TX_MON_DELAY: u16 = 0x069;
pub const TX_LEVEL_THRESH: u16 = 0x06A;
pub const TX_MON_DELAY_COUNTER: u8 = 0xC0;
pub const TPM_MODE_ENABLE: u16 = 0x06E;
pub const ONE_SHOT_MODE: u8 = 0x40;
pub const TX_MON1_CONFIG: u16 = 0x070;
pub const TX_MON2_CONFIG: u16 = 0x071;
pub const TX1_ATTEN1: u16 = 0x074;
pub const TX2_ATTEN1: u16 = 0x076;
pub const TX_ATTEN_OFFSET: u16 = 0x077;
pub const MASK_CLR_ATTEN_UPDATE: u8 = 0x40;
pub const TX_ATTEN_THRESH: u16 = 0x078;
pub const TX2_DIG_ATTEN: u16 = 0x07C;
pub const IMMEDIATELY_UPDATE_TPC_ATTEN: u8 = 0x40;
pub const TX_SYMBOL_ATTEN_CONFIG: u16 = 0x081;

// TX quadrature calibration and filters
pub const QUAD_CAL_NCO_FREQ_PHASE_OFFSET: u16 = 0x0A0;
pub const QUAD_CAL_CONTROL: u16 = 0x0A1;
pub const SETTLE_MAIN_ENABLE: u8 = 0x40;
pub const DC_OFFSET_ENABLE: u8 = 0x20;
pub const GAIN_ENABLE: u8 = 0x10;
pub const PHASE_ENABLE: u8 = 0x08;
pub const QUAD_CAL_SOFT_RESET: u8 = 0x04;
pub const KEXP1: u16 = 0x0A2;
pub const KEXP2: u16 = 0x0A3;
pub const TX_NCO_FREQ: u8 = 0xC0;
pub const QUAD_SETTLE_COUNT: u16 = 0x0A4;
pub const MAG_FTEST_THRESH: u16 = 0x0A5;
pub const MAG_FTEST_THRESH2: u16 = 0x0A6;
pub const QUAD_CAL_STATUS_TX1: u16 = 0x0A7;
pub const QUAD_CAL_STATUS_TX2: u16 = 0x0A8;
pub const QUAD_CAL_COUNT: u16 = 0x0A9;
pub const TX_QUAD_FULL_LMT_GAIN: u16 = 0x0AA;
pub const TX_QUAD_LPF_GAIN: u16 = 0x0AE;
pub const TX_TUNE_CONTROL: u16 = 0x0CA;
pub const TUNER_RESAMPLE: u8 = 0x20;
pub const PD_TUNE: u8 = 0x04;
pub const CONFIG0: u16 = 0x0D0;
pub const RESISTOR: u16 = 0x0D1;
pub const CAPACITOR: u16 = 0x0D2;
pub const TX_BBF_TUNE_DIVIDER: u16 = 0x0D6;
pub const TX_BBF_TUNE_MODE: u16 = 0x0D7;
pub const TX_BBF_TUNE_DIVIDER_MSB: u8 = 0x01;

// RX filter and gain control
pub const RX_FILTER_GAIN: u16 = 0x0F6;
pub const AGC_CONFIG1: u16 = 0x0FA;
pub const DEC_PWR_FOR_GAIN_LOCK_EXIT: u8 = 0x80;
pub const DEC_PWR_FOR_LOCK_LEVEL: u8 = 0x40;
pub const DEC_PWR_FOR_LOW_PWR: u8 = 0x20;
pub const SLOW_ATTACK_HYBRID_MODE: u8 = 0x10;
pub const RX2_GAIN_CTRL_SETUP: u8 = 0x0C;
pub const RX1_GAIN_CTRL_SETUP: u8 = 0x03;
pub const AGC_CONFIG2: u16 = 0x0FB;
pub const AGC_GAIN_UNLOCK_CTRL: u8 = 0x40;
pub const AGC_USE_FULL_GAIN_TABLE: u8 = 0x08;
pub const DIG_GAIN_EN: u8 = 0x04;
pub const MAN_GAIN_CTRL_RX2: u8 = 0x02;
pub const MAN_GAIN_CTRL_RX1: u8 = 0x01;
pub const AGC_CONFIG3: u16 = 0x0FC;
pub const INCDEC_LMT_GAIN: u8 = 0x10;
pub const USE_AGC_FOR_LMTLPF_GAIN: u8 = 0x08;
pub const MAX_LMT_FULL_GAIN: u16 = 0x0FD;
pub const PEAK_WAIT_TIME: u16 = 0x0FE;
pub const PEAK_OVERLOAD_WAIT_TIME: u8 = 0x1F;
pub const DIGITAL_GAIN: u16 = 0x100;
pub const AGC_LOCK_LEVEL: u16 = 0x101;
pub const AGC_LOCK_LEVEL_INNER_HIGH_THRESH: u8 = 0x7F;
pub const GAIN_STP_CONFIG1: u16 = 0x103;
pub const DEC_STP_SIZE_FOR_LARGE_LMT_OVERLOAD: u8 = 0x1C;
pub const ADC_SMALL_OVERLOAD_THRESH: u16 = 0x104;
pub const ADC_LARGE_OVERLOAD_THRESH: u16 = 0x105;
pub const GAIN_STP_CONFIG2: u16 = 0x106;
pub const SMALL_LMT_OVERLOAD_THRESH: u16 = 0x107;
pub const FORCE_PD_RESET_RX2: u8 = 0x80;
pub const FORCE_PD_RESET_RX1: u8 = 0x40;
pub const SMALL_LMT_THRESH: u8 = 0x3F;
pub const LARGE_LMT_OVERLOAD_THRESH: u16 = 0x108;
pub const RX1_MANUAL_LMT_FULL_GAIN: u16 = 0x109;
pub const POWER_MEAS_IN_STATE_5_MSB: u8 = 0x80;
pub const MANUAL_GAIN_INDEX: u8 = 0x7F;
pub const RX1_MANUAL_LPF_GAIN: u16 = 0x10A;
pub const POWER_MEAS_IN_STATE_5: u8 = 0xE0;
pub const RX1_MANUAL_DIGITALFORCED_GAIN: u16 = 0x10B;
pub const RX2_MANUAL_LMT_FULL_GAIN: u16 = 0x10C;
pub const RX2_MANUAL_LPF_GAIN: u16 = 0x10D;
pub const RX2_MANUAL_DIGITALFORCED_GAIN: u16 = 0x10E;
pub const FAST_CONFIG1: u16 = 0x110;
pub const ENABLE_GAIN_INC_AFTER_GAIN_LOCK: u8 = 0x80;
pub const GOTO_OPT_GAIN_IF_ENERGY_LOST_OR_EN_AGC_HIGH: u8 = 0x40;
pub const GOTO_SET_GAIN_IF_EN_AGC_HIGH: u8 = 0x20;
pub const GOTO_SET_GAIN_IF_EXIT_RX_STATE: u8 = 0x10;
pub const DONT_UNLOCK_GAIN_IF_ENERGY_LOST: u8 = 0x08;
pub const GOTO_OPTIMIZED_GAIN_IF_EXIT_RX_STATE: u8 = 0x04;
pub const DONT_UNLOCK_GAIN_IF_LG_ADC_OR_LMT_OVRG: u8 = 0x02;
pub const ENABLE_INCR_GAIN: u8 = 0x01;
pub const FAST_CONFIG2_SETTLING_DELAY: u16 = 0x111;
pub const USE_LAST_LOCK_LEVEL_FOR_SET_GAIN: u8 = 0x80;
pub const ENABLE_LMT_GAIN_INC_FOR_LOCK_LEVEL: u8 = 0x40;
pub const GOTO_MAX_GAIN_OR_OPT_GAIN_IF_EN_AGC_HIGH: u8 = 0x20;
pub const SETTLING_DELAY: u8 = 0x1F;
pub const FAST_ENERGY_LOST_THRESH: u16 = 0x112;
pub const POST_LOCK_LEVEL_STP_SIZE_FOR_LPF_TABLE: u8 = 0xC0;
pub const ENERGY_LOST_THRESH: u8 = 0x3F;
pub const FAST_STRONGER_SIGNAL_THRESH: u16 = 0x113;
pub const POST_LOCK_LEVEL_STP_FOR_LMT_TABLE: u8 = 0xC0;
pub const STRONGER_SIGNAL_THRESH: u8 = 0x3F;
pub const FAST_LOW_POWER_THRESH: u16 = 0x114;
pub const DONT_UNLOCK_GAIN_IF_ADC_OVRG: u8 = 0x80;
pub const FAST_STRONG_SIGNAL_FREEZE: u16 = 0x115;
pub const DONT_UNLOCK_GAIN_IF_STRONGER_SIGNAL: u8 = 0x80;
pub const FAST_FINAL_OVER_RANGE_AND_OPT_GAIN: u16 = 0x116;
pub const FINAL_OVER_RANGE_COUNT: u8 = 0xE0;
pub const OPTIMIZE_GAIN_OFFSET: u8 = 0x0F;
pub const FAST_ENERGY_DETECT_COUNT: u16 = 0x117;
pub const INCREMENT_GAIN_STP_LPFLMT: u8 = 0xE0;
pub const ENERGY_DETECT_COUNT: u8 = 0x1F;
pub const FAST_AGCLL_UPPER_LIMIT: u16 = 0x118;
pub const AGCLL_MAX_INCREASE: u8 = 0x3F;
pub const FAST_GAIN_LOCK_EXIT_COUNT: u16 = 0x119;
pub const GAIN_LOCK_EXIT_COUNT: u8 = 0x3F;
pub const FAST_INITIAL_LMT_GAIN_LIMIT: u16 = 0x11A;
pub const FAST_INCREMENT_TIME: u16 = 0x11B;
pub const AGC_INNER_LOW_THRESH: u16 = 0x120;
pub const PREVENT_GAIN_INC: u8 = 0x80;
pub const LMT_OVERLOAD_COUNTERS: u16 = 0x121;
pub const ADC_OVERLOAD_COUNTERS: u16 = 0x122;
pub const GAIN_STP1: u16 = 0x123;
pub const IMMED_GAIN_CHANGE_IF_LG_ADC_OVERLOAD: u8 = 0x80;
pub const IMMED_GAIN_CHANGE_IF_LG_LMT_OVERLOAD: u8 = 0x08;
pub const GAIN_UPDATE_COUNTER1: u16 = 0x124;
pub const GAIN_UPDATE_COUNTER2: u16 = 0x125;
pub const DIGITAL_SAT_COUNTER: u16 = 0x128;
pub const DOUBLE_GAIN_COUNTER: u8 = 0x20;
pub const ENABLE_SYNC_FOR_GAIN_COUNTER: u8 = 0x10;
pub const OUTER_POWER_THRESHS: u16 = 0x129;
pub const GAIN_STP2: u16 = 0x12A;
pub const EXT_LNA_HIGH_GAIN: u16 = 0x12C;
pub const EXT_LNA_LOW_GAIN: u16 = 0x12D;
pub const GAIN_TABLE_ADDRESS: u16 = 0x130;
pub const GAIN_TABLE_WRITE_DATA1: u16 = 0x131;
pub const GAIN_TABLE_WRITE_DATA2: u16 = 0x132;
pub const GAIN_TABLE_WRITE_DATA3: u16 = 0x133;
pub const GAIN_TABLE_READ_DATA1: u16 = 0x134;
pub const GAIN_TABLE_CONFIG: u16 = 0x137;
pub const WRITE_GAIN_TABLE: u8 = 0x04;
pub const START_GAIN_TABLE_CLOCK: u8 = 0x02;
pub const GM_SUB_TABLE_ADDRESS: u16 = 0x138;
pub const GM_SUB_TABLE_BIAS_WRITE: u16 = 0x139;
pub const GM_SUB_TABLE_GAIN_WRITE: u16 = 0x13A;
pub const GM_SUB_TABLE_CONTROL_WRITE: u16 = 0x13B;
pub const GM_SUB_TABLE_GAIN_READ: u16 = 0x13D;
pub const GM_SUB_TABLE_CONFIG: u16 = 0x13F;
pub const WRITE_GM_SUB_TABLE: u8 = 0x04;
pub const START_GM_SUB_TABLE_CLOCK: u8 = 0x02;

// RSSI
pub const WORD_ADDRESS: u16 = 0x140;
pub const GAIN_DIFF_WORDERROR_WRITE: u16 = 0x141;
pub const GAIN_ERROR_READ: u16 = 0x142;
pub const CONFIG: u16 = 0x143;
pub const READ_SELECT: u8 = 0x10;
pub const WRITE_MIXER_ERROR_TABLE: u8 = 0x08;
pub const WRITE_LNA_ERROR_TABLE: u8 = 0x04;
pub const WRITE_LNA_GAIN_DIFF: u8 = 0x02;
pub const START_CALIB_TABLE_CLOCK: u8 = 0x01;
pub const LNA_GAIN: u16 = 0x144;
pub const MAX_MIXER_CALIBRATION_GAIN_INDEX: u16 = 0x145;
pub const SETTLE_TIME: u16 = 0x147;
pub const MEASURE_DURATION: u16 = 0x148;
pub const MEASURE_DURATION01: u16 = 0x150;
pub const MEASURE_DURATION23: u16 = 0x151;
pub const RSSI_WEIGHT0: u16 = 0x152;
pub const RSSI_WEIGHT1: u16 = 0x153;
pub const RSSI_WEIGHT2: u16 = 0x154;
pub const RSSI_WEIGHT3: u16 = 0x155;
pub const RSSI_DELAY: u16 = 0x156;
pub const RSSI_WAIT_TIME: u16 = 0x157;
pub const RSSI_CONFIG: u16 = 0x158;
pub const START_RSSI_MEAS: u8 = 0x20;
pub const DEFAULT_RSSI_MEAS_MODE: u8 = 0x01;
pub const DEC_POWER_MEASURE_DURATION0: u16 = 0x15C;
pub const USE_HB1_OUT_FOR_DEC_PWR_MEAS: u8 = 0x40;
pub const ENABLE_DEC_PWR_MEAS: u8 = 0x20;
pub const DEC_POWER_MEASUREMENT_DURATION: u8 = 0x0F;

// RX tracking and DC offset
pub const CALIBRATION_CONFIG1: u16 = 0x169;
pub const ENABLE_PHASE_CORR: u8 = 0x80;
pub const ENABLE_GAIN_CORR: u8 = 0x40;
pub const FREE_RUN_MODE: u8 = 0x08;
pub const ENABLE_CORR_WORD_DECIMATION: u8 = 0x04;
pub const ENABLE_TRACKING_MODE_CH2: u8 = 0x02;
pub const ENABLE_TRACKING_MODE_CH1: u8 = 0x01;
pub const CALIBRATION_CONFIG2: u16 = 0x16A;
pub const CALIBRATION_CONFIG2_DFLT: u8 = 0x60;
pub const CALIBRATION_CONFIG3: u16 = 0x16B;
pub const PREVENT_POS_LOOP_GAIN: u8 = 0x80;
pub const RX_QUAD_GAIN2: u16 = 0x16E;
pub const CORRECTION_WORD_DECIMATION_M: u8 = 0xE0;
pub const WAIT_COUNT: u16 = 0x185;
pub const RF_DC_OFFSET_COUNT: u16 = 0x186;
pub const RF_DC_OFFSET_CONFIG1: u16 = 0x187;
pub const RF_DC_OFFSET_ATTEN: u16 = 0x188;
pub const INVERT_BITS: u16 = 0x189;
pub const INVERT_RX2_RF_DC_CGOUT_WORD: u8 = 0x20;
pub const INVERT_RX1_RF_DC_CGOUT_WORD: u8 = 0x10;
pub const DC_OFFSET_CONFIG2: u16 = 0x18B;
pub const USE_WAIT_COUNTER_FOR_RF_DC_INIT_CAL: u8 = 0x80;
pub const ENABLE_RF_OFFSET_TRACKING: u8 = 0x20;
pub const ENABLE_BB_DC_OFFSET_TRACKING: u8 = 0x08;
pub const BB_DC_OFFSET_SHIFT: u16 = 0x190;
pub const BB_DC_OFFSET_COUNT: u16 = 0x193;
pub const BB_DC_OFFSET_ATTEN: u16 = 0x194;

// RX analog
pub const RX_MIX_GM_CONFIG: u16 = 0x1C0;
pub const RX_MIX_LO_CM: u16 = 0x1D5;
pub const RX_TIA_CONFIG: u16 = 0x1DB;
pub const TIA1_C_LSB: u16 = 0x1DC;
pub const TIA1_C_MSB: u16 = 0x1DD;
pub const TIA2_C_LSB: u16 = 0x1DE;
pub const TIA2_C_MSB: u16 = 0x1DF;
pub const RX1_TUNE_CONTROL: u16 = 0x1E2;
pub const RX2_TUNE_CONTROL: u16 = 0x1E3;
pub const TUNE_RESAMPLE: u8 = 0x02;
pub const PD_TUNE_RX: u8 = 0x01;
pub const RX_BBF_R2346: u16 = 0x1E6;
pub const RX_BBF_C3_MSB: u16 = 0x1EB;
pub const RX_BBF_C3_LSB: u16 = 0x1EC;
pub const RX_BBF_TUNE_DIVIDE: u16 = 0x1F8;
pub const RX_BBF_TUNE_CONFIG: u16 = 0x1F9;
pub const RX_BBF_TUNE_DIVIDE_MSB: u8 = 0x01;
pub const RX_BBBW_MHZ: u16 = 0x1FB;
pub const RX_BBBW_KHZ: u16 = 0x1FC;
pub const RX_ADC_BASE: u16 = 0x200;

// RX synthesizer. The TX one has the same registers, TX_SYNTH_OFFSET higher
pub const RX_PFD_CONFIG: u16 = 0x230;
pub const BYPASS_LD_SYNTH: u8 = 0x01;
pub const RX_INTEGER_BYTE1: u16 = 0x232;
pub const RX_FRACT_BYTE2: u16 = 0x235;
pub const RX_FORCE_VCO_TUNE1: u16 = 0x238;
pub const RX_ALC_VARACTOR: u16 = 0x239;
pub const VCO_VARACTOR: u8 = 0x0F;
pub const RX_VCO_OUTPUT: u16 = 0x23A;
pub const PORB_VCO_LOGIC: u8 = 0x40;
pub const RX_CP_CURRENT: u16 = 0x23B;
pub const CHARGE_PUMP_CURRENT: u8 = 0x3F;
pub const RX_CP_CONFIG: u16 = 0x23D;
pub const CP_OFFSET_OFF: u8 = 0x10;
pub const CP_CAL_ENABLE: u8 = 0x04;
pub const RX_LOOP_FILTER1: u16 = 0x23E;
pub const RX_LOOP_FILTER2: u16 = 0x23F;
pub const RX_LOOP_FILTER3: u16 = 0x240;
pub const RX_VCO_BIAS1: u16 = 0x242;
pub const RX_CAL_STATUS: u16 = 0x244;
pub const CP_CAL_VALID: u8 = 0x80;
pub const RX_VCO_CAL_REF: u16 = 0x245;
pub const RX_VCO_PD_OVERRIDES: u16 = 0x246;
pub const RX_CP_OVERRANGE_VCO_LOCK: u16 = 0x247;
pub const VCO_LOCK: u8 = 0x02;
pub const RX_VCO_LDO: u16 = 0x248;
pub const RX_VCO_CAL: u16 = 0x249;
pub const VCO_CAL_EN: u8 = 0x80;
pub const RX_CP_LEVEL_DETECT: u16 = 0x24B;
pub const RX_DSM_SETUP1: u16 = 0x24D;
pub const RX_VCO_VARACTOR_CONTROL0: u16 = 0x250;
pub const VCO_VARACTOR_REFERENCE_TCF: u8 = 0x70;
pub const RX_VCO_VARACTOR_CONTROL1: u16 = 0x251;
pub const RX_LO_GEN_POWER_MODE: u16 = 0x261;

// References and test
pub const DCXO_COARSE_TUNE: u16 = 0x292;
pub const DCXO_FINE_TUNE_HIGH: u16 = 0x293;
pub const DCXO_FINE_TUNE_LOW: u16 = 0x294;
pub const BANDGAP_CONFIG0: u16 = 0x2A6;
pub const BANDGAP_CONFIG1: u16 = 0x2A8;
pub const REF_DIVIDE_CONFIG1: u16 = 0x2AB;
pub const RX_REF_RESET_BAR: u8 = 0x04;
pub const RX_REF_DIVIDER_MSB: u8 = 0x01;
pub const REF_DIVIDE_CONFIG2: u16 = 0x2AC;
pub const RX_REF_DIVIDER_LSB: u8 = 0x80;
pub const RX_REF_DOUBLER_FB_DELAY: u8 = 0x60;
pub const TX_REF_RESET_BAR: u8 = 0x10;
pub const TX_REF_DIVIDER: u8 = 0x0C;
pub const TX_REF_DOUBLER_FB_DELAY: u8 = 0x03;
pub const CONTROL: u16 = 0x3DF;
pub const CTRL_ENABLE: u8 = 0x01;
pub const BIST_CONFIG: u16 = 0x3F4;
pub const BIST_ENABLE: u8 = 0x01;
pub const OBSERVE_CONFIG: u16 = 0x3F5;
pub const DATA_PORT_SP_HD_LOOP_TEST_OE: u8 = 0x80;
pub const DATA_PORT_LOOP_TEST_ENABLE: u8 = 0x01;

} // verus!
