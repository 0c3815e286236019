//! Gain control: mixer GM sub table, manual, slow and fast AGC setup, and the timing that depends
//! on the clock rates.
use vstd::prelude::*;

use crate::engine::{
    Engine, EngineView, flow, Flow, law_read_keeps_state, law_run_keeps_state, Reply,
};
use crate::error::Ad9361Error;
use crate::link::{Fault, Op, put, update};
use crate::math::{div_round_closest, div_round_up, flag, ilog2, least};
use crate::ports::Channel;
use crate::registers::{
    ADC_LARGE_OVERLOAD_THRESH, ADC_OVERLOAD_COUNTERS, ADC_SMALL_OVERLOAD_THRESH,
    AGCLL_MAX_INCREASE, AGC_ATTACK_DELAY, AGC_CONFIG1, AGC_CONFIG2, AGC_CONFIG3,
    AGC_GAIN_UNLOCK_CTRL, AGC_INNER_LOW_THRESH, AGC_LOCK_LEVEL, AGC_LOCK_LEVEL_INNER_HIGH_THRESH,
    AGC_USE_FULL_GAIN_TABLE, ATTACK_DELAY, DEC_POWER_MEASUREMENT_DURATION,
    DEC_POWER_MEASURE_DURATION0, DEC_PWR_FOR_GAIN_LOCK_EXIT, DEC_PWR_FOR_LOCK_LEVEL,
    DEC_PWR_FOR_LOW_PWR, DEC_STP_SIZE_FOR_LARGE_LMT_OVERLOAD, DIGITAL_GAIN, DIGITAL_SAT_COUNTER,
    DIG_GAIN_EN, DONT_UNLOCK_GAIN_IF_ADC_OVRG, DONT_UNLOCK_GAIN_IF_ENERGY_LOST,
    DONT_UNLOCK_GAIN_IF_LG_ADC_OR_LMT_OVRG, DONT_UNLOCK_GAIN_IF_STRONGER_SIGNAL,
    DOUBLE_GAIN_COUNTER, ENABLE_DEC_PWR_MEAS, ENABLE_GAIN_INC_AFTER_GAIN_LOCK, ENABLE_INCR_GAIN,
    ENABLE_LMT_GAIN_INC_FOR_LOCK_LEVEL, ENABLE_SYNC_FOR_GAIN_COUNTER, ENERGY_DETECT_COUNT,
    ENERGY_LOST_THRESH, FAST_AGCLL_UPPER_LIMIT, FAST_CONFIG1, FAST_CONFIG2_SETTLING_DELAY,
    FAST_ENERGY_DETECT_COUNT, FAST_ENERGY_LOST_THRESH, FAST_FINAL_OVER_RANGE_AND_OPT_GAIN,
    FAST_GAIN_LOCK_EXIT_COUNT, FAST_INCREMENT_TIME, FAST_INITIAL_LMT_GAIN_LIMIT,
    FAST_LOW_POWER_THRESH, FAST_STRONGER_SIGNAL_THRESH, FAST_STRONG_SIGNAL_FREEZE,
    FINAL_OVER_RANGE_COUNT, GAIN_LOCK_EXIT_COUNT, GAIN_STP1, GAIN_STP2, GAIN_STP_CONFIG1,
    GAIN_STP_CONFIG2, GAIN_TABLE_ADDRESS, GAIN_TABLE_CONFIG, GAIN_TABLE_READ_DATA1,
    GAIN_TABLE_WRITE_DATA1, GAIN_TABLE_WRITE_DATA2, GAIN_TABLE_WRITE_DATA3, GAIN_UPDATE_COUNTER1,
    GAIN_UPDATE_COUNTER2, GM_SUB_TABLE_ADDRESS, GM_SUB_TABLE_BIAS_WRITE, GM_SUB_TABLE_CONFIG,
    GM_SUB_TABLE_CONTROL_WRITE, GM_SUB_TABLE_GAIN_READ, GM_SUB_TABLE_GAIN_WRITE,
    GOTO_MAX_GAIN_OR_OPT_GAIN_IF_EN_AGC_HIGH, GOTO_OPTIMIZED_GAIN_IF_EXIT_RX_STATE,
    GOTO_OPT_GAIN_IF_ENERGY_LOST_OR_EN_AGC_HIGH, GOTO_SET_GAIN_IF_EN_AGC_HIGH,
    GOTO_SET_GAIN_IF_EXIT_RX_STATE, IMMED_GAIN_CHANGE_IF_LG_ADC_OVERLOAD,
    IMMED_GAIN_CHANGE_IF_LG_LMT_OVERLOAD, INCDEC_LMT_GAIN, INCREMENT_GAIN_STP_LPFLMT,
    LARGE_LMT_OVERLOAD_THRESH, LMT_OVERLOAD_COUNTERS, MANUAL_GAIN_INDEX, MAN_GAIN_CTRL_RX1,
    MAN_GAIN_CTRL_RX2, MAX_LMT_FULL_GAIN, OPTIMIZE_GAIN_OFFSET, OUTER_POWER_THRESHS,
    PEAK_OVERLOAD_WAIT_TIME, PEAK_WAIT_TIME, POST_LOCK_LEVEL_STP_FOR_LMT_TABLE,
    POST_LOCK_LEVEL_STP_SIZE_FOR_LPF_TABLE, POWER_MEAS_IN_STATE_5, POWER_MEAS_IN_STATE_5_MSB,
    PREVENT_GAIN_INC, RX1_GAIN_CTRL_SETUP, RX1_MANUAL_DIGITALFORCED_GAIN, RX1_MANUAL_LMT_FULL_GAIN,
    RX1_MANUAL_LPF_GAIN, RX2_GAIN_CTRL_SETUP, RX2_MANUAL_DIGITALFORCED_GAIN,
    RX2_MANUAL_LMT_FULL_GAIN, RX2_MANUAL_LPF_GAIN, RX_CHANNEL_ENABLE, RX_ENABLE_FILTER_CONTROL,
    SETTLING_DELAY, SLOW_ATTACK_HYBRID_MODE, SMALL_LMT_OVERLOAD_THRESH, SMALL_LMT_THRESH,
    START_GAIN_TABLE_CLOCK, START_GM_SUB_TABLE_CLOCK, STRONGER_SIGNAL_THRESH,
    TX_SYMBOL_ATTEN_CONFIG, USE_AGC_FOR_LMTLPF_GAIN, USE_HB1_OUT_FOR_DEC_PWR_MEAS,
    USE_LAST_LOCK_LEVEL_FOR_SET_GAIN, WRITE_GAIN_TABLE, WRITE_GM_SUB_TABLE,
};
use crate::state::{EngineState, GainState};
use crate::tables::GainTable;

verus! {

/// How an RX channel picks its gain. Each channel has its own mode.
///
/// - `Manual`: the gain stays where it was set (see `Ad9361::manual_gain`).
/// - `FastAttackAgc`: reacts within a few microseconds. Meant for bursty signals like TDD,
///   where the gain has to settle at the start of a burst and then hold.
/// - `SlowAttackAgc`: keeps the average power inside a window and follows it slowly. This is the
///   default and the one for continuous or slowly changing signals such as FDD LTE.
/// - `HybridAgc`: slow attack AGC, but gain updates happen when the CTRL_IN2 pin goes high
///   instead of on the update timer.
#[derive(Debug, Clone, Copy, PartialEq, Eq, Structural)]
pub enum GainMode {
    Manual,
    FastAttackAgc,
    SlowAttackAgc,
    HybridAgc,
}

impl GainMode {
    /// The register field.
    #[verifier::allow_in_spec]
    pub fn code(self) -> u8
        returns
            (match self {
                GainMode::Manual => 0u8,
                GainMode::FastAttackAgc => 1,
                GainMode::SlowAttackAgc => 2,
                GainMode::HybridAgc => 3,
            }),
    {
        match self {
            GainMode::Manual => 0,
            GainMode::FastAttackAgc => 1,
            GainMode::SlowAttackAgc => 2,
            GainMode::HybridAgc => 3,
        }
    }
}

/// Gain the fast AGC goes to when it leaves gain lock. The fast AGC settings in
/// [`GainControl`] pick which of these is used and when.
///
/// `MaxGain` is the top of the gain table, `SetGain` is the gain the AGC had last time it
/// locked, `OptimizedGain` is that gain plus an offset that leaves some headroom, and
/// `NoGainChange` leaves the gain alone.
#[derive(Debug, Clone, Copy, PartialEq, Eq, Structural)]
pub enum FastAgcTargetGain {
    MaxGain,
    SetGain,
    OptimizedGain,
    NoGainChange,
}

/// Gain control settings for both RX channels. `Default` is the slow attack setup.
///
/// The defaults are fine for most uses. Only the fields for the mode in `rx1_mode` and `rx2_mode`
/// matter: the `mgc_` ones for `Manual`, the `agc_` ones for slow attack, the `f_agc_` ones for
/// fast attack, and the "Common" ones for all of them. Hybrid mode uses both AGC groups.
///
/// The overload and power thresholds apply to both channels. To change gain at run time use
/// `Ad9361::set_gain_mode` or `Ad9361::manual_gain`, not these.
#[derive(Debug, Clone, Copy, PartialEq, Eq, Structural)]
pub struct GainControl {
    pub rx1_mode: GainMode,
    pub rx2_mode: GainMode,

    // Common
    /// ADC samples summed for the overload check, 1..=8
    pub adc_ovr_sample_size: u8,
    pub adc_small_overload_thresh: u8,
    pub adc_large_overload_thresh: u8,
    /// 16..=800 mV
    pub lmt_overload_high_thresh: u16,
    /// 16..=800 mV
    pub lmt_overload_low_thresh: u16,
    /// Length of one power measurement, in RX samples. Both AGC modes and the low power check
    /// use it.
    pub dec_pow_measurement_duration: u32,
    /// Signal below this is "low power", 0..=64 (-dBFS)
    pub low_power_thresh: u8,
    pub use_rx_fir_out_for_dec_pwr_meas: bool,
    /// leave it off, the usual gain tables don't use digital gain
    pub dig_gain_en: bool,
    /// 0..=31
    pub max_dig_gain: u8,

    // MGC
    /// RX1 gain steps come from the CTRL_IN pins instead of SPI
    pub mgc_rx1_ctrl_inp_en: bool,
    /// RX2 gain steps come from the CTRL_IN pins instead of SPI
    pub mgc_rx2_ctrl_inp_en: bool,
    /// Table steps per pin pulse when going up, 1..=8
    pub mgc_inc_gain_step: u8,
    /// Table steps per pin pulse when going down, 1..=8
    pub mgc_dec_gain_step: u8,
    /// Split table only: 0: AGC decides, 1: only in LPF, 2: only in LMT
    pub mgc_split_table_ctrl_inp_gain_mode: u8,

    // AGC (slow attack)
    /// Added to the computed AGC attack delay, 0..=31 us
    pub agc_attack_delay_extra_margin_us: u8,
    pub agc_outer_thresh_high: u8,
    pub agc_outer_thresh_high_dec_steps: u8,
    pub agc_inner_thresh_high: u8,
    pub agc_inner_thresh_high_dec_steps: u8,
    pub agc_inner_thresh_low: u8,
    pub agc_inner_thresh_low_inc_steps: u8,
    pub agc_outer_thresh_low: u8,
    pub agc_outer_thresh_low_inc_steps: u8,
    pub adc_small_overload_exceed_counter: u8,
    pub adc_large_overload_exceed_counter: u8,
    pub adc_large_overload_inc_steps: u8,
    pub adc_lmt_small_overload_prevent_gain_inc: bool,
    pub lmt_overload_large_exceed_counter: u8,
    pub lmt_overload_small_exceed_counter: u8,
    pub lmt_overload_large_inc_steps: u8,
    pub dig_saturation_exceed_counter: u8,
    pub dig_gain_step_size: u8,
    pub sync_for_gain_counter_en: bool,
    pub gain_update_interval_us: u32,
    pub immed_gain_change_if_large_adc_overload: bool,
    pub immed_gain_change_if_large_lmt_overload: bool,

    // Fast AGC
    /// Power measurement length while the fast AGC hunts for a level, in RX samples
    pub f_agc_dec_pow_measurement_duration: u32,
    pub f_agc_state_wait_time_ns: u32,
    pub f_agc_allow_agc_gain_increase: bool,
    pub f_agc_lp_thresh_increment_time: u8,
    pub f_agc_lp_thresh_increment_steps: u8,
    pub f_agc_lock_level_lmt_gain_increase_en: bool,
    pub f_agc_lock_level_gain_increase_upper_limit: u8,
    pub f_agc_lpf_final_settling_steps: u8,
    pub f_agc_lmt_final_settling_steps: u8,
    pub f_agc_final_overrange_count: u8,
    pub f_agc_gain_increase_after_gain_lock_en: bool,
    pub f_agc_gain_index_type_after_exit_rx_mode: FastAgcTargetGain,
    pub f_agc_use_last_lock_level_for_set_gain_en: bool,
    pub f_agc_optimized_gain_offset: u8,
    pub f_agc_rst_gla_stronger_sig_thresh_exceeded_en: bool,
    pub f_agc_rst_gla_stronger_sig_thresh_above_ll: u8,
    pub f_agc_rst_gla_energy_lost_sig_thresh_exceeded_en: bool,
    pub f_agc_rst_gla_energy_lost_goto_optim_gain_en: bool,
    pub f_agc_rst_gla_energy_lost_sig_thresh_below_ll: u8,
    pub f_agc_energy_lost_stronger_sig_gain_lock_exit_cnt: u8,
    pub f_agc_rst_gla_large_adc_overload_en: bool,
    pub f_agc_rst_gla_large_lmt_overload_en: bool,
    pub f_agc_rst_gla_en_agc_pulled_high_en: bool,
    pub f_agc_rst_gla_if_en_agc_pulled_high_mode: FastAgcTargetGain,
    /// Power measurement length once the fast AGC has locked, in RX samples
    pub f_agc_power_measurement_duration_in_state5: u32,
    pub f_agc_large_overload_inc_steps: u8,
}

/// The slow attack setup.
pub open spec fn default_gain_control() -> GainControl {
    GainControl {
        rx1_mode: GainMode::SlowAttackAgc,
        rx2_mode: GainMode::SlowAttackAgc,
        adc_ovr_sample_size: 4,
        adc_small_overload_thresh: 47,
        adc_large_overload_thresh: 58,
        lmt_overload_high_thresh: 800,
        lmt_overload_low_thresh: 704,
        dec_pow_measurement_duration: 8192,
        low_power_thresh: 24,
        use_rx_fir_out_for_dec_pwr_meas: false,
        dig_gain_en: false,
        max_dig_gain: 15,
        mgc_rx1_ctrl_inp_en: false,
        mgc_rx2_ctrl_inp_en: false,
        mgc_inc_gain_step: 2,
        mgc_dec_gain_step: 2,
        mgc_split_table_ctrl_inp_gain_mode: 0,
        agc_attack_delay_extra_margin_us: 1,
        agc_outer_thresh_high: 5,
        agc_outer_thresh_high_dec_steps: 2,
        agc_inner_thresh_high: 10,
        agc_inner_thresh_high_dec_steps: 1,
        agc_inner_thresh_low: 12,
        agc_inner_thresh_low_inc_steps: 1,
        agc_outer_thresh_low: 18,
        agc_outer_thresh_low_inc_steps: 2,
        adc_small_overload_exceed_counter: 10,
        adc_large_overload_exceed_counter: 10,
        adc_large_overload_inc_steps: 2,
        adc_lmt_small_overload_prevent_gain_inc: false,
        lmt_overload_large_exceed_counter: 10,
        lmt_overload_small_exceed_counter: 10,
        lmt_overload_large_inc_steps: 2,
        dig_saturation_exceed_counter: 3,
        dig_gain_step_size: 4,
        sync_for_gain_counter_en: false,
        gain_update_interval_us: 1000,
        immed_gain_change_if_large_adc_overload: false,
        immed_gain_change_if_large_lmt_overload: false,
        f_agc_dec_pow_measurement_duration: 64,
        f_agc_state_wait_time_ns: 260,
        f_agc_allow_agc_gain_increase: false,
        f_agc_lp_thresh_increment_time: 5,
        f_agc_lp_thresh_increment_steps: 1,
        f_agc_lock_level_lmt_gain_increase_en: true,
        f_agc_lock_level_gain_increase_upper_limit: 5,
        f_agc_lpf_final_settling_steps: 1,
        f_agc_lmt_final_settling_steps: 1,
        f_agc_final_overrange_count: 3,
        f_agc_gain_increase_after_gain_lock_en: false,
        f_agc_gain_index_type_after_exit_rx_mode: FastAgcTargetGain::MaxGain,
        f_agc_use_last_lock_level_for_set_gain_en: true,
        f_agc_optimized_gain_offset: 5,
        f_agc_rst_gla_stronger_sig_thresh_exceeded_en: true,
        f_agc_rst_gla_stronger_sig_thresh_above_ll: 10,
        f_agc_rst_gla_energy_lost_sig_thresh_exceeded_en: true,
        f_agc_rst_gla_energy_lost_goto_optim_gain_en: true,
        f_agc_rst_gla_energy_lost_sig_thresh_below_ll: 10,
        f_agc_energy_lost_stronger_sig_gain_lock_exit_cnt: 8,
        f_agc_rst_gla_large_adc_overload_en: true,
        f_agc_rst_gla_large_lmt_overload_en: true,
        f_agc_rst_gla_en_agc_pulled_high_en: false,
        f_agc_rst_gla_if_en_agc_pulled_high_mode: FastAgcTargetGain::MaxGain,
        f_agc_power_measurement_duration_in_state5: 64,
        f_agc_large_overload_inc_steps: 2,
    }
}

impl Default for GainControl {
    fn default() -> (ctrl: Self)
        ensures
            ctrl == default_gain_control(),
    {
        GainControl {
                rx1_mode: GainMode::SlowAttackAgc,
            rx2_mode: GainMode::SlowAttackAgc,
            adc_ovr_sample_size: 4,
            adc_small_overload_thresh: 47,
            adc_large_overload_thresh: 58,
            lmt_overload_high_thresh: 800,
            lmt_overload_low_thresh: 704,
            dec_pow_measurement_duration: 8192,
            low_power_thresh: 24,
            use_rx_fir_out_for_dec_pwr_meas: false,
            dig_gain_en: false,
            max_dig_gain: 15,
            mgc_rx1_ctrl_inp_en: false,
            mgc_rx2_ctrl_inp_en: false,
            mgc_inc_gain_step: 2,
            mgc_dec_gain_step: 2,
            mgc_split_table_ctrl_inp_gain_mode: 0,
            agc_attack_delay_extra_margin_us: 1,
            agc_outer_thresh_high: 5,
            agc_outer_thresh_high_dec_steps: 2,
            agc_inner_thresh_high: 10,
            agc_inner_thresh_high_dec_steps: 1,
            agc_inner_thresh_low: 12,
            agc_inner_thresh_low_inc_steps: 1,
            agc_outer_thresh_low: 18,
            agc_outer_thresh_low_inc_steps: 2,
            adc_small_overload_exceed_counter: 10,
            adc_large_overload_exceed_counter: 10,
            adc_large_overload_inc_steps: 2,
            adc_lmt_small_overload_prevent_gain_inc: false,
            lmt_overload_large_exceed_counter: 10,
            lmt_overload_small_exceed_counter: 10,
            lmt_overload_large_inc_steps: 2,
            dig_saturation_exceed_counter: 3,
            dig_gain_step_size: 4,
            sync_for_gain_counter_en: false,
            gain_update_interval_us: 1000,
            immed_gain_change_if_large_adc_overload: false,
            immed_gain_change_if_large_lmt_overload: false,
            f_agc_dec_pow_measurement_duration: 64,
            f_agc_state_wait_time_ns: 260,
            f_agc_allow_agc_gain_increase: false,
            f_agc_lp_thresh_increment_time: 5,
            f_agc_lp_thresh_increment_steps: 1,
            f_agc_lock_level_lmt_gain_increase_en: true,
            f_agc_lock_level_gain_increase_upper_limit: 5,
            f_agc_lpf_final_settling_steps: 1,
            f_agc_lmt_final_settling_steps: 1,
            f_agc_final_overrange_count: 3,
            f_agc_gain_increase_after_gain_lock_en: false,
            f_agc_gain_index_type_after_exit_rx_mode: FastAgcTargetGain::MaxGain,
            f_agc_use_last_lock_level_for_set_gain_en: true,
            f_agc_optimized_gain_offset: 5,
            f_agc_rst_gla_stronger_sig_thresh_exceeded_en: true,
            f_agc_rst_gla_stronger_sig_thresh_above_ll: 10,
            f_agc_rst_gla_energy_lost_sig_thresh_exceeded_en: true,
            f_agc_rst_gla_energy_lost_goto_optim_gain_en: true,
            f_agc_rst_gla_energy_lost_sig_thresh_below_ll: 10,
            f_agc_energy_lost_stronger_sig_gain_lock_exit_cnt: 8,
            f_agc_rst_gla_large_adc_overload_en: true,
            f_agc_rst_gla_large_lmt_overload_en: true,
            f_agc_rst_gla_en_agc_pulled_high_en: false,
            f_agc_rst_gla_if_en_agc_pulled_high_mode: FastAgcTargetGain::MaxGain,
            f_agc_power_measurement_duration_in_state5: 64,
            f_agc_large_overload_inc_steps: 2,
        }
    }
}

/// Which receiver(s) a gain table goes to.
#[derive(Debug, Clone, Copy, PartialEq, Eq, Structural)]
pub enum GainTableDest {
    Rx1,
    Rx2,
    Both,
}

impl GainTableDest {
    /// The register field.
    #[verifier::allow_in_spec]
    pub fn code(self) -> u8
        returns
            (match self {
                GainTableDest::Rx1 => 1u8,
                GainTableDest::Rx2 => 2,
                GainTableDest::Both => 3,
            }),
    {
        match self {
            GainTableDest::Rx1 => 1,
            GainTableDest::Rx2 => 2,
            GainTableDest::Both => 3,
        }
    }
}

/// mixer GM sub table gains
pub const GM_ST_GAIN: [u8; 16] = [
    0x78, 0x74, 0x70, 0x6C, 0x68, 0x64, 0x60, 0x5C, 0x58, 0x54, 0x50, 0x4C, 0x48, 0x30, 0x18, 0x0,
];

/// mixer GM sub table controls
pub const GM_ST_CTRL: [u8; 16] = [
    0x0, 0xD, 0x15, 0x1B, 0x21, 0x25, 0x29, 0x2C, 0x2F, 0x31, 0x33, 0x34, 0x35, 0x3A, 0x3D, 0x3E,
];

/// A number of 1 to 8 steps as a three bit field.
#[verifier::allow_in_spec]
pub fn step_field(steps: u8) -> u8
    returns
        (if steps < 1 {
            0u8
        } else if steps > 8 {
            7u8
        } else {
            (steps - 1) as u8
        }),
{
    if steps < 1 {
        0
    } else if steps > 8 {
        7
    } else {
        steps - 1
    }
}

/// `value`, `max` at most.
#[verifier::allow_in_spec]
pub fn at_most(value: u8, max: u8) -> u8
    returns
        (if value < max {
            value
        } else {
            max
        }),
{
    if value < max {
        value
    } else {
        max
    }
}

/// LMT overload threshold field for a voltage: steps of 16 mV from 16 mV on.
#[verifier::allow_in_spec]
pub fn lmt_field(mv: u16) -> u8
    returns
        (if mv < 16 || mv / 16 > 64 {
            63u8
        } else {
            (mv / 16 - 1) as u8
        }),
{
    if mv < 16 || mv / 16 > 64 {
        63
    } else {
        (mv / 16 - 1) as u8
    }
}

/// Increment field of the fast AGC's low power steps: 1 to 8 steps, and the most for none.
#[verifier::allow_in_spec]
pub fn low_power_step_field(steps: u8) -> u8
    returns
        (if steps < 1 || steps > 8 {
            7u8
        } else {
            (steps - 1) as u8
        }),
{
    if steps < 1 || steps > 8 {
        7
    } else {
        steps - 1
    }
}

/// Measurement duration field: the logarithm of the duration in units of 16 samples.
#[verifier::allow_in_spec]
pub fn duration_field(duration: u32) -> u8
    returns
        (ilog2(duration / 16) & 0xF) as u8,
{
    (ilog2(duration / 16) & 0xF) as u8
}

/// Third AGC configuration register.
#[verifier::allow_in_spec]
pub fn agc_config3(ctrl: &GainControl, split_gt: bool) -> u8
    returns
        step_field(ctrl.adc_ovr_sample_size) | (if split_gt && (ctrl.mgc_rx1_ctrl_inp_en
            || ctrl.mgc_rx2_ctrl_inp_en) {
            if ctrl.mgc_split_table_ctrl_inp_gain_mode == 1 {
                0u8
            } else if ctrl.mgc_split_table_ctrl_inp_gain_mode == 2 {
                INCDEC_LMT_GAIN
            } else {
                USE_AGC_FOR_LMTLPF_GAIN
            }
        } else {
            0u8
        }) | (step_field(ctrl.mgc_inc_gain_step) << 5),
{
    step_field(ctrl.adc_ovr_sample_size) | (if split_gt && (ctrl.mgc_rx1_ctrl_inp_en
        || ctrl.mgc_rx2_ctrl_inp_en) {
        if ctrl.mgc_split_table_ctrl_inp_gain_mode == 1 {
            0u8
        } else if ctrl.mgc_split_table_ctrl_inp_gain_mode == 2 {
            INCDEC_LMT_GAIN
        } else {
            USE_AGC_FOR_LMTLPF_GAIN
        }
    } else {
        0u8
    }) | (step_field(ctrl.mgc_inc_gain_step) << 5)
}

/// Four low bits of a difference.
#[verifier::allow_in_spec]
pub fn nibble_difference(a: u8, b: u8) -> u8
    returns
        a.wrapping_sub(b) & 0xF,
{
    a.wrapping_sub(b) & 0xF
}

/// Whether any of the events that can unlock the gain is switched off, or the EN_AGC pin is on.
#[verifier::allow_in_spec]
pub fn unlock_control(ctrl: &GainControl) -> bool
    returns
        !ctrl.f_agc_rst_gla_stronger_sig_thresh_exceeded_en
            || !ctrl.f_agc_rst_gla_energy_lost_sig_thresh_exceeded_en
            || !ctrl.f_agc_rst_gla_large_adc_overload_en
            || !ctrl.f_agc_rst_gla_large_lmt_overload_en
            || ctrl.f_agc_rst_gla_en_agc_pulled_high_en,
{
    !ctrl.f_agc_rst_gla_stronger_sig_thresh_exceeded_en
        || !ctrl.f_agc_rst_gla_energy_lost_sig_thresh_exceeded_en
        || !ctrl.f_agc_rst_gla_large_adc_overload_en
        || !ctrl.f_agc_rst_gla_large_lmt_overload_en
        || ctrl.f_agc_rst_gla_en_agc_pulled_high_en
}

/// What EN_AGC does when it goes high with the gain locked: go to the maximum or optimized gain,
/// go to the set gain, and which of maximum and optimized gain is meant. `None` leaves the last
/// choice.
#[verifier::allow_in_spec]
pub fn pulled_high_action(ctrl: &GainControl) -> (bool, bool, Option<bool>)
    returns
        (if !ctrl.f_agc_rst_gla_en_agc_pulled_high_en {
            (false, false, None::<bool>)
        } else {
            match ctrl.f_agc_rst_gla_if_en_agc_pulled_high_mode {
                FastAgcTargetGain::MaxGain => (true, false, Some(false)),
                FastAgcTargetGain::SetGain => (false, true, None::<bool>),
                FastAgcTargetGain::OptimizedGain => (true, false, Some(true)),
                FastAgcTargetGain::NoGainChange => (false, false, None::<bool>),
            }
        }),
{
    if !ctrl.f_agc_rst_gla_en_agc_pulled_high_en {
        (false, false, None)
    } else {
        match ctrl.f_agc_rst_gla_if_en_agc_pulled_high_mode {
            FastAgcTargetGain::MaxGain => (true, false, Some(false)),
            FastAgcTargetGain::SetGain => (false, true, None),
            FastAgcTargetGain::OptimizedGain => (true, false, Some(true)),
            FastAgcTargetGain::NoGainChange => (false, false, None),
        }
    }
}

/// Power measurement duration in state 5, four bits.
#[verifier::allow_in_spec]
pub fn state5_field(ctrl: &GainControl) -> u8
    returns
        least(ilog2(ctrl.f_agc_power_measurement_duration_in_state5 / 16), 15) as u8,
{
    least(ilog2(ctrl.f_agc_power_measurement_duration_in_state5 / 16), 15) as u8
}

/// AGC attack delay in us: ceil(((0.2 + Delay_LNA) * ClkRF + 14) / (2 * ClkRF)) + 1, with the LNA
/// delay in ns.
#[verifier::allow_in_spec]
pub fn attack_delay(delay_lna: u32, clkrf: u32, extra_us: u8) -> u8
    requires
        clkrf >= 2000,
    returns
        least(
            (div_round_up(
                (200u32.wrapping_add(delay_lna) / 2 + 14_000_000u32 / (clkrf / 500)) as u32,
                1000,
            ) + extra_us) as u32,
            31,
        ) as u8,
{
    proof {
        assert(14_000_000int / (clkrf as int / 500) <= 14_000_000) by (nonlinear_arith)
            requires
                clkrf >= 2000,
        ;
    }
    let ns: u32 = 200u32.wrapping_add(delay_lna) / 2 + 14_000_000u32 / (clkrf / 500);
    least(div_round_up(ns, 1000) + extra_us as u32, 31) as u8
}

/// Peak overload wait time in ClkRF cycles: ceil((0.1 + Delay_LNA) * ClkRF + 1).
#[verifier::allow_in_spec]
pub fn peak_wait(delay_lna: u32, clkrf: u32) -> u8
    returns
        least(
            (div_round_up(delay_lna.wrapping_add(100).wrapping_mul(clkrf / 1000), 1_000_000)
                + 1) as u32,
            31,
        ) as u8,
{
    least(div_round_up(delay_lna.wrapping_add(100).wrapping_mul(clkrf / 1000), 1_000_000) + 1, 31) as u8
}

/// Settling delay: ceil((0.2 + Delay_LNA) * ClkRF), in units of two ClkRF cycles, plus 7.
#[verifier::allow_in_spec]
pub fn settling_delay(delay_lna: u32, clkrf: u32) -> u8
    returns
        least(
            (div_round_up(delay_lna.wrapping_add(200).wrapping_mul(clkrf / 2000), 1_000_000)
                + 7) as u32,
            31,
        ) as u8,
{
    least(div_round_up(delay_lna.wrapping_add(200).wrapping_mul(clkrf / 2000), 1_000_000) + 7, 31) as u8
}

/// Gain update counter: round(((time * ClkRF - settling * 2) - 2) / 2).
#[verifier::allow_in_spec]
pub fn gain_update_count(interval_us: u32, clkrf: u32, settling: u8) -> u32
    requires
        settling <= 31,
    returns
        least(
            div_round_closest(
                interval_us.wrapping_mul(clkrf / 1000).wrapping_sub(
                    (settling * 2000) as u32,
                ).wrapping_sub(2000),
                2000,
            ),
            131_071,
        ),
{
    least(
        div_round_closest(
            interval_us.wrapping_mul(clkrf / 1000).wrapping_sub(settling as u32 * 2000).wrapping_sub(
                2000,
            ),
            2000,
        ),
        131_071,
    )
}

/// Power measurement duration in RX samples. In slow attack mode two of them have to fit into a
/// gain update interval, or else the interval is the duration.
#[verifier::allow_in_spec]
pub fn power_duration(ctrl: &GainControl, fast: bool, count: u32, clkrf: u32, rx_sampl: u32) -> u32
    requires
        rx_sampl != 0,
        count <= 131_071,
    returns
        ({
            let fir_div = fir_ratio(clkrf, rx_sampl);
            let dur = ctrl.dec_pow_measurement_duration;
            if fast {
                ctrl.f_agc_dec_pow_measurement_duration
            } else if dur == 0 || (count * 2) as u32 / fir_div / dur < 2 {
                count / fir_div
            } else {
                dur
            }
        }),
{
    if fast {
        return ctrl.f_agc_dec_pow_measurement_duration;
    }
    let fir_div: u32 = fir_ratio(clkrf, rx_sampl);
    let dur: u32 = ctrl.dec_pow_measurement_duration;
    if dur == 0 || (count * 2) / fir_div / dur < 2 {
        count / fir_div
    } else {
        dur
    }
}

/// CLKRF over the RX rate, 1 at least.
#[verifier::allow_in_spec]
pub fn fir_ratio(clkrf: u32, rx_sampl: u32) -> u32
    requires
        rx_sampl != 0,
    returns
        (if div_round_closest(clkrf, rx_sampl) < 1 {
            1u32
        } else {
            div_round_closest(clkrf, rx_sampl)
        }),
{
    let ratio: u32 = div_round_closest(clkrf, rx_sampl);
    if ratio < 1 {
        1
    } else {
        ratio
    }
}

/// Fast AGC state wait time in ClkRF cycles.
#[verifier::allow_in_spec]
pub fn energy_detect_count(wait_ns: u32, clkrf: u32) -> u8
    returns
        least(div_round_closest(wait_ns.wrapping_mul(clkrf / 1000), 1_000_000), 31) as u8,
{
    least(div_round_closest(wait_ns.wrapping_mul(clkrf / 1000), 1_000_000), 31) as u8
}

impl EngineView {
    /// Writes the entries of the mixer GM sub table from row `i` on. The index counts down.
    pub open spec fn gm_rows_from(self, i: int) -> Flow
        decreases 16 - i,
    {
        if i >= 16 {
            self.start()
        } else {
            let row = self.run(
                [
                    put(GM_SUB_TABLE_ADDRESS, (15 - i) as u8),
                    put(GM_SUB_TABLE_BIAS_WRITE, 0),
                    put(GM_SUB_TABLE_GAIN_WRITE, GM_ST_GAIN[i]),
                    put(GM_SUB_TABLE_CONTROL_WRITE, GM_ST_CTRL[i]),
                    put(GM_SUB_TABLE_CONFIG, START_GM_SUB_TABLE_CLOCK | WRITE_GM_SUB_TABLE),
                    put(GM_SUB_TABLE_GAIN_READ, 0),
                    put(GM_SUB_TABLE_GAIN_READ, 0),
                ]@,
            );
            if row.err is Some {
                row
            } else {
                row.e.gm_rows_from(i + 1)
            }
        }
    }

    /// All rows of the mixer GM sub table.
    pub open spec fn gm_rows(self) -> Flow {
        self.gm_rows_from(0)
    }

    /// Loads the mixer GM sub table.
    #[verifier::opaque]
    pub open spec fn load_mixer_gm_subtable(self) -> Flow {
        self.run([put(GM_SUB_TABLE_CONFIG, START_GM_SUB_TABLE_CLOCK)]@).gm_rows().run(
            [
                put(GM_SUB_TABLE_CONFIG, START_GM_SUB_TABLE_CLOCK),
                put(GM_SUB_TABLE_GAIN_READ, 0),
                put(GM_SUB_TABLE_GAIN_READ, 0),
                put(GM_SUB_TABLE_CONFIG, 0),
            ]@,
        )
    }

    /// Remembers gain control settings.
    pub open spec fn set_gain_control(self, ctrl: GainControl) -> Flow {
        let st = self.state.v;
        self.set(
            EngineState {
                gain: GainState {
                    gain_ctrl: ctrl,
                    rx1_mode: ctrl.rx1_mode,
                    rx2_mode: ctrl.rx2_mode,
                    ..st.gain
                },
                ..st
            },
        )
    }

    /// Modes and manual gain control.
    #[verifier::opaque]
    pub open spec fn gc_modes(self, ctrl: GainControl) -> Flow {
        let gain = self.state.v.gain;
        let modes = self.run(
            [
                put(
                    AGC_CONFIG1,
                    DEC_PWR_FOR_GAIN_LOCK_EXIT | DEC_PWR_FOR_LOCK_LEVEL | DEC_PWR_FOR_LOW_PWR
                        | flag(gain.any(GainMode::HybridAgc), SLOW_ATTACK_HYBRID_MODE) | (
                    ctrl.rx2_mode.code() << 2) | ctrl.rx1_mode.code(),
                ),
                // AGC_USE_FULL_GAIN_TABLE is set when the table gets loaded
                update(
                    AGC_CONFIG2,
                    MAN_GAIN_CTRL_RX1 | MAN_GAIN_CTRL_RX2 | DIG_GAIN_EN,
                    flag(ctrl.mgc_rx1_ctrl_inp_en, MAN_GAIN_CTRL_RX1) | flag(
                        ctrl.mgc_rx2_ctrl_inp_en,
                        MAN_GAIN_CTRL_RX2,
                    ) | flag(ctrl.dig_gain_en, DIG_GAIN_EN),
                ),
                put(AGC_CONFIG3, agc_config3(&ctrl, gain.split_gt)),
                put(PEAK_WAIT_TIME, step_field(ctrl.mgc_dec_gain_step) << 5),
            ]@,
        );
        if ctrl.dig_gain_en {
            modes.run(
                [
                    put(
                        DIGITAL_GAIN,
                        (ctrl.max_dig_gain & 0x1F) | ((ctrl.dig_gain_step_size & 0x7) << 5),
                    ),
                ]@,
            )
        } else {
            modes
        }
    }

    /// ADC, LMT and power thresholds.
    #[verifier::opaque]
    pub open spec fn gc_thresholds(self, ctrl: GainControl) -> Flow {
        let gain = self.state.v.gain;
        let ordered = ctrl.adc_large_overload_thresh >= ctrl.adc_small_overload_thresh;
        let overload = self.run(
            [
                put(
                    ADC_SMALL_OVERLOAD_THRESH,
                    if ordered {
                        ctrl.adc_small_overload_thresh
                    } else {
                        ctrl.adc_large_overload_thresh
                    },
                ),
                put(
                    ADC_LARGE_OVERLOAD_THRESH,
                    if ordered {
                        ctrl.adc_large_overload_thresh
                    } else {
                        ctrl.adc_small_overload_thresh
                    },
                ),
                put(LARGE_LMT_OVERLOAD_THRESH, lmt_field(ctrl.lmt_overload_high_thresh)),
                update(
                    SMALL_LMT_OVERLOAD_THRESH,
                    SMALL_LMT_THRESH,
                    lmt_field(ctrl.lmt_overload_low_thresh),
                ),
            ]@,
        );
        let split = if gain.split_gt {
            // RX LPF gain indices and initial LMT gain limit
            overload.run(
                [
                    put(RX1_MANUAL_LPF_GAIN, 0x58),
                    put(RX2_MANUAL_LPF_GAIN, 0x18),
                    put(FAST_INITIAL_LMT_GAIN_LIMIT, 0x27),
                ]@,
            )
        } else {
            overload
        };
        split.run(
            [
                put(RX1_MANUAL_DIGITALFORCED_GAIN, 0),
                put(RX2_MANUAL_DIGITALFORCED_GAIN, 0),
                // can spill into the top bit (DONT_UNLOCK_GAIN_IF_ADC_OVRG)
                put(FAST_LOW_POWER_THRESH, (at_most(ctrl.low_power_thresh, 64) * 2) as u8),
                put(TX_SYMBOL_ATTEN_CONFIG, 0),
                update(
                    DEC_POWER_MEASURE_DURATION0,
                    USE_HB1_OUT_FOR_DEC_PWR_MEAS,
                    flag(!ctrl.use_rx_fir_out_for_dec_pwr_meas, USE_HB1_OUT_FOR_DEC_PWR_MEAS),
                ),
                update(DEC_POWER_MEASURE_DURATION0, ENABLE_DEC_PWR_MEAS, ENABLE_DEC_PWR_MEAS),
                update(
                    DEC_POWER_MEASURE_DURATION0,
                    DEC_POWER_MEASUREMENT_DURATION,
                    duration_field(
                        if gain.any(GainMode::FastAttackAgc) {
                            ctrl.f_agc_dec_pow_measurement_duration
                        } else {
                            ctrl.dec_pow_measurement_duration
                        },
                    ),
                ),
            ]@,
        )
    }

    /// Slow attack AGC.
    #[verifier::opaque]
    pub open spec fn gc_slow_attack(self, ctrl: GainControl) -> Flow {
        let inner_high = at_most(ctrl.agc_inner_thresh_high, 127);
        let inner_low = at_most(ctrl.agc_inner_thresh_low, 127);
        self.run(
            [
                update(AGC_LOCK_LEVEL, AGC_LOCK_LEVEL_INNER_HIGH_THRESH, inner_high),
                put(
                    AGC_INNER_LOW_THRESH,
                    inner_low | flag(
                        ctrl.adc_lmt_small_overload_prevent_gain_inc,
                        PREVENT_GAIN_INC,
                    ),
                ),
                put(
                    OUTER_POWER_THRESHS,
                    (nibble_difference(inner_high, ctrl.agc_outer_thresh_high) << 4)
                        | nibble_difference(ctrl.agc_outer_thresh_low, inner_low),
                ),
                put(
                    GAIN_STP2,
                    ((ctrl.agc_outer_thresh_high_dec_steps & 0xF) << 4) | (
                    ctrl.agc_outer_thresh_low_inc_steps & 0xF),
                ),
                put(
                    GAIN_STP1,
                    flag(
                        ctrl.immed_gain_change_if_large_adc_overload,
                        IMMED_GAIN_CHANGE_IF_LG_ADC_OVERLOAD,
                    ) | flag(
                        ctrl.immed_gain_change_if_large_lmt_overload,
                        IMMED_GAIN_CHANGE_IF_LG_LMT_OVERLOAD,
                    ) | ((ctrl.agc_inner_thresh_high_dec_steps & 0x7) << 4) | (
                    ctrl.agc_inner_thresh_low_inc_steps & 0x7),
                ),
                put(
                    ADC_OVERLOAD_COUNTERS,
                    ((ctrl.adc_large_overload_exceed_counter & 0xF) << 4) | (
                    ctrl.adc_small_overload_exceed_counter & 0xF),
                ),
                put(
                    GAIN_STP_CONFIG2,
                    ((ctrl.f_agc_large_overload_inc_steps & 0x7) << 4) | (
                    ctrl.adc_large_overload_inc_steps & 0xF),
                ),
                put(
                    LMT_OVERLOAD_COUNTERS,
                    ((ctrl.lmt_overload_large_exceed_counter & 0xF) << 4) | (
                    ctrl.lmt_overload_small_exceed_counter & 0xF),
                ),
                update(
                    GAIN_STP_CONFIG1,
                    DEC_STP_SIZE_FOR_LARGE_LMT_OVERLOAD,
                    (ctrl.lmt_overload_large_inc_steps & 0x7) << 2,
                ),
                put(
                    DIGITAL_SAT_COUNTER,
                    (ctrl.dig_saturation_exceed_counter & 0xF) | flag(
                        ctrl.sync_for_gain_counter_en,
                        ENABLE_SYNC_FOR_GAIN_COUNTER,
                    ),
                ),
            ]@,
        )
    }

    /// Fast attack AGC: low power, lock level, peak detectors, final settling and power test.
    #[verifier::opaque]
    pub open spec fn gc_fast_attack(self, ctrl: GainControl) -> Flow {
        self.run(
            [
                // low power
                update(
                    FAST_CONFIG1,
                    ENABLE_INCR_GAIN,
                    flag(ctrl.f_agc_allow_agc_gain_increase, ENABLE_INCR_GAIN),
                ),
                put(FAST_INCREMENT_TIME, ctrl.f_agc_lp_thresh_increment_time),
                update(
                    FAST_ENERGY_DETECT_COUNT,
                    INCREMENT_GAIN_STP_LPFLMT,
                    low_power_step_field(ctrl.f_agc_lp_thresh_increment_steps) << 5,
                ),
                // lock level (shared with agc_inner_thresh_high)
                update(
                    FAST_CONFIG2_SETTLING_DELAY,
                    ENABLE_LMT_GAIN_INC_FOR_LOCK_LEVEL,
                    flag(
                        ctrl.f_agc_lock_level_lmt_gain_increase_en,
                        ENABLE_LMT_GAIN_INC_FOR_LOCK_LEVEL,
                    ),
                ),
                update(
                    FAST_AGCLL_UPPER_LIMIT,
                    AGCLL_MAX_INCREASE,
                    at_most(ctrl.f_agc_lock_level_gain_increase_upper_limit, 63),
                ),
                // peak detectors and final settling
                update(
                    FAST_ENERGY_LOST_THRESH,
                    POST_LOCK_LEVEL_STP_SIZE_FOR_LPF_TABLE,
                    at_most(ctrl.f_agc_lpf_final_settling_steps, 3) << 6,
                ),
                update(
                    FAST_STRONGER_SIGNAL_THRESH,
                    POST_LOCK_LEVEL_STP_FOR_LMT_TABLE,
                    at_most(ctrl.f_agc_lmt_final_settling_steps, 3) << 6,
                ),
                update(
                    FAST_FINAL_OVER_RANGE_AND_OPT_GAIN,
                    FINAL_OVER_RANGE_COUNT,
                    at_most(ctrl.f_agc_final_overrange_count, 7) << 5,
                ),
                // final power test
                update(
                    FAST_CONFIG1,
                    ENABLE_GAIN_INC_AFTER_GAIN_LOCK,
                    flag(
                        ctrl.f_agc_gain_increase_after_gain_lock_en,
                        ENABLE_GAIN_INC_AFTER_GAIN_LOCK,
                    ),
                ),
            ]@,
        )
    }

    /// Fast attack AGC: unlocking the gain.
    #[verifier::opaque]
    pub open spec fn gc_unlock(self, ctrl: GainControl) -> Flow {
        self.run(
            [
                update(
                    FAST_CONFIG1,
                    GOTO_SET_GAIN_IF_EXIT_RX_STATE | GOTO_OPTIMIZED_GAIN_IF_EXIT_RX_STATE,
                    flag(
                        ctrl.f_agc_gain_index_type_after_exit_rx_mode == FastAgcTargetGain::SetGain,
                        GOTO_SET_GAIN_IF_EXIT_RX_STATE,
                    ) | flag(
                        ctrl.f_agc_gain_index_type_after_exit_rx_mode
                            == FastAgcTargetGain::OptimizedGain,
                        GOTO_OPTIMIZED_GAIN_IF_EXIT_RX_STATE,
                    ),
                ),
                update(
                    FAST_CONFIG2_SETTLING_DELAY,
                    USE_LAST_LOCK_LEVEL_FOR_SET_GAIN,
                    flag(
                        ctrl.f_agc_use_last_lock_level_for_set_gain_en,
                        USE_LAST_LOCK_LEVEL_FOR_SET_GAIN,
                    ),
                ),
                update(
                    FAST_FINAL_OVER_RANGE_AND_OPT_GAIN,
                    OPTIMIZE_GAIN_OFFSET,
                    at_most(ctrl.f_agc_optimized_gain_offset, 15),
                ),
                update(
                    AGC_CONFIG2,
                    AGC_GAIN_UNLOCK_CTRL,
                    flag(unlock_control(&ctrl), AGC_GAIN_UNLOCK_CTRL),
                ),
                update(
                    FAST_STRONG_SIGNAL_FREEZE,
                    DONT_UNLOCK_GAIN_IF_STRONGER_SIGNAL,
                    flag(
                        !ctrl.f_agc_rst_gla_stronger_sig_thresh_exceeded_en,
                        DONT_UNLOCK_GAIN_IF_STRONGER_SIGNAL,
                    ),
                ),
                update(
                    FAST_STRONGER_SIGNAL_THRESH,
                    STRONGER_SIGNAL_THRESH,
                    at_most(ctrl.f_agc_rst_gla_stronger_sig_thresh_above_ll, 63),
                ),
                update(
                    FAST_ENERGY_LOST_THRESH,
                    ENERGY_LOST_THRESH,
                    at_most(ctrl.f_agc_rst_gla_energy_lost_sig_thresh_below_ll, 63),
                ),
                update(
                    FAST_CONFIG1,
                    GOTO_OPT_GAIN_IF_ENERGY_LOST_OR_EN_AGC_HIGH,
                    flag(
                        ctrl.f_agc_rst_gla_energy_lost_goto_optim_gain_en,
                        GOTO_OPT_GAIN_IF_ENERGY_LOST_OR_EN_AGC_HIGH,
                    ),
                ),
                update(
                    FAST_CONFIG1,
                    DONT_UNLOCK_GAIN_IF_ENERGY_LOST,
                    flag(
                        !ctrl.f_agc_rst_gla_energy_lost_sig_thresh_exceeded_en,
                        DONT_UNLOCK_GAIN_IF_ENERGY_LOST,
                    ),
                ),
                update(
                    FAST_GAIN_LOCK_EXIT_COUNT,
                    GAIN_LOCK_EXIT_COUNT,
                    at_most(ctrl.f_agc_energy_lost_stronger_sig_gain_lock_exit_cnt, 63),
                ),
                update(
                    FAST_CONFIG1,
                    DONT_UNLOCK_GAIN_IF_LG_ADC_OR_LMT_OVRG,
                    flag(
                        !ctrl.f_agc_rst_gla_large_adc_overload_en
                            || !ctrl.f_agc_rst_gla_large_lmt_overload_en,
                        DONT_UNLOCK_GAIN_IF_LG_ADC_OR_LMT_OVRG,
                    ),
                ),
                update(
                    FAST_LOW_POWER_THRESH,
                    DONT_UNLOCK_GAIN_IF_ADC_OVRG,
                    flag(!ctrl.f_agc_rst_gla_large_adc_overload_en, DONT_UNLOCK_GAIN_IF_ADC_OVRG),
                ),
            ]@,
        )
    }

    /// What EN_AGC does when it goes high.
    #[verifier::opaque]
    pub open spec fn set_agc_pulled_high(
        self,
        goto_max_or_opt: bool,
        goto_set: bool,
        goto_opt: Option<bool>,
    ) -> Flow {
        let action = self.run(
            [
                update(
                    FAST_CONFIG2_SETTLING_DELAY,
                    GOTO_MAX_GAIN_OR_OPT_GAIN_IF_EN_AGC_HIGH,
                    flag(goto_max_or_opt, GOTO_MAX_GAIN_OR_OPT_GAIN_IF_EN_AGC_HIGH),
                ),
                update(
                    FAST_CONFIG1,
                    GOTO_SET_GAIN_IF_EN_AGC_HIGH,
                    flag(goto_set, GOTO_SET_GAIN_IF_EN_AGC_HIGH),
                ),
            ]@,
        );
        match goto_opt {
            None => action,
            Some(opt) => action.run(
                [
                    update(
                        FAST_CONFIG1,
                        GOTO_OPT_GAIN_IF_ENERGY_LOST_OR_EN_AGC_HIGH,
                        flag(opt, GOTO_OPT_GAIN_IF_ENERGY_LOST_OR_EN_AGC_HIGH),
                    ),
                ]@,
            ),
        }
    }

    /// Gain control setup, common part for MGC and AGC.
    #[verifier::opaque]
    pub open spec fn gc_setup(self, ctrl: GainControl) -> Flow {
        let (max_or_opt, set, opt) = pulled_high_action(&ctrl);
        self.set_gain_control(ctrl).gc_modes(ctrl).gc_thresholds(ctrl).gc_slow_attack(
            ctrl,
        ).gc_fast_attack(ctrl).gc_unlock(ctrl).set_agc_pulled_high(max_or_opt, set, opt).run(
            [
                update(
                    RX1_MANUAL_LPF_GAIN,
                    POWER_MEAS_IN_STATE_5,
                    (state5_field(&ctrl) & 0x7) << 5,
                ),
                update(
                    RX1_MANUAL_LMT_FULL_GAIN,
                    POWER_MEAS_IN_STATE_5_MSB,
                    flag(state5_field(&ctrl) >= 8, POWER_MEAS_IN_STATE_5_MSB),
                ),
            ]@,
        ).gc_update()
    }

    /// The timing that depends on CLKRF and the RX rate. No timing can be worked out without
    /// them, and a power measurement takes 16 samples at least.
    #[verifier::opaque]
    pub open spec fn gc_update(self) -> Flow {
        let gain = self.state.v.gain;
        let ctrl = gain.gain_ctrl;
        let clkrf = self.state.v.clk.rates.clkrf.raw;
        let rx_sampl = self.state.v.clk.rates.rx_sampl.raw;
        if clkrf < 2000 || rx_sampl == 0 {
            self.fail(Ad9361Error::InvalidRate)
        } else {
            let delay_lna = gain.elna_settling_delay_ns;
            let settling = settling_delay(delay_lna, clkrf);
            let count = gain_update_count(ctrl.gain_update_interval_us, clkrf, settling);
            let duration = power_duration(
                &ctrl,
                gain.any(GainMode::FastAttackAgc),
                count,
                clkrf,
                rx_sampl,
            );
            let delays = self.run(
                [
                    update(
                        AGC_ATTACK_DELAY,
                        ATTACK_DELAY,
                        attack_delay(delay_lna, clkrf, ctrl.agc_attack_delay_extra_margin_us),
                    ),
                    update(PEAK_WAIT_TIME, PEAK_OVERLOAD_WAIT_TIME, peak_wait(delay_lna, clkrf)),
                    update(FAST_CONFIG2_SETTLING_DELAY, SETTLING_DELAY, settling),
                ]@,
            );
            if duration < 16 {
                delays.fail(Ad9361Error::GainControlTiming)
            } else {
                // a count over 16 bits is halved and doubled in the chip
                let double = count > 65_535;
                let half = if double {
                    count / 2
                } else {
                    count
                };
                delays.run(
                    [
                        update(
                            DEC_POWER_MEASURE_DURATION0,
                            DEC_POWER_MEASUREMENT_DURATION,
                            duration_field(duration),
                        ),
                        update(
                            DIGITAL_SAT_COUNTER,
                            DOUBLE_GAIN_COUNTER,
                            flag(double, DOUBLE_GAIN_COUNTER),
                        ),
                        put(GAIN_UPDATE_COUNTER1, half as u8),
                        put(GAIN_UPDATE_COUNTER2, (half >> 8) as u8),
                        update(
                            FAST_ENERGY_DETECT_COUNT,
                            ENERGY_DETECT_COUNT,
                            energy_detect_count(ctrl.f_agc_state_wait_time_ns, clkrf),
                        ),
                    ]@,
                )
            }
        }
    }
}

impl<'a> Engine<'a> {
    /// Loads the mixer GM sub table.
    pub fn load_mixer_gm_subtable(&mut self) -> (r: Result<(), Fault>)
        ensures
            flow(final(self)@, r) == old(self)@.load_mixer_gm_subtable(),
    {
        reveal(EngineView::load_mixer_gm_subtable);
        self.run(&[put(GM_SUB_TABLE_CONFIG, START_GM_SUB_TABLE_CLOCK)])?;
        self.gm_rows()?;
        // clear the write bit, then stop the clock
        self.run(&[
            put(GM_SUB_TABLE_CONFIG, START_GM_SUB_TABLE_CLOCK),
            put(GM_SUB_TABLE_GAIN_READ, 0),
            put(GM_SUB_TABLE_GAIN_READ, 0),
            put(GM_SUB_TABLE_CONFIG, 0),
        ])
    }

    fn gm_rows(&mut self) -> (r: Result<(), Fault>)
        ensures
            flow(final(self)@, r) == old(self)@.gm_rows(),
    {
        let mut i: usize = 0;
        while i < 16
            invariant
                i <= 16,
                old(self)@.gm_rows_from(0) == self@.gm_rows_from(i as int),
            decreases 16 - i,
        {
            self.run(&[
                put(GM_SUB_TABLE_ADDRESS, (15 - i) as u8),
                put(GM_SUB_TABLE_BIAS_WRITE, 0),
                put(GM_SUB_TABLE_GAIN_WRITE, GM_ST_GAIN[i]),
                put(GM_SUB_TABLE_CONTROL_WRITE, GM_ST_CTRL[i]),
                put(GM_SUB_TABLE_CONFIG, START_GM_SUB_TABLE_CLOCK | WRITE_GM_SUB_TABLE),
                put(GM_SUB_TABLE_GAIN_READ, 0),
                put(GM_SUB_TABLE_GAIN_READ, 0),
            ])?;
            i = i + 1;
        }
        Ok(())
    }

    /// Gain control setup, common part for MGC and AGC.
    pub fn gc_setup(&mut self, ctrl: &GainControl) -> (r: Result<(), Fault>)
        ensures
            flow(final(self)@, r) == old(self)@.gc_setup(*ctrl),
    {
        reveal(EngineView::gc_setup);
        let ctrl: GainControl = *ctrl;
        self.state.v.gain.gain_ctrl = ctrl;
        self.state.v.gain.rx1_mode = ctrl.rx1_mode;
        self.state.v.gain.rx2_mode = ctrl.rx2_mode;
        self.gc_modes(&ctrl)?;
        self.gc_thresholds(&ctrl)?;
        self.gc_slow_attack(&ctrl)?;
        self.gc_fast_attack(&ctrl)?;
        self.gc_unlock(&ctrl)?;
        let (max_or_opt, set, opt) = pulled_high_action(&ctrl);
        self.set_agc_pulled_high(max_or_opt, set, opt)?;
        self.run(&[
            update(
                RX1_MANUAL_LPF_GAIN,
                POWER_MEAS_IN_STATE_5,
                (state5_field(&ctrl) & 0x7) << 5,
            ),
            update(
                RX1_MANUAL_LMT_FULL_GAIN,
                POWER_MEAS_IN_STATE_5_MSB,
                flag(state5_field(&ctrl) >= 8, POWER_MEAS_IN_STATE_5_MSB),
            ),
        ])?;
        self.gc_update()
    }

    /// Modes and manual gain control.
    fn gc_modes(&mut self, ctrl: &GainControl) -> (r: Result<(), Fault>)
        ensures
            flow(final(self)@, r) == old(self)@.gc_modes(*ctrl),
    {
        reveal(EngineView::gc_modes);
        let ctrl: GainControl = *ctrl;
        let gain: GainState = self.state.v.gain;
        self.run(&[
            put(
                AGC_CONFIG1,
                DEC_PWR_FOR_GAIN_LOCK_EXIT | DEC_PWR_FOR_LOCK_LEVEL | DEC_PWR_FOR_LOW_PWR
                    | flag(gain.any(GainMode::HybridAgc), SLOW_ATTACK_HYBRID_MODE) | (
                ctrl.rx2_mode.code() << 2) | ctrl.rx1_mode.code(),
            ),
            // AGC_USE_FULL_GAIN_TABLE is set when the table gets loaded
            update(
                AGC_CONFIG2,
                MAN_GAIN_CTRL_RX1 | MAN_GAIN_CTRL_RX2 | DIG_GAIN_EN,
                flag(ctrl.mgc_rx1_ctrl_inp_en, MAN_GAIN_CTRL_RX1) | flag(
                    ctrl.mgc_rx2_ctrl_inp_en,
                    MAN_GAIN_CTRL_RX2,
                ) | flag(ctrl.dig_gain_en, DIG_GAIN_EN),
            ),
            put(AGC_CONFIG3, agc_config3(&ctrl, gain.split_gt)),
            put(PEAK_WAIT_TIME, step_field(ctrl.mgc_dec_gain_step) << 5),
        ])?;
        if ctrl.dig_gain_en {
            self.run(&[
                put(
                    DIGITAL_GAIN,
                    (ctrl.max_dig_gain & 0x1F) | ((ctrl.dig_gain_step_size & 0x7) << 5),
                ),
            ])?;
        }
        Ok(())
    }

    /// ADC, LMT and power thresholds.
    fn gc_thresholds(&mut self, ctrl: &GainControl) -> (r: Result<(), Fault>)
        ensures
            flow(final(self)@, r) == old(self)@.gc_thresholds(*ctrl),
    {
        reveal(EngineView::gc_thresholds);
        let ctrl: GainControl = *ctrl;
        let gain: GainState = self.state.v.gain;
        let ordered = ctrl.adc_large_overload_thresh >= ctrl.adc_small_overload_thresh;
        self.run(&[
            put(
                ADC_SMALL_OVERLOAD_THRESH,
                if ordered {
                    ctrl.adc_small_overload_thresh
                } else {
                    ctrl.adc_large_overload_thresh
                },
            ),
            put(
                ADC_LARGE_OVERLOAD_THRESH,
                if ordered {
                    ctrl.adc_large_overload_thresh
                } else {
                    ctrl.adc_small_overload_thresh
                },
            ),
            put(LARGE_LMT_OVERLOAD_THRESH, lmt_field(ctrl.lmt_overload_high_thresh)),
            update(
                SMALL_LMT_OVERLOAD_THRESH,
                SMALL_LMT_THRESH,
                lmt_field(ctrl.lmt_overload_low_thresh),
            ),
        ])?;
        if gain.split_gt {
            self.run(&[
                put(RX1_MANUAL_LPF_GAIN, 0x58),
                put(RX2_MANUAL_LPF_GAIN, 0x18),
                put(FAST_INITIAL_LMT_GAIN_LIMIT, 0x27),
            ])?;
        }
        self.run(&[
            put(RX1_MANUAL_DIGITALFORCED_GAIN, 0),
            put(RX2_MANUAL_DIGITALFORCED_GAIN, 0),
            // can spill into the top bit (DONT_UNLOCK_GAIN_IF_ADC_OVRG)
            put(FAST_LOW_POWER_THRESH, (at_most(ctrl.low_power_thresh, 64) * 2) as u8),
            put(TX_SYMBOL_ATTEN_CONFIG, 0),
            update(
                DEC_POWER_MEASURE_DURATION0,
                USE_HB1_OUT_FOR_DEC_PWR_MEAS,
                flag(!ctrl.use_rx_fir_out_for_dec_pwr_meas, USE_HB1_OUT_FOR_DEC_PWR_MEAS),
            ),
            update(DEC_POWER_MEASURE_DURATION0, ENABLE_DEC_PWR_MEAS, ENABLE_DEC_PWR_MEAS),
            update(
                DEC_POWER_MEASURE_DURATION0,
                DEC_POWER_MEASUREMENT_DURATION,
                duration_field(
                    if gain.any(GainMode::FastAttackAgc) {
                        ctrl.f_agc_dec_pow_measurement_duration
                    } else {
                        ctrl.dec_pow_measurement_duration
                    },
                ),
            ),
        ])
    }

    /// Slow attack AGC.
    fn gc_slow_attack(&mut self, ctrl: &GainControl) -> (r: Result<(), Fault>)
        ensures
            flow(final(self)@, r) == old(self)@.gc_slow_attack(*ctrl),
    {
        reveal(EngineView::gc_slow_attack);
        let ctrl: GainControl = *ctrl;
        let inner_high: u8 = at_most(ctrl.agc_inner_thresh_high, 127);
        let inner_low: u8 = at_most(ctrl.agc_inner_thresh_low, 127);
        self.run(&[
            update(AGC_LOCK_LEVEL, AGC_LOCK_LEVEL_INNER_HIGH_THRESH, inner_high),
            put(
                AGC_INNER_LOW_THRESH,
                inner_low | flag(
                    ctrl.adc_lmt_small_overload_prevent_gain_inc,
                    PREVENT_GAIN_INC,
                ),
            ),
            put(
                OUTER_POWER_THRESHS,
                (nibble_difference(inner_high, ctrl.agc_outer_thresh_high) << 4)
                    | nibble_difference(ctrl.agc_outer_thresh_low, inner_low),
            ),
            put(
                GAIN_STP2,
                ((ctrl.agc_outer_thresh_high_dec_steps & 0xF) << 4) | (
                ctrl.agc_outer_thresh_low_inc_steps & 0xF),
            ),
            put(
                GAIN_STP1,
                flag(
                    ctrl.immed_gain_change_if_large_adc_overload,
                    IMMED_GAIN_CHANGE_IF_LG_ADC_OVERLOAD,
                ) | flag(
                    ctrl.immed_gain_change_if_large_lmt_overload,
                    IMMED_GAIN_CHANGE_IF_LG_LMT_OVERLOAD,
                ) | ((ctrl.agc_inner_thresh_high_dec_steps & 0x7) << 4) | (
                ctrl.agc_inner_thresh_low_inc_steps & 0x7),
            ),
            put(
                ADC_OVERLOAD_COUNTERS,
                ((ctrl.adc_large_overload_exceed_counter & 0xF) << 4) | (
                ctrl.adc_small_overload_exceed_counter & 0xF),
            ),
            put(
                GAIN_STP_CONFIG2,
                ((ctrl.f_agc_large_overload_inc_steps & 0x7) << 4) | (
                ctrl.adc_large_overload_inc_steps & 0xF),
            ),
            put(
                LMT_OVERLOAD_COUNTERS,
                ((ctrl.lmt_overload_large_exceed_counter & 0xF) << 4) | (
                ctrl.lmt_overload_small_exceed_counter & 0xF),
            ),
            update(
                GAIN_STP_CONFIG1,
                DEC_STP_SIZE_FOR_LARGE_LMT_OVERLOAD,
                (ctrl.lmt_overload_large_inc_steps & 0x7) << 2,
            ),
            put(
                DIGITAL_SAT_COUNTER,
                (ctrl.dig_saturation_exceed_counter & 0xF) | flag(
                    ctrl.sync_for_gain_counter_en,
                    ENABLE_SYNC_FOR_GAIN_COUNTER,
                ),
            ),
        ])
    }

    /// Fast attack AGC: low power, lock level, peak detectors, final settling and power test.
    fn gc_fast_attack(&mut self, ctrl: &GainControl) -> (r: Result<(), Fault>)
        ensures
            flow(final(self)@, r) == old(self)@.gc_fast_attack(*ctrl),
    {
        reveal(EngineView::gc_fast_attack);
        let ctrl: GainControl = *ctrl;
        self.run(&[
            // low power
            update(
                FAST_CONFIG1,
                ENABLE_INCR_GAIN,
                flag(ctrl.f_agc_allow_agc_gain_increase, ENABLE_INCR_GAIN),
            ),
            put(FAST_INCREMENT_TIME, ctrl.f_agc_lp_thresh_increment_time),
            update(
                FAST_ENERGY_DETECT_COUNT,
                INCREMENT_GAIN_STP_LPFLMT,
                low_power_step_field(ctrl.f_agc_lp_thresh_increment_steps) << 5,
            ),
            // lock level (shared with agc_inner_thresh_high)
            update(
                FAST_CONFIG2_SETTLING_DELAY,
                ENABLE_LMT_GAIN_INC_FOR_LOCK_LEVEL,
                flag(
                    ctrl.f_agc_lock_level_lmt_gain_increase_en,
                    ENABLE_LMT_GAIN_INC_FOR_LOCK_LEVEL,
                ),
            ),
            update(
                FAST_AGCLL_UPPER_LIMIT,
                AGCLL_MAX_INCREASE,
                at_most(ctrl.f_agc_lock_level_gain_increase_upper_limit, 63),
            ),
            // peak detectors and final settling
            update(
                FAST_ENERGY_LOST_THRESH,
                POST_LOCK_LEVEL_STP_SIZE_FOR_LPF_TABLE,
                at_most(ctrl.f_agc_lpf_final_settling_steps, 3) << 6,
            ),
            update(
                FAST_STRONGER_SIGNAL_THRESH,
                POST_LOCK_LEVEL_STP_FOR_LMT_TABLE,
                at_most(ctrl.f_agc_lmt_final_settling_steps, 3) << 6,
            ),
            update(
                FAST_FINAL_OVER_RANGE_AND_OPT_GAIN,
                FINAL_OVER_RANGE_COUNT,
                at_most(ctrl.f_agc_final_overrange_count, 7) << 5,
            ),
            // final power test
            update(
                FAST_CONFIG1,
                ENABLE_GAIN_INC_AFTER_GAIN_LOCK,
                flag(
                    ctrl.f_agc_gain_increase_after_gain_lock_en,
                    ENABLE_GAIN_INC_AFTER_GAIN_LOCK,
                ),
            ),
        ])
    }

    /// Fast attack AGC: unlocking the gain.
    fn gc_unlock(&mut self, ctrl: &GainControl) -> (r: Result<(), Fault>)
        ensures
            flow(final(self)@, r) == old(self)@.gc_unlock(*ctrl),
    {
        reveal(EngineView::gc_unlock);
        let ctrl: GainControl = *ctrl;
        self.run(&[
            update(
                FAST_CONFIG1,
                GOTO_SET_GAIN_IF_EXIT_RX_STATE | GOTO_OPTIMIZED_GAIN_IF_EXIT_RX_STATE,
                flag(
                    ctrl.f_agc_gain_index_type_after_exit_rx_mode == FastAgcTargetGain::SetGain,
                    GOTO_SET_GAIN_IF_EXIT_RX_STATE,
                ) | flag(
                    ctrl.f_agc_gain_index_type_after_exit_rx_mode
                        == FastAgcTargetGain::OptimizedGain,
                    GOTO_OPTIMIZED_GAIN_IF_EXIT_RX_STATE,
                ),
            ),
            update(
                FAST_CONFIG2_SETTLING_DELAY,
                USE_LAST_LOCK_LEVEL_FOR_SET_GAIN,
                flag(
                    ctrl.f_agc_use_last_lock_level_for_set_gain_en,
                    USE_LAST_LOCK_LEVEL_FOR_SET_GAIN,
                ),
            ),
            update(
                FAST_FINAL_OVER_RANGE_AND_OPT_GAIN,
                OPTIMIZE_GAIN_OFFSET,
                at_most(ctrl.f_agc_optimized_gain_offset, 15),
            ),
            update(
                AGC_CONFIG2,
                AGC_GAIN_UNLOCK_CTRL,
                flag(unlock_control(&ctrl), AGC_GAIN_UNLOCK_CTRL),
            ),
            update(
                FAST_STRONG_SIGNAL_FREEZE,
                DONT_UNLOCK_GAIN_IF_STRONGER_SIGNAL,
                flag(
                    !ctrl.f_agc_rst_gla_stronger_sig_thresh_exceeded_en,
                    DONT_UNLOCK_GAIN_IF_STRONGER_SIGNAL,
                ),
            ),
            update(
                FAST_STRONGER_SIGNAL_THRESH,
                STRONGER_SIGNAL_THRESH,
                at_most(ctrl.f_agc_rst_gla_stronger_sig_thresh_above_ll, 63),
            ),
            update(
                FAST_ENERGY_LOST_THRESH,
                ENERGY_LOST_THRESH,
                at_most(ctrl.f_agc_rst_gla_energy_lost_sig_thresh_below_ll, 63),
            ),
            update(
                FAST_CONFIG1,
                GOTO_OPT_GAIN_IF_ENERGY_LOST_OR_EN_AGC_HIGH,
                flag(
                    ctrl.f_agc_rst_gla_energy_lost_goto_optim_gain_en,
                    GOTO_OPT_GAIN_IF_ENERGY_LOST_OR_EN_AGC_HIGH,
                ),
            ),
            update(
                FAST_CONFIG1,
                DONT_UNLOCK_GAIN_IF_ENERGY_LOST,
                flag(
                    !ctrl.f_agc_rst_gla_energy_lost_sig_thresh_exceeded_en,
                    DONT_UNLOCK_GAIN_IF_ENERGY_LOST,
                ),
            ),
            update(
                FAST_GAIN_LOCK_EXIT_COUNT,
                GAIN_LOCK_EXIT_COUNT,
                at_most(ctrl.f_agc_energy_lost_stronger_sig_gain_lock_exit_cnt, 63),
            ),
            update(
                FAST_CONFIG1,
                DONT_UNLOCK_GAIN_IF_LG_ADC_OR_LMT_OVRG,
                flag(
                    !ctrl.f_agc_rst_gla_large_adc_overload_en
                        || !ctrl.f_agc_rst_gla_large_lmt_overload_en,
                    DONT_UNLOCK_GAIN_IF_LG_ADC_OR_LMT_OVRG,
                ),
            ),
            update(
                FAST_LOW_POWER_THRESH,
                DONT_UNLOCK_GAIN_IF_ADC_OVRG,
                flag(!ctrl.f_agc_rst_gla_large_adc_overload_en, DONT_UNLOCK_GAIN_IF_ADC_OVRG),
            ),
        ])
    }

    fn set_agc_pulled_high(
        &mut self,
        goto_max_or_opt: bool,
        goto_set: bool,
        goto_opt: Option<bool>,
    ) -> (r: Result<(), Fault>)
        ensures
            flow(final(self)@, r) == old(self)@.set_agc_pulled_high(
                goto_max_or_opt,
                goto_set,
                goto_opt,
            ),
    {
        reveal(EngineView::set_agc_pulled_high);
        self.run(&[
            update(
                FAST_CONFIG2_SETTLING_DELAY,
                GOTO_MAX_GAIN_OR_OPT_GAIN_IF_EN_AGC_HIGH,
                flag(goto_max_or_opt, GOTO_MAX_GAIN_OR_OPT_GAIN_IF_EN_AGC_HIGH),
            ),
            update(
                FAST_CONFIG1,
                GOTO_SET_GAIN_IF_EN_AGC_HIGH,
                flag(goto_set, GOTO_SET_GAIN_IF_EN_AGC_HIGH),
            ),
        ])?;
        if let Some(opt) = goto_opt {
            self.run(&[
                update(
                    FAST_CONFIG1,
                    GOTO_OPT_GAIN_IF_ENERGY_LOST_OR_EN_AGC_HIGH,
                    flag(opt, GOTO_OPT_GAIN_IF_ENERGY_LOST_OR_EN_AGC_HIGH),
                ),
            ])?;
        }
        Ok(())
    }

    /// Redoes the timing that depends on CLKRF and the RX rate. Call it after baseband clock
    /// changes.
    pub fn gc_update(&mut self) -> (r: Result<(), Fault>)
        ensures
            flow(final(self)@, r) == old(self)@.gc_update(),
    {
        reveal(EngineView::gc_update);
        let gain: GainState = self.state.v.gain;
        let ctrl: GainControl = gain.gain_ctrl;
        let clkrf: u32 = self.state.v.clk.rates.clkrf.raw;
        let rx_sampl: u32 = self.state.v.clk.rates.rx_sampl.raw;
        if clkrf < 2000 || rx_sampl == 0 {
            return Err(Ad9361Error::InvalidRate);
        }
        let delay_lna: u32 = gain.elna_settling_delay_ns;
        let settling: u8 = settling_delay(delay_lna, clkrf);
        let count: u32 = gain_update_count(ctrl.gain_update_interval_us, clkrf, settling);
        let duration: u32 = power_duration(
            &ctrl,
            gain.any(GainMode::FastAttackAgc),
            count,
            clkrf,
            rx_sampl,
        );
        self.run(&[
            update(
                AGC_ATTACK_DELAY,
                ATTACK_DELAY,
                attack_delay(delay_lna, clkrf, ctrl.agc_attack_delay_extra_margin_us),
            ),
            update(PEAK_WAIT_TIME, PEAK_OVERLOAD_WAIT_TIME, peak_wait(delay_lna, clkrf)),
            update(FAST_CONFIG2_SETTLING_DELAY, SETTLING_DELAY, settling),
        ])?;
        if duration < 16 {
            return Err(Ad9361Error::GainControlTiming);
        }
        let double = count > 65_535;
        let half: u32 = if double {
            count / 2
        } else {
            count
        };
        self.run(&[
            update(
                DEC_POWER_MEASURE_DURATION0,
                DEC_POWER_MEASUREMENT_DURATION,
                duration_field(duration),
            ),
            update(
                DIGITAL_SAT_COUNTER,
                DOUBLE_GAIN_COUNTER,
                flag(double, DOUBLE_GAIN_COUNTER),
            ),
            put(GAIN_UPDATE_COUNTER1, half as u8),
            put(GAIN_UPDATE_COUNTER2, (half >> 8) as u8),
            update(
                FAST_ENERGY_DETECT_COUNT,
                ENERGY_DETECT_COUNT,
                energy_detect_count(ctrl.f_agc_state_wait_time_ns, clkrf),
            ),
        ])
    }
}

/// First entry from `from` on with at least this gain. The length if there is none.
pub open spec fn first_reach(abs_gain: Seq<i8>, gain: i8, from: int) -> int
    decreases abs_gain.len() - from,
{
    if from >= abs_gain.len() {
        abs_gain.len() as int
    } else if abs_gain[from] >= gain {
        from
    } else {
        first_reach(abs_gain, gain, from + 1)
    }
}

/// How far apart two gains are.
pub open spec fn gain_distance(a: i8, b: i8) -> int {
    if a >= b {
        a - b
    } else {
        b - a
    }
}

/// Entry of a gain table closest to a gain: the first one that reaches it, or the one before where
/// that is closer. The last one if none reaches it.
pub open spec fn closest_entry(abs_gain: Seq<i8>, gain: i8) -> int {
    let reach = first_reach(abs_gain, gain, 0);
    if reach >= abs_gain.len() {
        abs_gain.len() - 1
    } else if reach > 0 && gain_distance(abs_gain[reach - 1], gain) < gain_distance(
        abs_gain[reach],
        gain,
    ) {
        reach - 1
    } else {
        reach
    }
}

/// Everything before the first entry that reaches a gain is below it.
pub proof fn lemma_first_reach(abs_gain: Seq<i8>, gain: i8, from: int)
    requires
        0 <= from <= abs_gain.len(),
    ensures
        from <= first_reach(abs_gain, gain, from) <= abs_gain.len(),
        forall|j: int|
            from <= j < first_reach(abs_gain, gain, from) ==> (#[trigger] abs_gain[j]) < gain,
        first_reach(abs_gain, gain, from) < abs_gain.len() ==> abs_gain[first_reach(
            abs_gain,
            gain,
            from,
        )] >= gain,
    decreases abs_gain.len() - from,
{
    if from < abs_gain.len() && abs_gain[from] < gain {
        lemma_first_reach(abs_gain, gain, from + 1);
    }
}

/// In a table whose gains don't go down, no entry is closer to a gain than the one picked for it.
/// For a gain above the table that is the last one.
pub proof fn law_closest_entry(abs_gain: Seq<i8>, gain: i8)
    requires
        abs_gain.len() > 0,
        forall|i: int, j: int| 0 <= i <= j < abs_gain.len() ==> abs_gain[i] <= abs_gain[j],
    ensures
        0 <= closest_entry(abs_gain, gain) < abs_gain.len(),
        forall|j: int|
            0 <= j < abs_gain.len() ==> gain_distance(
                abs_gain[closest_entry(abs_gain, gain)],
                gain,
            ) <= gain_distance(#[trigger] abs_gain[j], gain),
        abs_gain.last() < gain ==> closest_entry(abs_gain, gain) == abs_gain.len() - 1,
{
    lemma_first_reach(abs_gain, gain, 0);
}

/// Finds the entry closest to a gain in dB.
pub fn find_table_index(abs_gain: &Vec<i8>, gain: i8) -> (index: usize)
    requires
        abs_gain@.len() > 0,
    ensures
        index == closest_entry(abs_gain@, gain),
        index < abs_gain@.len(),
{
    let mut i: usize = 0;
    while i < abs_gain.len() && abs_gain[i] < gain
        invariant
            i <= abs_gain@.len(),
            first_reach(abs_gain@, gain, i as int) == first_reach(abs_gain@, gain, 0),
        decreases abs_gain@.len() - i,
    {
        i = i + 1;
    }
    if i >= abs_gain.len() {
        // above the table
        return abs_gain.len() - 1;
    }
    if i > 0 {
        let previous: i16 = gain as i16 - abs_gain[i - 1] as i16;
        let current: i16 = abs_gain[i] as i16 - gain as i16;
        proof {
            lemma_first_reach(abs_gain@, gain, 0);
            assert(abs_gain@[i - 1] < gain);
        }
        if previous < current {
            return i - 1;
        }
    }
    i
}

/// Enable bit of an RX channel.
#[verifier::allow_in_spec]
pub fn rx_enable_bit(channel: Channel) -> u8
    returns
        (match channel {
            Channel::Ch1 => 0x40u8,
            Channel::Ch2 => 0x80,
        }),
{
    match channel {
        Channel::Ch1 => 0x40,
        Channel::Ch2 => 0x80,
    }
}

/// Gain mode field of a channel in the first AGC configuration register.
#[verifier::allow_in_spec]
pub fn gain_setup_mask(channel: Channel) -> u8
    returns
        (match channel {
            Channel::Ch1 => RX1_GAIN_CTRL_SETUP,
            Channel::Ch2 => RX2_GAIN_CTRL_SETUP,
        }),
{
    match channel {
        Channel::Ch1 => RX1_GAIN_CTRL_SETUP,
        Channel::Ch2 => RX2_GAIN_CTRL_SETUP,
    }
}

/// A gain mode in the first AGC configuration register.
#[verifier::allow_in_spec]
pub fn gain_setup_field(channel: Channel, mode: GainMode) -> u8
    returns
        (match channel {
            Channel::Ch1 => mode.code(),
            Channel::Ch2 => mode.code() << 2,
        }),
{
    match channel {
        Channel::Ch1 => mode.code(),
        Channel::Ch2 => mode.code() << 2,
    }
}

/// Manual gain register of a channel.
#[verifier::allow_in_spec]
pub fn manual_gain_addr(channel: Channel) -> u16
    returns
        (match channel {
            Channel::Ch1 => RX1_MANUAL_LMT_FULL_GAIN,
            Channel::Ch2 => RX2_MANUAL_LMT_FULL_GAIN,
        }),
{
    match channel {
        Channel::Ch1 => RX1_MANUAL_LMT_FULL_GAIN,
        Channel::Ch2 => RX2_MANUAL_LMT_FULL_GAIN,
    }
}

/// Gain of a table index, the last entry standing in for an index past the end.
pub open spec fn gain_at(abs_gain: Seq<i8>, index: u8) -> i8 {
    if index < abs_gain.len() {
        abs_gain[index as int]
    } else {
        abs_gain.last()
    }
}

fn read_gain_at(abs_gain: &Vec<i8>, index: u8) -> (gain: i8)
    requires
        abs_gain@.len() > 0,
    ensures
        gain == gain_at(abs_gain@, index),
{
    if (index as usize) < abs_gain.len() {
        abs_gain[index as usize]
    } else {
        abs_gain[abs_gain.len() - 1]
    }
}

/// Bits of the second word of an entry that the TX quadrature calibration looks at.
#[verifier::allow_in_spec]
pub fn lpf_tia_mask(split_gt: bool) -> u8
    returns
        (if split_gt {
            0x20u8
        } else {
            0x3F
        }),
{
    if split_gt {
        0x20
    } else {
        0x3F
    }
}

impl EngineView {
    /// Changes the gain mode of a channel. The channel is off while the mode changes.
    #[verifier::opaque]
    pub open spec fn set_gain_mode(self, channel: Channel, mode: GainMode) -> Flow {
        let enables = self.read(RX_ENABLE_FILTER_CONTROL);
        match enables.r {
            Err(error) => enables.done(),
            Ok(byte) => enables.e.run(
                [
                    update(
                        RX_ENABLE_FILTER_CONTROL,
                        RX_CHANNEL_ENABLE,
                        byte & !rx_enable_bit(channel),
                    ),
                    update(
                        AGC_CONFIG1,
                        gain_setup_mask(channel) | SLOW_ATTACK_HYBRID_MODE,
                        gain_setup_field(channel, mode) | flag(
                            mode == GainMode::HybridAgc,
                            SLOW_ATTACK_HYBRID_MODE,
                        ),
                    ),
                ]@,
            ).remember_gain_mode(channel, mode).run(
                [update(RX_ENABLE_FILTER_CONTROL, RX_CHANNEL_ENABLE, byte)]@,
            ).gc_update(),
        }
    }

    /// Remembers the gain mode of a channel.
    pub open spec fn remember_gain_mode(self, channel: Channel, mode: GainMode) -> Flow {
        let st = self.state.v;
        match channel {
            Channel::Ch1 => self.set(
                EngineState { gain: GainState { rx1_mode: mode, ..st.gain }, ..st },
            ),
            Channel::Ch2 => self.set(
                EngineState { gain: GainState { rx2_mode: mode, ..st.gain }, ..st },
            ),
        }
    }

    /// Sets the manual gain of a channel to the closest entry of the table in the chip. Returns
    /// the gain of that entry.
    #[verifier::opaque]
    pub open spec fn set_manual_rx_gain(self, channel: Channel, gain_db: i8) -> Reply<i8> {
        let abs_gain = self.tables.gain_table(self.state.v.gain.current_table).abs_gain@;
        let index = closest_entry(abs_gain, gain_db);
        self.run([update(manual_gain_addr(channel), MANUAL_GAIN_INDEX, index as u8)]@).reply(
            abs_gain[index],
        )
    }

    /// Loads the gain table for an RX carrier, if it isn't the one in the chip.
    #[verifier::opaque]
    pub open spec fn load_gain_table(self, freq: u64, dest: GainTableDest) -> Flow {
        let gain = self.state.v.gain;
        let band = self.tables.table_index(gain.split_gt, freq) as usize;
        if gain.current_table == band {
            self.start()
        } else {
            self.write_gain_table(band, dest)
        }
    }

    /// Remembers the entry for the TX quadrature calibration.
    pub open spec fn set_lpf_tia_match(self, entry: Option<u8>) -> Flow {
        let st = self.state.v;
        self.set(
            EngineState { gain: GainState { tx_quad_lpf_tia_match: entry, ..st.gain }, ..st },
        )
    }

    /// Remembers which gain table is in the chip.
    pub open spec fn set_current_table(self, band: usize) -> Flow {
        let st = self.state.v;
        self.set(EngineState { gain: GainState { current_table: band, ..st.gain }, ..st })
    }

    /// Writes the entries of a gain table from `i` on, and remembers the last one with the LPF/TIA
    /// word that the TX quadrature calibration wants.
    pub open spec fn gain_rows_from(
        self,
        entries: Seq<[u8; 3]>,
        i: int,
        config: u8,
        ext_lna: u8,
        mask: u8,
    ) -> Flow
        decreases entries.len() - i,
    {
        if i >= entries.len() {
            self.start()
        } else {
            let word = entries[i];
            let row = self.run(
                [
                    put(GAIN_TABLE_ADDRESS, i as u8),
                    put(GAIN_TABLE_WRITE_DATA1, word[0] | ext_lna),
                    put(GAIN_TABLE_WRITE_DATA2, word[1]),
                    put(GAIN_TABLE_WRITE_DATA3, word[2]),
                    put(GAIN_TABLE_CONFIG, config | WRITE_GAIN_TABLE),
                    put(GAIN_TABLE_READ_DATA1, 0),
                    put(GAIN_TABLE_READ_DATA1, 0),
                ]@,
            );
            let noted = if word[1] & mask == 0x20 {
                row.set_lpf_tia_match(Some(i as u8))
            } else {
                row
            };
            if noted.err is Some {
                noted
            } else {
                noted.e.gain_rows_from(entries, i + 1, config, ext_lna, mask)
            }
        }
    }

    /// All entries of a gain table.
    #[verifier::opaque]
    pub open spec fn gain_rows(self, band: usize, config: u8) -> Flow {
        let gain = self.state.v.gain;
        self.set_lpf_tia_match(None).gain_rows_all(
            self.tables.gain_table(band).entries@,
            config,
            flag(gain.elna_in_gaintable_all_index_en, 0x80),
            lpf_tia_mask(gain.split_gt),
        )
    }

    pub open spec fn gain_rows_all(
        self,
        entries: Seq<[u8; 3]>,
        config: u8,
        ext_lna: u8,
        mask: u8,
    ) -> Flow {
        self.gain_rows_from(entries, 0, config, ext_lna, mask)
    }

    /// The gains the two channels have in the table in the chip.
    #[verifier::opaque]
    pub open spec fn current_gains(self) -> Reply<(i8, i8)> {
        let abs_gain = self.tables.gain_table(self.state.v.gain.current_table).abs_gain@;
        let rx1 = self.read(RX1_MANUAL_LMT_FULL_GAIN);
        match rx1.r {
            Err(error) => Reply { e: rx1.e, r: Err(error) },
            Ok(rx1_byte) => {
                let rx2 = rx1.e.read(RX2_MANUAL_LMT_FULL_GAIN);
                match rx2.r {
                    Err(error) => Reply { e: rx2.e, r: Err(error) },
                    Ok(rx2_byte) => Reply {
                        e: rx2.e,
                        r: Ok(
                            (
                                gain_at(abs_gain, rx1_byte & MANUAL_GAIN_INDEX),
                                gain_at(abs_gain, rx2_byte & MANUAL_GAIN_INDEX),
                            ),
                        ),
                    },
                }
            },
        }
    }

    /// Writes a gain table into the chip, keeping the current gains.
    #[verifier::opaque]
    pub open spec fn write_gain_table(self, band: usize, dest: GainTableDest) -> Flow {
        let table = self.tables.gain_table(band);
        let config = START_GAIN_TABLE_CLOCK | (dest.code() << 3);
        let gains = self.run(
            [
                update(
                    AGC_CONFIG2,
                    AGC_USE_FULL_GAIN_TABLE,
                    flag(!self.state.v.gain.split_gt, AGC_USE_FULL_GAIN_TABLE),
                ),
                put(MAX_LMT_FULL_GAIN, (table.entries@.len() - 1) as u8),
            ]@,
        ).current_gains();
        match gains.r {
            Err(error) => gains.done(),
            Ok((rx1_gain, rx2_gain)) => gains.e.run([put(GAIN_TABLE_CONFIG, config)]@).gain_rows(
                band,
                config,
            ).run(
                [
                    put(GAIN_TABLE_CONFIG, config),
                    put(GAIN_TABLE_READ_DATA1, 0),
                    put(GAIN_TABLE_READ_DATA1, 0),
                    put(GAIN_TABLE_CONFIG, 0),
                ]@,
            ).set_current_table(band).run(
                [
                    update(
                        RX1_MANUAL_LMT_FULL_GAIN,
                        MANUAL_GAIN_INDEX,
                        closest_entry(table.abs_gain@, rx1_gain) as u8,
                    ),
                    put(
                        RX2_MANUAL_LMT_FULL_GAIN,
                        closest_entry(table.abs_gain@, rx2_gain) as u8,
                    ),
                ]@,
            ),
        }
    }
}

/// The same steps, after others.
impl Flow {
    pub open spec fn gm_rows(self) -> Flow {
        if self.err is Some {
            self
        } else {
            self.e.gm_rows()
        }
    }

    pub open spec fn load_mixer_gm_subtable(self) -> Flow {
        if self.err is Some {
            self
        } else {
            self.e.load_mixer_gm_subtable()
        }
    }

    pub open spec fn set_gain_control(self, ctrl: GainControl) -> Flow {
        if self.err is Some {
            self
        } else {
            self.e.set_gain_control(ctrl)
        }
    }

    pub open spec fn gc_modes(self, ctrl: GainControl) -> Flow {
        if self.err is Some {
            self
        } else {
            self.e.gc_modes(ctrl)
        }
    }

    pub open spec fn gc_thresholds(self, ctrl: GainControl) -> Flow {
        if self.err is Some {
            self
        } else {
            self.e.gc_thresholds(ctrl)
        }
    }

    pub open spec fn gc_slow_attack(self, ctrl: GainControl) -> Flow {
        if self.err is Some {
            self
        } else {
            self.e.gc_slow_attack(ctrl)
        }
    }

    pub open spec fn gc_fast_attack(self, ctrl: GainControl) -> Flow {
        if self.err is Some {
            self
        } else {
            self.e.gc_fast_attack(ctrl)
        }
    }

    pub open spec fn gc_unlock(self, ctrl: GainControl) -> Flow {
        if self.err is Some {
            self
        } else {
            self.e.gc_unlock(ctrl)
        }
    }

    pub open spec fn set_agc_pulled_high(
        self,
        goto_max_or_opt: bool,
        goto_set: bool,
        goto_opt: Option<bool>,
    ) -> Flow {
        if self.err is Some {
            self
        } else {
            self.e.set_agc_pulled_high(goto_max_or_opt, goto_set, goto_opt)
        }
    }

    pub open spec fn gc_setup(self, ctrl: GainControl) -> Flow {
        if self.err is Some {
            self
        } else {
            self.e.gc_setup(ctrl)
        }
    }

    pub open spec fn gc_update(self) -> Flow {
        if self.err is Some {
            self
        } else {
            self.e.gc_update()
        }
    }

    pub open spec fn set_gain_mode(self, channel: Channel, mode: GainMode) -> Flow {
        if self.err is Some {
            self
        } else {
            self.e.set_gain_mode(channel, mode)
        }
    }

    pub open spec fn remember_gain_mode(self, channel: Channel, mode: GainMode) -> Flow {
        if self.err is Some {
            self
        } else {
            self.e.remember_gain_mode(channel, mode)
        }
    }

    pub open spec fn set_manual_rx_gain(self, channel: Channel, gain_db: i8) -> Reply<i8> {
        match self.err {
            Some(error) => Reply { e: self.e, r: Err(error) },
            None => self.e.set_manual_rx_gain(channel, gain_db),
        }
    }

    pub open spec fn load_gain_table(self, freq: u64, dest: GainTableDest) -> Flow {
        if self.err is Some {
            self
        } else {
            self.e.load_gain_table(freq, dest)
        }
    }

    pub open spec fn set_lpf_tia_match(self, entry: Option<u8>) -> Flow {
        if self.err is Some {
            self
        } else {
            self.e.set_lpf_tia_match(entry)
        }
    }

    pub open spec fn set_current_table(self, band: usize) -> Flow {
        if self.err is Some {
            self
        } else {
            self.e.set_current_table(band)
        }
    }

    pub open spec fn gain_rows(self, band: usize, config: u8) -> Flow {
        if self.err is Some {
            self
        } else {
            self.e.gain_rows(band, config)
        }
    }

    pub open spec fn gain_rows_all(
        self,
        entries: Seq<[u8; 3]>,
        config: u8,
        ext_lna: u8,
        mask: u8,
    ) -> Flow {
        if self.err is Some {
            self
        } else {
            self.e.gain_rows_all(entries, config, ext_lna, mask)
        }
    }

    pub open spec fn current_gains(self) -> Reply<(i8, i8)> {
        match self.err {
            Some(error) => Reply { e: self.e, r: Err(error) },
            None => self.e.current_gains(),
        }
    }

    pub open spec fn write_gain_table(self, band: usize, dest: GainTableDest) -> Flow {
        if self.err is Some {
            self
        } else {
            self.e.write_gain_table(band, dest)
        }
    }
}

/// A gain mode that was set is remembered, and the other channel keeps its own.
pub proof fn law_gain_mode_is_remembered(e: EngineView, channel: Channel, mode: GainMode)
    ensures
        ({
            let set = e.set_gain_mode(channel, mode);
            let other = if channel == Channel::Ch1 {
                Channel::Ch2
            } else {
                Channel::Ch1
            };
            &&& set.err is None ==> set.e.state.v.gain.mode(channel) == mode
            &&& set.e.state.v.gain.mode(other) == e.state.v.gain.mode(other)
        }),
{
    reveal(EngineView::set_gain_mode);
    reveal(EngineView::gc_update);
    assert forall|at: EngineView, ops: Seq<Op>| #[trigger] at.run(ops).e.state == at.state by {
        law_run_keeps_state(at, ops);
    }
    law_read_keeps_state(e, RX_ENABLE_FILTER_CONTROL);
}

proof fn lemma_runs_keep_state()
    ensures
        forall|at: EngineView, ops: Seq<Op>| #[trigger] at.run(ops).e.state == at.state,
{
    assert forall|at: EngineView, ops: Seq<Op>| #[trigger] at.run(ops).e.state == at.state by {
        law_run_keeps_state(at, ops);
    }
}

/// Setting the gain control up remembers both gain modes, whatever comes of it.
pub proof fn law_gain_setup_remembers_the_modes(e: EngineView, ctrl: GainControl)
    ensures
        e.gc_setup(ctrl).e.state.v.gain.mode(Channel::Ch1) == ctrl.rx1_mode,
        e.gc_setup(ctrl).e.state.v.gain.mode(Channel::Ch2) == ctrl.rx2_mode,
{
    let (max_or_opt, set, opt) = pulled_high_action(&ctrl);
    assert forall|at: EngineView| #[trigger] at.gc_modes(ctrl).e.state == at.state by {
        reveal(EngineView::gc_modes);
        lemma_runs_keep_state();
    }
    assert forall|at: EngineView| #[trigger] at.gc_thresholds(ctrl).e.state == at.state by {
        reveal(EngineView::gc_thresholds);
        lemma_runs_keep_state();
    }
    assert forall|at: EngineView| #[trigger] at.gc_slow_attack(ctrl).e.state == at.state by {
        reveal(EngineView::gc_slow_attack);
        lemma_runs_keep_state();
    }
    assert forall|at: EngineView| #[trigger] at.gc_fast_attack(ctrl).e.state == at.state by {
        reveal(EngineView::gc_fast_attack);
        lemma_runs_keep_state();
    }
    assert forall|at: EngineView| #[trigger] at.gc_unlock(ctrl).e.state == at.state by {
        reveal(EngineView::gc_unlock);
        lemma_runs_keep_state();
    }
    assert forall|at: EngineView| #[trigger] at.set_agc_pulled_high(max_or_opt, set, opt).e.state == at.state by {
        reveal(EngineView::set_agc_pulled_high);
        lemma_runs_keep_state();
    }
    assert forall|at: EngineView| #[trigger] at.gc_update().e.state == at.state by {
        reveal(EngineView::gc_update);
        lemma_runs_keep_state();
    }
    reveal(EngineView::gc_setup);
    lemma_runs_keep_state();
}

impl<'a> Engine<'a> {
    /// Current mode.
    pub fn gain_mode(&self, channel: Channel) -> (mode: GainMode)
        ensures
            mode == self@.state.v.gain.mode(channel),
    {
        self.state.v.gain.mode(channel)
    }

    /// Sets the gain mode of a channel.
    pub fn set_gain_mode(&mut self, channel: Channel, mode: GainMode) -> (r: Result<(), Fault>)
        ensures
            flow(final(self)@, r) == old(self)@.set_gain_mode(channel, mode),
    {
        reveal(EngineView::set_gain_mode);
        let byte: u8 = self.read(RX_ENABLE_FILTER_CONTROL)?;
        self.run(&[
            update(
                RX_ENABLE_FILTER_CONTROL,
                RX_CHANNEL_ENABLE,
                byte & !rx_enable_bit(channel),
            ),
            update(
                AGC_CONFIG1,
                gain_setup_mask(channel) | SLOW_ATTACK_HYBRID_MODE,
                gain_setup_field(channel, mode) | flag(
                    mode == GainMode::HybridAgc,
                    SLOW_ATTACK_HYBRID_MODE,
                ),
            ),
        ])?;
        match channel {
            Channel::Ch1 => {
                self.state.v.gain.rx1_mode = mode;
            },
            Channel::Ch2 => {
                self.state.v.gain.rx2_mode = mode;
            },
        }
        self.run(&[update(RX_ENABLE_FILTER_CONTROL, RX_CHANNEL_ENABLE, byte)])?;
        self.gc_update()
    }

    /// Sets the gain of a channel in manual mode. Returns the gain of the entry it picked.
    pub fn set_manual_rx_gain(&mut self, channel: Channel, gain_db: i8) -> (r: Result<i8, Fault>)
        ensures
            (Reply { e: final(self)@, r }) == old(self)@.set_manual_rx_gain(channel, gain_db),
    {
        reveal(EngineView::set_manual_rx_gain);
        let table: &GainTable = self.tables.gain_table_at(self.state.v.gain.current_table);
        let index: usize = find_table_index(&table.abs_gain, gain_db);
        let gain: i8 = table.abs_gain[index];
        self.run(&[update(manual_gain_addr(channel), MANUAL_GAIN_INDEX, index as u8)])?;
        Ok(gain)
    }

    /// Loads the table for an RX LO in Hz, keeping the current gains. Nothing happens if that
    /// table is already in.
    pub fn load_gain_table(&mut self, freq: u64, dest: GainTableDest) -> (r: Result<(), Fault>)
        ensures
            flow(final(self)@, r) == old(self)@.load_gain_table(freq, dest),
    {
        reveal(EngineView::load_gain_table);
        let band: usize = self.tables.gain_table_index(self.state.v.gain.split_gt, freq);
        if self.state.v.gain.current_table == band {
            return Ok(());
        }
        self.write_gain_table(band, dest)
    }

    /// Absolute gains of the current RX1 and RX2 indices.
    fn current_gains(&mut self) -> (r: Result<(i8, i8), Fault>)
        ensures
            (Reply { e: final(self)@, r }) == old(self)@.current_gains(),
    {
        reveal(EngineView::current_gains);
        let table: &GainTable = self.tables.gain_table_at(self.state.v.gain.current_table);
        let rx1_byte: u8 = self.read(RX1_MANUAL_LMT_FULL_GAIN)?;
        let rx2_byte: u8 = self.read(RX2_MANUAL_LMT_FULL_GAIN)?;
        Ok(
            (
                read_gain_at(&table.abs_gain, rx1_byte & MANUAL_GAIN_INDEX),
                read_gain_at(&table.abs_gain, rx2_byte & MANUAL_GAIN_INDEX),
            ),
        )
    }

    /// Writes the entries of table `band`.
    fn gain_rows(&mut self, band: usize, config: u8) -> (r: Result<(), Fault>)
        ensures
            flow(final(self)@, r) == old(self)@.gain_rows(band, config),
    {
        reveal(EngineView::gain_rows);
        let entries: &Vec<[u8; 3]> = &self.tables.gain_table_at(band).entries;
        let ext_lna: u8 = flag(self.state.v.gain.elna_in_gaintable_all_index_en, 0x80);
        let mask: u8 = lpf_tia_mask(self.state.v.gain.split_gt);
        self.state.v.gain.tx_quad_lpf_tia_match = None;
        let mut i: usize = 0;
        let ghost start = self@;
        while i < entries.len()
            invariant
                i <= entries@.len(),
                entries@.len() <= 128,
                start.gain_rows_from(entries@, 0, config, ext_lna, mask) == self@.gain_rows_from(
                    entries@,
                    i as int,
                    config,
                    ext_lna,
                    mask,
                ),
                old(self)@.gain_rows(band, config) == start.gain_rows_from(
                    entries@,
                    0,
                    config,
                    ext_lna,
                    mask,
                ),
            decreases entries@.len() - i,
        {
            let word: [u8; 3] = entries[i];
            self.run(&[
                put(GAIN_TABLE_ADDRESS, i as u8),
                put(GAIN_TABLE_WRITE_DATA1, word[0] | ext_lna),
                put(GAIN_TABLE_WRITE_DATA2, word[1]),
                put(GAIN_TABLE_WRITE_DATA3, word[2]),
                put(GAIN_TABLE_CONFIG, config | WRITE_GAIN_TABLE),
                put(GAIN_TABLE_READ_DATA1, 0),
                put(GAIN_TABLE_READ_DATA1, 0),
            ])?;
            if word[1] & mask == 0x20 {
                self.state.v.gain.tx_quad_lpf_tia_match = Some(i as u8);
            }
            i = i + 1;
        }
        Ok(())
    }

    /// Writes table `band` into the chip, keeps the current gains. Also finds the entry the TX
    /// quad cal needs.
    pub fn write_gain_table(&mut self, band: usize, dest: GainTableDest) -> (r: Result<(), Fault>)
        ensures
            flow(final(self)@, r) == old(self)@.write_gain_table(band, dest),
    {
        reveal(EngineView::write_gain_table);
        let table: &GainTable = self.tables.gain_table_at(band);
        let config: u8 = START_GAIN_TABLE_CLOCK | (dest.code() << 3);
        let full_table = !self.state.v.gain.split_gt;
        self.run(
            &[
                update(
                    AGC_CONFIG2,
                    AGC_USE_FULL_GAIN_TABLE,
                    flag(full_table, AGC_USE_FULL_GAIN_TABLE),
                ),
                put(MAX_LMT_FULL_GAIN, (table.entries.len() - 1) as u8),
            ],
        )?;
        // absolute gain of the current indices, so it can be restored in the new table
        let (rx1_gain, rx2_gain) = self.current_gains()?;
        self.run(&[put(GAIN_TABLE_CONFIG, config)])?;
        self.gain_rows(band, config)?;
        self.run(&[
            put(GAIN_TABLE_CONFIG, config),
            put(GAIN_TABLE_READ_DATA1, 0),
            put(GAIN_TABLE_READ_DATA1, 0),
            put(GAIN_TABLE_CONFIG, 0),
        ])?;
        self.state.v.gain.current_table = band;
        let rx1: usize = find_table_index(&table.abs_gain, rx1_gain);
        let rx2: usize = find_table_index(&table.abs_gain, rx2_gain);
        self.run(
            &[
                update(RX1_MANUAL_LMT_FULL_GAIN, MANUAL_GAIN_INDEX, rx1 as u8),
                put(RX2_MANUAL_LMT_FULL_GAIN, rx2 as u8),
            ],
        )
    }
}

} // verus!
