//! Settings of the chip.
//!
//! [`Ad9361Settings`] is plain data with public fields and a `Default`. [`Ad9361Config::new`]
//! checks it. Settings that only apply to one mode live in the mode's enum ([`ChannelMode`],
//! [`Duplex`]).
use vstd::prelude::*;

use crate::calibration::{DcOffsetConfig, TrackingConfig};
use crate::clock_chain::{validate_trx_clock_chain, PathClocks};
use crate::clocks::ref_div_sel;
use crate::control::ClkoutMode;
use crate::fir::{RxFirConfig, TxFirConfig};
use crate::gain_control::GainControl;
use crate::math::clamped;
use crate::monitor::{RssiConfiguration, TxMonitorConfig};
use crate::ports::{
    temp_interval_units, AuxAdcConfig, AuxDacConfig, Channel, CtrlOutsConfig, ElnaConfig, GpoConfig,
    PortConfig,
};
use crate::units::{
    HertzU32, OutOfRange, RfBandwidth, RxInput, RxLoFrequency, TxAttenuation, TxLoFrequency, U13,
    U6,
};
use crate::{MAX_BBPLL_FREF, MAX_SYNTH_FREF, MIN_SYNTH_FREF};

verus! {

/// Frequency of the clock that feeds the chip, 10 to 80 MHz.
///
/// Has to be one the chip's dividers can bring into the BBPLL range. Whether it also fits the synth
/// reference window from the settings is checked in [`Ad9361Config::new`].
#[derive(Debug, Clone, Copy, PartialEq, Eq, Structural)]
pub struct ReferenceClock {
    frequency: HertzU32,
}

impl ReferenceClock {
    #[verifier::type_invariant]
    spec fn in_range(self) -> bool {
        10_000_000 <= self.frequency.raw <= 80_000_000
    }

    /// The frequency in Hz.
    pub closed spec fn hz(self) -> u32 {
        self.frequency.raw
    }

    /// 10 to 80 MHz.
    pub fn new(frequency: HertzU32) -> (r: Result<Self, OutOfRange>)
        ensures
            r is Ok <==> 10_000_000 <= frequency.raw <= 80_000_000,
            r matches Ok(clock) ==> clock.hz() == frequency.raw,
    {
        if frequency.raw < 10_000_000 || frequency.raw > 80_000_000 || ref_div_sel(
            frequency,
            HertzU32 { raw: MAX_BBPLL_FREF },
        ).raw == 0 {
            return Err(OutOfRange);
        }
        Ok(ReferenceClock { frequency })
    }

    pub fn get(self) -> (frequency: HertzU32)
        ensures
            frequency.raw == self.hz(),
            10_000_000 <= frequency.raw <= 80_000_000,
    {
        proof {
            use_type_invariant(self);
        }
        self.frequency
    }
}

/// 2R2T (both receivers and transmitters) or 1R1T (one of each).
///
/// In 1R1T the other channels are switched off and the unused TX attenuation is set to the
/// maximum.
#[derive(Debug, Clone, Copy, PartialEq, Eq, Structural)]
pub enum ChannelMode {
    /// Both RX and both TX channels
    TwoByTwo,
    /// One RX and one TX channel
    OneByOne { rx: Channel, tx: Channel },
}

impl ChannelMode {
    #[verifier::allow_in_spec]
    pub fn is_two_by_two(self) -> bool
        returns
            self == ChannelMode::TwoByTwo,
    {
        self == ChannelMode::TwoByTwo
    }

    /// RX channel for 1R1T, RX1 in 2R2T.
    #[verifier::allow_in_spec]
    pub fn one_by_one_rx(self) -> Channel
        returns
            (match self {
                ChannelMode::OneByOne { rx, tx } => rx,
                ChannelMode::TwoByTwo => Channel::Ch1,
            }),
    {
        match self {
            ChannelMode::OneByOne { rx, tx } => rx,
            ChannelMode::TwoByTwo => Channel::Ch1,
        }
    }

    /// TX channel for 1R1T, TX1 in 2R2T.
    #[verifier::allow_in_spec]
    pub fn one_by_one_tx(self) -> Channel
        returns
            (match self {
                ChannelMode::OneByOne { rx, tx } => tx,
                ChannelMode::TwoByTwo => Channel::Ch1,
            }),
    {
        match self {
            ChannelMode::OneByOne { rx, tx } => tx,
            ChannelMode::TwoByTwo => Channel::Ch1,
        }
    }
}

/// FDD (RX and TX at the same time) or TDD (they take turns).
///
/// After init the chip runs in FDD, or in RX for TDD.
#[derive(Debug, Clone, Copy, PartialEq, Eq, Structural)]
pub enum Duplex {
    Fdd {
        /// RX and TX LO are set independently
        independent_mode: bool,
    },
    Tdd {
        /// Skip VCO cal on the way from TX/RX to alert
        skip_vco_cal: bool,
        /// One synth each for RX and TX
        dual_synth: bool,
    },
}

impl Duplex {
    #[verifier::allow_in_spec]
    pub fn is_fdd(self) -> bool
        returns
            (match self {
                Duplex::Fdd { independent_mode } => true,
                Duplex::Tdd { skip_vco_cal, dual_synth } => false,
            }),
    {
        match self {
            Duplex::Fdd { independent_mode } => true,
            Duplex::Tdd { skip_vco_cal, dual_synth } => false,
        }
    }

    #[verifier::allow_in_spec]
    pub fn fdd_independent_mode(self) -> bool
        returns
            (match self {
                Duplex::Fdd { independent_mode } => independent_mode,
                Duplex::Tdd { skip_vco_cal, dual_synth } => false,
            }),
    {
        match self {
            Duplex::Fdd { independent_mode } => independent_mode,
            Duplex::Tdd { skip_vco_cal, dual_synth } => false,
        }
    }

    #[verifier::allow_in_spec]
    pub fn tdd_skip_vco_cal(self) -> bool
        returns
            (match self {
                Duplex::Fdd { independent_mode } => false,
                Duplex::Tdd { skip_vco_cal, dual_synth } => skip_vco_cal,
            }),
    {
        match self {
            Duplex::Fdd { independent_mode } => false,
            Duplex::Tdd { skip_vco_cal, dual_synth } => skip_vco_cal,
        }
    }

    #[verifier::allow_in_spec]
    pub fn tdd_dual_synth(self) -> bool
        returns
            (match self {
                Duplex::Fdd { independent_mode } => false,
                Duplex::Tdd { skip_vco_cal, dual_synth } => dual_synth,
            }),
    {
        match self {
            Duplex::Fdd { independent_mode } => false,
            Duplex::Tdd { skip_vco_cal, dual_synth } => dual_synth,
        }
    }
}

/// What to do about the digital interface delays.
#[derive(Debug, Clone, Copy, PartialEq, Eq, Structural)]
pub enum DigInterfaceTune {
    /// Tune RX and TX
    RxAndTx,
    /// Tune RX only
    RxOnly,
    /// Don't tune, use the delays from the config
    UseConfigured,
}

/// Oversampling to pick when the sample rate changes.
#[derive(Debug, Clone, Copy, PartialEq, Eq, Structural)]
pub enum RateGovernor {
    /// as much as possible
    Highest,
    /// the usual amount
    Nominal,
}

impl RateGovernor {
    /// First row of the divider table to try.
    #[verifier::allow_in_spec]
    pub fn index(self) -> u32
        returns
            (match self {
                RateGovernor::Highest => 0u32,
                RateGovernor::Nominal => 1,
            }),
    {
        match self {
            RateGovernor::Highest => 0,
            RateGovernor::Nominal => 1,
        }
    }
}

/// Gain table layout.
#[derive(Debug, Clone, Copy, PartialEq, Eq, Structural)]
pub enum GainTableKind {
    /// One gain index for all gain stages
    Full,
    /// LMT and LPF gains separate
    Split,
}

/// Invalid settings, from [`Ad9361Config::new`].
#[derive(Debug, Clone, Copy, PartialEq, Eq)]
pub enum ConfigError {
    /// Path clocks over the chip's limits, or none of them matches the data clock
    ClockChain,
    /// Can't get a synth reference below `trx_synth_max_fref` out of this reference clock
    SynthReference,
    /// ENSM pin control and FDD independent mode can't be combined
    EnsmPinControlInFddIndependentMode,
    /// BBPLL can't be divided down to the AuxADC clock (divider has to be under 64)
    AuxAdcClockRate,
    /// Doesn't fit its register field. The string names the setting.
    OutOfRange(&'static str),
}

impl ConfigError {
    /// What [`Self::text`] returns.
    pub open spec fn message(self) -> Seq<char> {
        match self {
            ConfigError::ClockChain => "the path clocks are beyond the chip's limits"@,
            ConfigError::SynthReference =>
                "the reference clock has no synthesizer reference in the window"@,
            ConfigError::EnsmPinControlInFddIndependentMode =>
                "ENSM pin control doesn't work in FDD independent mode"@,
            ConfigError::AuxAdcClockRate =>
                "the BBPLL can't be divided down to the AuxADC clock rate"@,
            ConfigError::OutOfRange(name) => name@ + " is out of range"@,
        }
    }

    /// The message.
    pub fn text(&self) -> (text: String)
        ensures
            text@ == self.message(),
    {
        match self {
            ConfigError::ClockChain => "the path clocks are beyond the chip's limits".to_owned(),
            ConfigError::SynthReference =>
                "the reference clock has no synthesizer reference in the window".to_owned(),
            ConfigError::EnsmPinControlInFddIndependentMode =>
                "ENSM pin control doesn't work in FDD independent mode".to_owned(),
            ConfigError::AuxAdcClockRate =>
                "the BBPLL can't be divided down to the AuxADC clock rate".to_owned(),
            ConfigError::OutOfRange(name) => {
                let name: &'static str = *name;
                let mut text = name.to_owned();
                text.append(" is out of range");
                text
            },
        }
    }
}

/// All settings of the chip.
///
/// `Default` gives 2R2T, FDD, LVDS, 30.72 MSPS, both LOs at 2.4 GHz, 18 MHz bandwidths, the `A`
/// differential RX inputs, slow attack AGC and 10 dB TX attenuation. The 64 tap example FIR is
/// loaded in both directions and stays bypassed until enabled.
///
/// Numbers that go into a register field (most of [`GainControl`], for example) are range checked
/// by [`Ad9361Config::new`]. A value that doesn't fit is an error, not silently truncated.
///
/// `rx_path_clks` and `tx_path_clks` are the full clock chain and default to 30.72 MSPS. For
/// another rate, keep them and call `Ad9361::set_sample_rate` after init, or fill them in by hand.
#[derive(Debug, Clone, Copy)]
pub struct Ad9361Settings {
    pub dcxo_coarse_tune: U6,
    pub dcxo_fine_tune: U13,
    pub use_external_clock: bool,
    pub channels: ChannelMode,
    pub rx_path_clks: PathClocks,
    pub tx_path_clks: PathClocks,
    /// RX input pins
    pub rf_rx_input_sel: RxInput,
    /// TX B outputs instead of A
    pub rf_tx_output_b: bool,
    pub port: PortConfig,
    pub auxadc: AuxAdcConfig,
    pub ctrl_outs: CtrlOutsConfig,
    pub elna: ElnaConfig,
    /// Highest reference frequency for the RX/TX synths, clamped to
    /// `MIN_SYNTH_FREF..=MAX_SYNTH_FREF`. Lower means worse phase noise but fewer fractional
    /// spurs.
    pub trx_synth_max_fref: HertzU32,
    pub duplex: Duplex,
    pub rx_synth_freq: RxLoFrequency,
    pub tx_synth_freq: TxLoFrequency,
    pub gain_ctrl: GainControl,
    pub gain_table: GainTableKind,
    /// RF bandwidth
    pub rf_rx_bandwidth: RfBandwidth,
    pub rf_tx_bandwidth: RfBandwidth,
    pub dc_offset: DcOffsetConfig,
    pub tracking: TrackingConfig,
    /// ENSM on pins instead of SPI
    pub ensm_pin_ctrl: bool,
    /// TX attenuation at startup
    pub tx_attenuation: TxAttenuation,
    pub clkout_mode: ClkoutMode,
    pub rssi: RssiConfiguration,
    pub txmon: TxMonitorConfig,
    /// ENSM enable pin is a pulse, not a level
    pub ensm_pin_pulse_mode: bool,
    pub dig_interface_tune: DigInterfaceTune,
    pub dig_interface_tune_fir_disable: bool,
    /// Retune the digital interface whenever the baseband clocks change
    pub bb_clk_change_dig_tune_en: bool,
    /// AXI DAC at half rate
    pub axi_half_dac_rate_en: bool,
    pub rate_governor: RateGovernor,
    /// FIRs to load after init
    pub rx_fir: Option<RxFirConfig>,
    pub tx_fir: Option<TxFirConfig>,
    pub auxdac: AuxDacConfig,
    pub gpo: GpoConfig,
}

impl Ad9361Settings {
    /// The values `Default` gives.
    pub open spec fn is_default(self) -> bool {
        &&& self.dcxo_coarse_tune.bits() == 8
        &&& self.dcxo_fine_tune.bits() == 5920
        &&& !self.use_external_clock
        &&& self.channels == ChannelMode::TwoByTwo
        &&& self.rx_path_clks == PathClocks::default_rx()
        &&& self.tx_path_clks == PathClocks::default_tx()
        &&& self.rf_rx_input_sel == RxInput::DifferentialA
        &&& !self.rf_tx_output_b
        &&& self.port == crate::ports::default_port()
        &&& self.auxadc.offset == -50
        &&& self.auxadc.temp_time_interval_ms == 1000
        &&& self.auxadc.temp_sensor_decimation.code() == 0
        &&& self.auxadc.periodic_temp_measurement
        &&& self.auxadc.auxadc_clock_rate.raw == 40_000_000
        &&& self.auxadc.auxadc_decimation.code() == 0
        &&& self.ctrl_outs == (CtrlOutsConfig { index: 0, en_mask: 0xFF })
        &&& self.elna.gain.steps() == 0
        &&& self.elna.bypass_loss.steps() == 0
        &&& self.elna.settling_delay_ns == 0
        &&& !self.elna.elna_1_control_en
        &&& !self.elna.elna_2_control_en
        &&& !self.elna.elna_in_gaintable_all_index_en
        &&& self.trx_synth_max_fref.raw == MAX_SYNTH_FREF
        &&& self.duplex == (Duplex::Fdd { independent_mode: false })
        &&& self.rx_synth_freq.hz() == 2_400_000_000
        &&& self.tx_synth_freq.hz() == 2_400_000_000
        &&& self.gain_ctrl == crate::gain_control::default_gain_control()
        &&& self.gain_table == GainTableKind::Full
        &&& self.rf_rx_bandwidth.hz() == 18_000_000
        &&& self.rf_tx_bandwidth.hz() == 18_000_000
        &&& self.dc_offset == crate::calibration::default_dc_offset()
        &&& self.tracking == crate::calibration::default_tracking()
        &&& !self.ensm_pin_ctrl
        &&& self.tx_attenuation.steps() == 40
        &&& self.clkout_mode == ClkoutMode::Disable
        &&& self.rssi == crate::monitor::default_rssi()
        &&& self.txmon == crate::monitor::default_txmon()
        &&& !self.ensm_pin_pulse_mode
        &&& self.dig_interface_tune == DigInterfaceTune::RxAndTx
        &&& !self.dig_interface_tune_fir_disable
        &&& !self.bb_clk_change_dig_tune_en
        &&& !self.axi_half_dac_rate_en
        &&& self.rate_governor == RateGovernor::Nominal
        &&& self.rx_fir matches Some(fir) && fir.is_default()
        &&& self.tx_fir matches Some(fir) && fir.is_default()
        &&& self.auxdac == crate::ports::default_auxdac()
        &&& self.gpo.is_off()
    }
}

impl Default for Ad9361Settings {
    fn default() -> (settings: Self)
        ensures
            settings.is_default(),
    {
        Ad9361Settings {
            dcxo_coarse_tune: U6::new(8),
            dcxo_fine_tune: U13::new(5920),
            use_external_clock: false,
            channels: ChannelMode::TwoByTwo,
            rx_path_clks: PathClocks::default_rx(),
            tx_path_clks: PathClocks::default_tx(),
            rf_rx_input_sel: RxInput::DifferentialA,
            rf_tx_output_b: false,
            port: PortConfig::default(),
            auxadc: AuxAdcConfig::default(),
            ctrl_outs: CtrlOutsConfig::default(),
            elna: ElnaConfig::default(),
            trx_synth_max_fref: HertzU32 { raw: MAX_SYNTH_FREF },
            duplex: Duplex::Fdd { independent_mode: false },
            rx_synth_freq: RxLoFrequency::from_hz(2_400_000_000),
            tx_synth_freq: TxLoFrequency::from_hz(2_400_000_000),
            gain_ctrl: GainControl::default(),
            gain_table: GainTableKind::Full,
            rf_rx_bandwidth: RfBandwidth::new_clamped(HertzU32 { raw: 18_000_000 }),
            rf_tx_bandwidth: RfBandwidth::new_clamped(HertzU32 { raw: 18_000_000 }),
            dc_offset: DcOffsetConfig::default(),
            tracking: TrackingConfig::default(),
            ensm_pin_ctrl: false,
            tx_attenuation: TxAttenuation::from_db(10),
            clkout_mode: ClkoutMode::Disable,
            rssi: RssiConfiguration::default(),
            txmon: TxMonitorConfig::default(),
            ensm_pin_pulse_mode: false,
            dig_interface_tune: DigInterfaceTune::RxAndTx,
            dig_interface_tune_fir_disable: false,
            bb_clk_change_dig_tune_en: false,
            axi_half_dac_rate_en: false,
            rate_governor: RateGovernor::Nominal,
            rx_fir: Some(RxFirConfig::default()),
            tx_fir: Some(TxFirConfig::default()),
            auxdac: AuxDacConfig::default(),
            gpo: GpoConfig::default(),
        }
    }
}

/// A setting and the range its register field can hold.
#[derive(Debug, Clone, Copy)]
pub struct RangeCheck {
    pub name: &'static str,
    pub value: u32,
    pub low: u32,
    pub high: u32,
}

impl RangeCheck {
    pub open spec fn holds(self) -> bool {
        self.low <= self.value <= self.high
    }
}

/// 15 less, or 0.
#[verifier::allow_in_spec]
pub fn a_nibble_below(value: u8) -> u32
    returns
        (if value < 15 {
            0u32
        } else {
            (value - 15) as u32
        }),
{
    if value < 15 {
        0
    } else {
        (value - 15) as u32
    }
}

/// 15 more.
#[verifier::allow_in_spec]
pub fn a_nibble_above(value: u8) -> u32
    returns
        (value + 15) as u32,
{
    value as u32 + 15
}

/// The settings that would get truncated on their way into a register field, with their ranges.
pub open spec fn range_checks(settings: Ad9361Settings) -> Seq<RangeCheck> {
    seq![
        RangeCheck { name: "gain_ctrl.adc_ovr_sample_size", value: settings.gain_ctrl.adc_ovr_sample_size as u32, low: 1, high: 8 },
        RangeCheck { name: "gain_ctrl.lmt_overload_high_thresh", value: settings.gain_ctrl.lmt_overload_high_thresh as u32, low: 16, high: 800 },
        RangeCheck { name: "gain_ctrl.lmt_overload_low_thresh", value: settings.gain_ctrl.lmt_overload_low_thresh as u32, low: 16, high: 800 },
        RangeCheck { name: "gain_ctrl.dec_pow_measurement_duration", value: settings.gain_ctrl.dec_pow_measurement_duration as u32, low: 16, high: 0xF_FFFF },
        RangeCheck { name: "gain_ctrl.low_power_thresh", value: settings.gain_ctrl.low_power_thresh as u32, low: 0, high: 64 },
        RangeCheck { name: "gain_ctrl.max_dig_gain", value: settings.gain_ctrl.max_dig_gain as u32, low: 0, high: 31 },
        RangeCheck { name: "gain_ctrl.mgc_inc_gain_step", value: settings.gain_ctrl.mgc_inc_gain_step as u32, low: 1, high: 8 },
        RangeCheck { name: "gain_ctrl.mgc_dec_gain_step", value: settings.gain_ctrl.mgc_dec_gain_step as u32, low: 1, high: 8 },
        RangeCheck { name: "gain_ctrl.mgc_split_table_ctrl_inp_gain_mode", value: settings.gain_ctrl.mgc_split_table_ctrl_inp_gain_mode as u32, low: 0, high: 2 },
        RangeCheck { name: "gain_ctrl.agc_attack_delay_extra_margin_us", value: settings.gain_ctrl.agc_attack_delay_extra_margin_us as u32, low: 0, high: 31 },
        RangeCheck { name: "gain_ctrl.agc_outer_thresh_high_dec_steps", value: settings.gain_ctrl.agc_outer_thresh_high_dec_steps as u32, low: 0, high: 15 },
        RangeCheck { name: "gain_ctrl.agc_outer_thresh_low_inc_steps", value: settings.gain_ctrl.agc_outer_thresh_low_inc_steps as u32, low: 0, high: 15 },
        RangeCheck { name: "gain_ctrl.agc_inner_thresh_high", value: settings.gain_ctrl.agc_inner_thresh_high as u32, low: 0, high: 127 },
        RangeCheck { name: "gain_ctrl.agc_inner_thresh_low", value: settings.gain_ctrl.agc_inner_thresh_low as u32, low: 0, high: 127 },
        RangeCheck { name: "gain_ctrl.agc_inner_thresh_high_dec_steps", value: settings.gain_ctrl.agc_inner_thresh_high_dec_steps as u32, low: 0, high: 7 },
        RangeCheck { name: "gain_ctrl.agc_inner_thresh_low_inc_steps", value: settings.gain_ctrl.agc_inner_thresh_low_inc_steps as u32, low: 0, high: 7 },
        RangeCheck { name: "gain_ctrl.adc_small_overload_exceed_counter", value: settings.gain_ctrl.adc_small_overload_exceed_counter as u32, low: 0, high: 15 },
        RangeCheck { name: "gain_ctrl.adc_large_overload_exceed_counter", value: settings.gain_ctrl.adc_large_overload_exceed_counter as u32, low: 0, high: 15 },
        RangeCheck { name: "gain_ctrl.adc_large_overload_inc_steps", value: settings.gain_ctrl.adc_large_overload_inc_steps as u32, low: 0, high: 15 },
        RangeCheck { name: "gain_ctrl.lmt_overload_large_exceed_counter", value: settings.gain_ctrl.lmt_overload_large_exceed_counter as u32, low: 0, high: 15 },
        RangeCheck { name: "gain_ctrl.lmt_overload_small_exceed_counter", value: settings.gain_ctrl.lmt_overload_small_exceed_counter as u32, low: 0, high: 15 },
        RangeCheck { name: "gain_ctrl.lmt_overload_large_inc_steps", value: settings.gain_ctrl.lmt_overload_large_inc_steps as u32, low: 0, high: 7 },
        RangeCheck { name: "gain_ctrl.dig_saturation_exceed_counter", value: settings.gain_ctrl.dig_saturation_exceed_counter as u32, low: 0, high: 15 },
        RangeCheck { name: "gain_ctrl.dig_gain_step_size", value: settings.gain_ctrl.dig_gain_step_size as u32, low: 0, high: 7 },
        RangeCheck { name: "gain_ctrl.f_agc_dec_pow_measurement_duration", value: settings.gain_ctrl.f_agc_dec_pow_measurement_duration as u32, low: 16, high: 0xF_FFFF },
        RangeCheck { name: "gain_ctrl.f_agc_lp_thresh_increment_steps", value: settings.gain_ctrl.f_agc_lp_thresh_increment_steps as u32, low: 1, high: 8 },
        RangeCheck { name: "gain_ctrl.f_agc_lock_level_gain_increase_upper_limit", value: settings.gain_ctrl.f_agc_lock_level_gain_increase_upper_limit as u32, low: 0, high: 63 },
        RangeCheck { name: "gain_ctrl.f_agc_lpf_final_settling_steps", value: settings.gain_ctrl.f_agc_lpf_final_settling_steps as u32, low: 0, high: 3 },
        RangeCheck { name: "gain_ctrl.f_agc_lmt_final_settling_steps", value: settings.gain_ctrl.f_agc_lmt_final_settling_steps as u32, low: 0, high: 3 },
        RangeCheck { name: "gain_ctrl.f_agc_final_overrange_count", value: settings.gain_ctrl.f_agc_final_overrange_count as u32, low: 0, high: 7 },
        RangeCheck { name: "gain_ctrl.f_agc_optimized_gain_offset", value: settings.gain_ctrl.f_agc_optimized_gain_offset as u32, low: 0, high: 15 },
        RangeCheck { name: "gain_ctrl.f_agc_rst_gla_stronger_sig_thresh_above_ll", value: settings.gain_ctrl.f_agc_rst_gla_stronger_sig_thresh_above_ll as u32, low: 0, high: 63 },
        RangeCheck { name: "gain_ctrl.f_agc_rst_gla_energy_lost_sig_thresh_below_ll", value: settings.gain_ctrl.f_agc_rst_gla_energy_lost_sig_thresh_below_ll as u32, low: 0, high: 63 },
        RangeCheck { name: "gain_ctrl.f_agc_energy_lost_stronger_sig_gain_lock_exit_cnt", value: settings.gain_ctrl.f_agc_energy_lost_stronger_sig_gain_lock_exit_cnt as u32, low: 0, high: 63 },
        RangeCheck { name: "gain_ctrl.f_agc_power_measurement_duration_in_state5", value: settings.gain_ctrl.f_agc_power_measurement_duration_in_state5 as u32, low: 16, high: u32::MAX },
        RangeCheck { name: "gain_ctrl.f_agc_large_overload_inc_steps", value: settings.gain_ctrl.f_agc_large_overload_inc_steps as u32, low: 0, high: 7 },
        RangeCheck { name: "dc_offset.update_events", value: settings.dc_offset.update_events as u32, low: 0, high: 7 },
        RangeCheck { name: "rssi.duration", value: settings.rssi.duration as u32, low: 1, high: u32::MAX },
        RangeCheck { name: "txmon.delay", value: settings.txmon.delay as u32, low: 0, high: 1023 },
        RangeCheck { name: "txmon.low_gain_db", value: settings.txmon.low_gain_db as u32, low: 0, high: 31 },
        RangeCheck { name: "txmon.high_gain_db", value: settings.txmon.high_gain_db as u32, low: 0, high: 31 },
        RangeCheck { name: "txmon.tx1_front_end_gain", value: settings.txmon.tx1_front_end_gain as u32, low: 0, high: 3 },
        RangeCheck { name: "txmon.tx2_front_end_gain", value: settings.txmon.tx2_front_end_gain as u32, low: 0, high: 3 },
        RangeCheck { name: "txmon.tx1_lo_cm", value: settings.txmon.tx1_lo_cm as u32, low: 0, high: 63 },
        RangeCheck { name: "txmon.tx2_lo_cm", value: settings.txmon.tx2_lo_cm as u32, low: 0, high: 63 },
        RangeCheck { name: "txmon.low_high_gain_threshold_mdb", value: settings.txmon.low_high_gain_threshold_mdb as u32, low: 0, high: 63_999 },
        RangeCheck { name: "dc_offset.attenuation_high", value: settings.dc_offset.attenuation_high as u32, low: 0, high: 31 },
        RangeCheck { name: "dc_offset.attenuation_low", value: settings.dc_offset.attenuation_low as u32, low: 0, high: 31 },
        // the field holds how far the outer threshold is from the inner one
        RangeCheck { name: "gain_ctrl.agc_outer_thresh_high", value: settings.gain_ctrl.agc_outer_thresh_high as u32, low: a_nibble_below(settings.gain_ctrl.agc_inner_thresh_high), high: settings.gain_ctrl.agc_inner_thresh_high as u32 },
        RangeCheck { name: "gain_ctrl.agc_outer_thresh_low", value: settings.gain_ctrl.agc_outer_thresh_low as u32, low: settings.gain_ctrl.agc_inner_thresh_low as u32, high: a_nibble_above(settings.gain_ctrl.agc_inner_thresh_low) },
        RangeCheck { name: "port.conf2.delay_rx_data", value: settings.port.conf2.delay_rx_data as u32, low: 0, high: 3 },
        RangeCheck { name: "port.lvds_bias.clk_out_slew", value: settings.port.lvds_bias.clk_out_slew as u32, low: 0, high: 3 },
        RangeCheck { name: "port.lvds_bias.lvds_bias", value: settings.port.lvds_bias.lvds_bias as u32, low: 0, high: 7 },
        // in units of 2^29 BBPLL cycles
        RangeCheck { name: "auxadc.temp_time_interval_ms", value: temp_interval_units(settings.auxadc.temp_time_interval_ms, settings.rx_path_clks.bbpll.raw), low: 0, high: 127 },
    ]
}

/// First of the checks that fails.
pub open spec fn first_failure(checks: Seq<RangeCheck>) -> Option<RangeCheck>
    decreases checks.len(),
{
    if checks.len() == 0 {
        None
    } else {
        let earlier = first_failure(checks.drop_last());
        if earlier is Some {
            earlier
        } else if checks.last().holds() {
            None
        } else {
            Some(checks.last())
        }
    }
}

/// A failure among the first checks is the first failure of all.
proof fn lemma_first_failure(checks: Seq<RangeCheck>, n: int)
    requires
        0 <= n <= checks.len(),
        first_failure(checks.take(n)) is Some,
    ensures
        first_failure(checks) == first_failure(checks.take(n)),
    decreases checks.len() - n,
{
    if n < checks.len() {
        assert(checks.take(n + 1).drop_last() =~= checks.take(n));
        lemma_first_failure(checks, n + 1);
    } else {
        assert(checks.take(n) =~= checks);
    }
}

/// The first failure is a check of the list that does not hold, and every check before it does.
/// There is none exactly where every check holds.
pub proof fn law_first_failure(checks: Seq<RangeCheck>)
    ensures
        first_failure(checks) is None <==> forall|i: int|
            0 <= i < checks.len() ==> (#[trigger] checks[i]).holds(),
        first_failure(checks) matches Some(check) ==> exists|n: int|
            {
                &&& 0 <= n < checks.len()
                &&& #[trigger] checks[n] == check
                &&& !check.holds()
                &&& forall|i: int| 0 <= i < n ==> (#[trigger] checks[i]).holds()
            },
    decreases checks.len(),
{
    if checks.len() > 0 {
        let earlier = checks.drop_last();
        law_first_failure(earlier);
        assert forall|i: int| 0 <= i < earlier.len() implies earlier[i] == #[trigger] checks[i] by {}
        if first_failure(earlier) is Some {
            let n = choose|n: int|
                {
                    &&& 0 <= n < earlier.len()
                    &&& #[trigger] earlier[n] == first_failure(earlier)->0
                    &&& !first_failure(earlier)->0.holds()
                    &&& forall|i: int| 0 <= i < n ==> (#[trigger] earlier[i]).holds()
                };
            assert(checks[n] == first_failure(checks)->0);
        } else {
            assert forall|i: int| 0 <= i < checks.len() - 1 implies (#[trigger] checks[i]).holds() by {
                assert(earlier[i].holds());
            }
            assert(checks[checks.len() - 1] == checks.last());
        }
    }
}

fn collect_range_checks(settings: &Ad9361Settings) -> (checks: Vec<RangeCheck>)
    ensures
        checks@ == range_checks(*settings),
{
    vec![
        RangeCheck { name: "gain_ctrl.adc_ovr_sample_size", value: settings.gain_ctrl.adc_ovr_sample_size as u32, low: 1, high: 8 },
        RangeCheck { name: "gain_ctrl.lmt_overload_high_thresh", value: settings.gain_ctrl.lmt_overload_high_thresh as u32, low: 16, high: 800 },
        RangeCheck { name: "gain_ctrl.lmt_overload_low_thresh", value: settings.gain_ctrl.lmt_overload_low_thresh as u32, low: 16, high: 800 },
        RangeCheck { name: "gain_ctrl.dec_pow_measurement_duration", value: settings.gain_ctrl.dec_pow_measurement_duration as u32, low: 16, high: 0xF_FFFF },
        RangeCheck { name: "gain_ctrl.low_power_thresh", value: settings.gain_ctrl.low_power_thresh as u32, low: 0, high: 64 },
        RangeCheck { name: "gain_ctrl.max_dig_gain", value: settings.gain_ctrl.max_dig_gain as u32, low: 0, high: 31 },
        RangeCheck { name: "gain_ctrl.mgc_inc_gain_step", value: settings.gain_ctrl.mgc_inc_gain_step as u32, low: 1, high: 8 },
        RangeCheck { name: "gain_ctrl.mgc_dec_gain_step", value: settings.gain_ctrl.mgc_dec_gain_step as u32, low: 1, high: 8 },
        RangeCheck { name: "gain_ctrl.mgc_split_table_ctrl_inp_gain_mode", value: settings.gain_ctrl.mgc_split_table_ctrl_inp_gain_mode as u32, low: 0, high: 2 },
        RangeCheck { name: "gain_ctrl.agc_attack_delay_extra_margin_us", value: settings.gain_ctrl.agc_attack_delay_extra_margin_us as u32, low: 0, high: 31 },
        RangeCheck { name: "gain_ctrl.agc_outer_thresh_high_dec_steps", value: settings.gain_ctrl.agc_outer_thresh_high_dec_steps as u32, low: 0, high: 15 },
        RangeCheck { name: "gain_ctrl.agc_outer_thresh_low_inc_steps", value: settings.gain_ctrl.agc_outer_thresh_low_inc_steps as u32, low: 0, high: 15 },
        RangeCheck { name: "gain_ctrl.agc_inner_thresh_high", value: settings.gain_ctrl.agc_inner_thresh_high as u32, low: 0, high: 127 },
        RangeCheck { name: "gain_ctrl.agc_inner_thresh_low", value: settings.gain_ctrl.agc_inner_thresh_low as u32, low: 0, high: 127 },
        RangeCheck { name: "gain_ctrl.agc_inner_thresh_high_dec_steps", value: settings.gain_ctrl.agc_inner_thresh_high_dec_steps as u32, low: 0, high: 7 },
        RangeCheck { name: "gain_ctrl.agc_inner_thresh_low_inc_steps", value: settings.gain_ctrl.agc_inner_thresh_low_inc_steps as u32, low: 0, high: 7 },
        RangeCheck { name: "gain_ctrl.adc_small_overload_exceed_counter", value: settings.gain_ctrl.adc_small_overload_exceed_counter as u32, low: 0, high: 15 },
        RangeCheck { name: "gain_ctrl.adc_large_overload_exceed_counter", value: settings.gain_ctrl.adc_large_overload_exceed_counter as u32, low: 0, high: 15 },
        RangeCheck { name: "gain_ctrl.adc_large_overload_inc_steps", value: settings.gain_ctrl.adc_large_overload_inc_steps as u32, low: 0, high: 15 },
        RangeCheck { name: "gain_ctrl.lmt_overload_large_exceed_counter", value: settings.gain_ctrl.lmt_overload_large_exceed_counter as u32, low: 0, high: 15 },
        RangeCheck { name: "gain_ctrl.lmt_overload_small_exceed_counter", value: settings.gain_ctrl.lmt_overload_small_exceed_counter as u32, low: 0, high: 15 },
        RangeCheck { name: "gain_ctrl.lmt_overload_large_inc_steps", value: settings.gain_ctrl.lmt_overload_large_inc_steps as u32, low: 0, high: 7 },
        RangeCheck { name: "gain_ctrl.dig_saturation_exceed_counter", value: settings.gain_ctrl.dig_saturation_exceed_counter as u32, low: 0, high: 15 },
        RangeCheck { name: "gain_ctrl.dig_gain_step_size", value: settings.gain_ctrl.dig_gain_step_size as u32, low: 0, high: 7 },
        RangeCheck { name: "gain_ctrl.f_agc_dec_pow_measurement_duration", value: settings.gain_ctrl.f_agc_dec_pow_measurement_duration as u32, low: 16, high: 0xF_FFFF },
        RangeCheck { name: "gain_ctrl.f_agc_lp_thresh_increment_steps", value: settings.gain_ctrl.f_agc_lp_thresh_increment_steps as u32, low: 1, high: 8 },
        RangeCheck { name: "gain_ctrl.f_agc_lock_level_gain_increase_upper_limit", value: settings.gain_ctrl.f_agc_lock_level_gain_increase_upper_limit as u32, low: 0, high: 63 },
        RangeCheck { name: "gain_ctrl.f_agc_lpf_final_settling_steps", value: settings.gain_ctrl.f_agc_lpf_final_settling_steps as u32, low: 0, high: 3 },
        RangeCheck { name: "gain_ctrl.f_agc_lmt_final_settling_steps", value: settings.gain_ctrl.f_agc_lmt_final_settling_steps as u32, low: 0, high: 3 },
        RangeCheck { name: "gain_ctrl.f_agc_final_overrange_count", value: settings.gain_ctrl.f_agc_final_overrange_count as u32, low: 0, high: 7 },
        RangeCheck { name: "gain_ctrl.f_agc_optimized_gain_offset", value: settings.gain_ctrl.f_agc_optimized_gain_offset as u32, low: 0, high: 15 },
        RangeCheck { name: "gain_ctrl.f_agc_rst_gla_stronger_sig_thresh_above_ll", value: settings.gain_ctrl.f_agc_rst_gla_stronger_sig_thresh_above_ll as u32, low: 0, high: 63 },
        RangeCheck { name: "gain_ctrl.f_agc_rst_gla_energy_lost_sig_thresh_below_ll", value: settings.gain_ctrl.f_agc_rst_gla_energy_lost_sig_thresh_below_ll as u32, low: 0, high: 63 },
        RangeCheck { name: "gain_ctrl.f_agc_energy_lost_stronger_sig_gain_lock_exit_cnt", value: settings.gain_ctrl.f_agc_energy_lost_stronger_sig_gain_lock_exit_cnt as u32, low: 0, high: 63 },
        RangeCheck { name: "gain_ctrl.f_agc_power_measurement_duration_in_state5", value: settings.gain_ctrl.f_agc_power_measurement_duration_in_state5 as u32, low: 16, high: u32::MAX },
        RangeCheck { name: "gain_ctrl.f_agc_large_overload_inc_steps", value: settings.gain_ctrl.f_agc_large_overload_inc_steps as u32, low: 0, high: 7 },
        RangeCheck { name: "dc_offset.update_events", value: settings.dc_offset.update_events as u32, low: 0, high: 7 },
        RangeCheck { name: "rssi.duration", value: settings.rssi.duration as u32, low: 1, high: u32::MAX },
        RangeCheck { name: "txmon.delay", value: settings.txmon.delay as u32, low: 0, high: 1023 },
        RangeCheck { name: "txmon.low_gain_db", value: settings.txmon.low_gain_db as u32, low: 0, high: 31 },
        RangeCheck { name: "txmon.high_gain_db", value: settings.txmon.high_gain_db as u32, low: 0, high: 31 },
        RangeCheck { name: "txmon.tx1_front_end_gain", value: settings.txmon.tx1_front_end_gain as u32, low: 0, high: 3 },
        RangeCheck { name: "txmon.tx2_front_end_gain", value: settings.txmon.tx2_front_end_gain as u32, low: 0, high: 3 },
        RangeCheck { name: "txmon.tx1_lo_cm", value: settings.txmon.tx1_lo_cm as u32, low: 0, high: 63 },
        RangeCheck { name: "txmon.tx2_lo_cm", value: settings.txmon.tx2_lo_cm as u32, low: 0, high: 63 },
        RangeCheck { name: "txmon.low_high_gain_threshold_mdb", value: settings.txmon.low_high_gain_threshold_mdb as u32, low: 0, high: 63_999 },
        RangeCheck { name: "dc_offset.attenuation_high", value: settings.dc_offset.attenuation_high as u32, low: 0, high: 31 },
        RangeCheck { name: "dc_offset.attenuation_low", value: settings.dc_offset.attenuation_low as u32, low: 0, high: 31 },
        // the field holds how far the outer threshold is from the inner one
        RangeCheck { name: "gain_ctrl.agc_outer_thresh_high", value: settings.gain_ctrl.agc_outer_thresh_high as u32, low: a_nibble_below(settings.gain_ctrl.agc_inner_thresh_high), high: settings.gain_ctrl.agc_inner_thresh_high as u32 },
        RangeCheck { name: "gain_ctrl.agc_outer_thresh_low", value: settings.gain_ctrl.agc_outer_thresh_low as u32, low: settings.gain_ctrl.agc_inner_thresh_low as u32, high: a_nibble_above(settings.gain_ctrl.agc_inner_thresh_low) },
        RangeCheck { name: "port.conf2.delay_rx_data", value: settings.port.conf2.delay_rx_data as u32, low: 0, high: 3 },
        RangeCheck { name: "port.lvds_bias.clk_out_slew", value: settings.port.lvds_bias.clk_out_slew as u32, low: 0, high: 3 },
        RangeCheck { name: "port.lvds_bias.lvds_bias", value: settings.port.lvds_bias.lvds_bias as u32, low: 0, high: 7 },
        // in units of 2^29 BBPLL cycles
        RangeCheck { name: "auxadc.temp_time_interval_ms", value: temp_interval_units(settings.auxadc.temp_time_interval_ms, settings.rx_path_clks.bbpll.raw), low: 0, high: 127 },
    ]
}

/// Catches values that would get truncated on their way into a register field. The error names
/// the first one.
pub fn validate_ranges(settings: &Ad9361Settings) -> (r: Result<(), ConfigError>)
    ensures
        match first_failure(range_checks(*settings)) {
            None => r is Ok,
            Some(check) => r == Err::<(), ConfigError>(ConfigError::OutOfRange(check.name)),
        },
{
    let checks = collect_range_checks(settings);
    let mut i: usize = 0;
    assert(checks@.take(0).len() == 0);
    while i < checks.len()
        invariant
            i <= checks@.len(),
            checks@ == range_checks(*settings),
            first_failure(checks@.take(i as int)) is None,
        decreases checks@.len() - i,
    {
        let check: RangeCheck = checks[i];
        assert(checks@.take(i as int + 1).drop_last() =~= checks@.take(i as int));
        if check.value < check.low || check.value > check.high {
            proof {
                lemma_first_failure(checks@, i as int + 1);
            }
            return Err(ConfigError::OutOfRange(check.name));
        }
        i = i + 1;
    }
    assert(checks@.take(i as int) =~= checks@);
    Ok(())
}

/// Settings that passed all checks. Setup only takes this type.
///
/// [`Ad9361Config::new`] checks that:
///
/// - the path clocks are within the chip's limits and one of them matches DATA_CLK
/// - the reference clock can be divided into the synth reference window (`trx_synth_max_fref`)
/// - the BBPLL rate can be divided down to the AuxADC clock
/// - ENSM pin control isn't combined with FDD independent mode
/// - every number fits its register field ([`ConfigError::OutOfRange`] names the setting)
#[derive(Debug, Clone, Copy)]
pub struct Ad9361Config {
    settings: Ad9361Settings,
    ref_clk: ReferenceClock,
    bbpll_ref: HertzU32,
    synth_ref: HertzU32,
}

/// RX and TX synth reference in Hz. Zero if there is none in the window.
pub open spec fn synth_reference(settings: Ad9361Settings, ref_clk: ReferenceClock) -> int {
    crate::clocks::scaled_reference(
        ref_clk.hz(),
        clamped(settings.trx_synth_max_fref.raw, MIN_SYNTH_FREF, MAX_SYNTH_FREF),
    )
}

/// What is wrong with the settings, if anything. The checks run in this order.
pub open spec fn config_error(
    settings: Ad9361Settings,
    ref_clk: ReferenceClock,
) -> Option<ConfigError> {
    if let Some(check) = first_failure(range_checks(settings)) {
        Some(ConfigError::OutOfRange(check.name))
    } else if settings.ensm_pin_ctrl && settings.duplex.fdd_independent_mode() {
        Some(ConfigError::EnsmPinControlInFddIndependentMode)
    } else if !crate::clock_chain::valid_clock_chain(
        settings.rx_path_clks,
        settings.tx_path_clks,
        settings.channels.is_two_by_two(),
        settings.port.conf3.lvds_mode,
    ) {
        Some(ConfigError::ClockChain)
    } else if synth_reference(settings, ref_clk) == 0 {
        Some(ConfigError::SynthReference)
    } else if settings.auxadc.auxadc_clock_rate.raw == 0 || settings.rx_path_clks.bbpll.raw
        / settings.auxadc.auxadc_clock_rate.raw >= 64 {
        Some(ConfigError::AuxAdcClockRate)
    } else {
        None
    }
}

impl Ad9361Config {
    pub closed spec fn spec_settings(self) -> Ad9361Settings {
        self.settings
    }

    pub closed spec fn spec_ref_clk(self) -> ReferenceClock {
        self.ref_clk
    }

    /// Reference clock scaled into the BBPLL's range.
    pub closed spec fn spec_bbpll_ref(self) -> HertzU32 {
        self.bbpll_ref
    }

    /// RX and TX synth reference.
    pub closed spec fn spec_synth_ref(self) -> HertzU32 {
        self.synth_ref
    }

    #[verifier::type_invariant]
    spec fn checked(self) -> bool {
        &&& config_error(self.settings, self.ref_clk) is None
        &&& self.synth_ref.raw == synth_reference(self.settings, self.ref_clk)
        &&& self.bbpll_ref.raw == crate::clocks::scaled_reference(self.ref_clk.hz(), MAX_BBPLL_FREF)
    }

    pub fn new(settings: Ad9361Settings, ref_clk: ReferenceClock) -> (r: Result<Self, ConfigError>)
        ensures
            crate::link::error_of(r) == config_error(settings, ref_clk),
            r matches Ok(config) ==> {
                &&& config.spec_settings() == settings
                &&& config.spec_ref_clk() == ref_clk
                &&& config.spec_bbpll_ref().raw == crate::clocks::scaled_reference(
                    ref_clk.hz(),
                    MAX_BBPLL_FREF,
                )
                &&& config.spec_synth_ref().raw == synth_reference(settings, ref_clk)
            },
    {
        validate_ranges(&settings)?;

        // pin control doesn't work with separate RX/TX LOs
        if settings.ensm_pin_ctrl && settings.duplex.fdd_independent_mode() {
            return Err(ConfigError::EnsmPinControlInFddIndependentMode);
        }
        if validate_trx_clock_chain(
            &settings.rx_path_clks,
            &settings.tx_path_clks,
            settings.channels.is_two_by_two(),
            settings.port.conf3.lvds_mode,
        ).is_err() {
            return Err(ConfigError::ClockChain);
        }
        let max_fref: u32 = clamped(
            settings.trx_synth_max_fref.raw,
            MIN_SYNTH_FREF,
            MAX_SYNTH_FREF,
        );
        let synth_ref = ref_div_sel(ref_clk.get(), HertzU32 { raw: max_fref });
        if synth_ref.raw == 0 {
            return Err(ConfigError::SynthReference);
        }
        // can't fail, ReferenceClock already checked it
        let bbpll_ref = ref_div_sel(ref_clk.get(), HertzU32 { raw: MAX_BBPLL_FREF });

        // BBPLL has to divide down to the AuxADC clock
        let auxadc: u32 = settings.auxadc.auxadc_clock_rate.raw;
        if auxadc == 0 || settings.rx_path_clks.bbpll.raw / auxadc >= 64 {
            return Err(ConfigError::AuxAdcClockRate);
        }
        Ok(Ad9361Config { settings, ref_clk, bbpll_ref, synth_ref })
    }

    pub fn settings(&self) -> (settings: &Ad9361Settings)
        ensures
            *settings == self.spec_settings(),
    {
        &self.settings
    }

    pub fn ref_clk(&self) -> (ref_clk: ReferenceClock)
        ensures
            ref_clk == self.spec_ref_clk(),
    {
        self.ref_clk
    }

    /// Reference clock scaled into the BBPLL's range.
    pub fn bbpll_ref(&self) -> (rate: HertzU32)
        ensures
            rate == self.spec_bbpll_ref(),
    {
        self.bbpll_ref
    }

    /// RX and TX synth reference.
    pub fn synth_ref(&self) -> (rate: HertzU32)
        ensures
            rate == self.spec_synth_ref(),
    {
        self.synth_ref
    }
}

} // verus!
