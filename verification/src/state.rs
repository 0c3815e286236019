//! What the driver remembers about the chip, split up by subsystem. All of it starts from the
//! checked config, so there are no placeholder values. `Option` only where the chip really
//! has nothing yet (FIR not loaded, no calibration result).
use vstd::prelude::*;

use crate::calibration::{DcOffsetConfig, TrackingConfig};
use crate::clock_chain::PathClocks;
use crate::clocks::Ad9361ClockRates;
use crate::config::{Ad9361Config, Ad9361Settings, DigInterfaceTune, GainTableKind};
use crate::dig_tune::BistLoopback;
use crate::fir::FirFactor;
use crate::gain_control::{GainControl, GainMode};
use crate::monitor::RssiConfiguration;
use crate::ports::{AuxAdcConfig, Channel, ParallelPortConf3, RxClockDataDelay, TxClockDataDelay};
use crate::synth::Carrier;
use crate::tables::ChipTables;
use crate::units::{saturated, HertzU32, TxAttenuation};

verus! {

/// Channel, duplex and data interface modes.
#[derive(Debug, Clone, Copy, PartialEq, Eq, Structural)]
pub struct ModeState {
    /// 2R2T instead of 1R1T
    pub rx2tx2: bool,
    /// FDD, not TDD
    pub fdd: bool,
    /// LVDS data interface, not CMOS
    pub lvds_mode: bool,
    /// Lock detector off while the RFPLL gets programmed (TDD)
    pub tdd_skip_vco_cal: bool,
    /// FDD with separate RX and TX LOs
    pub fdd_independent_mode: bool,
    pub tdd_use_dual_synth: bool,
    /// RX channel in 1R1T
    pub rx1tx1_use_rx: Channel,
    /// TX channel in 1R1T
    pub rx1tx1_use_tx: Channel,
    /// Parallel port conf 3, with the combinations the chip can't do already fixed up
    pub pp_conf3: ParallelPortConf3,
    /// TX monitor in TDD
    pub txmon_tdd_en: bool,
}

impl ModeState {
    #[verifier::allow_in_spec]
    pub fn new(settings: &Ad9361Settings) -> Self
        returns
            (ModeState {
                rx2tx2: settings.channels.is_two_by_two(),
                fdd: settings.duplex.is_fdd(),
                lvds_mode: settings.port.sanitized_conf3().lvds_mode,
                tdd_skip_vco_cal: settings.duplex.tdd_skip_vco_cal(),
                fdd_independent_mode: settings.duplex.fdd_independent_mode(),
                tdd_use_dual_synth: settings.duplex.tdd_dual_synth(),
                rx1tx1_use_rx: settings.channels.one_by_one_rx(),
                rx1tx1_use_tx: settings.channels.one_by_one_tx(),
                pp_conf3: settings.port.sanitized_conf3(),
                txmon_tdd_en: false,
            }),
    {
        ModeState {
            rx2tx2: settings.channels.is_two_by_two(),
            fdd: settings.duplex.is_fdd(),
            lvds_mode: settings.port.sanitized_conf3().lvds_mode,
            tdd_skip_vco_cal: settings.duplex.tdd_skip_vco_cal(),
            fdd_independent_mode: settings.duplex.fdd_independent_mode(),
            tdd_use_dual_synth: settings.duplex.tdd_dual_synth(),
            rx1tx1_use_rx: settings.channels.one_by_one_rx(),
            rx1tx1_use_tx: settings.channels.one_by_one_tx(),
            pp_conf3: settings.port.sanitized_conf3(),
            txmon_tdd_en: false,
        }
    }
}

/// An LO that has been programmed.
#[derive(Debug, Clone, Copy, PartialEq, Eq, Structural)]
pub struct LoSetting {
    pub carrier: Carrier,
    /// set up from the TDD table
    pub use_tdd_table: bool,
}

/// Clock tree.
#[derive(Debug, Clone, Copy, PartialEq, Eq, Structural)]
pub struct ClockState {
    /// Rate cache
    pub rates: Ad9361ClockRates,
    pub rx_path_clks: PathClocks,
    pub tx_path_clks: PathClocks,
    /// 1 = nominal oversampling, 0 = highest
    pub rate_governor: u32,
    /// external reference instead of the crystal
    pub use_extclk: bool,
    /// LOs, once programmed
    pub current_rx_lo: Option<LoSetting>,
    pub current_tx_lo: Option<LoSetting>,
}

impl ClockState {
    pub open spec fn fresh(settings: Ad9361Settings, ref_clk: HertzU32) -> Self {
        ClockState {
            rates: Ad9361ClockRates::unread(ref_clk),
            rx_path_clks: settings.rx_path_clks,
            tx_path_clks: settings.tx_path_clks,
            rate_governor: settings.rate_governor.index(),
            use_extclk: settings.use_external_clock,
            current_rx_lo: None,
            current_tx_lo: None,
        }
    }

    pub fn new(settings: &Ad9361Settings, ref_clk: HertzU32) -> (state: Self)
        ensures
            state == Self::fresh(*settings, ref_clk),
    {
        ClockState {
            rates: Ad9361ClockRates::uninitialized(ref_clk),
            rx_path_clks: settings.rx_path_clks,
            tx_path_clks: settings.tx_path_clks,
            rate_governor: settings.rate_governor.index(),
            use_extclk: settings.use_external_clock,
            current_rx_lo: None,
            current_tx_lo: None,
        }
    }
}

/// RX gain control and gain table.
#[derive(Debug, Clone, Copy, PartialEq, Eq, Structural)]
pub struct GainState {
    /// as of the last `gc_setup`
    pub gain_ctrl: GainControl,
    pub rx1_mode: GainMode,
    pub rx2_mode: GainMode,
    pub elna_settling_delay_ns: u32,
    pub elna_in_gaintable_all_index_en: bool,
    /// split gain table
    pub split_gt: bool,
    /// index of the table that's in the chip
    pub current_table: usize,
    /// Entry whose LPF/TIA word the TX quad cal uses. There may be none.
    pub tx_quad_lpf_tia_match: Option<u8>,
}

impl GainState {
    pub open spec fn fresh(settings: Ad9361Settings, tables: ChipTables) -> Self {
        let split_gt = settings.gain_table == GainTableKind::Split;
        GainState {
            gain_ctrl: settings.gain_ctrl,
            rx1_mode: settings.gain_ctrl.rx1_mode,
            rx2_mode: settings.gain_ctrl.rx2_mode,
            elna_settling_delay_ns: settings.elna.settling_delay_ns,
            elna_in_gaintable_all_index_en: settings.elna.elna_in_gaintable_all_index_en,
            split_gt,
            current_table: tables.table_index(split_gt, settings.rx_synth_freq.hz()) as usize,
            tx_quad_lpf_tia_match: None,
        }
    }

    pub fn new(settings: &Ad9361Settings, tables: &ChipTables) -> (state: Self)
        ensures
            state == Self::fresh(*settings, *tables),
    {
        let split_gt = settings.gain_table == GainTableKind::Split;
        GainState {
            gain_ctrl: settings.gain_ctrl,
            rx1_mode: settings.gain_ctrl.rx1_mode,
            rx2_mode: settings.gain_ctrl.rx2_mode,
            elna_settling_delay_ns: settings.elna.settling_delay_ns,
            elna_in_gaintable_all_index_en: settings.elna.elna_in_gaintable_all_index_en,
            split_gt,
            current_table: tables.gain_table_index(split_gt, settings.rx_synth_freq.get().raw),
            tx_quad_lpf_tia_match: None,
        }
    }

    /// Mode of a channel.
    #[verifier::allow_in_spec]
    pub fn mode(&self, channel: Channel) -> GainMode
        returns
            (match channel {
                Channel::Ch1 => self.rx1_mode,
                Channel::Ch2 => self.rx2_mode,
            }),
    {
        match channel {
            Channel::Ch1 => self.rx1_mode,
            Channel::Ch2 => self.rx2_mode,
        }
    }

    /// Whether one of the channels is in this mode.
    #[verifier::allow_in_spec]
    pub fn any(&self, mode: GainMode) -> bool
        returns
            self.rx1_mode == mode || self.rx2_mode == mode,
    {
        self.rx1_mode == mode || self.rx2_mode == mode
    }
}

/// FIR with coefficients in the chip.
#[derive(Debug, Clone, Copy, PartialEq, Eq, Structural)]
pub struct LoadedFir {
    /// decimation (RX) or interpolation (TX)
    pub factor: FirFactor,
    pub ntaps: u32,
    /// Stays bypassed after loading until someone enables it.
    pub bypassed: bool,
}

/// RX and TX FIR. `None` until coefficients are loaded.
#[derive(Debug, Clone, Copy, PartialEq, Eq, Structural)]
pub struct FirState {
    pub rx: Option<LoadedFir>,
    pub tx: Option<LoadedFir>,
}

impl Default for FirState {
    fn default() -> (state: Self)
        ensures
            state == (FirState { rx: None, tx: None }),
    {
        FirState { rx: None, tx: None }
    }
}

impl FirState {
    /// 1 unless there's an enabled FIR
    #[verifier::allow_in_spec]
    pub fn rx_decimation(&self) -> u32
        returns
            (match self.rx {
                Some(fir) => if fir.bypassed {
                    1u32
                } else {
                    fir.factor.factor()
                },
                None => 1u32,
            }),
    {
        match self.rx {
            Some(fir) => if fir.bypassed {
                1
            } else {
                fir.factor.factor()
            },
            None => 1,
        }
    }

    /// 1 unless there's an enabled FIR
    #[verifier::allow_in_spec]
    pub fn tx_interpolation(&self) -> u32
        returns
            (match self.tx {
                Some(fir) => if fir.bypassed {
                    1u32
                } else {
                    fir.factor.factor()
                },
                None => 1u32,
            }),
    {
        match self.tx {
            Some(fir) => if fir.bypassed {
                1
            } else {
                fir.factor.factor()
            },
            None => 1,
        }
    }

    #[verifier::allow_in_spec]
    pub fn rx_bypassed(&self) -> bool
        returns
            (match self.rx {
                Some(fir) => fir.bypassed,
                None => true,
            }),
    {
        match self.rx {
            Some(fir) => fir.bypassed,
            None => true,
        }
    }

    #[verifier::allow_in_spec]
    pub fn tx_bypassed(&self) -> bool
        returns
            (match self.tx {
                Some(fir) => fir.bypassed,
                None => true,
            }),
    {
        match self.tx {
            Some(fir) => fir.bypassed,
            None => true,
        }
    }
}

/// A bypassed FIR leaves the rates alone.
pub proof fn law_bypassed_fir_is_neutral(state: FirState)
    ensures
        state.rx_bypassed() ==> state.rx_decimation() == 1,
        state.tx_bypassed() ==> state.tx_interpolation() == 1,
        1 <= state.rx_decimation() <= 4,
        1 <= state.tx_interpolation() <= 4,
{
}

/// Calibrations and tracking.
#[derive(Debug, Clone, Copy, PartialEq, Eq, Structural)]
pub struct CalibrationState {
    pub rssi_ctrl: RssiConfiguration,
    pub auxadc_config: AuxAdcConfig,
    pub tracking: TrackingConfig,
    pub dc_offset: DcOffsetConfig,
    /// redo TX quad cal after a big TX LO move
    pub auto_cal_en: bool,
    pub cal_threshold_freq: u64,
    pub last_tx_quad_cal_freq: u64,
    /// RF bandwidths from setup
    pub current_rx_bw: HertzU32,
    pub current_tx_bw: HertzU32,
    /// RX NCO phase offset of the last TX quad cal that converged
    pub last_tx_quad_cal_phase: Option<u32>,
    /// RX1/RX2 phase inversion on
    pub rx_phase_inversion: bool,
}

impl CalibrationState {
    pub open spec fn fresh(settings: Ad9361Settings) -> Self {
        CalibrationState {
            rssi_ctrl: settings.rssi,
            auxadc_config: settings.auxadc,
            tracking: settings.tracking,
            dc_offset: settings.dc_offset,
            auto_cal_en: false,
            cal_threshold_freq: 100_000_000,
            last_tx_quad_cal_freq: settings.tx_synth_freq.hz(),
            current_rx_bw: HertzU32 { raw: settings.rf_rx_bandwidth.hz() },
            current_tx_bw: HertzU32 { raw: settings.rf_tx_bandwidth.hz() },
            last_tx_quad_cal_phase: None,
            rx_phase_inversion: settings.port.rx1rx2_phase_inversion
                || settings.port.conf2.invert_rx2,
        }
    }

    pub fn new(settings: &Ad9361Settings) -> (state: Self)
        ensures
            state == Self::fresh(*settings),
    {
        CalibrationState {
            rssi_ctrl: settings.rssi,
            auxadc_config: settings.auxadc,
            tracking: settings.tracking,
            dc_offset: settings.dc_offset,
            auto_cal_en: false,
            cal_threshold_freq: 100_000_000,
            last_tx_quad_cal_freq: settings.tx_synth_freq.get().raw,
            current_rx_bw: settings.rf_rx_bandwidth.get(),
            current_tx_bw: settings.rf_tx_bandwidth.get(),
            last_tx_quad_cal_phase: None,
            rx_phase_inversion: settings.port.rx1rx2_phase_inversion
                || settings.port.conf2.invert_rx2,
        }
    }
}

/// One word for each of the AXI core's channels: I and Q of two channels.
#[derive(Debug, Clone, Copy, PartialEq, Eq, Structural)]
pub struct ChannelWords {
    pub ch0: u32,
    pub ch1: u32,
    pub ch2: u32,
    pub ch3: u32,
}

impl ChannelWords {
    /// All zero.
    #[verifier::allow_in_spec]
    pub fn zero() -> Self
        returns
            (ChannelWords { ch0: 0, ch1: 0, ch2: 0, ch3: 0 }),
    {
        ChannelWords { ch0: 0, ch1: 0, ch2: 0, ch3: 0 }
    }

    /// The word of a channel.
    #[verifier::allow_in_spec]
    pub fn get(&self, chan: u8) -> u32
        returns
            (match chan {
                0 => self.ch0,
                1 => self.ch1,
                2 => self.ch2,
                _ => self.ch3,
            }),
    {
        match chan {
            0 => self.ch0,
            1 => self.ch1,
            2 => self.ch2,
            _ => self.ch3,
        }
    }

    /// The same words but for the one of a channel.
    #[verifier::allow_in_spec]
    pub fn with(self, chan: u8, word: u32) -> Self
        returns
            (match chan {
                0 => ChannelWords { ch0: word, ..self },
                1 => ChannelWords { ch1: word, ..self },
                2 => ChannelWords { ch2: word, ..self },
                _ => ChannelWords { ch3: word, ..self },
            }),
    {
        match chan {
            0 => ChannelWords { ch0: word, ..self },
            1 => ChannelWords { ch1: word, ..self },
            2 => ChannelWords { ch2: word, ..self },
            _ => ChannelWords { ch3: word, ..self },
        }
    }
}

/// Digital interface tuning.
#[derive(Debug, Clone, Copy, PartialEq, Eq, Structural)]
pub struct TuneState {
    pub bist_loopback_mode: BistLoopback,
    /// the BIST configuration register
    pub bist_config: u8,
    /// DAC sources stashed while ADC data loops back in the FPGA
    pub scratch_dac_source: ChannelWords,
    pub dig_interface_tune: DigInterfaceTune,
    pub dig_interface_tune_fir_disable: bool,
    /// retune on every baseband clock change
    pub bb_clk_change_dig_tune_en: bool,
    pub axi_half_dac_rate_en: bool,
    /// from the config, or whatever tuning found last
    pub rx_clk_data_delay: RxClockDataDelay,
    pub tx_clk_data_delay: TxClockDataDelay,
}

impl TuneState {
    #[verifier::allow_in_spec]
    pub fn new(settings: &Ad9361Settings) -> Self
        returns
            (TuneState {
                bist_loopback_mode: BistLoopback::Off,
                bist_config: 0,
                scratch_dac_source: ChannelWords::zero(),
                dig_interface_tune: settings.dig_interface_tune,
                dig_interface_tune_fir_disable: settings.dig_interface_tune_fir_disable,
                bb_clk_change_dig_tune_en: settings.bb_clk_change_dig_tune_en,
                axi_half_dac_rate_en: settings.axi_half_dac_rate_en,
                rx_clk_data_delay: settings.port.rx_clk_data_delay,
                tx_clk_data_delay: settings.port.tx_clk_data_delay,
            }),
    {
        TuneState {
            bist_loopback_mode: BistLoopback::Off,
            bist_config: 0,
            scratch_dac_source: ChannelWords::zero(),
            dig_interface_tune: settings.dig_interface_tune,
            dig_interface_tune_fir_disable: settings.dig_interface_tune_fir_disable,
            bb_clk_change_dig_tune_en: settings.bb_clk_change_dig_tune_en,
            axi_half_dac_rate_en: settings.axi_half_dac_rate_en,
            rx_clk_data_delay: settings.port.rx_clk_data_delay,
            tx_clk_data_delay: settings.port.tx_clk_data_delay,
        }
    }
}

/// Enable state machine.
#[derive(Debug, Clone, Copy, PartialEq, Eq, Structural)]
pub struct EnsmTracking {
    /// pins instead of SPI
    pub pin_ctrl: bool,
    /// enable pin is a pulse, not a level
    pub pin_pulse_mode: bool,
    /// state after the last change
    pub current: u8,
    /// was pin control on when the state was last forced?
    pub saved_pin_ctrl_enable: bool,
}

impl EnsmTracking {
    #[verifier::allow_in_spec]
    pub fn new(settings: &Ad9361Settings, current: u8) -> Self
        returns
            (EnsmTracking {
                pin_ctrl: settings.ensm_pin_ctrl,
                pin_pulse_mode: settings.ensm_pin_pulse_mode,
                current,
                saved_pin_ctrl_enable: false,
            }),
    {
        EnsmTracking {
            // config already rejects pin control + separate LOs
            pin_ctrl: settings.ensm_pin_ctrl,
            pin_pulse_mode: settings.ensm_pin_pulse_mode,
            current,
            saved_pin_ctrl_enable: false,
        }
    }
}

/// All of it.
#[derive(Debug, Clone, Copy, PartialEq, Eq, Structural)]
pub struct EngineState {
    pub ref_clk_in: HertzU32,
    /// Instance number of the AXI core. Only instance 0 gets its interface tuned, the others use
    /// the configured delays.
    pub core_id: u32,
    /// channel/duplex/data interface modes
    pub mode: ModeState,
    /// clock tree
    pub clk: ClockState,
    /// RX gain control, gain table
    pub gain: GainState,
    /// FIRs
    pub fir: FirState,
    /// calibrations and tracking
    pub cal: CalibrationState,
    /// digital interface tuning
    pub tune: TuneState,
    /// ENSM
    pub ensm: EnsmTracking,
    /// saved while TX is muted
    pub tx1_atten_cached: TxAttenuation,
    pub tx2_atten_cached: TxAttenuation,
}

impl EngineState {
    /// State for a chip that was just reset. `ensm_state` is what it reported since.
    pub open spec fn fresh(
        config: Ad9361Config,
        tables: ChipTables,
        core_id: u32,
        ensm_state: u8,
    ) -> Self {
        let settings = config.spec_settings();
        let ref_clk = HertzU32 { raw: config.spec_ref_clk().hz() };
        EngineState {
            ref_clk_in: ref_clk,
            core_id,
            mode: ModeState::new(&settings),
            clk: ClockState::fresh(settings, ref_clk),
            gain: GainState::fresh(settings, tables),
            fir: FirState { rx: None, tx: None },
            cal: CalibrationState::fresh(settings),
            tune: TuneState::new(&settings),
            ensm: EnsmTracking::new(&settings, ensm_state),
            tx1_atten_cached: saturated(0),
            tx2_atten_cached: saturated(0),
        }
    }

    pub fn new(
        config: &Ad9361Config,
        tables: &ChipTables,
        core_id: u32,
        ensm_state: u8,
    ) -> (state: Self)
        ensures
            state == Self::fresh(*config, *tables, core_id, ensm_state),
    {
        let settings: &Ad9361Settings = config.settings();
        let ref_clk: HertzU32 = config.ref_clk().get();
        EngineState {
            ref_clk_in: ref_clk,
            core_id,
            mode: ModeState::new(settings),
            clk: ClockState::new(settings, ref_clk),
            gain: GainState::new(settings, tables),
            fir: FirState { rx: None, tx: None },
            cal: CalibrationState::new(settings),
            tune: TuneState::new(settings),
            ensm: EnsmTracking::new(settings, ensm_state),
            tx1_atten_cached: TxAttenuation::minimum(),
            tx2_atten_cached: TxAttenuation::minimum(),
        }
    }
}

} // verus!
