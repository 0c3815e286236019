//! The setup sequence.
use vstd::prelude::*;

use crate::calibration::RxPhase;
use crate::clocks::Ad9361Clock;
use crate::config::{Ad9361Config, Ad9361Settings, ChannelMode, ReferenceClock};
use crate::control::RequestedEnsmState;
use crate::dig_tune::num_phy_chan;
use crate::engine::{Engine, EngineView, flow, Flow};
use crate::gain_control::GainTableDest;
use crate::link::{Fault, put, update};
use crate::math::flag;
use crate::ports::Channel;
use crate::registers::{
    BANDGAP_CONFIG0, BANDGAP_CONFIG1, BBPLL_ENABLE, CLOCK_ENABLE, CLOCK_ENABLE_DFLT, CONTROL,
    CTRL_ENABLE, DIGITAL_POWER_UP, FRACT_BB_FREQ_WORD2, FRACT_BB_FREQ_WORD3, MASK_CLR_ATTEN_UPDATE,
    REF_DIVIDE_CONFIG1, REF_DIVIDE_CONFIG2, RX_REF_DOUBLER_FB_DELAY, RX_REF_RESET_BAR,
    TX_ATTEN_OFFSET, TX_REF_DOUBLER_FB_DELAY, TX_REF_RESET_BAR, XO_BYPASS,
};
use crate::state::{CalibrationState, EngineState, EnsmTracking};
use crate::units::{HertzU32, HertzU64, MAX_QUARTER_DB, saturated, TxAttenuation};

verus! {

/// TX channels in use.
#[verifier::allow_in_spec]
pub fn tx_in_use(channels: ChannelMode) -> (bool, bool)
    returns
        (match channels {
            ChannelMode::TwoByTwo => (true, true),
            ChannelMode::OneByOne { tx, .. } => (tx == Channel::Ch1, tx == Channel::Ch2),
        }),
{
    match channels {
        ChannelMode::TwoByTwo => (true, true),
        ChannelMode::OneByOne { tx, .. } => (tx == Channel::Ch1, tx == Channel::Ch2),
    }
}

/// RX channels in use.
#[verifier::allow_in_spec]
pub fn rx_in_use(channels: ChannelMode) -> (bool, bool)
    returns
        (match channels {
            ChannelMode::TwoByTwo => (true, true),
            ChannelMode::OneByOne { rx, .. } => (rx == Channel::Ch1, rx == Channel::Ch2),
        }),
{
    match channels {
        ChannelMode::TwoByTwo => (true, true),
        ChannelMode::OneByOne { rx, .. } => (rx == Channel::Ch1, rx == Channel::Ch2),
    }
}

/// State the chip runs in after the setup.
#[verifier::allow_in_spec]
pub fn running_state(fdd: bool) -> RequestedEnsmState
    returns
        (if fdd {
            RequestedEnsmState::Fdd
        } else {
            RequestedEnsmState::Rx
        }),
{
    if fdd {
        RequestedEnsmState::Fdd
    } else {
        RequestedEnsmState::Rx
    }
}

impl EngineView {
    /// Bias, reference and baseband clocks.
    #[verifier::opaque]
    pub open spec fn setup_clocks(self, settings: Ad9361Settings, bbpll_ref: HertzU32) -> Flow {
        self.auxdac_setup(settings.auxdac).gpo_setup(settings.gpo).run(
            [
                put(CONTROL, CTRL_ENABLE),
                put(BANDGAP_CONFIG0, 0x0E),
                put(BANDGAP_CONFIG1, 0x0E),
            ]@,
        ).set_dcxo_tune(settings.dcxo_coarse_tune, settings.dcxo_fine_tune).run(
            [
                update(REF_DIVIDE_CONFIG1, RX_REF_RESET_BAR, RX_REF_RESET_BAR),
                update(
                    REF_DIVIDE_CONFIG2,
                    TX_REF_RESET_BAR | TX_REF_DOUBLER_FB_DELAY | RX_REF_DOUBLER_FB_DELAY,
                    TX_REF_RESET_BAR | TX_REF_DOUBLER_FB_DELAY | RX_REF_DOUBLER_FB_DELAY,
                ),
                put(
                    CLOCK_ENABLE,
                    DIGITAL_POWER_UP | CLOCK_ENABLE_DFLT | BBPLL_ENABLE | flag(
                        settings.use_external_clock,
                        XO_BYPASS,
                    ),
                ),
            ]@,
        ).set_clock_rate(Ad9361Clock::BbRef, bbpll_ref).run(
            [put(FRACT_BB_FREQ_WORD2, 0x12), put(FRACT_BB_FREQ_WORD3, 0x34)]@,
        ).set_trx_clock_chain(settings.rx_path_clks, settings.tx_path_clks)
    }

    /// Channels, pins and auxiliary functions.
    #[verifier::opaque]
    pub open spec fn setup_ports(self, settings: Ad9361Settings, ref_clk: ReferenceClock) -> Flow {
        let tx = tx_in_use(settings.channels);
        let rx = rx_in_use(settings.channels);
        self.set_tx_channels(tx.0, tx.1).set_rx_channels(rx.0, rx.1).rf_port_setup(
            settings.rf_rx_input_sel,
            settings.rf_tx_output_b,
        ).pp_port_setup(settings.port).auxadc_setup(settings.auxadc).ctrl_outs_setup(
            settings.ctrl_outs,
        ).set_ref_clk_cycles(ref_clk).setup_ext_lna(settings.elna)
    }

    /// Synthesizers and gain control. The gain table is loaded up front, so that the RX synthesizer
    /// finds it there.
    #[verifier::opaque]
    pub open spec fn setup_rf(self, settings: Ad9361Settings, synth_ref: HertzU32) -> Flow {
        let table = self.state.v.gain.current_table;
        self.set_clock_rate(Ad9361Clock::RxRef, synth_ref).set_clock_rate(
            Ad9361Clock::TxRef,
            synth_ref,
        ).txrx_synth_cp_calib(synth_ref, false).txrx_synth_cp_calib(
            synth_ref,
            true,
        ).write_gain_table(table, GainTableDest::Both).set_rfpll_rate(
            false,
            HertzU64 { raw: settings.rx_synth_freq.hz() },
        ).set_rfpll_rate(
            true,
            HertzU64 { raw: settings.tx_synth_freq.hz() },
        ).load_mixer_gm_subtable().gc_setup(settings.gain_ctrl)
    }

    /// DC offset calibration at the current RX LO, then TX quadrature calibration.
    #[verifier::opaque]
    pub open spec fn calibrate_offsets(self, rx_bw: HertzU32, tx_bw: HertzU32) -> Flow {
        let lo = self.state.v.clk.rates.rx_rfpll.raw;
        self.bb_dc_offset_calib().rf_dc_offset_calib(lo).tx_quad_calib(
            rx_bw.raw,
            tx_bw.raw,
            RxPhase::Auto,
        )
    }

    /// Calibrations and tracking. The settings are RF bandwidths, the baseband filters only see
    /// half of them.
    #[verifier::opaque]
    pub open spec fn setup_calibrations(self, settings: Ad9361Settings) -> Flow {
        let rx_bw = HertzU32 { raw: settings.rf_rx_bandwidth.hz() / 2 };
        let tx_bw = HertzU32 { raw: settings.rf_tx_bandwidth.hz() / 2 };
        self.filter_calibs(rx_bw, tx_bw).calibrate_offsets(rx_bw, tx_bw).tracking_control(
            settings.tracking,
        ).pp_port_restore_conf3()
    }

    /// TX attenuation, with an unused channel muted.
    #[verifier::opaque]
    pub open spec fn setup_attenuation(self, settings: Ad9361Settings) -> Flow {
        let tx = tx_in_use(settings.channels);
        let rx2tx2 = self.state.v.mode.rx2tx2;
        let set = self.run([update(TX_ATTEN_OFFSET, MASK_CLR_ATTEN_UPDATE, 0)]@).set_tx_atten(
            settings.tx_attenuation,
            tx.0,
            tx.1,
            true,
        );
        if rx2tx2 {
            set
        } else {
            set.set_tx_atten(saturated(MAX_QUARTER_DB), tx.1, tx.0, true)
        }
    }

    /// Monitors and clock output.
    #[verifier::opaque]
    pub open spec fn setup_monitors(self, settings: Ad9361Settings) -> Flow {
        self.rssi_setup(settings.rssi, false).rssi_gain_step_calib().clkout_control(
            settings.clkout_mode,
        ).txmon_setup(settings.txmon)
    }

    /// Starts the ENSM and the automatic calibration.
    #[verifier::opaque]
    pub open spec fn start_running(self, pin_ctrl: bool) -> Flow {
        let fdd = self.state.v.mode.fdd;
        let device = self.ensm_state();
        match device.r {
            Err(error) => device.done(),
            Ok(raw) => {
                let st = device.e.state.v;
                let running = device.e.set(
                    EngineState { ensm: EnsmTracking { current: raw, ..st.ensm }, ..st },
                ).ensm_set_state(running_state(fdd), pin_ctrl);
                if running.err is Some {
                    running
                } else {
                    let now = running.e.state.v;
                    running.e.set(
                        EngineState {
                            cal: CalibrationState {
                                auto_cal_en: true,
                                cal_threshold_freq: 100_000_000,
                                ..now.cal
                            },
                            ..now
                        },
                    )
                }
            },
        }
    }

    /// The setup sequence of the chip.
    #[verifier::opaque]
    pub open spec fn setup(self, config: Ad9361Config) -> Flow {
        let settings = config.spec_settings();
        let fdd = self.state.v.mode.fdd;
        self.setup_clocks(settings, config.spec_bbpll_ref()).setup_ports(
            settings,
            config.spec_ref_clk(),
        ).setup_rf(settings, config.spec_synth_ref()).setup_calibrations(settings).set_ensm_mode(
            fdd,
            settings.ensm_pin_ctrl,
        ).setup_attenuation(settings).setup_monitors(settings).start_running(settings.ensm_pin_ctrl)
    }

    /// The setup of the chip, the start of the ADC core and the tuning of the interface.
    #[verifier::opaque]
    pub open spec fn init(self, config: Ad9361Config) -> Flow {
        self.setup(config).adc_init(num_phy_chan(&self.state.v.mode)).post_setup()
    }
}

/// The same steps, after others.
impl Flow {
    pub open spec fn setup_clocks(self, settings: Ad9361Settings, bbpll_ref: HertzU32) -> Flow {
        if self.err is Some {
            self
        } else {
            self.e.setup_clocks(settings, bbpll_ref)
        }
    }

    pub open spec fn setup_ports(self, settings: Ad9361Settings, ref_clk: ReferenceClock) -> Flow {
        if self.err is Some {
            self
        } else {
            self.e.setup_ports(settings, ref_clk)
        }
    }

    pub open spec fn setup_rf(self, settings: Ad9361Settings, synth_ref: HertzU32) -> Flow {
        if self.err is Some {
            self
        } else {
            self.e.setup_rf(settings, synth_ref)
        }
    }

    pub open spec fn calibrate_offsets(self, rx_bw: HertzU32, tx_bw: HertzU32) -> Flow {
        if self.err is Some {
            self
        } else {
            self.e.calibrate_offsets(rx_bw, tx_bw)
        }
    }

    pub open spec fn setup_calibrations(self, settings: Ad9361Settings) -> Flow {
        if self.err is Some {
            self
        } else {
            self.e.setup_calibrations(settings)
        }
    }

    pub open spec fn setup_attenuation(self, settings: Ad9361Settings) -> Flow {
        if self.err is Some {
            self
        } else {
            self.e.setup_attenuation(settings)
        }
    }

    pub open spec fn setup_monitors(self, settings: Ad9361Settings) -> Flow {
        if self.err is Some {
            self
        } else {
            self.e.setup_monitors(settings)
        }
    }

    pub open spec fn start_running(self, pin_ctrl: bool) -> Flow {
        if self.err is Some {
            self
        } else {
            self.e.start_running(pin_ctrl)
        }
    }

    pub open spec fn setup(self, config: Ad9361Config) -> Flow {
        if self.err is Some {
            self
        } else {
            self.e.setup(config)
        }
    }

    pub open spec fn init(self, config: Ad9361Config) -> Flow {
        if self.err is Some {
            self
        } else {
            self.e.init(config)
        }
    }
}

impl<'a> Engine<'a> {
    fn setup_clocks(&mut self, settings: &Ad9361Settings, bbpll_ref: HertzU32) -> (r: Result<
        (),
        Fault,
    >)
        ensures
            flow(final(self)@, r) == old(self)@.setup_clocks(*settings, bbpll_ref),
    {
        reveal(EngineView::setup_clocks);
        self.auxdac_setup(&settings.auxdac)?;
        self.gpo_setup(&settings.gpo)?;
        self.run(&[
            put(CONTROL, CTRL_ENABLE),
            put(BANDGAP_CONFIG0, 0x0E),
            put(BANDGAP_CONFIG1, 0x0E),
        ])?;
        self.set_dcxo_tune(settings.dcxo_coarse_tune, settings.dcxo_fine_tune)?;
        self.run(&[
            update(REF_DIVIDE_CONFIG1, RX_REF_RESET_BAR, RX_REF_RESET_BAR),
            update(
                REF_DIVIDE_CONFIG2,
                TX_REF_RESET_BAR | TX_REF_DOUBLER_FB_DELAY | RX_REF_DOUBLER_FB_DELAY,
                TX_REF_RESET_BAR | TX_REF_DOUBLER_FB_DELAY | RX_REF_DOUBLER_FB_DELAY,
            ),
            put(
                CLOCK_ENABLE,
                DIGITAL_POWER_UP | CLOCK_ENABLE_DFLT | BBPLL_ENABLE | flag(
                    settings.use_external_clock,
                    XO_BYPASS,
                ),
            ),
        ])?;
        self.set_clock_rate(Ad9361Clock::BbRef, bbpll_ref)?;
        self.run(&[put(FRACT_BB_FREQ_WORD2, 0x12), put(FRACT_BB_FREQ_WORD3, 0x34)])?;
        self.set_trx_clock_chain(&settings.rx_path_clks, &settings.tx_path_clks)
    }

    fn setup_ports(&mut self, settings: &Ad9361Settings, ref_clk: ReferenceClock) -> (r: Result<
        (),
        Fault,
    >)
        ensures
            flow(final(self)@, r) == old(self)@.setup_ports(*settings, ref_clk),
    {
        reveal(EngineView::setup_ports);
        let tx: (bool, bool) = tx_in_use(settings.channels);
        let rx: (bool, bool) = rx_in_use(settings.channels);
        self.set_tx_channels(tx.0, tx.1)?;
        self.set_rx_channels(rx.0, rx.1)?;
        self.rf_port_setup(settings.rf_rx_input_sel, settings.rf_tx_output_b)?;
        self.pp_port_setup(&settings.port)?;
        self.auxadc_setup(&settings.auxadc)?;
        self.ctrl_outs_setup(&settings.ctrl_outs)?;
        self.set_ref_clk_cycles(ref_clk)?;
        self.setup_ext_lna(&settings.elna)
    }

    fn setup_rf(&mut self, settings: &Ad9361Settings, synth_ref: HertzU32) -> (r: Result<
        (),
        Fault,
    >)
        ensures
            flow(final(self)@, r) == old(self)@.setup_rf(*settings, synth_ref),
    {
        reveal(EngineView::setup_rf);
        let table: usize = self.state.v.gain.current_table;
        self.set_clock_rate(Ad9361Clock::RxRef, synth_ref)?;
        self.set_clock_rate(Ad9361Clock::TxRef, synth_ref)?;
        self.txrx_synth_cp_calib(synth_ref, false)?;
        self.txrx_synth_cp_calib(synth_ref, true)?;
        self.write_gain_table(table, GainTableDest::Both)?;
        self.set_rfpll_rate(false, settings.rx_synth_freq.get())?;
        // TX quad cal comes later
        self.set_rfpll_rate(true, settings.tx_synth_freq.get())?;
        self.load_mixer_gm_subtable()?;
        self.gc_setup(&settings.gain_ctrl)
    }

    fn calibrate_offsets(&mut self, rx_bw: HertzU32, tx_bw: HertzU32) -> (r: Result<(), Fault>)
        ensures
            flow(final(self)@, r) == old(self)@.calibrate_offsets(rx_bw, tx_bw),
    {
        reveal(EngineView::calibrate_offsets);
        let lo: u64 = self.state.v.clk.rates.rx_rfpll.raw;
        self.bb_dc_offset_calib()?;
        self.rf_dc_offset_calib(lo)?;
        self.tx_quad_calib(rx_bw.raw, tx_bw.raw, RxPhase::Auto)
    }

    fn setup_calibrations(&mut self, settings: &Ad9361Settings) -> (r: Result<(), Fault>)
        ensures
            flow(final(self)@, r) == old(self)@.setup_calibrations(*settings),
    {
        reveal(EngineView::setup_calibrations);
        let rx_bw = HertzU32 { raw: settings.rf_rx_bandwidth.get().raw / 2 };
        let tx_bw = HertzU32 { raw: settings.rf_tx_bandwidth.get().raw / 2 };
        self.filter_calibs(rx_bw, tx_bw)?;
        self.calibrate_offsets(rx_bw, tx_bw)?;
        self.tracking_control(&settings.tracking)?;
        self.pp_port_restore_conf3()
    }

    fn setup_attenuation(&mut self, settings: &Ad9361Settings) -> (r: Result<(), Fault>)
        ensures
            flow(final(self)@, r) == old(self)@.setup_attenuation(*settings),
    {
        reveal(EngineView::setup_attenuation);
        let tx: (bool, bool) = tx_in_use(settings.channels);
        let rx2tx2: bool = self.state.v.mode.rx2tx2;
        self.run(&[update(TX_ATTEN_OFFSET, MASK_CLR_ATTEN_UPDATE, 0)])?;
        self.set_tx_atten(settings.tx_attenuation, tx.0, tx.1, true)?;
        if !rx2tx2 {
            // mute the unused one
            self.set_tx_atten(TxAttenuation::maximum(), tx.1, tx.0, true)?;
        }
        Ok(())
    }

    fn setup_monitors(&mut self, settings: &Ad9361Settings) -> (r: Result<(), Fault>)
        ensures
            flow(final(self)@, r) == old(self)@.setup_monitors(*settings),
    {
        reveal(EngineView::setup_monitors);
        self.rssi_setup(&settings.rssi, false)?;
        self.rssi_gain_step_calib()?;
        self.clkout_control(settings.clkout_mode)?;
        self.txmon_setup(&settings.txmon)
    }

    fn start_running(&mut self, pin_ctrl: bool) -> (r: Result<(), Fault>)
        ensures
            flow(final(self)@, r) == old(self)@.start_running(pin_ctrl),
    {
        reveal(EngineView::start_running);
        let fdd: bool = self.state.v.mode.fdd;
        self.state.v.ensm.current = self.ensm_state()?;
        self.ensm_set_state(running_state(fdd), pin_ctrl)?;
        self.state.v.cal.auto_cal_en = true;
        self.state.v.cal.cal_threshold_freq = 100_000_000;
        Ok(())
    }

    /// Sets up the chip.
    pub fn setup(&mut self, config: &Ad9361Config) -> (r: Result<(), Fault>)
        ensures
            flow(final(self)@, r) == old(self)@.setup(*config),
    {
        reveal(EngineView::setup);
        let settings: &Ad9361Settings = config.settings();
        let fdd: bool = self.state.v.mode.fdd;
        self.setup_clocks(settings, config.bbpll_ref())?;
        self.setup_ports(settings, config.ref_clk())?;
        self.setup_rf(settings, config.synth_ref())?;
        self.setup_calibrations(settings)?;
        self.set_ensm_mode(fdd, settings.ensm_pin_ctrl)?;
        self.setup_attenuation(settings)?;
        self.setup_monitors(settings)?;
        self.start_running(settings.ensm_pin_ctrl)
    }

    /// Sets up the chip, then the ADC core, then tunes.
    pub fn init(&mut self, config: &Ad9361Config) -> (r: Result<(), Fault>)
        ensures
            flow(final(self)@, r) == old(self)@.init(*config),
    {
        reveal(EngineView::init);
        let channels: u8 = num_phy_chan(&self.state.v.mode);
        self.setup(config)?;
        self.adc_init(channels)?;
        self.post_setup()
    }
}

} // verus!
