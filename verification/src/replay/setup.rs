//! Repetition of the operations of [`crate::setup`].
use vstd::prelude::*;

use crate::config::{Ad9361Config, Ad9361Settings, ReferenceClock};
use crate::engine::EngineView;
use crate::link::goes_on;
use crate::replay::{alike, together};
use crate::units::HertzU32;

verus! {

pub broadcast proof fn keeps_setup_clocks(
    e: EngineView,
    settings: Ad9361Settings,
    bbpll_ref: HertzU32,
)
    ensures
        goes_on(e.link, (#[trigger] e.setup_clocks(settings, bbpll_ref)).e.link),
{
    broadcast use {
        crate::replay::clock_chain::keeps_set_trx_clock_chain,
        crate::replay::clocks::keeps_set_dcxo_tune,
        crate::replay::clocks::keeps_set_clock_rate,
        crate::replay::engine::keeps_run,
        crate::replay::ports::keeps_auxdac_setup,
        crate::replay::ports::keeps_gpo_setup,
    };

    reveal(EngineView::setup_clocks);
}

pub broadcast proof fn repeats_setup_clocks(
    a: EngineView,
    b: EngineView,
    settings: Ad9361Settings,
    bbpll_ref: HertzU32,
)
    requires
        together(a, b),
    ensures
        #![trigger a.setup_clocks(settings, bbpll_ref), b.setup_clocks(settings, bbpll_ref)]
        alike(a.setup_clocks(settings, bbpll_ref), b.setup_clocks(settings, bbpll_ref)),
{
    broadcast use {
        crate::replay::clock_chain::keeps_set_trx_clock_chain,
        crate::replay::clocks::keeps_set_dcxo_tune,
        crate::replay::clocks::keeps_set_clock_rate,
        crate::replay::engine::keeps_run,
        crate::replay::ports::keeps_auxdac_setup,
        crate::replay::ports::keeps_gpo_setup,
        crate::replay::clock_chain::repeats_set_trx_clock_chain,
        crate::replay::clocks::repeats_set_dcxo_tune,
        crate::replay::clocks::repeats_set_clock_rate,
        crate::replay::engine::repeats_run,
        crate::replay::ports::repeats_auxdac_setup,
        crate::replay::ports::repeats_gpo_setup,
    };

    reveal(EngineView::setup_clocks);
}

pub broadcast proof fn keeps_setup_ports(
    e: EngineView,
    settings: Ad9361Settings,
    ref_clk: ReferenceClock,
)
    ensures
        goes_on(e.link, (#[trigger] e.setup_ports(settings, ref_clk)).e.link),
{
    broadcast use {
        crate::replay::ports::keeps_set_tx_channels,
        crate::replay::ports::keeps_set_rx_channels,
        crate::replay::ports::keeps_rf_port_setup,
        crate::replay::ports::keeps_pp_port_setup,
        crate::replay::ports::keeps_auxadc_setup,
        crate::replay::ports::keeps_ctrl_outs_setup,
        crate::replay::ports::keeps_set_ref_clk_cycles,
        crate::replay::ports::keeps_setup_ext_lna,
    };

    reveal(EngineView::setup_ports);
}

pub broadcast proof fn repeats_setup_ports(
    a: EngineView,
    b: EngineView,
    settings: Ad9361Settings,
    ref_clk: ReferenceClock,
)
    requires
        together(a, b),
    ensures
        #![trigger a.setup_ports(settings, ref_clk), b.setup_ports(settings, ref_clk)]
        alike(a.setup_ports(settings, ref_clk), b.setup_ports(settings, ref_clk)),
{
    broadcast use {
        crate::replay::ports::keeps_set_tx_channels,
        crate::replay::ports::keeps_set_rx_channels,
        crate::replay::ports::keeps_rf_port_setup,
        crate::replay::ports::keeps_pp_port_setup,
        crate::replay::ports::keeps_auxadc_setup,
        crate::replay::ports::keeps_ctrl_outs_setup,
        crate::replay::ports::keeps_set_ref_clk_cycles,
        crate::replay::ports::keeps_setup_ext_lna,
        crate::replay::ports::repeats_set_tx_channels,
        crate::replay::ports::repeats_set_rx_channels,
        crate::replay::ports::repeats_rf_port_setup,
        crate::replay::ports::repeats_pp_port_setup,
        crate::replay::ports::repeats_auxadc_setup,
        crate::replay::ports::repeats_ctrl_outs_setup,
        crate::replay::ports::repeats_set_ref_clk_cycles,
        crate::replay::ports::repeats_setup_ext_lna,
    };

    reveal(EngineView::setup_ports);
}

pub broadcast proof fn keeps_setup_rf(e: EngineView, settings: Ad9361Settings, synth_ref: HertzU32)
    ensures
        goes_on(e.link, (#[trigger] e.setup_rf(settings, synth_ref)).e.link),
{
    broadcast use {
        crate::replay::clocks::keeps_set_clock_rate,
        crate::replay::gain_control::keeps_load_mixer_gm_subtable,
        crate::replay::gain_control::keeps_gc_setup,
        crate::replay::gain_control::keeps_write_gain_table,
        crate::replay::synth::keeps_txrx_synth_cp_calib,
        crate::replay::synth::keeps_set_rfpll_rate,
    };

    reveal(EngineView::setup_rf);
}

pub broadcast proof fn repeats_setup_rf(
    a: EngineView,
    b: EngineView,
    settings: Ad9361Settings,
    synth_ref: HertzU32,
)
    requires
        together(a, b),
    ensures
        #![trigger a.setup_rf(settings, synth_ref), b.setup_rf(settings, synth_ref)]
        alike(a.setup_rf(settings, synth_ref), b.setup_rf(settings, synth_ref)),
{
    broadcast use {
        crate::replay::clocks::keeps_set_clock_rate,
        crate::replay::gain_control::keeps_load_mixer_gm_subtable,
        crate::replay::gain_control::keeps_gc_setup,
        crate::replay::gain_control::keeps_write_gain_table,
        crate::replay::synth::keeps_txrx_synth_cp_calib,
        crate::replay::synth::keeps_set_rfpll_rate,
        crate::replay::clocks::repeats_set_clock_rate,
        crate::replay::gain_control::repeats_load_mixer_gm_subtable,
        crate::replay::gain_control::repeats_gc_setup,
        crate::replay::gain_control::repeats_write_gain_table,
        crate::replay::synth::repeats_txrx_synth_cp_calib,
        crate::replay::synth::repeats_set_rfpll_rate,
    };

    reveal(EngineView::setup_rf);
}

pub broadcast proof fn keeps_calibrate_offsets(e: EngineView, rx_bw: HertzU32, tx_bw: HertzU32)
    ensures
        goes_on(e.link, (#[trigger] e.calibrate_offsets(rx_bw, tx_bw)).e.link),
{
    broadcast use {
        crate::replay::calibration::keeps_bb_dc_offset_calib,
        crate::replay::calibration::keeps_rf_dc_offset_calib,
        crate::replay::calibration::keeps_tx_quad_calib,
    };

    reveal(EngineView::calibrate_offsets);
}

pub broadcast proof fn repeats_calibrate_offsets(
    a: EngineView,
    b: EngineView,
    rx_bw: HertzU32,
    tx_bw: HertzU32,
)
    requires
        together(a, b),
    ensures
        #![trigger a.calibrate_offsets(rx_bw, tx_bw), b.calibrate_offsets(rx_bw, tx_bw)]
        alike(a.calibrate_offsets(rx_bw, tx_bw), b.calibrate_offsets(rx_bw, tx_bw)),
{
    broadcast use {
        crate::replay::calibration::keeps_bb_dc_offset_calib,
        crate::replay::calibration::keeps_rf_dc_offset_calib,
        crate::replay::calibration::keeps_tx_quad_calib,
        crate::replay::calibration::repeats_bb_dc_offset_calib,
        crate::replay::calibration::repeats_rf_dc_offset_calib,
        crate::replay::calibration::repeats_tx_quad_calib,
    };

    reveal(EngineView::calibrate_offsets);
}

pub broadcast proof fn keeps_setup_calibrations(e: EngineView, settings: Ad9361Settings)
    ensures
        goes_on(e.link, (#[trigger] e.setup_calibrations(settings)).e.link),
{
    broadcast use {
        crate::replay::calibration::keeps_tracking_control,
        crate::replay::calibration::keeps_filter_calibs,
        crate::replay::ports::keeps_pp_port_restore_conf3,
        keeps_calibrate_offsets,
    };

    reveal(EngineView::setup_calibrations);
}

pub broadcast proof fn repeats_setup_calibrations(
    a: EngineView,
    b: EngineView,
    settings: Ad9361Settings,
)
    requires
        together(a, b),
    ensures
        #![trigger a.setup_calibrations(settings), b.setup_calibrations(settings)]
        alike(a.setup_calibrations(settings), b.setup_calibrations(settings)),
{
    broadcast use {
        crate::replay::calibration::keeps_tracking_control,
        crate::replay::calibration::keeps_filter_calibs,
        crate::replay::ports::keeps_pp_port_restore_conf3,
        keeps_calibrate_offsets,
        crate::replay::calibration::repeats_tracking_control,
        crate::replay::calibration::repeats_filter_calibs,
        crate::replay::ports::repeats_pp_port_restore_conf3,
        repeats_calibrate_offsets,
    };

    reveal(EngineView::setup_calibrations);
}

pub broadcast proof fn keeps_setup_attenuation(e: EngineView, settings: Ad9361Settings)
    ensures
        goes_on(e.link, (#[trigger] e.setup_attenuation(settings)).e.link),
{
    broadcast use {
        crate::replay::control::keeps_set_tx_atten,
        crate::replay::engine::keeps_run,
    };

    reveal(EngineView::setup_attenuation);
}

pub broadcast proof fn repeats_setup_attenuation(
    a: EngineView,
    b: EngineView,
    settings: Ad9361Settings,
)
    requires
        together(a, b),
    ensures
        #![trigger a.setup_attenuation(settings), b.setup_attenuation(settings)]
        alike(a.setup_attenuation(settings), b.setup_attenuation(settings)),
{
    broadcast use {
        crate::replay::control::keeps_set_tx_atten,
        crate::replay::engine::keeps_run,
        crate::replay::control::repeats_set_tx_atten,
        crate::replay::engine::repeats_run,
    };

    reveal(EngineView::setup_attenuation);
}

pub broadcast proof fn keeps_setup_monitors(e: EngineView, settings: Ad9361Settings)
    ensures
        goes_on(e.link, (#[trigger] e.setup_monitors(settings)).e.link),
{
    broadcast use {
        crate::replay::control::keeps_clkout_control,
        crate::replay::monitor::keeps_rssi_setup,
        crate::replay::monitor::keeps_rssi_gain_step_calib,
        crate::replay::monitor::keeps_txmon_setup,
    };

    reveal(EngineView::setup_monitors);
}

pub broadcast proof fn repeats_setup_monitors(
    a: EngineView,
    b: EngineView,
    settings: Ad9361Settings,
)
    requires
        together(a, b),
    ensures
        #![trigger a.setup_monitors(settings), b.setup_monitors(settings)]
        alike(a.setup_monitors(settings), b.setup_monitors(settings)),
{
    broadcast use {
        crate::replay::control::keeps_clkout_control,
        crate::replay::monitor::keeps_rssi_setup,
        crate::replay::monitor::keeps_rssi_gain_step_calib,
        crate::replay::monitor::keeps_txmon_setup,
        crate::replay::control::repeats_clkout_control,
        crate::replay::monitor::repeats_rssi_setup,
        crate::replay::monitor::repeats_rssi_gain_step_calib,
        crate::replay::monitor::repeats_txmon_setup,
    };

    reveal(EngineView::setup_monitors);
}

pub broadcast proof fn keeps_start_running(e: EngineView, pin_ctrl: bool)
    ensures
        goes_on(e.link, (#[trigger] e.start_running(pin_ctrl)).e.link),
{
    broadcast use {
        crate::replay::control::keeps_ensm_state,
        crate::replay::control::keeps_ensm_set_state,
    };

    reveal(EngineView::start_running);
}

pub broadcast proof fn repeats_start_running(a: EngineView, b: EngineView, pin_ctrl: bool)
    requires
        together(a, b),
    ensures
        #![trigger a.start_running(pin_ctrl), b.start_running(pin_ctrl)]
        alike(a.start_running(pin_ctrl), b.start_running(pin_ctrl)),
{
    broadcast use {
        crate::replay::control::keeps_ensm_state,
        crate::replay::control::keeps_ensm_set_state,
        crate::replay::control::repeats_ensm_state,
        crate::replay::control::repeats_ensm_set_state,
    };

    reveal(EngineView::start_running);
}

pub broadcast proof fn keeps_setup(e: EngineView, config: Ad9361Config)
    ensures
        goes_on(e.link, (#[trigger] e.setup(config)).e.link),
{
    broadcast use {
        crate::replay::control::keeps_set_ensm_mode,
        keeps_setup_clocks,
        keeps_setup_ports,
        keeps_setup_rf,
        keeps_setup_calibrations,
        keeps_setup_attenuation,
        keeps_setup_monitors,
        keeps_start_running,
    };

    reveal(EngineView::setup);
}

pub broadcast proof fn repeats_setup(a: EngineView, b: EngineView, config: Ad9361Config)
    requires
        together(a, b),
    ensures
        #![trigger a.setup(config), b.setup(config)]
        alike(a.setup(config), b.setup(config)),
{
    broadcast use {
        crate::replay::control::keeps_set_ensm_mode,
        keeps_setup_clocks,
        keeps_setup_ports,
        keeps_setup_rf,
        keeps_setup_calibrations,
        keeps_setup_attenuation,
        keeps_setup_monitors,
        keeps_start_running,
        crate::replay::control::repeats_set_ensm_mode,
        repeats_setup_clocks,
        repeats_setup_ports,
        repeats_setup_rf,
        repeats_setup_calibrations,
        repeats_setup_attenuation,
        repeats_setup_monitors,
        repeats_start_running,
    };

    reveal(EngineView::setup);
}

pub broadcast proof fn keeps_init(e: EngineView, config: Ad9361Config)
    ensures
        goes_on(e.link, (#[trigger] e.init(config)).e.link),
{
    broadcast use {
        crate::replay::axi_init::keeps_adc_init,
        crate::replay::dig_tune::keeps_post_setup,
        keeps_setup,
    };

    reveal(EngineView::init);
}

pub broadcast proof fn repeats_init(a: EngineView, b: EngineView, config: Ad9361Config)
    requires
        together(a, b),
    ensures
        #![trigger a.init(config), b.init(config)]
        alike(a.init(config), b.init(config)),
{
    broadcast use {
        crate::replay::axi_init::keeps_adc_init,
        crate::replay::dig_tune::keeps_post_setup,
        keeps_setup,
        crate::replay::axi_init::repeats_adc_init,
        crate::replay::dig_tune::repeats_post_setup,
        repeats_setup,
    };

    reveal(EngineView::init);
}

} // verus!
