//! What the operations of [`crate::setup`] leave alone.
use vstd::prelude::*;

use crate::config::{Ad9361Config, Ad9361Settings, ReferenceClock};
use crate::engine::EngineView;
use crate::kept::{calms, leaves, none, same_bandwidths, same_chip, same_los, same_table, Parts};
use crate::units::HertzU32;

verus! {

pub broadcast proof fn leaves_setup_clocks(
    e: EngineView,
    settings: Ad9361Settings,
    bbpll_ref: HertzU32,
)
    ensures
        #![trigger e.setup_clocks(settings, bbpll_ref)]
        leaves(
            e.link,
            e.setup_clocks(settings, bbpll_ref).e.link,
            Parts {
                rx_fir: true,
                tx_fir: true,
                attenuation: true,
                channels: true,
                dcxo: true,
                ..none()
            },
        ),
        calms(e.link, e.setup_clocks(settings, bbpll_ref).e.link),
        same_los(e.state.v, e.setup_clocks(settings, bbpll_ref).e.state.v),
        same_table(e.state.v, e.setup_clocks(settings, bbpll_ref).e.state.v),
        same_bandwidths(e.state.v, e.setup_clocks(settings, bbpll_ref).e.state.v),
        same_chip(e, e.setup_clocks(settings, bbpll_ref).e),
{
    broadcast use {
        crate::kept::clock_chain::leaves_set_trx_clock_chain,
        crate::kept::clocks::leaves_set_dcxo_tune,
        crate::kept::clocks::leaves_set_clock_rate,
        crate::kept::leaves_run,
        crate::kept::ports::leaves_auxdac_setup,
        crate::kept::ports::leaves_gpo_setup,
    };

    reveal(EngineView::setup_clocks);
}

pub broadcast proof fn leaves_setup_ports(
    e: EngineView,
    settings: Ad9361Settings,
    ref_clk: ReferenceClock,
)
    ensures
        #![trigger e.setup_ports(settings, ref_clk)]
        leaves(
            e.link,
            e.setup_ports(settings, ref_clk).e.link,
            Parts { channels: true, input: true, ..none() },
        ),
        calms(e.link, e.setup_ports(settings, ref_clk).e.link),
        same_los(e.state.v, e.setup_ports(settings, ref_clk).e.state.v),
        same_table(e.state.v, e.setup_ports(settings, ref_clk).e.state.v),
        same_bandwidths(e.state.v, e.setup_ports(settings, ref_clk).e.state.v),
        same_chip(e, e.setup_ports(settings, ref_clk).e),
{
    broadcast use {
        crate::kept::ports::leaves_set_tx_channels,
        crate::kept::ports::leaves_set_rx_channels,
        crate::kept::ports::leaves_rf_port_setup,
        crate::kept::ports::leaves_pp_port_setup,
        crate::kept::ports::leaves_auxadc_setup,
        crate::kept::ports::leaves_ctrl_outs_setup,
        crate::kept::ports::leaves_set_ref_clk_cycles,
        crate::kept::ports::leaves_setup_ext_lna,
    };

    reveal(EngineView::setup_ports);
}

pub broadcast proof fn leaves_setup_rf(e: EngineView, settings: Ad9361Settings, synth_ref: HertzU32)
    ensures
        #![trigger e.setup_rf(settings, synth_ref)]
        leaves(
            e.link,
            e.setup_rf(settings, synth_ref).e.link,
            Parts {
                rx_lo: true,
                tx_lo: true,
                rx_fir: true,
                tx_fir: true,
                rx_filter: true,
                tx_filter: true,
                modes: true,
                tracking: true,
                table_size: true,
                ..none()
            },
        ),
        same_bandwidths(e.state.v, e.setup_rf(settings, synth_ref).e.state.v),
        same_chip(e, e.setup_rf(settings, synth_ref).e),
{
    broadcast use {
        crate::kept::clocks::leaves_set_clock_rate,
        crate::kept::gain_control::leaves_load_mixer_gm_subtable,
        crate::kept::gain_control::leaves_gc_setup,
        crate::kept::gain_control::leaves_write_gain_table,
        crate::kept::synth::leaves_txrx_synth_cp_calib,
        crate::kept::synth::leaves_set_rfpll_rate,
    };

    reveal(EngineView::setup_rf);
}

pub broadcast proof fn leaves_calibrate_offsets(e: EngineView, rx_bw: HertzU32, tx_bw: HertzU32)
    ensures
        #![trigger e.calibrate_offsets(rx_bw, tx_bw)]
        leaves(
            e.link,
            e.calibrate_offsets(rx_bw, tx_bw).e.link,
            Parts { rx_filter: true, tx_filter: true, tracking: true, ..none() },
        ),
        calms(e.link, e.calibrate_offsets(rx_bw, tx_bw).e.link),
        same_los(e.state.v, e.calibrate_offsets(rx_bw, tx_bw).e.state.v),
        same_table(e.state.v, e.calibrate_offsets(rx_bw, tx_bw).e.state.v),
        same_bandwidths(e.state.v, e.calibrate_offsets(rx_bw, tx_bw).e.state.v),
        same_chip(e, e.calibrate_offsets(rx_bw, tx_bw).e),
{
    broadcast use {
        crate::kept::calibration::leaves_bb_dc_offset_calib,
        crate::kept::calibration::leaves_rf_dc_offset_calib,
        crate::kept::calibration::leaves_tx_quad_calib,
    };

    reveal(EngineView::calibrate_offsets);
}

pub broadcast proof fn leaves_setup_calibrations(e: EngineView, settings: Ad9361Settings)
    ensures
        #![trigger e.setup_calibrations(settings)]
        leaves(
            e.link,
            e.setup_calibrations(settings).e.link,
            Parts { rx_filter: true, tx_filter: true, tracking: true, ..none() },
        ),
        calms(e.link, e.setup_calibrations(settings).e.link),
        same_los(e.state.v, e.setup_calibrations(settings).e.state.v),
        same_table(e.state.v, e.setup_calibrations(settings).e.state.v),
        same_bandwidths(e.state.v, e.setup_calibrations(settings).e.state.v),
        same_chip(e, e.setup_calibrations(settings).e),
{
    broadcast use {
        crate::kept::calibration::leaves_tracking_control,
        crate::kept::calibration::leaves_filter_calibs,
        crate::kept::ports::leaves_pp_port_restore_conf3,
        leaves_calibrate_offsets,
    };

    reveal(EngineView::setup_calibrations);
}

pub broadcast proof fn leaves_setup_attenuation(e: EngineView, settings: Ad9361Settings)
    ensures
        #![trigger e.setup_attenuation(settings)]
        leaves(e.link, e.setup_attenuation(settings).e.link, Parts { attenuation: true, ..none() }),
        calms(e.link, e.setup_attenuation(settings).e.link),
        same_los(e.state.v, e.setup_attenuation(settings).e.state.v),
        same_table(e.state.v, e.setup_attenuation(settings).e.state.v),
        same_bandwidths(e.state.v, e.setup_attenuation(settings).e.state.v),
        same_chip(e, e.setup_attenuation(settings).e),
{
    broadcast use {
        crate::kept::control::leaves_set_tx_atten,
        crate::kept::leaves_run,
    };

    reveal(EngineView::setup_attenuation);
}

pub broadcast proof fn leaves_setup_monitors(e: EngineView, settings: Ad9361Settings)
    ensures
        #![trigger e.setup_monitors(settings)]
        leaves(e.link, e.setup_monitors(settings).e.link, Parts { clkout: true, ..none() }),
        calms(e.link, e.setup_monitors(settings).e.link),
        same_los(e.state.v, e.setup_monitors(settings).e.state.v),
        same_table(e.state.v, e.setup_monitors(settings).e.state.v),
        same_bandwidths(e.state.v, e.setup_monitors(settings).e.state.v),
        same_chip(e, e.setup_monitors(settings).e),
{
    broadcast use {
        crate::kept::control::leaves_clkout_control,
        crate::kept::monitor::leaves_rssi_setup,
        crate::kept::monitor::leaves_rssi_gain_step_calib,
        crate::kept::monitor::leaves_txmon_setup,
    };

    reveal(EngineView::setup_monitors);
}

pub broadcast proof fn leaves_start_running(e: EngineView, pin_ctrl: bool)
    ensures
        #![trigger e.start_running(pin_ctrl)]
        leaves(e.link, e.start_running(pin_ctrl).e.link, none()),
        calms(e.link, e.start_running(pin_ctrl).e.link),
        same_los(e.state.v, e.start_running(pin_ctrl).e.state.v),
        same_table(e.state.v, e.start_running(pin_ctrl).e.state.v),
        same_bandwidths(e.state.v, e.start_running(pin_ctrl).e.state.v),
        same_chip(e, e.start_running(pin_ctrl).e),
{
    broadcast use {
        crate::kept::control::leaves_ensm_state,
        crate::kept::control::leaves_ensm_set_state,
    };

    reveal(EngineView::start_running);
}

pub broadcast proof fn leaves_setup(e: EngineView, config: Ad9361Config)
    ensures
        #![trigger e.setup(config)]
        leaves(
            e.link,
            e.setup(config).e.link,
            Parts {
                rx_lo: true,
                tx_lo: true,
                rx_fir: true,
                tx_fir: true,
                rx_filter: true,
                tx_filter: true,
                modes: true,
                attenuation: true,
                channels: true,
                tracking: true,
                input: true,
                clkout: true,
                dcxo: true,
                table_size: true,
                ..none()
            },
        ),
        same_bandwidths(e.state.v, e.setup(config).e.state.v),
        same_chip(e, e.setup(config).e),
{
    broadcast use {
        crate::kept::control::leaves_set_ensm_mode,
        leaves_setup_clocks,
        leaves_setup_ports,
        leaves_setup_rf,
        leaves_setup_calibrations,
        leaves_setup_attenuation,
        leaves_setup_monitors,
        leaves_start_running,
    };

    reveal(EngineView::setup);
}

pub broadcast proof fn leaves_init(e: EngineView, config: Ad9361Config)
    ensures
        #![trigger e.init(config)]
        leaves(
            e.link,
            e.init(config).e.link,
            Parts {
                rx_lo: true,
                tx_lo: true,
                rx_fir: true,
                tx_fir: true,
                rx_filter: true,
                tx_filter: true,
                modes: true,
                attenuation: true,
                channels: true,
                tracking: true,
                input: true,
                clkout: true,
                dcxo: true,
                table_size: true,
                ..none()
            },
        ),
        same_bandwidths(e.state.v, e.init(config).e.state.v),
        same_chip(e, e.init(config).e),
{
    broadcast use {
        crate::kept::axi_init::leaves_adc_init,
        crate::kept::dig_tune::leaves_post_setup,
        leaves_setup,
    };

    reveal(EngineView::init);
}

} // verus!
