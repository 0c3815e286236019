//! What the operations of [`crate::dig_tune`] leave alone.
use vstd::prelude::*;

use crate::config::DigInterfaceTune;
use crate::control::SavedEnsmState;
use crate::dig_tune::{BistLoopback, BistMode, DigTuneFlags, SavedChannel};
use crate::engine::EngineView;
use crate::kept::{calms, leaves, none, same_bandwidths, same_chip, same_los, same_table, Parts};
use crate::link::AxiRequest;
use crate::units::HertzU32;

verus! {

pub broadcast proof fn leaves_enable_core_channels(e: EngineView)
    ensures
        #![trigger e.enable_core_channels()]
        leaves(e.link, e.enable_core_channels().e.link, none()),
        calms(e.link, e.enable_core_channels().e.link),
        same_los(e.state.v, e.enable_core_channels().e.state.v),
        same_table(e.state.v, e.enable_core_channels().e.state.v),
        same_bandwidths(e.state.v, e.enable_core_channels().e.state.v),
        same_chip(e, e.enable_core_channels().e),
{
    broadcast use {
        crate::kept::leaves_exchange,
        crate::kept::leaves_run,
    };

    reveal(EngineView::enable_core_channels);
}

pub broadcast proof fn leaves_configure_core(e: EngineView)
    ensures
        #![trigger e.configure_core()]
        leaves(e.link, e.configure_core().e.link, none()),
        calms(e.link, e.configure_core().e.link),
        same_los(e.state.v, e.configure_core().e.state.v),
        same_table(e.state.v, e.configure_core().e.state.v),
        same_bandwidths(e.state.v, e.configure_core().e.state.v),
        same_chip(e, e.configure_core().e),
{
    broadcast use {
        leaves_enable_core_channels,
        crate::kept::leaves_exchange,
        crate::kept::leaves_run,
    };

    reveal(EngineView::configure_core);
}

pub broadcast proof fn leaves_int_loopback_fix_ch_cross(e: EngineView, enable: bool)
    ensures
        #![trigger e.int_loopback_fix_ch_cross(enable)]
        leaves(
            e.link,
            e.int_loopback_fix_ch_cross(enable).e.link,
            Parts { channels: true, ..none() },
        ),
        calms(e.link, e.int_loopback_fix_ch_cross(enable).e.link),
        same_los(e.state.v, e.int_loopback_fix_ch_cross(enable).e.state.v),
        same_table(e.state.v, e.int_loopback_fix_ch_cross(enable).e.state.v),
        same_bandwidths(e.state.v, e.int_loopback_fix_ch_cross(enable).e.state.v),
        same_chip(e, e.int_loopback_fix_ch_cross(enable).e),
{
    broadcast use crate::kept::ports::leaves_set_tx_channels;

    reveal(EngineView::int_loopback_fix_ch_cross);
}

pub broadcast proof fn leaves_loop_channel(e: EngineView, enable: bool, chan: u8)
    ensures
        #![trigger e.loop_channel(enable, chan)]
        leaves(e.link, e.loop_channel(enable, chan).e.link, none()),
        calms(e.link, e.loop_channel(enable, chan).e.link),
        same_los(e.state.v, e.loop_channel(enable, chan).e.state.v),
        same_table(e.state.v, e.loop_channel(enable, chan).e.state.v),
        same_bandwidths(e.state.v, e.loop_channel(enable, chan).e.state.v),
        same_chip(e, e.loop_channel(enable, chan).e),
{
    broadcast use {
        crate::kept::leaves_exchange,
        crate::kept::leaves_run,
    };

    reveal(EngineView::loop_channel);
}

pub broadcast proof fn leaves_hdl_loopback(e: EngineView, enable: bool)
    ensures
        #![trigger e.hdl_loopback(enable)]
        leaves(e.link, e.hdl_loopback(enable).e.link, none()),
        calms(e.link, e.hdl_loopback(enable).e.link),
        same_los(e.state.v, e.hdl_loopback(enable).e.state.v),
        same_table(e.state.v, e.hdl_loopback(enable).e.state.v),
        same_bandwidths(e.state.v, e.hdl_loopback(enable).e.state.v),
        same_chip(e, e.hdl_loopback(enable).e),
{
    broadcast use leaves_loop_channel;

    reveal(EngineView::hdl_loopback);
}

pub broadcast proof fn leaves_bist_loopback(e: EngineView, mode: BistLoopback)
    ensures
        #![trigger e.bist_loopback(mode)]
        leaves(e.link, e.bist_loopback(mode).e.link, Parts { channels: true, ..none() }),
        calms(e.link, e.bist_loopback(mode).e.link),
        same_los(e.state.v, e.bist_loopback(mode).e.state.v),
        same_table(e.state.v, e.bist_loopback(mode).e.state.v),
        same_bandwidths(e.state.v, e.bist_loopback(mode).e.state.v),
        same_chip(e, e.bist_loopback(mode).e),
{
    broadcast use {
        leaves_int_loopback_fix_ch_cross,
        leaves_hdl_loopback,
        crate::kept::leaves_read,
        crate::kept::leaves_run,
    };

    reveal(EngineView::bist_loopback);
}

pub broadcast proof fn leaves_tx_atten(e: EngineView, tx2: bool)
    ensures
        #![trigger e.tx_atten(tx2)]
        leaves(e.link, e.tx_atten(tx2).e.link, none()),
        calms(e.link, e.tx_atten(tx2).e.link),
        same_los(e.state.v, e.tx_atten(tx2).e.state.v),
        same_table(e.state.v, e.tx_atten(tx2).e.state.v),
        same_bandwidths(e.state.v, e.tx_atten(tx2).e.state.v),
        same_chip(e, e.tx_atten(tx2).e),
{
    broadcast use crate::kept::leaves_exchange;

    reveal(EngineView::tx_atten);
}

pub broadcast proof fn leaves_tx_mute(e: EngineView, mute: bool)
    ensures
        #![trigger e.tx_mute(mute)]
        leaves(e.link, e.tx_mute(mute).e.link, Parts { attenuation: true, ..none() }),
        calms(e.link, e.tx_mute(mute).e.link),
        same_los(e.state.v, e.tx_mute(mute).e.state.v),
        same_table(e.state.v, e.tx_mute(mute).e.state.v),
        same_bandwidths(e.state.v, e.tx_mute(mute).e.state.v),
        same_chip(e, e.tx_mute(mute).e),
{
    broadcast use {
        crate::kept::control::leaves_set_tx_atten,
        leaves_tx_atten,
    };

    reveal(EngineView::tx_mute);
}

pub broadcast proof fn leaves_bist_prbs(e: EngineView, mode: BistMode)
    ensures
        #![trigger e.bist_prbs(mode)]
        leaves(e.link, e.bist_prbs(mode).e.link, none()),
        calms(e.link, e.bist_prbs(mode).e.link),
        same_los(e.state.v, e.bist_prbs(mode).e.state.v),
        same_table(e.state.v, e.bist_prbs(mode).e.state.v),
        same_bandwidths(e.state.v, e.bist_prbs(mode).e.state.v),
        same_chip(e, e.bist_prbs(mode).e),
{
    broadcast use crate::kept::leaves_run;

    reveal(EngineView::bist_prbs);
}

pub broadcast proof fn leaves_set_intf_delay(
    e: EngineView,
    tx: bool,
    clock_delay: u8,
    data_delay: u8,
    clock_changed: bool,
)
    ensures
        #![trigger e.set_intf_delay(tx, clock_delay, data_delay, clock_changed)]
        leaves(e.link, e.set_intf_delay(tx, clock_delay, data_delay, clock_changed).e.link, none()),
        calms(e.link, e.set_intf_delay(tx, clock_delay, data_delay, clock_changed).e.link),
        same_los(e.state.v, e.set_intf_delay(tx, clock_delay, data_delay, clock_changed).e.state.v),
        same_table(e.state.v, e.set_intf_delay(tx, clock_delay, data_delay, clock_changed).e.state.v),
        same_bandwidths(e.state.v, e.set_intf_delay(tx, clock_delay, data_delay, clock_changed).e.state.v),
        same_chip(e, e.set_intf_delay(tx, clock_delay, data_delay, clock_changed).e),
{
    broadcast use {
        crate::kept::control::leaves_ensm_force_state,
        crate::kept::leaves_run,
    };

    reveal(EngineView::set_intf_delay);
}

pub broadcast proof fn leaves_clear_pn(e: EngineView, delay_ms: u64)
    ensures
        #![trigger e.clear_pn(delay_ms)]
        leaves(e.link, e.clear_pn(delay_ms).e.link, none()),
        calms(e.link, e.clear_pn(delay_ms).e.link),
        same_los(e.state.v, e.clear_pn(delay_ms).e.state.v),
        same_table(e.state.v, e.clear_pn(delay_ms).e.state.v),
        same_bandwidths(e.state.v, e.clear_pn(delay_ms).e.state.v),
        same_chip(e, e.clear_pn(delay_ms).e),
{
    broadcast use {
        crate::kept::leaves_exchange,
        crate::kept::leaves_run,
    };

    reveal(EngineView::clear_pn);
}

pub broadcast proof fn leaves_pn_error_from(e: EngineView, chan: int, channels: int)
    ensures
        #![trigger e.pn_error_from(chan, channels)]
        leaves(e.link, e.pn_error_from(chan, channels).e.link, none()),
        calms(e.link, e.pn_error_from(chan, channels).e.link),
        same_los(e.state.v, e.pn_error_from(chan, channels).e.state.v),
        same_table(e.state.v, e.pn_error_from(chan, channels).e.state.v),
        same_bandwidths(e.state.v, e.pn_error_from(chan, channels).e.state.v),
        same_chip(e, e.pn_error_from(chan, channels).e),
    decreases channels - chan,
{
    broadcast use crate::kept::leaves_exchange;

    if chan < channels {
        let mid = e.axi(AxiRequest::AdcReadChannelStatus { chan: chan as u8 });
        leaves_pn_error_from(mid.e, chan + 1, channels);
    }
}

pub broadcast proof fn leaves_check_pn(e: EngineView, tx: bool, delay_ms: u64)
    ensures
        #![trigger e.check_pn(tx, delay_ms)]
        leaves(e.link, e.check_pn(tx, delay_ms).e.link, none()),
        calms(e.link, e.check_pn(tx, delay_ms).e.link),
        same_los(e.state.v, e.check_pn(tx, delay_ms).e.state.v),
        same_table(e.state.v, e.check_pn(tx, delay_ms).e.state.v),
        same_bandwidths(e.state.v, e.check_pn(tx, delay_ms).e.state.v),
        same_chip(e, e.check_pn(tx, delay_ms).e),
{
    broadcast use {
        leaves_clear_pn,
        leaves_pn_error_from,
        crate::kept::leaves_exchange,
    };

    reveal(EngineView::check_pn);
}

pub broadcast proof fn leaves_sweep_from(e: EngineView, tx: bool, far: bool, j: int, row: Seq<u8>)
    ensures
        #![trigger e.sweep_from(tx, far, j, row)]
        leaves(e.link, e.sweep_from(tx, far, j, row).e.link, none()),
        calms(e.link, e.sweep_from(tx, far, j, row).e.link),
        same_los(e.state.v, e.sweep_from(tx, far, j, row).e.state.v),
        same_table(e.state.v, e.sweep_from(tx, far, j, row).e.state.v),
        same_bandwidths(e.state.v, e.sweep_from(tx, far, j, row).e.state.v),
        same_chip(e, e.sweep_from(tx, far, j, row).e),
    decreases 16 - j,
{
    broadcast use {
        leaves_check_pn,
        leaves_set_intf_delay,
    };

    if j < 16 {
        let mid = e.set_intf_delay(
            tx,
            if far {
                15
            } else {
                0
            },
            if far {
                (15 - j) as u8
            } else {
                j as u8
            },
            j == 0,
        ).check_pn(tx, 4);
        let row = if mid.r->Ok_0 {
            row.update(j, 1)
        } else {
            row
        };
        leaves_sweep_from(mid.e, tx, far, j + 1, row);
    }
}

pub broadcast proof fn leaves_sweep(e: EngineView, tx: bool, far: bool, row: Seq<u8>)
    ensures
        #![trigger e.sweep(tx, far, row)]
        leaves(e.link, e.sweep(tx, far, row).e.link, none()),
        calms(e.link, e.sweep(tx, far, row).e.link),
        same_los(e.state.v, e.sweep(tx, far, row).e.state.v),
        same_table(e.state.v, e.sweep(tx, far, row).e.state.v),
        same_bandwidths(e.state.v, e.sweep(tx, far, row).e.state.v),
        same_chip(e, e.sweep(tx, far, row).e),
{
    broadcast use leaves_sweep_from;

    reveal(EngineView::sweep);
}

pub broadcast proof fn leaves_sweeps_from(
    e: EngineView,
    tx: bool,
    sweep: int,
    sweeps: int,
    half_data_rate: bool,
    near: Seq<u8>,
    far: Seq<u8>,
)
    ensures
        #![trigger e.sweeps_from(tx, sweep, sweeps, half_data_rate, near, far)]
        leaves(
            e.link,
            e.sweeps_from(tx, sweep, sweeps, half_data_rate, near, far).e.link,
            Parts { rx_fir: sweeps > 1, tx_fir: sweeps > 1, ..none() },
        ),
        calms(e.link, e.sweeps_from(tx, sweep, sweeps, half_data_rate, near, far).e.link),
        same_los(e.state.v, e.sweeps_from(tx, sweep, sweeps, half_data_rate, near, far).e.state.v),
        same_table(e.state.v, e.sweeps_from(tx, sweep, sweeps, half_data_rate, near, far).e.state.v),
        same_bandwidths(e.state.v, e.sweeps_from(tx, sweep, sweeps, half_data_rate, near, far).e.state.v),
        same_chip(e, e.sweeps_from(tx, sweep, sweeps, half_data_rate, near, far).e),
    decreases sweeps - sweep,
{
    broadcast use {
        leaves_sweep,
        crate::kept::clock_chain::leaves_set_trx_clock_chain_freq_no_tune,
    };

    if sweep < sweeps {
        let first = e.at_sweep_rate(sweep as u8, sweeps > 1, half_data_rate).sweep(
            tx,
            false,
            near,
        );
        let mid = first.e.sweep(tx, true, far);
        leaves_sweeps_from(mid.e, tx, sweep + 1, sweeps, half_data_rate, first.r->Ok_0, mid.r->Ok_0);
    }
}

pub broadcast proof fn leaves_dig_tune_delay(e: EngineView, max_freq: HertzU32, tx: bool)
    ensures
        #![trigger e.dig_tune_delay(max_freq, tx)]
        leaves(
            e.link,
            e.dig_tune_delay(max_freq, tx).e.link,
            Parts { rx_fir: max_freq.raw != 0, tx_fir: max_freq.raw != 0, ..none() },
        ),
        calms(e.link, e.dig_tune_delay(max_freq, tx).e.link),
        same_los(e.state.v, e.dig_tune_delay(max_freq, tx).e.state.v),
        same_table(e.state.v, e.dig_tune_delay(max_freq, tx).e.state.v),
        same_bandwidths(e.state.v, e.dig_tune_delay(max_freq, tx).e.state.v),
        same_chip(e, e.dig_tune_delay(max_freq, tx).e),
{
    broadcast use {
        leaves_set_intf_delay,
        leaves_sweeps_from,
    };

    reveal(EngineView::dig_tune_delay);
}

pub broadcast proof fn leaves_dig_tune_rx(e: EngineView, max_freq: HertzU32)
    ensures
        #![trigger e.dig_tune_rx(max_freq)]
        leaves(
            e.link,
            e.dig_tune_rx(max_freq).e.link,
            Parts {
                rx_fir: max_freq.raw != 0,
                tx_fir: max_freq.raw != 0,
                channels: true,
                ..none()
            },
        ),
        calms(e.link, e.dig_tune_rx(max_freq).e.link),
        same_los(e.state.v, e.dig_tune_rx(max_freq).e.state.v),
        same_table(e.state.v, e.dig_tune_rx(max_freq).e.state.v),
        same_bandwidths(e.state.v, e.dig_tune_rx(max_freq).e.state.v),
        same_chip(e, e.dig_tune_rx(max_freq).e),
{
    broadcast use {
        leaves_bist_prbs,
        leaves_bist_loopback,
        leaves_dig_tune_delay,
        crate::kept::leaves_run,
    };

    reveal(EngineView::dig_tune_rx);
}

pub broadcast proof fn leaves_restore_channel(e: EngineView, chan: u8, saved: SavedChannel)
    ensures
        #![trigger e.restore_channel(chan, saved)]
        leaves(e.link, e.restore_channel(chan, saved).e.link, none()),
        calms(e.link, e.restore_channel(chan, saved).e.link),
        same_los(e.state.v, e.restore_channel(chan, saved).e.state.v),
        same_table(e.state.v, e.restore_channel(chan, saved).e.state.v),
        same_bandwidths(e.state.v, e.restore_channel(chan, saved).e.state.v),
        same_chip(e, e.restore_channel(chan, saved).e),
{
    broadcast use {
        crate::kept::leaves_exchange,
        crate::kept::leaves_run,
    };

    reveal(EngineView::restore_channel);
}

pub broadcast proof fn leaves_restore_from(e: EngineView, saved: Seq<SavedChannel>, chan: int)
    ensures
        #![trigger e.restore_from(saved, chan)]
        leaves(e.link, e.restore_from(saved, chan).e.link, none()),
        calms(e.link, e.restore_from(saved, chan).e.link),
        same_los(e.state.v, e.restore_from(saved, chan).e.state.v),
        same_table(e.state.v, e.restore_from(saved, chan).e.state.v),
        same_bandwidths(e.state.v, e.restore_from(saved, chan).e.state.v),
        same_chip(e, e.restore_from(saved, chan).e),
    decreases saved.len() - chan,
{
    broadcast use leaves_restore_channel;

    if chan < saved.len() {
        let mid = e.restore_channel(chan as u8, saved[chan]);
        leaves_restore_from(mid.e, saved, chan + 1);
    }
}

pub broadcast proof fn leaves_restore_channels(e: EngineView, saved: Seq<SavedChannel>)
    ensures
        #![trigger e.restore_channels(saved)]
        leaves(e.link, e.restore_channels(saved).e.link, none()),
        calms(e.link, e.restore_channels(saved).e.link),
        same_los(e.state.v, e.restore_channels(saved).e.state.v),
        same_table(e.state.v, e.restore_channels(saved).e.state.v),
        same_bandwidths(e.state.v, e.restore_channels(saved).e.state.v),
        same_chip(e, e.restore_channels(saved).e),
{
    broadcast use leaves_restore_from;

    reveal(EngineView::restore_channels);
}

pub broadcast proof fn leaves_prepare_channel(e: EngineView, chan: u8)
    ensures
        #![trigger e.prepare_channel(chan)]
        leaves(e.link, e.prepare_channel(chan).e.link, none()),
        calms(e.link, e.prepare_channel(chan).e.link),
        same_los(e.state.v, e.prepare_channel(chan).e.state.v),
        same_table(e.state.v, e.prepare_channel(chan).e.state.v),
        same_bandwidths(e.state.v, e.prepare_channel(chan).e.state.v),
        same_chip(e, e.prepare_channel(chan).e),
{
    broadcast use {
        crate::kept::leaves_exchange,
        crate::kept::leaves_run,
    };

    reveal(EngineView::prepare_channel);
}

pub broadcast proof fn leaves_prepare_from(e: EngineView, channels: int, saved: Seq<SavedChannel>)
    ensures
        #![trigger e.prepare_from(channels, saved)]
        leaves(e.link, e.prepare_from(channels, saved).e.link, none()),
        calms(e.link, e.prepare_from(channels, saved).e.link),
        same_los(e.state.v, e.prepare_from(channels, saved).e.state.v),
        same_table(e.state.v, e.prepare_from(channels, saved).e.state.v),
        same_bandwidths(e.state.v, e.prepare_from(channels, saved).e.state.v),
        same_chip(e, e.prepare_from(channels, saved).e),
    decreases channels - saved.len(),
{
    broadcast use leaves_prepare_channel;

    if saved.len() < channels {
        let mid = e.prepare_channel(saved.len() as u8);
        leaves_prepare_from(mid.e, channels, saved.push(mid.r->Ok_0));
    }
}

pub broadcast proof fn leaves_prepare_channels(e: EngineView)
    ensures
        #![trigger e.prepare_channels()]
        leaves(e.link, e.prepare_channels().e.link, none()),
        calms(e.link, e.prepare_channels().e.link),
        same_los(e.state.v, e.prepare_channels().e.state.v),
        same_table(e.state.v, e.prepare_channels().e.state.v),
        same_bandwidths(e.state.v, e.prepare_channels().e.state.v),
        same_chip(e, e.prepare_channels().e),
{
    broadcast use leaves_prepare_from;

    reveal(EngineView::prepare_channels);
}

pub broadcast proof fn leaves_dig_tune_tx(e: EngineView, max_freq: HertzU32)
    ensures
        #![trigger e.dig_tune_tx(max_freq)]
        leaves(
            e.link,
            e.dig_tune_tx(max_freq).e.link,
            Parts {
                rx_fir: max_freq.raw != 0,
                tx_fir: max_freq.raw != 0,
                channels: true,
                ..none()
            },
        ),
        calms(e.link, e.dig_tune_tx(max_freq).e.link),
        same_los(e.state.v, e.dig_tune_tx(max_freq).e.state.v),
        same_table(e.state.v, e.dig_tune_tx(max_freq).e.state.v),
        same_bandwidths(e.state.v, e.dig_tune_tx(max_freq).e.state.v),
        same_chip(e, e.dig_tune_tx(max_freq).e),
{
    broadcast use {
        leaves_bist_prbs,
        leaves_bist_loopback,
        leaves_dig_tune_delay,
        leaves_restore_channels,
        leaves_prepare_channels,
        crate::kept::leaves_run,
    };

    reveal(EngineView::dig_tune_tx);
}

pub broadcast proof fn leaves_tune_muted(e: EngineView, max_freq: HertzU32)
    ensures
        #![trigger e.tune_muted(max_freq)]
        leaves(
            e.link,
            e.tune_muted(max_freq).e.link,
            Parts {
                rx_fir: max_freq.raw != 0,
                tx_fir: max_freq.raw != 0,
                attenuation: true,
                channels: true,
                ..none()
            },
        ),
        calms(e.link, e.tune_muted(max_freq).e.link),
        same_los(e.state.v, e.tune_muted(max_freq).e.state.v),
        same_table(e.state.v, e.tune_muted(max_freq).e.state.v),
        same_bandwidths(e.state.v, e.tune_muted(max_freq).e.state.v),
        same_chip(e, e.tune_muted(max_freq).e),
{
    broadcast use {
        crate::kept::control::leaves_set_ensm_mode,
        leaves_bist_loopback,
        leaves_tx_mute,
        leaves_dig_tune_rx,
        leaves_dig_tune_tx,
        crate::kept::leaves_run,
    };

    reveal(EngineView::tune_muted);
}

pub broadcast proof fn leaves_restore_delays(e: EngineView)
    ensures
        #![trigger e.restore_delays()]
        leaves(e.link, e.restore_delays().e.link, none()),
        calms(e.link, e.restore_delays().e.link),
        same_los(e.state.v, e.restore_delays().e.state.v),
        same_table(e.state.v, e.restore_delays().e.state.v),
        same_bandwidths(e.state.v, e.restore_delays().e.state.v),
        same_chip(e, e.restore_delays().e),
{
    broadcast use {
        crate::kept::control::leaves_ensm_force_state,
        crate::kept::leaves_run,
    };

    reveal(EngineView::restore_delays);
}

pub broadcast proof fn leaves_store_delays(e: EngineView)
    ensures
        #![trigger e.store_delays()]
        leaves(e.link, e.store_delays().e.link, none()),
        calms(e.link, e.store_delays().e.link),
        same_los(e.state.v, e.store_delays().e.state.v),
        same_table(e.state.v, e.store_delays().e.state.v),
        same_bandwidths(e.state.v, e.store_delays().e.state.v),
        same_chip(e, e.store_delays().e),
{
    broadcast use crate::kept::leaves_read;

    reveal(EngineView::store_delays);
}

pub broadcast proof fn leaves_tune_finish(
    e: EngineView,
    restore: bool,
    store: bool,
    saved: SavedEnsmState,
)
    ensures
        #![trigger e.tune_finish(restore, store, saved)]
        leaves(
            e.link,
            e.tune_finish(restore, store, saved).e.link,
            Parts { attenuation: true, ..none() },
        ),
        calms(e.link, e.tune_finish(restore, store, saved).e.link),
        same_los(e.state.v, e.tune_finish(restore, store, saved).e.state.v),
        same_table(e.state.v, e.tune_finish(restore, store, saved).e.state.v),
        same_bandwidths(e.state.v, e.tune_finish(restore, store, saved).e.state.v),
        same_chip(e, e.tune_finish(restore, store, saved).e),
{
    broadcast use {
        crate::kept::control::leaves_set_ensm_mode,
        crate::kept::control::leaves_ensm_restore_state,
        leaves_tx_mute,
        leaves_restore_delays,
        leaves_store_delays,
        crate::kept::leaves_run,
    };

    reveal(EngineView::tune_finish);
}

pub broadcast proof fn leaves_dig_tune(e: EngineView, max_freq: HertzU32, flags: DigTuneFlags)
    ensures
        #![trigger e.dig_tune(max_freq, flags)]
        leaves(
            e.link,
            e.dig_tune(max_freq, flags).e.link,
            Parts {
                rx_fir: max_freq.raw != 0,
                tx_fir: max_freq.raw != 0,
                attenuation: true,
                channels: true,
                ..none()
            },
        ),
        calms(e.link, e.dig_tune(max_freq, flags).e.link),
        same_los(e.state.v, e.dig_tune(max_freq, flags).e.state.v),
        same_table(e.state.v, e.dig_tune(max_freq, flags).e.state.v),
        same_bandwidths(e.state.v, e.dig_tune(max_freq, flags).e.state.v),
        same_chip(e, e.dig_tune(max_freq, flags).e),
{
    broadcast use {
        crate::kept::control::leaves_save_ensm_state,
        leaves_tune_muted,
        leaves_tune_finish,
    };

    reveal(EngineView::dig_tune);
}

pub broadcast proof fn leaves_tune_at_start(e: EngineView, flags: DigTuneFlags)
    ensures
        #![trigger e.tune_at_start(flags)]
        leaves(
            e.link,
            e.tune_at_start(flags).e.link,
            Parts { rx_fir: true, tx_fir: true, attenuation: true, channels: true, ..none() },
        ),
        calms(e.link, e.tune_at_start(flags).e.link),
        same_los(e.state.v, e.tune_at_start(flags).e.state.v),
        same_table(e.state.v, e.tune_at_start(flags).e.state.v),
        same_bandwidths(e.state.v, e.tune_at_start(flags).e.state.v),
        same_chip(e, e.tune_at_start(flags).e),
{
    broadcast use {
        crate::kept::clock_chain::leaves_set_trx_clock_chain,
        crate::kept::control::leaves_ensm_force_state,
        crate::kept::control::leaves_ensm_restore_state,
        leaves_dig_tune,
    };

    reveal(EngineView::tune_at_start);
}

pub broadcast proof fn leaves_with_dig_tune_mode(
    e: EngineView,
    mode: DigInterfaceTune,
    flags: DigTuneFlags,
)
    ensures
        #![trigger e.with_dig_tune_mode(mode, flags)]
        leaves(
            e.link,
            e.with_dig_tune_mode(mode, flags).e.link,
            Parts { rx_fir: true, tx_fir: true, attenuation: true, channels: true, ..none() },
        ),
        calms(e.link, e.with_dig_tune_mode(mode, flags).e.link),
        same_los(e.state.v, e.with_dig_tune_mode(mode, flags).e.state.v),
        same_table(e.state.v, e.with_dig_tune_mode(mode, flags).e.state.v),
        same_bandwidths(e.state.v, e.with_dig_tune_mode(mode, flags).e.state.v),
        same_chip(e, e.with_dig_tune_mode(mode, flags).e),
{
    broadcast use leaves_tune_at_start;

    reveal(EngineView::with_dig_tune_mode);
}

pub broadcast proof fn leaves_post_setup(e: EngineView)
    ensures
        #![trigger e.post_setup()]
        leaves(
            e.link,
            e.post_setup().e.link,
            Parts { rx_fir: true, tx_fir: true, attenuation: true, channels: true, ..none() },
        ),
        calms(e.link, e.post_setup().e.link),
        same_los(e.state.v, e.post_setup().e.state.v),
        same_table(e.state.v, e.post_setup().e.state.v),
        same_bandwidths(e.state.v, e.post_setup().e.state.v),
        same_chip(e, e.post_setup().e),
{
    broadcast use {
        leaves_configure_core,
        leaves_with_dig_tune_mode,
    };

    reveal(EngineView::post_setup);
}

} // verus!
