//! Repetition of the operations of [`crate::dig_tune`].
use vstd::prelude::*;

use crate::config::DigInterfaceTune;
use crate::control::SavedEnsmState;
use crate::dig_tune::{BistLoopback, BistMode, DigTuneFlags, SavedChannel};
use crate::engine::EngineView;
use crate::link::{AxiRequest, goes_on};
use crate::replay::{alike, alike_reply, together};
use crate::units::HertzU32;

verus! {

pub broadcast proof fn keeps_enable_core_channels(e: EngineView)
    ensures
        goes_on(e.link, (#[trigger] e.enable_core_channels()).e.link),
{
    broadcast use {
        crate::replay::engine::keeps_exchange,
        crate::replay::engine::keeps_run,
    };

    reveal(EngineView::enable_core_channels);
}

pub broadcast proof fn repeats_enable_core_channels(a: EngineView, b: EngineView)
    requires
        together(a, b),
    ensures
        #![trigger a.enable_core_channels(), b.enable_core_channels()]
        alike(a.enable_core_channels(), b.enable_core_channels()),
{
    broadcast use {
        crate::replay::engine::keeps_exchange,
        crate::replay::engine::keeps_run,
        crate::replay::engine::repeats_exchange,
        crate::replay::engine::repeats_run,
    };

    reveal(EngineView::enable_core_channels);
}

pub broadcast proof fn keeps_configure_core(e: EngineView)
    ensures
        goes_on(e.link, (#[trigger] e.configure_core()).e.link),
{
    broadcast use {
        keeps_enable_core_channels,
        crate::replay::engine::keeps_exchange,
        crate::replay::engine::keeps_run,
    };

    reveal(EngineView::configure_core);
}

pub broadcast proof fn repeats_configure_core(a: EngineView, b: EngineView)
    requires
        together(a, b),
    ensures
        #![trigger a.configure_core(), b.configure_core()]
        alike(a.configure_core(), b.configure_core()),
{
    broadcast use {
        keeps_enable_core_channels,
        crate::replay::engine::keeps_exchange,
        crate::replay::engine::keeps_run,
        repeats_enable_core_channels,
        crate::replay::engine::repeats_exchange,
        crate::replay::engine::repeats_run,
    };

    reveal(EngineView::configure_core);
}

pub broadcast proof fn keeps_int_loopback_fix_ch_cross(e: EngineView, enable: bool)
    ensures
        goes_on(e.link, (#[trigger] e.int_loopback_fix_ch_cross(enable)).e.link),
{
    broadcast use crate::replay::ports::keeps_set_tx_channels;

    reveal(EngineView::int_loopback_fix_ch_cross);
}

pub broadcast proof fn repeats_int_loopback_fix_ch_cross(a: EngineView, b: EngineView, enable: bool)
    requires
        together(a, b),
    ensures
        #![trigger a.int_loopback_fix_ch_cross(enable), b.int_loopback_fix_ch_cross(enable)]
        alike(a.int_loopback_fix_ch_cross(enable), b.int_loopback_fix_ch_cross(enable)),
{
    broadcast use {
        crate::replay::ports::keeps_set_tx_channels,
        crate::replay::ports::repeats_set_tx_channels,
    };

    reveal(EngineView::int_loopback_fix_ch_cross);
}

pub broadcast proof fn keeps_loop_channel(e: EngineView, enable: bool, chan: u8)
    ensures
        goes_on(e.link, (#[trigger] e.loop_channel(enable, chan)).e.link),
{
    broadcast use {
        crate::replay::engine::keeps_exchange,
        crate::replay::engine::keeps_run,
    };

    reveal(EngineView::loop_channel);
}

pub broadcast proof fn repeats_loop_channel(a: EngineView, b: EngineView, enable: bool, chan: u8)
    requires
        together(a, b),
    ensures
        #![trigger a.loop_channel(enable, chan), b.loop_channel(enable, chan)]
        alike(a.loop_channel(enable, chan), b.loop_channel(enable, chan)),
{
    broadcast use {
        crate::replay::engine::keeps_exchange,
        crate::replay::engine::keeps_run,
        crate::replay::engine::repeats_exchange,
        crate::replay::engine::repeats_run,
    };

    reveal(EngineView::loop_channel);
}

pub broadcast proof fn keeps_hdl_loopback(e: EngineView, enable: bool)
    ensures
        goes_on(e.link, (#[trigger] e.hdl_loopback(enable)).e.link),
{
    broadcast use keeps_loop_channel;

    reveal(EngineView::hdl_loopback);
}

pub broadcast proof fn repeats_hdl_loopback(a: EngineView, b: EngineView, enable: bool)
    requires
        together(a, b),
    ensures
        #![trigger a.hdl_loopback(enable), b.hdl_loopback(enable)]
        alike(a.hdl_loopback(enable), b.hdl_loopback(enable)),
{
    broadcast use {
        keeps_loop_channel,
        repeats_loop_channel,
    };

    reveal(EngineView::hdl_loopback);
}

pub broadcast proof fn keeps_bist_loopback(e: EngineView, mode: BistLoopback)
    ensures
        goes_on(e.link, (#[trigger] e.bist_loopback(mode)).e.link),
{
    broadcast use {
        keeps_int_loopback_fix_ch_cross,
        keeps_hdl_loopback,
        crate::replay::engine::keeps_read,
        crate::replay::engine::keeps_run,
    };

    reveal(EngineView::bist_loopback);
}

pub broadcast proof fn repeats_bist_loopback(a: EngineView, b: EngineView, mode: BistLoopback)
    requires
        together(a, b),
    ensures
        #![trigger a.bist_loopback(mode), b.bist_loopback(mode)]
        alike(a.bist_loopback(mode), b.bist_loopback(mode)),
{
    broadcast use {
        keeps_int_loopback_fix_ch_cross,
        keeps_hdl_loopback,
        crate::replay::engine::keeps_read,
        crate::replay::engine::keeps_run,
        repeats_int_loopback_fix_ch_cross,
        repeats_hdl_loopback,
        crate::replay::engine::repeats_read,
        crate::replay::engine::repeats_run,
    };

    reveal(EngineView::bist_loopback);
}

pub broadcast proof fn keeps_tx_atten(e: EngineView, tx2: bool)
    ensures
        goes_on(e.link, (#[trigger] e.tx_atten(tx2)).e.link),
{
    broadcast use crate::replay::engine::keeps_exchange;

    reveal(EngineView::tx_atten);
}

pub broadcast proof fn repeats_tx_atten(a: EngineView, b: EngineView, tx2: bool)
    requires
        together(a, b),
    ensures
        #![trigger a.tx_atten(tx2), b.tx_atten(tx2)]
        alike_reply(a.tx_atten(tx2), b.tx_atten(tx2)),
{
    broadcast use {
        crate::replay::engine::keeps_exchange,
        crate::replay::engine::repeats_exchange,
    };

    reveal(EngineView::tx_atten);
}

pub broadcast proof fn keeps_tx_mute(e: EngineView, mute: bool)
    ensures
        goes_on(e.link, (#[trigger] e.tx_mute(mute)).e.link),
{
    broadcast use {
        crate::replay::control::keeps_set_tx_atten,
        keeps_tx_atten,
    };

    reveal(EngineView::tx_mute);
}

pub broadcast proof fn repeats_tx_mute(a: EngineView, b: EngineView, mute: bool)
    requires
        together(a, b),
    ensures
        #![trigger a.tx_mute(mute), b.tx_mute(mute)]
        alike(a.tx_mute(mute), b.tx_mute(mute)),
{
    broadcast use {
        crate::replay::control::keeps_set_tx_atten,
        keeps_tx_atten,
        crate::replay::control::repeats_set_tx_atten,
        repeats_tx_atten,
    };

    reveal(EngineView::tx_mute);
}

pub broadcast proof fn keeps_bist_prbs(e: EngineView, mode: BistMode)
    ensures
        goes_on(e.link, (#[trigger] e.bist_prbs(mode)).e.link),
{
    broadcast use crate::replay::engine::keeps_run;

    reveal(EngineView::bist_prbs);
}

pub broadcast proof fn repeats_bist_prbs(a: EngineView, b: EngineView, mode: BistMode)
    requires
        together(a, b),
    ensures
        #![trigger a.bist_prbs(mode), b.bist_prbs(mode)]
        alike(a.bist_prbs(mode), b.bist_prbs(mode)),
{
    broadcast use {
        crate::replay::engine::keeps_run,
        crate::replay::engine::repeats_run,
    };

    reveal(EngineView::bist_prbs);
}

pub broadcast proof fn keeps_set_intf_delay(
    e: EngineView,
    tx: bool,
    clock_delay: u8,
    data_delay: u8,
    clock_changed: bool,
)
    ensures
        goes_on(
            e.link,
            (#[trigger] e.set_intf_delay(tx, clock_delay, data_delay, clock_changed)).e.link,
        ),
{
    broadcast use {
        crate::replay::control::keeps_ensm_force_state,
        crate::replay::engine::keeps_run,
    };

    reveal(EngineView::set_intf_delay);
}

pub broadcast proof fn repeats_set_intf_delay(
    a: EngineView,
    b: EngineView,
    tx: bool,
    clock_delay: u8,
    data_delay: u8,
    clock_changed: bool,
)
    requires
        together(a, b),
    ensures
        #![trigger a.set_intf_delay(tx, clock_delay, data_delay, clock_changed),
            b.set_intf_delay(tx, clock_delay, data_delay, clock_changed)]
        alike(
            a.set_intf_delay(tx, clock_delay, data_delay, clock_changed),
            b.set_intf_delay(tx, clock_delay, data_delay, clock_changed),
        ),
{
    broadcast use {
        crate::replay::control::keeps_ensm_force_state,
        crate::replay::engine::keeps_run,
        crate::replay::control::repeats_ensm_force_state,
        crate::replay::engine::repeats_run,
    };

    reveal(EngineView::set_intf_delay);
}

pub broadcast proof fn keeps_clear_pn(e: EngineView, delay_ms: u64)
    ensures
        goes_on(e.link, (#[trigger] e.clear_pn(delay_ms)).e.link),
{
    broadcast use {
        crate::replay::engine::keeps_exchange,
        crate::replay::engine::keeps_run,
    };

    reveal(EngineView::clear_pn);
}

pub broadcast proof fn repeats_clear_pn(a: EngineView, b: EngineView, delay_ms: u64)
    requires
        together(a, b),
    ensures
        #![trigger a.clear_pn(delay_ms), b.clear_pn(delay_ms)]
        alike(a.clear_pn(delay_ms), b.clear_pn(delay_ms)),
{
    broadcast use {
        crate::replay::engine::keeps_exchange,
        crate::replay::engine::keeps_run,
        crate::replay::engine::repeats_exchange,
        crate::replay::engine::repeats_run,
    };

    reveal(EngineView::clear_pn);
}

pub broadcast proof fn keeps_pn_error_from(e: EngineView, chan: int, channels: int)
    ensures
        goes_on(e.link, (#[trigger] e.pn_error_from(chan, channels)).e.link),
    decreases channels - chan,
{
    broadcast use crate::replay::engine::keeps_exchange;

    if chan < channels {
        let mid = e.axi(AxiRequest::AdcReadChannelStatus { chan: chan as u8 });
        keeps_pn_error_from(mid.e, chan + 1, channels);
    }
}

pub broadcast proof fn repeats_pn_error_from(a: EngineView, b: EngineView, chan: int, channels: int)
    requires
        together(a, b),
    ensures
        #![trigger a.pn_error_from(chan, channels), b.pn_error_from(chan, channels)]
        alike_reply(a.pn_error_from(chan, channels), b.pn_error_from(chan, channels)),
    decreases channels - chan,
{
    broadcast use {
        crate::replay::engine::keeps_exchange,
        crate::replay::engine::repeats_exchange,
    };

    if chan < channels {
        let mid_a = a.axi(AxiRequest::AdcReadChannelStatus { chan: chan as u8 });
        let mid_b = b.axi(AxiRequest::AdcReadChannelStatus { chan: chan as u8 });
        keeps_pn_error_from(mid_a.e, chan + 1, channels);
        keeps_pn_error_from(mid_b.e, chan + 1, channels);
        if together(mid_a.e, mid_b.e) {
            repeats_pn_error_from(mid_a.e, mid_b.e, chan + 1, channels);
        }
    }
}

pub broadcast proof fn keeps_check_pn(e: EngineView, tx: bool, delay_ms: u64)
    ensures
        goes_on(e.link, (#[trigger] e.check_pn(tx, delay_ms)).e.link),
{
    broadcast use {
        keeps_clear_pn,
        keeps_pn_error_from,
        crate::replay::engine::keeps_exchange,
    };

    reveal(EngineView::check_pn);
}

pub broadcast proof fn repeats_check_pn(a: EngineView, b: EngineView, tx: bool, delay_ms: u64)
    requires
        together(a, b),
    ensures
        #![trigger a.check_pn(tx, delay_ms), b.check_pn(tx, delay_ms)]
        alike_reply(a.check_pn(tx, delay_ms), b.check_pn(tx, delay_ms)),
{
    broadcast use {
        keeps_clear_pn,
        keeps_pn_error_from,
        crate::replay::engine::keeps_exchange,
        repeats_clear_pn,
        repeats_pn_error_from,
        crate::replay::engine::repeats_exchange,
    };

    reveal(EngineView::check_pn);
}

pub broadcast proof fn keeps_sweep_from(e: EngineView, tx: bool, far: bool, j: int, row: Seq<u8>)
    ensures
        goes_on(e.link, (#[trigger] e.sweep_from(tx, far, j, row)).e.link),
    decreases 16 - j,
{
    broadcast use {
        keeps_check_pn,
        keeps_set_intf_delay,
    };

    if j < 16 {
        let mid = e.set_intf_delay(
            tx,
            if far {
                15
            } else {
                0
            },
            if far {
                (15 - j) as u8
            } else {
                j as u8
            },
            j == 0,
        ).check_pn(tx, 4);
        let row = if mid.r->Ok_0 {
            row.update(j, 1)
        } else {
            row
        };
        keeps_sweep_from(mid.e, tx, far, j + 1, row);
    }
}

pub broadcast proof fn repeats_sweep_from(
    a: EngineView,
    b: EngineView,
    tx: bool,
    far: bool,
    j: int,
    row: Seq<u8>,
)
    requires
        together(a, b),
    ensures
        #![trigger a.sweep_from(tx, far, j, row), b.sweep_from(tx, far, j, row)]
        alike_reply(a.sweep_from(tx, far, j, row), b.sweep_from(tx, far, j, row)),
    decreases 16 - j,
{
    broadcast use {
        keeps_check_pn,
        keeps_set_intf_delay,
        repeats_check_pn,
        repeats_set_intf_delay,
    };

    if j < 16 {
        let mid_a = a.set_intf_delay(
            tx,
            if far {
                15
            } else {
                0
            },
            if far {
                (15 - j) as u8
            } else {
                j as u8
            },
            j == 0,
        ).check_pn(tx, 4);
        let row_a = if mid_a.r->Ok_0 {
            row.update(j, 1)
        } else {
            row
        };
        let mid_b = b.set_intf_delay(
            tx,
            if far {
                15
            } else {
                0
            },
            if far {
                (15 - j) as u8
            } else {
                j as u8
            },
            j == 0,
        ).check_pn(tx, 4);
        let row_b = if mid_b.r->Ok_0 {
            row.update(j, 1)
        } else {
            row
        };
        keeps_sweep_from(mid_a.e, tx, far, j + 1, row_a);
        keeps_sweep_from(mid_b.e, tx, far, j + 1, row_b);
        if together(mid_a.e, mid_b.e) {
            repeats_sweep_from(mid_a.e, mid_b.e, tx, far, j + 1, row_a);
        }
    }
}

pub broadcast proof fn keeps_sweep(e: EngineView, tx: bool, far: bool, row: Seq<u8>)
    ensures
        goes_on(e.link, (#[trigger] e.sweep(tx, far, row)).e.link),
{
    broadcast use keeps_sweep_from;

    reveal(EngineView::sweep);
}

pub broadcast proof fn repeats_sweep(
    a: EngineView,
    b: EngineView,
    tx: bool,
    far: bool,
    row: Seq<u8>,
)
    requires
        together(a, b),
    ensures
        #![trigger a.sweep(tx, far, row), b.sweep(tx, far, row)]
        alike_reply(a.sweep(tx, far, row), b.sweep(tx, far, row)),
{
    broadcast use {
        keeps_sweep_from,
        repeats_sweep_from,
    };

    reveal(EngineView::sweep);
}

pub broadcast proof fn keeps_sweeps_from(
    e: EngineView,
    tx: bool,
    sweep: int,
    sweeps: int,
    half_data_rate: bool,
    near: Seq<u8>,
    far: Seq<u8>,
)
    ensures
        goes_on(
            e.link,
            (#[trigger] e.sweeps_from(tx, sweep, sweeps, half_data_rate, near, far)).e.link,
        ),
    decreases sweeps - sweep,
{
    broadcast use {
        keeps_sweep,
        crate::replay::clock_chain::keeps_set_trx_clock_chain_freq_no_tune,
    };

    if sweep < sweeps {
        let first = e.at_sweep_rate(sweep as u8, sweeps > 1, half_data_rate).sweep(
            tx,
            false,
            near,
        );
        let mid = first.e.sweep(tx, true, far);
        keeps_sweeps_from(mid.e, tx, sweep + 1, sweeps, half_data_rate, first.r->Ok_0, mid.r->Ok_0);
    }
}

pub broadcast proof fn repeats_sweeps_from(
    a: EngineView,
    b: EngineView,
    tx: bool,
    sweep: int,
    sweeps: int,
    half_data_rate: bool,
    near: Seq<u8>,
    far: Seq<u8>,
)
    requires
        together(a, b),
    ensures
        #![trigger a.sweeps_from(tx, sweep, sweeps, half_data_rate, near, far),
            b.sweeps_from(tx, sweep, sweeps, half_data_rate, near, far)]
        alike_reply(
            a.sweeps_from(tx, sweep, sweeps, half_data_rate, near, far),
            b.sweeps_from(tx, sweep, sweeps, half_data_rate, near, far),
        ),
    decreases sweeps - sweep,
{
    broadcast use {
        keeps_sweep,
        crate::replay::clock_chain::keeps_set_trx_clock_chain_freq_no_tune,
        repeats_sweep,
        crate::replay::clock_chain::repeats_set_trx_clock_chain_freq_no_tune,
    };

    if sweep < sweeps {
        let first_a = a.at_sweep_rate(sweep as u8, sweeps > 1, half_data_rate).sweep(
            tx,
            false,
            near,
        );
        let mid_a = first_a.e.sweep(tx, true, far);
        let first_b = b.at_sweep_rate(sweep as u8, sweeps > 1, half_data_rate).sweep(
            tx,
            false,
            near,
        );
        let mid_b = first_b.e.sweep(tx, true, far);
        keeps_sweeps_from(mid_a.e, tx, sweep + 1, sweeps, half_data_rate, first_a.r->Ok_0, mid_a.r->Ok_0);
        keeps_sweeps_from(mid_b.e, tx, sweep + 1, sweeps, half_data_rate, first_b.r->Ok_0, mid_b.r->Ok_0);
        if together(mid_a.e, mid_b.e) {
            repeats_sweeps_from(
                mid_a.e,
                mid_b.e,
                tx,
                sweep + 1,
                sweeps,
                half_data_rate,
                first_a.r->Ok_0,
                mid_a.r->Ok_0,
            );
        }
    }
}

pub broadcast proof fn keeps_dig_tune_delay(e: EngineView, max_freq: HertzU32, tx: bool)
    ensures
        goes_on(e.link, (#[trigger] e.dig_tune_delay(max_freq, tx)).e.link),
{
    broadcast use {
        keeps_set_intf_delay,
        keeps_sweeps_from,
    };

    reveal(EngineView::dig_tune_delay);
}

pub broadcast proof fn repeats_dig_tune_delay(
    a: EngineView,
    b: EngineView,
    max_freq: HertzU32,
    tx: bool,
)
    requires
        together(a, b),
    ensures
        #![trigger a.dig_tune_delay(max_freq, tx), b.dig_tune_delay(max_freq, tx)]
        alike(a.dig_tune_delay(max_freq, tx), b.dig_tune_delay(max_freq, tx)),
{
    broadcast use {
        keeps_set_intf_delay,
        keeps_sweeps_from,
        repeats_set_intf_delay,
        repeats_sweeps_from,
    };

    reveal(EngineView::dig_tune_delay);
}

pub broadcast proof fn keeps_dig_tune_rx(e: EngineView, max_freq: HertzU32)
    ensures
        goes_on(e.link, (#[trigger] e.dig_tune_rx(max_freq)).e.link),
{
    broadcast use {
        keeps_bist_prbs,
        keeps_bist_loopback,
        keeps_dig_tune_delay,
        crate::replay::engine::keeps_run,
    };

    reveal(EngineView::dig_tune_rx);
}

pub broadcast proof fn repeats_dig_tune_rx(a: EngineView, b: EngineView, max_freq: HertzU32)
    requires
        together(a, b),
    ensures
        #![trigger a.dig_tune_rx(max_freq), b.dig_tune_rx(max_freq)]
        alike(a.dig_tune_rx(max_freq), b.dig_tune_rx(max_freq)),
{
    broadcast use {
        keeps_bist_prbs,
        keeps_bist_loopback,
        keeps_dig_tune_delay,
        crate::replay::engine::keeps_run,
        repeats_bist_prbs,
        repeats_bist_loopback,
        repeats_dig_tune_delay,
        crate::replay::engine::repeats_run,
    };

    reveal(EngineView::dig_tune_rx);
}

pub broadcast proof fn keeps_restore_channel(e: EngineView, chan: u8, saved: SavedChannel)
    ensures
        goes_on(e.link, (#[trigger] e.restore_channel(chan, saved)).e.link),
{
    broadcast use {
        crate::replay::engine::keeps_exchange,
        crate::replay::engine::keeps_run,
    };

    reveal(EngineView::restore_channel);
}

pub broadcast proof fn repeats_restore_channel(
    a: EngineView,
    b: EngineView,
    chan: u8,
    saved: SavedChannel,
)
    requires
        together(a, b),
    ensures
        #![trigger a.restore_channel(chan, saved), b.restore_channel(chan, saved)]
        alike(a.restore_channel(chan, saved), b.restore_channel(chan, saved)),
{
    broadcast use {
        crate::replay::engine::keeps_exchange,
        crate::replay::engine::keeps_run,
        crate::replay::engine::repeats_exchange,
        crate::replay::engine::repeats_run,
    };

    reveal(EngineView::restore_channel);
}

pub broadcast proof fn keeps_restore_from(e: EngineView, saved: Seq<SavedChannel>, chan: int)
    ensures
        goes_on(e.link, (#[trigger] e.restore_from(saved, chan)).e.link),
    decreases saved.len() - chan,
{
    broadcast use keeps_restore_channel;

    if chan < saved.len() {
        let mid = e.restore_channel(chan as u8, saved[chan]);
        keeps_restore_from(mid.e, saved, chan + 1);
    }
}

pub broadcast proof fn repeats_restore_from(
    a: EngineView,
    b: EngineView,
    saved: Seq<SavedChannel>,
    chan: int,
)
    requires
        together(a, b),
    ensures
        #![trigger a.restore_from(saved, chan), b.restore_from(saved, chan)]
        alike(a.restore_from(saved, chan), b.restore_from(saved, chan)),
    decreases saved.len() - chan,
{
    broadcast use {
        keeps_restore_channel,
        repeats_restore_channel,
    };

    if chan < saved.len() {
        let mid_a = a.restore_channel(chan as u8, saved[chan]);
        let mid_b = b.restore_channel(chan as u8, saved[chan]);
        keeps_restore_from(mid_a.e, saved, chan + 1);
        keeps_restore_from(mid_b.e, saved, chan + 1);
        if together(mid_a.e, mid_b.e) {
            repeats_restore_from(mid_a.e, mid_b.e, saved, chan + 1);
        }
    }
}

pub broadcast proof fn keeps_restore_channels(e: EngineView, saved: Seq<SavedChannel>)
    ensures
        goes_on(e.link, (#[trigger] e.restore_channels(saved)).e.link),
{
    broadcast use keeps_restore_from;

    reveal(EngineView::restore_channels);
}

pub broadcast proof fn repeats_restore_channels(
    a: EngineView,
    b: EngineView,
    saved: Seq<SavedChannel>,
)
    requires
        together(a, b),
    ensures
        #![trigger a.restore_channels(saved), b.restore_channels(saved)]
        alike(a.restore_channels(saved), b.restore_channels(saved)),
{
    broadcast use {
        keeps_restore_from,
        repeats_restore_from,
    };

    reveal(EngineView::restore_channels);
}

pub broadcast proof fn keeps_prepare_channel(e: EngineView, chan: u8)
    ensures
        goes_on(e.link, (#[trigger] e.prepare_channel(chan)).e.link),
{
    broadcast use {
        crate::replay::engine::keeps_exchange,
        crate::replay::engine::keeps_run,
    };

    reveal(EngineView::prepare_channel);
}

pub broadcast proof fn repeats_prepare_channel(a: EngineView, b: EngineView, chan: u8)
    requires
        together(a, b),
    ensures
        #![trigger a.prepare_channel(chan), b.prepare_channel(chan)]
        alike_reply(a.prepare_channel(chan), b.prepare_channel(chan)),
{
    broadcast use {
        crate::replay::engine::keeps_exchange,
        crate::replay::engine::keeps_run,
        crate::replay::engine::repeats_exchange,
        crate::replay::engine::repeats_run,
    };

    reveal(EngineView::prepare_channel);
}

pub broadcast proof fn keeps_prepare_from(e: EngineView, channels: int, saved: Seq<SavedChannel>)
    ensures
        goes_on(e.link, (#[trigger] e.prepare_from(channels, saved)).e.link),
    decreases channels - saved.len(),
{
    broadcast use keeps_prepare_channel;

    if saved.len() < channels {
        let mid = e.prepare_channel(saved.len() as u8);
        keeps_prepare_from(mid.e, channels, saved.push(mid.r->Ok_0));
    }
}

pub broadcast proof fn repeats_prepare_from(
    a: EngineView,
    b: EngineView,
    channels: int,
    saved: Seq<SavedChannel>,
)
    requires
        together(a, b),
    ensures
        #![trigger a.prepare_from(channels, saved), b.prepare_from(channels, saved)]
        alike_reply(a.prepare_from(channels, saved), b.prepare_from(channels, saved)),
    decreases channels - saved.len(),
{
    broadcast use {
        keeps_prepare_channel,
        repeats_prepare_channel,
    };

    if saved.len() < channels {
        let mid_a = a.prepare_channel(saved.len() as u8);
        let mid_b = b.prepare_channel(saved.len() as u8);
        keeps_prepare_from(mid_a.e, channels, saved.push(mid_a.r->Ok_0));
        keeps_prepare_from(mid_b.e, channels, saved.push(mid_b.r->Ok_0));
        if together(mid_a.e, mid_b.e) {
            repeats_prepare_from(mid_a.e, mid_b.e, channels, saved.push(mid_a.r->Ok_0));
        }
    }
}

pub broadcast proof fn keeps_prepare_channels(e: EngineView)
    ensures
        goes_on(e.link, (#[trigger] e.prepare_channels()).e.link),
{
    broadcast use keeps_prepare_from;

    reveal(EngineView::prepare_channels);
}

pub broadcast proof fn repeats_prepare_channels(a: EngineView, b: EngineView)
    requires
        together(a, b),
    ensures
        #![trigger a.prepare_channels(), b.prepare_channels()]
        alike_reply(a.prepare_channels(), b.prepare_channels()),
{
    broadcast use {
        keeps_prepare_from,
        repeats_prepare_from,
    };

    reveal(EngineView::prepare_channels);
}

pub broadcast proof fn keeps_dig_tune_tx(e: EngineView, max_freq: HertzU32)
    ensures
        goes_on(e.link, (#[trigger] e.dig_tune_tx(max_freq)).e.link),
{
    broadcast use {
        keeps_bist_prbs,
        keeps_bist_loopback,
        keeps_dig_tune_delay,
        keeps_restore_channels,
        keeps_prepare_channels,
        crate::replay::engine::keeps_run,
    };

    reveal(EngineView::dig_tune_tx);
}

pub broadcast proof fn repeats_dig_tune_tx(a: EngineView, b: EngineView, max_freq: HertzU32)
    requires
        together(a, b),
    ensures
        #![trigger a.dig_tune_tx(max_freq), b.dig_tune_tx(max_freq)]
        alike(a.dig_tune_tx(max_freq), b.dig_tune_tx(max_freq)),
{
    broadcast use {
        keeps_bist_prbs,
        keeps_bist_loopback,
        keeps_dig_tune_delay,
        keeps_restore_channels,
        keeps_prepare_channels,
        crate::replay::engine::keeps_run,
        repeats_bist_prbs,
        repeats_bist_loopback,
        repeats_dig_tune_delay,
        repeats_restore_channels,
        repeats_prepare_channels,
        crate::replay::engine::repeats_run,
    };

    reveal(EngineView::dig_tune_tx);
}

pub broadcast proof fn keeps_tune_muted(e: EngineView, max_freq: HertzU32)
    ensures
        goes_on(e.link, (#[trigger] e.tune_muted(max_freq)).e.link),
{
    broadcast use {
        crate::replay::control::keeps_set_ensm_mode,
        keeps_bist_loopback,
        keeps_tx_mute,
        keeps_dig_tune_rx,
        keeps_dig_tune_tx,
        crate::replay::engine::keeps_run,
    };

    reveal(EngineView::tune_muted);
}

pub broadcast proof fn repeats_tune_muted(a: EngineView, b: EngineView, max_freq: HertzU32)
    requires
        together(a, b),
    ensures
        #![trigger a.tune_muted(max_freq), b.tune_muted(max_freq)]
        alike_reply(a.tune_muted(max_freq), b.tune_muted(max_freq)),
{
    broadcast use {
        crate::replay::control::keeps_set_ensm_mode,
        keeps_bist_loopback,
        keeps_tx_mute,
        keeps_dig_tune_rx,
        keeps_dig_tune_tx,
        crate::replay::engine::keeps_run,
        crate::replay::control::repeats_set_ensm_mode,
        repeats_bist_loopback,
        repeats_tx_mute,
        repeats_dig_tune_rx,
        repeats_dig_tune_tx,
        crate::replay::engine::repeats_run,
    };

    reveal(EngineView::tune_muted);
}

pub broadcast proof fn keeps_restore_delays(e: EngineView)
    ensures
        goes_on(e.link, (#[trigger] e.restore_delays()).e.link),
{
    broadcast use {
        crate::replay::control::keeps_ensm_force_state,
        crate::replay::engine::keeps_run,
    };

    reveal(EngineView::restore_delays);
}

pub broadcast proof fn repeats_restore_delays(a: EngineView, b: EngineView)
    requires
        together(a, b),
    ensures
        #![trigger a.restore_delays(), b.restore_delays()]
        alike(a.restore_delays(), b.restore_delays()),
{
    broadcast use {
        crate::replay::control::keeps_ensm_force_state,
        crate::replay::engine::keeps_run,
        crate::replay::control::repeats_ensm_force_state,
        crate::replay::engine::repeats_run,
    };

    reveal(EngineView::restore_delays);
}

pub broadcast proof fn keeps_store_delays(e: EngineView)
    ensures
        goes_on(e.link, (#[trigger] e.store_delays()).e.link),
{
    broadcast use crate::replay::engine::keeps_read;

    reveal(EngineView::store_delays);
}

pub broadcast proof fn repeats_store_delays(a: EngineView, b: EngineView)
    requires
        together(a, b),
    ensures
        #![trigger a.store_delays(), b.store_delays()]
        alike(a.store_delays(), b.store_delays()),
{
    broadcast use {
        crate::replay::engine::keeps_read,
        crate::replay::engine::repeats_read,
    };

    reveal(EngineView::store_delays);
}

pub broadcast proof fn keeps_tune_finish(
    e: EngineView,
    restore: bool,
    store: bool,
    saved: SavedEnsmState,
)
    ensures
        goes_on(e.link, (#[trigger] e.tune_finish(restore, store, saved)).e.link),
{
    broadcast use {
        crate::replay::control::keeps_set_ensm_mode,
        crate::replay::control::keeps_ensm_restore_state,
        keeps_tx_mute,
        keeps_restore_delays,
        keeps_store_delays,
        crate::replay::engine::keeps_run,
    };

    reveal(EngineView::tune_finish);
}

pub broadcast proof fn repeats_tune_finish(
    a: EngineView,
    b: EngineView,
    restore: bool,
    store: bool,
    saved: SavedEnsmState,
)
    requires
        together(a, b),
    ensures
        #![trigger a.tune_finish(restore, store, saved), b.tune_finish(restore, store, saved)]
        alike(a.tune_finish(restore, store, saved), b.tune_finish(restore, store, saved)),
{
    broadcast use {
        crate::replay::control::keeps_set_ensm_mode,
        crate::replay::control::keeps_ensm_restore_state,
        keeps_tx_mute,
        keeps_restore_delays,
        keeps_store_delays,
        crate::replay::engine::keeps_run,
        crate::replay::control::repeats_set_ensm_mode,
        crate::replay::control::repeats_ensm_restore_state,
        repeats_tx_mute,
        repeats_restore_delays,
        repeats_store_delays,
        crate::replay::engine::repeats_run,
    };

    reveal(EngineView::tune_finish);
}

pub broadcast proof fn keeps_dig_tune(e: EngineView, max_freq: HertzU32, flags: DigTuneFlags)
    ensures
        goes_on(e.link, (#[trigger] e.dig_tune(max_freq, flags)).e.link),
{
    broadcast use {
        crate::replay::control::keeps_save_ensm_state,
        keeps_tune_muted,
        keeps_tune_finish,
    };

    reveal(EngineView::dig_tune);
}

pub broadcast proof fn repeats_dig_tune(
    a: EngineView,
    b: EngineView,
    max_freq: HertzU32,
    flags: DigTuneFlags,
)
    requires
        together(a, b),
    ensures
        #![trigger a.dig_tune(max_freq, flags), b.dig_tune(max_freq, flags)]
        alike(a.dig_tune(max_freq, flags), b.dig_tune(max_freq, flags)),
{
    broadcast use {
        crate::replay::control::keeps_save_ensm_state,
        keeps_tune_muted,
        keeps_tune_finish,
        crate::replay::control::repeats_save_ensm_state,
        repeats_tune_muted,
        repeats_tune_finish,
    };

    reveal(EngineView::dig_tune);
}

pub broadcast proof fn keeps_tune_at_start(e: EngineView, flags: DigTuneFlags)
    ensures
        goes_on(e.link, (#[trigger] e.tune_at_start(flags)).e.link),
{
    broadcast use {
        crate::replay::clock_chain::keeps_set_trx_clock_chain,
        crate::replay::control::keeps_ensm_force_state,
        crate::replay::control::keeps_ensm_restore_state,
        keeps_dig_tune,
    };

    reveal(EngineView::tune_at_start);
}

pub broadcast proof fn repeats_tune_at_start(a: EngineView, b: EngineView, flags: DigTuneFlags)
    requires
        together(a, b),
    ensures
        #![trigger a.tune_at_start(flags), b.tune_at_start(flags)]
        alike(a.tune_at_start(flags), b.tune_at_start(flags)),
{
    broadcast use {
        crate::replay::clock_chain::keeps_set_trx_clock_chain,
        crate::replay::control::keeps_ensm_force_state,
        crate::replay::control::keeps_ensm_restore_state,
        keeps_dig_tune,
        crate::replay::clock_chain::repeats_set_trx_clock_chain,
        crate::replay::control::repeats_ensm_force_state,
        crate::replay::control::repeats_ensm_restore_state,
        repeats_dig_tune,
    };

    reveal(EngineView::tune_at_start);
}

pub broadcast proof fn keeps_with_dig_tune_mode(
    e: EngineView,
    mode: DigInterfaceTune,
    flags: DigTuneFlags,
)
    ensures
        goes_on(e.link, (#[trigger] e.with_dig_tune_mode(mode, flags)).e.link),
{
    broadcast use keeps_tune_at_start;

    reveal(EngineView::with_dig_tune_mode);
}

pub broadcast proof fn repeats_with_dig_tune_mode(
    a: EngineView,
    b: EngineView,
    mode: DigInterfaceTune,
    flags: DigTuneFlags,
)
    requires
        together(a, b),
    ensures
        #![trigger a.with_dig_tune_mode(mode, flags), b.with_dig_tune_mode(mode, flags)]
        alike(a.with_dig_tune_mode(mode, flags), b.with_dig_tune_mode(mode, flags)),
{
    broadcast use {
        keeps_tune_at_start,
        repeats_tune_at_start,
    };

    reveal(EngineView::with_dig_tune_mode);
}

pub broadcast proof fn keeps_post_setup(e: EngineView)
    ensures
        goes_on(e.link, (#[trigger] e.post_setup()).e.link),
{
    broadcast use {
        keeps_configure_core,
        keeps_with_dig_tune_mode,
    };

    reveal(EngineView::post_setup);
}

pub broadcast proof fn repeats_post_setup(a: EngineView, b: EngineView)
    requires
        together(a, b),
    ensures
        #![trigger a.post_setup(), b.post_setup()]
        alike(a.post_setup(), b.post_setup()),
{
    broadcast use {
        keeps_configure_core,
        keeps_with_dig_tune_mode,
        repeats_configure_core,
        repeats_with_dig_tune_mode,
    };

    reveal(EngineView::post_setup);
}

} // verus!
