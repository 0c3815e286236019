//! What the operations of [`crate::clock_chain`] leave alone.
use vstd::prelude::*;

use crate::clock_chain::PathClocks;
use crate::engine::EngineView;
use crate::kept::{calms, leaves, none, same_bandwidths, same_chip, same_los, same_table, Parts};
use crate::units::HertzU32;

verus! {

pub broadcast proof fn leaves_set_path_rates(e: EngineView, rx: PathClocks, tx: PathClocks)
    ensures
        #![trigger e.set_path_rates(rx, tx)]
        leaves(
            e.link,
            e.set_path_rates(rx, tx).e.link,
            Parts { rx_fir: true, tx_fir: true, ..none() },
        ),
        calms(e.link, e.set_path_rates(rx, tx).e.link),
        same_los(e.state.v, e.set_path_rates(rx, tx).e.state.v),
        same_table(e.state.v, e.set_path_rates(rx, tx).e.state.v),
        same_bandwidths(e.state.v, e.set_path_rates(rx, tx).e.state.v),
        same_chip(e, e.set_path_rates(rx, tx).e),
{
    broadcast use crate::kept::clocks::leaves_set_clock_rate;

    reveal(EngineView::set_path_rates);
}

pub broadcast proof fn leaves_refresh_unit_firs(e: EngineView)
    ensures
        #![trigger e.refresh_unit_firs()]
        leaves(
            e.link,
            e.refresh_unit_firs().e.link,
            Parts { rx_fir: true, tx_fir: true, ..none() },
        ),
        calms(e.link, e.refresh_unit_firs().e.link),
        same_los(e.state.v, e.refresh_unit_firs().e.state.v),
        same_table(e.state.v, e.refresh_unit_firs().e.state.v),
        same_bandwidths(e.state.v, e.refresh_unit_firs().e.state.v),
        same_chip(e, e.refresh_unit_firs().e),
{
    broadcast use {
        crate::kept::leaves_run,
        crate::kept::lemma_fields_apart,
    };

    reveal(EngineView::refresh_unit_firs);
}

pub broadcast proof fn leaves_apply_trx_clock_chain(e: EngineView, rx: PathClocks, tx: PathClocks)
    ensures
        #![trigger e.apply_trx_clock_chain(rx, tx)]
        leaves(
            e.link,
            e.apply_trx_clock_chain(rx, tx).e.link,
            Parts { rx_fir: true, tx_fir: true, ..none() },
        ),
        calms(e.link, e.apply_trx_clock_chain(rx, tx).e.link),
        same_los(e.state.v, e.apply_trx_clock_chain(rx, tx).e.state.v),
        same_table(e.state.v, e.apply_trx_clock_chain(rx, tx).e.state.v),
        same_bandwidths(e.state.v, e.apply_trx_clock_chain(rx, tx).e.state.v),
        same_chip(e, e.apply_trx_clock_chain(rx, tx).e),
{
    broadcast use {
        leaves_set_path_rates,
        leaves_refresh_unit_firs,
        crate::kept::synth::leaves_set_bbpll_rate,
    };

    reveal(EngineView::apply_trx_clock_chain);
}

pub broadcast proof fn leaves_bb_clk_update(e: EngineView)
    ensures
        #![trigger e.bb_clk_update()]
        leaves(e.link, e.bb_clk_update().e.link, none()),
        calms(e.link, e.bb_clk_update().e.link),
        same_los(e.state.v, e.bb_clk_update().e.state.v),
        same_table(e.state.v, e.bb_clk_update().e.state.v),
        same_bandwidths(e.state.v, e.bb_clk_update().e.state.v),
        same_chip(e, e.bb_clk_update().e),
{
    broadcast use {
        crate::kept::gain_control::leaves_gc_update,
        crate::kept::monitor::leaves_rssi_setup,
        crate::kept::ports::leaves_auxadc_setup,
    };

    reveal(EngineView::bb_clk_update);
}

pub broadcast proof fn leaves_set_trx_clock_chain_freq_no_tune(e: EngineView, freq: HertzU32)
    ensures
        #![trigger e.set_trx_clock_chain_freq_no_tune(freq)]
        leaves(
            e.link,
            e.set_trx_clock_chain_freq_no_tune(freq).e.link,
            Parts { rx_fir: true, tx_fir: true, ..none() },
        ),
        calms(e.link, e.set_trx_clock_chain_freq_no_tune(freq).e.link),
        same_los(e.state.v, e.set_trx_clock_chain_freq_no_tune(freq).e.state.v),
        same_table(e.state.v, e.set_trx_clock_chain_freq_no_tune(freq).e.state.v),
        same_bandwidths(e.state.v, e.set_trx_clock_chain_freq_no_tune(freq).e.state.v),
        same_chip(e, e.set_trx_clock_chain_freq_no_tune(freq).e),
{
    broadcast use {
        leaves_apply_trx_clock_chain,
        leaves_bb_clk_update,
    };

    reveal(EngineView::set_trx_clock_chain_freq_no_tune);
}

pub broadcast proof fn leaves_bb_clk_change_handler(e: EngineView)
    ensures
        #![trigger e.bb_clk_change_handler()]
        leaves(
            e.link,
            e.bb_clk_change_handler().e.link,
            Parts { attenuation: true, channels: true, ..none() },
        ),
        calms(e.link, e.bb_clk_change_handler().e.link),
        same_los(e.state.v, e.bb_clk_change_handler().e.state.v),
        same_table(e.state.v, e.bb_clk_change_handler().e.state.v),
        same_bandwidths(e.state.v, e.bb_clk_change_handler().e.state.v),
        same_chip(e, e.bb_clk_change_handler().e),
{
    broadcast use {
        leaves_bb_clk_update,
        crate::kept::dig_tune::leaves_dig_tune,
    };

    reveal(EngineView::bb_clk_change_handler);
}

pub broadcast proof fn leaves_set_trx_clock_chain(e: EngineView, rx: PathClocks, tx: PathClocks)
    ensures
        #![trigger e.set_trx_clock_chain(rx, tx)]
        leaves(
            e.link,
            e.set_trx_clock_chain(rx, tx).e.link,
            Parts { rx_fir: true, tx_fir: true, attenuation: true, channels: true, ..none() },
        ),
        calms(e.link, e.set_trx_clock_chain(rx, tx).e.link),
        same_los(e.state.v, e.set_trx_clock_chain(rx, tx).e.state.v),
        same_table(e.state.v, e.set_trx_clock_chain(rx, tx).e.state.v),
        same_bandwidths(e.state.v, e.set_trx_clock_chain(rx, tx).e.state.v),
        same_chip(e, e.set_trx_clock_chain(rx, tx).e),
{
    broadcast use {
        leaves_apply_trx_clock_chain,
        leaves_bb_clk_change_handler,
        crate::kept::dig_tune::leaves_dig_tune,
    };

    reveal(EngineView::set_trx_clock_chain);
}

pub broadcast proof fn leaves_set_trx_clock_chain_freq(e: EngineView, freq: HertzU32)
    ensures
        #![trigger e.set_trx_clock_chain_freq(freq)]
        leaves(
            e.link,
            e.set_trx_clock_chain_freq(freq).e.link,
            Parts { rx_fir: true, tx_fir: true, attenuation: true, channels: true, ..none() },
        ),
        calms(e.link, e.set_trx_clock_chain_freq(freq).e.link),
        same_los(e.state.v, e.set_trx_clock_chain_freq(freq).e.state.v),
        same_table(e.state.v, e.set_trx_clock_chain_freq(freq).e.state.v),
        same_bandwidths(e.state.v, e.set_trx_clock_chain_freq(freq).e.state.v),
        same_chip(e, e.set_trx_clock_chain_freq(freq).e),
{
    broadcast use leaves_set_trx_clock_chain;

    reveal(EngineView::set_trx_clock_chain_freq);
}

} // verus!
