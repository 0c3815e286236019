//! What the operations of [`crate::synth`] leave alone.
use vstd::prelude::*;

use crate::engine::EngineView;
use crate::kept::{calms, leaves, none, same_bandwidths, same_chip, same_los, same_table, Parts};
use crate::synth::RfWords;
use crate::units::{HertzU32, HertzU64};

verus! {

pub broadcast proof fn leaves_program_bbpll(e: EngineView, rate: HertzU32, parent: HertzU32)
    ensures
        #![trigger e.program_bbpll(rate, parent)]
        leaves(e.link, e.program_bbpll(rate, parent).e.link, none()),
        calms(e.link, e.program_bbpll(rate, parent).e.link),
        same_los(e.state.v, e.program_bbpll(rate, parent).e.state.v),
        same_table(e.state.v, e.program_bbpll(rate, parent).e.state.v),
        same_bandwidths(e.state.v, e.program_bbpll(rate, parent).e.state.v),
        same_chip(e, e.program_bbpll(rate, parent).e),
{
    broadcast use {
        crate::kept::leaves_run,
        crate::kept::engine::leaves_poll,
    };

    reveal(EngineView::program_bbpll);
}

pub broadcast proof fn leaves_set_bbpll_rate(e: EngineView, rate: HertzU32)
    ensures
        #![trigger e.set_bbpll_rate(rate)]
        leaves(e.link, e.set_bbpll_rate(rate).e.link, none()),
        calms(e.link, e.set_bbpll_rate(rate).e.link),
        same_los(e.state.v, e.set_bbpll_rate(rate).e.state.v),
        same_table(e.state.v, e.set_bbpll_rate(rate).e.state.v),
        same_bandwidths(e.state.v, e.set_bbpll_rate(rate).e.state.v),
        same_chip(e, e.set_bbpll_rate(rate).e),
{
    broadcast use {
        crate::kept::clocks::leaves_read_bbpll_clock_scaler,
        leaves_program_bbpll,
    };

    reveal(EngineView::set_bbpll_rate);
}

pub broadcast proof fn leaves_txrx_synth_cp_calib(e: EngineView, ref_clk: HertzU32, tx: bool)
    ensures
        #![trigger e.txrx_synth_cp_calib(ref_clk, tx)]
        leaves(e.link, e.txrx_synth_cp_calib(ref_clk, tx).e.link, none()),
        calms(e.link, e.txrx_synth_cp_calib(ref_clk, tx).e.link),
        same_los(e.state.v, e.txrx_synth_cp_calib(ref_clk, tx).e.state.v),
        same_table(e.state.v, e.txrx_synth_cp_calib(ref_clk, tx).e.state.v),
        same_bandwidths(e.state.v, e.txrx_synth_cp_calib(ref_clk, tx).e.state.v),
        same_chip(e, e.txrx_synth_cp_calib(ref_clk, tx).e),
{
    broadcast use {
        crate::kept::leaves_run,
        crate::kept::engine::leaves_poll,
    };

    reveal(EngineView::txrx_synth_cp_calib);
}

pub broadcast proof fn leaves_rfpll_vco_init(
    e: EngineView,
    tx: bool,
    vco_freq: u64,
    ref_clk: HertzU32,
)
    ensures
        #![trigger e.rfpll_vco_init(tx, vco_freq, ref_clk)]
        leaves(e.link, e.rfpll_vco_init(tx, vco_freq, ref_clk).e.link, none()),
        calms(e.link, e.rfpll_vco_init(tx, vco_freq, ref_clk).e.link),
        same_los(e.state.v, e.rfpll_vco_init(tx, vco_freq, ref_clk).e.state.v),
        same_table(e.state.v, e.rfpll_vco_init(tx, vco_freq, ref_clk).e.state.v),
        same_bandwidths(e.state.v, e.rfpll_vco_init(tx, vco_freq, ref_clk).e.state.v),
        same_chip(e, e.rfpll_vco_init(tx, vco_freq, ref_clk).e),
{
    broadcast use crate::kept::leaves_run;

    reveal(EngineView::rfpll_vco_init);
}

pub broadcast proof fn leaves_rfpll_pass(e: EngineView, tx: bool, words: RfWords, parent: HertzU32)
    ensures
        #![trigger e.rfpll_pass(tx, words, parent)]
        leaves(
            e.link,
            e.rfpll_pass(tx, words, parent).e.link,
            Parts { rx_lo: !tx, tx_lo: tx, ..none() },
        ),
        calms(e.link, e.rfpll_pass(tx, words, parent).e.link),
        same_los(e.state.v, e.rfpll_pass(tx, words, parent).e.state.v),
        same_table(e.state.v, e.rfpll_pass(tx, words, parent).e.state.v),
        same_bandwidths(e.state.v, e.rfpll_pass(tx, words, parent).e.state.v),
        same_chip(e, e.rfpll_pass(tx, words, parent).e),
{
    broadcast use {
        crate::kept::leaves_read,
        crate::kept::leaves_run,
        leaves_rfpll_vco_init,
        crate::kept::lemma_fields_apart,
    };

    reveal(EngineView::rfpll_pass);
}

pub broadcast proof fn leaves_rfpll_passes(
    e: EngineView,
    tx: bool,
    words: RfWords,
    parent: HertzU32,
)
    ensures
        #![trigger e.rfpll_passes(tx, words, parent)]
        leaves(
            e.link,
            e.rfpll_passes(tx, words, parent).e.link,
            Parts { rx_lo: true, tx_lo: true, ..none() },
        ),
        calms(e.link, e.rfpll_passes(tx, words, parent).e.link),
        same_los(e.state.v, e.rfpll_passes(tx, words, parent).e.state.v),
        same_table(e.state.v, e.rfpll_passes(tx, words, parent).e.state.v),
        same_bandwidths(e.state.v, e.rfpll_passes(tx, words, parent).e.state.v),
        same_chip(e, e.rfpll_passes(tx, words, parent).e),
{
    broadcast use {
        leaves_rfpll_pass,
        crate::kept::engine::leaves_poll,
    };

    reveal(EngineView::rfpll_passes);
}

pub broadcast proof fn leaves_program_rfpll(e: EngineView, tx: bool, freq: u64, parent: HertzU32)
    ensures
        #![trigger e.program_rfpll(tx, freq, parent)]
        leaves(
            e.link,
            e.program_rfpll(tx, freq, parent).e.link,
            Parts { rx_lo: true, tx_lo: true, ..none() },
        ),
        calms(e.link, e.program_rfpll(tx, freq, parent).e.link),
        same_los(e.state.v, e.program_rfpll(tx, freq, parent).e.state.v),
        same_table(e.state.v, e.program_rfpll(tx, freq, parent).e.state.v),
        same_bandwidths(e.state.v, e.program_rfpll(tx, freq, parent).e.state.v),
        same_chip(e, e.program_rfpll(tx, freq, parent).e),
{
    broadcast use {
        crate::kept::control::leaves_trx_vco_cal_control,
        leaves_rfpll_passes,
    };

    reveal(EngineView::program_rfpll);
}

pub broadcast proof fn leaves_retune_rfpll(
    e: EngineView,
    tx: bool,
    freq: HertzU64,
    parent: HertzU32,
)
    ensures
        #![trigger e.retune_rfpll(tx, freq, parent)]
        leaves(
            e.link,
            e.retune_rfpll(tx, freq, parent).e.link,
            Parts { rx_lo: true, tx_lo: true, table_size: true, ..none() },
        ),
        same_bandwidths(e.state.v, e.retune_rfpll(tx, freq, parent).e.state.v),
        same_chip(e, e.retune_rfpll(tx, freq, parent).e),
{
    broadcast use {
        crate::kept::clocks::leaves_read_rfpll_scaler,
        crate::kept::gain_control::leaves_load_gain_table,
        leaves_program_rfpll,
    };

    reveal(EngineView::retune_rfpll);
}

pub broadcast proof fn leaves_recalibrate_tx(e: EngineView, freq: u64)
    ensures
        #![trigger e.recalibrate_tx(freq)]
        leaves(
            e.link,
            e.recalibrate_tx(freq).e.link,
            Parts { rx_filter: true, tx_filter: true, tracking: true, ..none() },
        ),
        calms(e.link, e.recalibrate_tx(freq).e.link),
        same_los(e.state.v, e.recalibrate_tx(freq).e.state.v),
        same_table(e.state.v, e.recalibrate_tx(freq).e.state.v),
        same_bandwidths(e.state.v, e.recalibrate_tx(freq).e.state.v),
        same_chip(e, e.recalibrate_tx(freq).e),
{
    broadcast use crate::kept::calibration::leaves_tx_quad_calib_run;

    reveal(EngineView::recalibrate_tx);
}

pub broadcast proof fn leaves_set_rfpll_rate(e: EngineView, tx: bool, freq: HertzU64)
    ensures
        #![trigger e.set_rfpll_rate(tx, freq)]
        leaves(
            e.link,
            e.set_rfpll_rate(tx, freq).e.link,
            Parts {
                rx_lo: true,
                tx_lo: true,
                rx_filter: true,
                tx_filter: true,
                tracking: true,
                table_size: true,
                ..none()
            },
        ),
        same_bandwidths(e.state.v, e.set_rfpll_rate(tx, freq).e.state.v),
        same_chip(e, e.set_rfpll_rate(tx, freq).e),
{
    broadcast use {
        leaves_retune_rfpll,
        leaves_recalibrate_tx,
    };

    reveal(EngineView::set_rfpll_rate);
}

} // verus!
