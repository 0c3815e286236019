//! Repetition of the operations of [`crate::synth`].
use vstd::prelude::*;

use crate::engine::EngineView;
use crate::link::goes_on;
use crate::replay::{alike, alike_reply, together};
use crate::synth::RfWords;
use crate::units::{HertzU32, HertzU64};

verus! {

pub broadcast proof fn keeps_program_bbpll(e: EngineView, rate: HertzU32, parent: HertzU32)
    ensures
        goes_on(e.link, (#[trigger] e.program_bbpll(rate, parent)).e.link),
{
    broadcast use {
        crate::replay::engine::keeps_run,
        crate::replay::engine::keeps_poll,
    };

    reveal(EngineView::program_bbpll);
}

pub broadcast proof fn repeats_program_bbpll(
    a: EngineView,
    b: EngineView,
    rate: HertzU32,
    parent: HertzU32,
)
    requires
        together(a, b),
    ensures
        #![trigger a.program_bbpll(rate, parent), b.program_bbpll(rate, parent)]
        alike(a.program_bbpll(rate, parent), b.program_bbpll(rate, parent)),
{
    broadcast use {
        crate::replay::engine::keeps_run,
        crate::replay::engine::keeps_poll,
        crate::replay::engine::repeats_run,
        crate::replay::engine::repeats_poll,
    };

    reveal(EngineView::program_bbpll);
}

pub broadcast proof fn keeps_set_bbpll_rate(e: EngineView, rate: HertzU32)
    ensures
        goes_on(e.link, (#[trigger] e.set_bbpll_rate(rate)).e.link),
{
    broadcast use {
        crate::replay::clocks::keeps_read_bbpll_clock_scaler,
        keeps_program_bbpll,
    };

    reveal(EngineView::set_bbpll_rate);
}

pub broadcast proof fn repeats_set_bbpll_rate(a: EngineView, b: EngineView, rate: HertzU32)
    requires
        together(a, b),
    ensures
        #![trigger a.set_bbpll_rate(rate), b.set_bbpll_rate(rate)]
        alike(a.set_bbpll_rate(rate), b.set_bbpll_rate(rate)),
{
    broadcast use {
        crate::replay::clocks::keeps_read_bbpll_clock_scaler,
        keeps_program_bbpll,
        crate::replay::clocks::repeats_read_bbpll_clock_scaler,
        repeats_program_bbpll,
    };

    reveal(EngineView::set_bbpll_rate);
}

pub broadcast proof fn keeps_txrx_synth_cp_calib(e: EngineView, ref_clk: HertzU32, tx: bool)
    ensures
        goes_on(e.link, (#[trigger] e.txrx_synth_cp_calib(ref_clk, tx)).e.link),
{
    broadcast use {
        crate::replay::engine::keeps_run,
        crate::replay::engine::keeps_poll,
    };

    reveal(EngineView::txrx_synth_cp_calib);
}

pub broadcast proof fn repeats_txrx_synth_cp_calib(
    a: EngineView,
    b: EngineView,
    ref_clk: HertzU32,
    tx: bool,
)
    requires
        together(a, b),
    ensures
        #![trigger a.txrx_synth_cp_calib(ref_clk, tx), b.txrx_synth_cp_calib(ref_clk, tx)]
        alike(a.txrx_synth_cp_calib(ref_clk, tx), b.txrx_synth_cp_calib(ref_clk, tx)),
{
    broadcast use {
        crate::replay::engine::keeps_run,
        crate::replay::engine::keeps_poll,
        crate::replay::engine::repeats_run,
        crate::replay::engine::repeats_poll,
    };

    reveal(EngineView::txrx_synth_cp_calib);
}

pub broadcast proof fn keeps_rfpll_vco_init(
    e: EngineView,
    tx: bool,
    vco_freq: u64,
    ref_clk: HertzU32,
)
    ensures
        goes_on(e.link, (#[trigger] e.rfpll_vco_init(tx, vco_freq, ref_clk)).e.link),
{
    broadcast use crate::replay::engine::keeps_run;

    reveal(EngineView::rfpll_vco_init);
}

pub broadcast proof fn repeats_rfpll_vco_init(
    a: EngineView,
    b: EngineView,
    tx: bool,
    vco_freq: u64,
    ref_clk: HertzU32,
)
    requires
        together(a, b),
    ensures
        #![trigger a.rfpll_vco_init(tx, vco_freq, ref_clk), b.rfpll_vco_init(tx, vco_freq, ref_clk)]
        alike(a.rfpll_vco_init(tx, vco_freq, ref_clk), b.rfpll_vco_init(tx, vco_freq, ref_clk)),
{
    broadcast use {
        crate::replay::engine::keeps_run,
        crate::replay::engine::repeats_run,
    };

    reveal(EngineView::rfpll_vco_init);
}

pub broadcast proof fn keeps_rfpll_pass(e: EngineView, tx: bool, words: RfWords, parent: HertzU32)
    ensures
        goes_on(e.link, (#[trigger] e.rfpll_pass(tx, words, parent)).e.link),
{
    broadcast use {
        crate::replay::engine::keeps_read,
        crate::replay::engine::keeps_run,
        keeps_rfpll_vco_init,
    };

    reveal(EngineView::rfpll_pass);
}

pub broadcast proof fn repeats_rfpll_pass(
    a: EngineView,
    b: EngineView,
    tx: bool,
    words: RfWords,
    parent: HertzU32,
)
    requires
        together(a, b),
    ensures
        #![trigger a.rfpll_pass(tx, words, parent), b.rfpll_pass(tx, words, parent)]
        alike(a.rfpll_pass(tx, words, parent), b.rfpll_pass(tx, words, parent)),
{
    broadcast use {
        crate::replay::engine::keeps_read,
        crate::replay::engine::keeps_run,
        keeps_rfpll_vco_init,
        crate::replay::engine::repeats_read,
        crate::replay::engine::repeats_run,
        repeats_rfpll_vco_init,
    };

    reveal(EngineView::rfpll_pass);
}

pub broadcast proof fn keeps_rfpll_passes(e: EngineView, tx: bool, words: RfWords, parent: HertzU32)
    ensures
        goes_on(e.link, (#[trigger] e.rfpll_passes(tx, words, parent)).e.link),
{
    broadcast use {
        keeps_rfpll_pass,
        crate::replay::engine::keeps_poll,
    };

    reveal(EngineView::rfpll_passes);
}

pub broadcast proof fn repeats_rfpll_passes(
    a: EngineView,
    b: EngineView,
    tx: bool,
    words: RfWords,
    parent: HertzU32,
)
    requires
        together(a, b),
    ensures
        #![trigger a.rfpll_passes(tx, words, parent), b.rfpll_passes(tx, words, parent)]
        alike_reply(a.rfpll_passes(tx, words, parent), b.rfpll_passes(tx, words, parent)),
{
    broadcast use {
        keeps_rfpll_pass,
        crate::replay::engine::keeps_poll,
        repeats_rfpll_pass,
        crate::replay::engine::repeats_poll,
    };

    reveal(EngineView::rfpll_passes);
}

pub broadcast proof fn keeps_program_rfpll(e: EngineView, tx: bool, freq: u64, parent: HertzU32)
    ensures
        goes_on(e.link, (#[trigger] e.program_rfpll(tx, freq, parent)).e.link),
{
    broadcast use {
        crate::replay::control::keeps_trx_vco_cal_control,
        keeps_rfpll_passes,
    };

    reveal(EngineView::program_rfpll);
}

pub broadcast proof fn repeats_program_rfpll(
    a: EngineView,
    b: EngineView,
    tx: bool,
    freq: u64,
    parent: HertzU32,
)
    requires
        together(a, b),
    ensures
        #![trigger a.program_rfpll(tx, freq, parent), b.program_rfpll(tx, freq, parent)]
        alike(a.program_rfpll(tx, freq, parent), b.program_rfpll(tx, freq, parent)),
{
    broadcast use {
        crate::replay::control::keeps_trx_vco_cal_control,
        keeps_rfpll_passes,
        crate::replay::control::repeats_trx_vco_cal_control,
        repeats_rfpll_passes,
    };

    reveal(EngineView::program_rfpll);
}

pub broadcast proof fn keeps_retune_rfpll(e: EngineView, tx: bool, freq: HertzU64, parent: HertzU32)
    ensures
        goes_on(e.link, (#[trigger] e.retune_rfpll(tx, freq, parent)).e.link),
{
    broadcast use {
        crate::replay::clocks::keeps_read_rfpll_scaler,
        crate::replay::gain_control::keeps_load_gain_table,
        keeps_program_rfpll,
    };

    reveal(EngineView::retune_rfpll);
}

pub broadcast proof fn repeats_retune_rfpll(
    a: EngineView,
    b: EngineView,
    tx: bool,
    freq: HertzU64,
    parent: HertzU32,
)
    requires
        together(a, b),
    ensures
        #![trigger a.retune_rfpll(tx, freq, parent), b.retune_rfpll(tx, freq, parent)]
        alike(a.retune_rfpll(tx, freq, parent), b.retune_rfpll(tx, freq, parent)),
{
    broadcast use {
        crate::replay::clocks::keeps_read_rfpll_scaler,
        crate::replay::gain_control::keeps_load_gain_table,
        keeps_program_rfpll,
        crate::replay::clocks::repeats_read_rfpll_scaler,
        crate::replay::gain_control::repeats_load_gain_table,
        repeats_program_rfpll,
    };

    reveal(EngineView::retune_rfpll);
}

pub broadcast proof fn keeps_recalibrate_tx(e: EngineView, freq: u64)
    ensures
        goes_on(e.link, (#[trigger] e.recalibrate_tx(freq)).e.link),
{
    broadcast use crate::replay::calibration::keeps_tx_quad_calib_run;

    reveal(EngineView::recalibrate_tx);
}

pub broadcast proof fn repeats_recalibrate_tx(a: EngineView, b: EngineView, freq: u64)
    requires
        together(a, b),
    ensures
        #![trigger a.recalibrate_tx(freq), b.recalibrate_tx(freq)]
        alike(a.recalibrate_tx(freq), b.recalibrate_tx(freq)),
{
    broadcast use {
        crate::replay::calibration::keeps_tx_quad_calib_run,
        crate::replay::calibration::repeats_tx_quad_calib_run,
    };

    reveal(EngineView::recalibrate_tx);
}

pub broadcast proof fn keeps_set_rfpll_rate(e: EngineView, tx: bool, freq: HertzU64)
    ensures
        goes_on(e.link, (#[trigger] e.set_rfpll_rate(tx, freq)).e.link),
{
    broadcast use {
        keeps_retune_rfpll,
        keeps_recalibrate_tx,
    };

    reveal(EngineView::set_rfpll_rate);
}

pub broadcast proof fn repeats_set_rfpll_rate(
    a: EngineView,
    b: EngineView,
    tx: bool,
    freq: HertzU64,
)
    requires
        together(a, b),
    ensures
        #![trigger a.set_rfpll_rate(tx, freq), b.set_rfpll_rate(tx, freq)]
        alike(a.set_rfpll_rate(tx, freq), b.set_rfpll_rate(tx, freq)),
{
    broadcast use {
        keeps_retune_rfpll,
        keeps_recalibrate_tx,
        repeats_retune_rfpll,
        repeats_recalibrate_tx,
    };

    reveal(EngineView::set_rfpll_rate);
}

} // verus!
