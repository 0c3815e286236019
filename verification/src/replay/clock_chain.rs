//! Repetition of the operations of [`crate::clock_chain`].
use vstd::prelude::*;

use crate::clock_chain::PathClocks;
use crate::engine::EngineView;
use crate::link::goes_on;
use crate::replay::{alike, together};
use crate::units::HertzU32;

verus! {

pub broadcast proof fn keeps_set_path_rates(e: EngineView, rx: PathClocks, tx: PathClocks)
    ensures
        goes_on(e.link, (#[trigger] e.set_path_rates(rx, tx)).e.link),
{
    broadcast use crate::replay::clocks::keeps_set_clock_rate;

    reveal(EngineView::set_path_rates);
}

pub broadcast proof fn repeats_set_path_rates(
    a: EngineView,
    b: EngineView,
    rx: PathClocks,
    tx: PathClocks,
)
    requires
        together(a, b),
    ensures
        #![trigger a.set_path_rates(rx, tx), b.set_path_rates(rx, tx)]
        alike(a.set_path_rates(rx, tx), b.set_path_rates(rx, tx)),
{
    broadcast use {
        crate::replay::clocks::keeps_set_clock_rate,
        crate::replay::clocks::repeats_set_clock_rate,
    };

    reveal(EngineView::set_path_rates);
}

pub broadcast proof fn keeps_refresh_unit_firs(e: EngineView)
    ensures
        goes_on(e.link, (#[trigger] e.refresh_unit_firs()).e.link),
{
    broadcast use crate::replay::engine::keeps_run;

    reveal(EngineView::refresh_unit_firs);
}

pub broadcast proof fn repeats_refresh_unit_firs(a: EngineView, b: EngineView)
    requires
        together(a, b),
    ensures
        #![trigger a.refresh_unit_firs(), b.refresh_unit_firs()]
        alike(a.refresh_unit_firs(), b.refresh_unit_firs()),
{
    broadcast use {
        crate::replay::engine::keeps_run,
        crate::replay::engine::repeats_run,
    };

    reveal(EngineView::refresh_unit_firs);
}

pub broadcast proof fn keeps_apply_trx_clock_chain(e: EngineView, rx: PathClocks, tx: PathClocks)
    ensures
        goes_on(e.link, (#[trigger] e.apply_trx_clock_chain(rx, tx)).e.link),
{
    broadcast use {
        keeps_set_path_rates,
        keeps_refresh_unit_firs,
        crate::replay::synth::keeps_set_bbpll_rate,
    };

    reveal(EngineView::apply_trx_clock_chain);
}

pub broadcast proof fn repeats_apply_trx_clock_chain(
    a: EngineView,
    b: EngineView,
    rx: PathClocks,
    tx: PathClocks,
)
    requires
        together(a, b),
    ensures
        #![trigger a.apply_trx_clock_chain(rx, tx), b.apply_trx_clock_chain(rx, tx)]
        alike(a.apply_trx_clock_chain(rx, tx), b.apply_trx_clock_chain(rx, tx)),
{
    broadcast use {
        keeps_set_path_rates,
        keeps_refresh_unit_firs,
        crate::replay::synth::keeps_set_bbpll_rate,
        repeats_set_path_rates,
        repeats_refresh_unit_firs,
        crate::replay::synth::repeats_set_bbpll_rate,
    };

    reveal(EngineView::apply_trx_clock_chain);
}

pub broadcast proof fn keeps_bb_clk_update(e: EngineView)
    ensures
        goes_on(e.link, (#[trigger] e.bb_clk_update()).e.link),
{
    broadcast use {
        crate::replay::gain_control::keeps_gc_update,
        crate::replay::monitor::keeps_rssi_setup,
        crate::replay::ports::keeps_auxadc_setup,
    };

    reveal(EngineView::bb_clk_update);
}

pub broadcast proof fn repeats_bb_clk_update(a: EngineView, b: EngineView)
    requires
        together(a, b),
    ensures
        #![trigger a.bb_clk_update(), b.bb_clk_update()]
        alike(a.bb_clk_update(), b.bb_clk_update()),
{
    broadcast use {
        crate::replay::gain_control::keeps_gc_update,
        crate::replay::monitor::keeps_rssi_setup,
        crate::replay::ports::keeps_auxadc_setup,
        crate::replay::gain_control::repeats_gc_update,
        crate::replay::monitor::repeats_rssi_setup,
        crate::replay::ports::repeats_auxadc_setup,
    };

    reveal(EngineView::bb_clk_update);
}

pub broadcast proof fn keeps_set_trx_clock_chain_freq_no_tune(e: EngineView, freq: HertzU32)
    ensures
        goes_on(e.link, (#[trigger] e.set_trx_clock_chain_freq_no_tune(freq)).e.link),
{
    broadcast use {
        keeps_apply_trx_clock_chain,
        keeps_bb_clk_update,
    };

    reveal(EngineView::set_trx_clock_chain_freq_no_tune);
}

pub broadcast proof fn repeats_set_trx_clock_chain_freq_no_tune(
    a: EngineView,
    b: EngineView,
    freq: HertzU32,
)
    requires
        together(a, b),
    ensures
        #![trigger a.set_trx_clock_chain_freq_no_tune(freq),
            b.set_trx_clock_chain_freq_no_tune(freq)]
        alike(a.set_trx_clock_chain_freq_no_tune(freq), b.set_trx_clock_chain_freq_no_tune(freq)),
{
    broadcast use {
        keeps_apply_trx_clock_chain,
        keeps_bb_clk_update,
        repeats_apply_trx_clock_chain,
        repeats_bb_clk_update,
    };

    reveal(EngineView::set_trx_clock_chain_freq_no_tune);
}

pub broadcast proof fn keeps_bb_clk_change_handler(e: EngineView)
    ensures
        goes_on(e.link, (#[trigger] e.bb_clk_change_handler()).e.link),
{
    broadcast use {
        keeps_bb_clk_update,
        crate::replay::dig_tune::keeps_dig_tune,
    };

    reveal(EngineView::bb_clk_change_handler);
}

pub broadcast proof fn repeats_bb_clk_change_handler(a: EngineView, b: EngineView)
    requires
        together(a, b),
    ensures
        #![trigger a.bb_clk_change_handler(), b.bb_clk_change_handler()]
        alike(a.bb_clk_change_handler(), b.bb_clk_change_handler()),
{
    broadcast use {
        keeps_bb_clk_update,
        crate::replay::dig_tune::keeps_dig_tune,
        repeats_bb_clk_update,
        crate::replay::dig_tune::repeats_dig_tune,
    };

    reveal(EngineView::bb_clk_change_handler);
}

pub broadcast proof fn keeps_set_trx_clock_chain(e: EngineView, rx: PathClocks, tx: PathClocks)
    ensures
        goes_on(e.link, (#[trigger] e.set_trx_clock_chain(rx, tx)).e.link),
{
    broadcast use {
        keeps_apply_trx_clock_chain,
        keeps_bb_clk_change_handler,
        crate::replay::dig_tune::keeps_dig_tune,
    };

    reveal(EngineView::set_trx_clock_chain);
}

pub broadcast proof fn repeats_set_trx_clock_chain(
    a: EngineView,
    b: EngineView,
    rx: PathClocks,
    tx: PathClocks,
)
    requires
        together(a, b),
    ensures
        #![trigger a.set_trx_clock_chain(rx, tx), b.set_trx_clock_chain(rx, tx)]
        alike(a.set_trx_clock_chain(rx, tx), b.set_trx_clock_chain(rx, tx)),
{
    broadcast use {
        keeps_apply_trx_clock_chain,
        keeps_bb_clk_change_handler,
        crate::replay::dig_tune::keeps_dig_tune,
        repeats_apply_trx_clock_chain,
        repeats_bb_clk_change_handler,
        crate::replay::dig_tune::repeats_dig_tune,
    };

    reveal(EngineView::set_trx_clock_chain);
}

pub broadcast proof fn keeps_set_trx_clock_chain_freq(e: EngineView, freq: HertzU32)
    ensures
        goes_on(e.link, (#[trigger] e.set_trx_clock_chain_freq(freq)).e.link),
{
    broadcast use keeps_set_trx_clock_chain;

    reveal(EngineView::set_trx_clock_chain_freq);
}

pub broadcast proof fn repeats_set_trx_clock_chain_freq(
    a: EngineView,
    b: EngineView,
    freq: HertzU32,
)
    requires
        together(a, b),
    ensures
        #![trigger a.set_trx_clock_chain_freq(freq), b.set_trx_clock_chain_freq(freq)]
        alike(a.set_trx_clock_chain_freq(freq), b.set_trx_clock_chain_freq(freq)),
{
    broadcast use {
        keeps_set_trx_clock_chain,
        repeats_set_trx_clock_chain,
    };

    reveal(EngineView::set_trx_clock_chain_freq);
}

} // verus!
