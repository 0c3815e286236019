//! What the operations of [`crate::clocks`] leave alone.
use vstd::prelude::*;

use crate::clocks::{Ad9361Clock, Ad9361ClockRates, ClockMulDiv};
use crate::engine::EngineView;
use crate::kept::{calms, leaves, none, same_bandwidths, same_chip, same_los, same_table, Parts};
use crate::units::{HertzU32, U13, U6};

verus! {

pub broadcast proof fn leaves_read_clock_scaler(e: EngineView, clock: Ad9361Clock)
    ensures
        #![trigger e.read_clock_scaler(clock)]
        leaves(e.link, e.read_clock_scaler(clock).e.link, none()),
        calms(e.link, e.read_clock_scaler(clock).e.link),
        same_los(e.state.v, e.read_clock_scaler(clock).e.state.v),
        same_table(e.state.v, e.read_clock_scaler(clock).e.state.v),
        same_bandwidths(e.state.v, e.read_clock_scaler(clock).e.state.v),
        same_chip(e, e.read_clock_scaler(clock).e),
{
    broadcast use crate::kept::leaves_read;

    reveal(EngineView::read_clock_scaler);
}

pub broadcast proof fn leaves_note_rate(e: EngineView, rates: Ad9361ClockRates, clock: Ad9361Clock)
    ensures
        #![trigger e.note_rate(rates, clock)]
        leaves(e.link, e.note_rate(rates, clock).e.link, none()),
        calms(e.link, e.note_rate(rates, clock).e.link),
        same_los(e.state.v, e.note_rate(rates, clock).e.state.v),
        same_table(e.state.v, e.note_rate(rates, clock).e.state.v),
        same_bandwidths(e.state.v, e.note_rate(rates, clock).e.state.v),
        same_chip(e, e.note_rate(rates, clock).e),
{
    broadcast use leaves_read_clock_scaler;

    reveal(EngineView::note_rate);
}

pub broadcast proof fn leaves_read_bbpll_clock_scaler(e: EngineView)
    ensures
        #![trigger e.read_bbpll_clock_scaler()]
        leaves(e.link, e.read_bbpll_clock_scaler().e.link, none()),
        calms(e.link, e.read_bbpll_clock_scaler().e.link),
        same_los(e.state.v, e.read_bbpll_clock_scaler().e.state.v),
        same_table(e.state.v, e.read_bbpll_clock_scaler().e.state.v),
        same_bandwidths(e.state.v, e.read_bbpll_clock_scaler().e.state.v),
        same_chip(e, e.read_bbpll_clock_scaler().e),
{
    broadcast use crate::kept::leaves_exchange;

    reveal(EngineView::read_bbpll_clock_scaler);
}

pub broadcast proof fn leaves_note_bbpll(e: EngineView, rates: Ad9361ClockRates)
    ensures
        #![trigger e.note_bbpll(rates)]
        leaves(e.link, e.note_bbpll(rates).e.link, none()),
        calms(e.link, e.note_bbpll(rates).e.link),
        same_los(e.state.v, e.note_bbpll(rates).e.state.v),
        same_table(e.state.v, e.note_bbpll(rates).e.state.v),
        same_bandwidths(e.state.v, e.note_bbpll(rates).e.state.v),
        same_chip(e, e.note_bbpll(rates).e),
{
    broadcast use leaves_read_bbpll_clock_scaler;

    reveal(EngineView::note_bbpll);
}

pub broadcast proof fn leaves_read_rfpll_scaler(e: EngineView, is_tx: bool)
    ensures
        #![trigger e.read_rfpll_scaler(is_tx)]
        leaves(e.link, e.read_rfpll_scaler(is_tx).e.link, none()),
        calms(e.link, e.read_rfpll_scaler(is_tx).e.link),
        same_los(e.state.v, e.read_rfpll_scaler(is_tx).e.state.v),
        same_table(e.state.v, e.read_rfpll_scaler(is_tx).e.state.v),
        same_bandwidths(e.state.v, e.read_rfpll_scaler(is_tx).e.state.v),
        same_chip(e, e.read_rfpll_scaler(is_tx).e),
{
    broadcast use {
        crate::kept::leaves_exchange,
        crate::kept::leaves_read,
    };

    reveal(EngineView::read_rfpll_scaler);
}

pub broadcast proof fn leaves_note_rfpll(e: EngineView, rates: Ad9361ClockRates, is_tx: bool)
    ensures
        #![trigger e.note_rfpll(rates, is_tx)]
        leaves(e.link, e.note_rfpll(rates, is_tx).e.link, none()),
        calms(e.link, e.note_rfpll(rates, is_tx).e.link),
        same_los(e.state.v, e.note_rfpll(rates, is_tx).e.state.v),
        same_table(e.state.v, e.note_rfpll(rates, is_tx).e.state.v),
        same_bandwidths(e.state.v, e.note_rfpll(rates, is_tx).e.state.v),
        same_chip(e, e.note_rfpll(rates, is_tx).e),
{
    broadcast use leaves_read_rfpll_scaler;

    reveal(EngineView::note_rfpll);
}

pub broadcast proof fn leaves_read_clock_rates(e: EngineView)
    ensures
        #![trigger e.read_clock_rates()]
        leaves(e.link, e.read_clock_rates().e.link, none()),
        calms(e.link, e.read_clock_rates().e.link),
        same_los(e.state.v, e.read_clock_rates().e.state.v),
        same_table(e.state.v, e.read_clock_rates().e.state.v),
        same_bandwidths(e.state.v, e.read_clock_rates().e.state.v),
        same_chip(e, e.read_clock_rates().e),
{
    broadcast use {
        leaves_note_rate,
        leaves_note_bbpll,
        leaves_note_rfpll,
    };

    reveal(EngineView::read_clock_rates);
}

pub broadcast proof fn leaves_init_clocks(e: EngineView)
    ensures
        #![trigger e.init_clocks()]
        leaves(e.link, e.init_clocks().e.link, none()),
        calms(e.link, e.init_clocks().e.link),
        same_table(e.state.v, e.init_clocks().e.state.v),
        same_bandwidths(e.state.v, e.init_clocks().e.state.v),
        same_chip(e, e.init_clocks().e),
{
    broadcast use leaves_read_clock_rates;

    reveal(EngineView::init_clocks);
}

pub broadcast proof fn leaves_set_clock_scaler(
    e: EngineView,
    clock: Ad9361Clock,
    ratio: ClockMulDiv,
)
    ensures
        #![trigger e.set_clock_scaler(clock, ratio)]
        leaves(
            e.link,
            e.set_clock_scaler(clock, ratio).e.link,
            Parts {
                rx_fir: clock == Ad9361Clock::RxSampl,
                tx_fir: clock == Ad9361Clock::TxSampl,
                ..none()
            },
        ),
        calms(e.link, e.set_clock_scaler(clock, ratio).e.link),
        same_los(e.state.v, e.set_clock_scaler(clock, ratio).e.state.v),
        same_table(e.state.v, e.set_clock_scaler(clock, ratio).e.state.v),
        same_bandwidths(e.state.v, e.set_clock_scaler(clock, ratio).e.state.v),
        same_chip(e, e.set_clock_scaler(clock, ratio).e),
{
    broadcast use {
        crate::kept::leaves_run,
        crate::kept::lemma_fields_apart,
    };

    reveal(EngineView::set_clock_scaler);
}

pub broadcast proof fn leaves_set_clock_rate(e: EngineView, clock: Ad9361Clock, rate: HertzU32)
    ensures
        #![trigger e.set_clock_rate(clock, rate)]
        leaves(
            e.link,
            e.set_clock_rate(clock, rate).e.link,
            Parts {
                rx_fir: clock == Ad9361Clock::RxSampl,
                tx_fir: clock == Ad9361Clock::TxSampl,
                ..none()
            },
        ),
        calms(e.link, e.set_clock_rate(clock, rate).e.link),
        same_los(e.state.v, e.set_clock_rate(clock, rate).e.state.v),
        same_table(e.state.v, e.set_clock_rate(clock, rate).e.state.v),
        same_bandwidths(e.state.v, e.set_clock_rate(clock, rate).e.state.v),
        same_chip(e, e.set_clock_rate(clock, rate).e),
{
    broadcast use {
        leaves_read_clock_scaler,
        leaves_set_clock_scaler,
    };

    reveal(EngineView::set_clock_rate);
}

pub broadcast proof fn leaves_set_dcxo_tune(e: EngineView, coarse: U6, fine: U13)
    ensures
        #![trigger e.set_dcxo_tune(coarse, fine)]
        leaves(e.link, e.set_dcxo_tune(coarse, fine).e.link, Parts { dcxo: true, ..none() }),
        calms(e.link, e.set_dcxo_tune(coarse, fine).e.link),
        same_los(e.state.v, e.set_dcxo_tune(coarse, fine).e.state.v),
        same_table(e.state.v, e.set_dcxo_tune(coarse, fine).e.state.v),
        same_bandwidths(e.state.v, e.set_dcxo_tune(coarse, fine).e.state.v),
        same_chip(e, e.set_dcxo_tune(coarse, fine).e),
{
    broadcast use crate::kept::leaves_run;

    reveal(EngineView::set_dcxo_tune);
}

} // verus!
