//! Repetition of the operations of [`crate::clocks`].
use vstd::prelude::*;

use crate::clocks::{Ad9361Clock, Ad9361ClockRates, ClockMulDiv};
use crate::engine::EngineView;
use crate::link::goes_on;
use crate::replay::{alike, alike_reply, together};
use crate::units::{HertzU32, U13, U6};

verus! {

pub broadcast proof fn keeps_read_clock_scaler(e: EngineView, clock: Ad9361Clock)
    ensures
        goes_on(e.link, (#[trigger] e.read_clock_scaler(clock)).e.link),
{
    broadcast use crate::replay::engine::keeps_read;

    reveal(EngineView::read_clock_scaler);
}

pub broadcast proof fn repeats_read_clock_scaler(a: EngineView, b: EngineView, clock: Ad9361Clock)
    requires
        together(a, b),
    ensures
        #![trigger a.read_clock_scaler(clock), b.read_clock_scaler(clock)]
        alike_reply(a.read_clock_scaler(clock), b.read_clock_scaler(clock)),
{
    broadcast use {
        crate::replay::engine::keeps_read,
        crate::replay::engine::repeats_read,
    };

    reveal(EngineView::read_clock_scaler);
}

pub broadcast proof fn keeps_note_rate(e: EngineView, rates: Ad9361ClockRates, clock: Ad9361Clock)
    ensures
        goes_on(e.link, (#[trigger] e.note_rate(rates, clock)).e.link),
{
    broadcast use keeps_read_clock_scaler;

    reveal(EngineView::note_rate);
}

pub broadcast proof fn repeats_note_rate(
    a: EngineView,
    b: EngineView,
    rates: Ad9361ClockRates,
    clock: Ad9361Clock,
)
    requires
        together(a, b),
    ensures
        #![trigger a.note_rate(rates, clock), b.note_rate(rates, clock)]
        alike_reply(a.note_rate(rates, clock), b.note_rate(rates, clock)),
{
    broadcast use {
        keeps_read_clock_scaler,
        repeats_read_clock_scaler,
    };

    reveal(EngineView::note_rate);
}

pub broadcast proof fn keeps_read_bbpll_clock_scaler(e: EngineView)
    ensures
        goes_on(e.link, (#[trigger] e.read_bbpll_clock_scaler()).e.link),
{
    broadcast use crate::replay::engine::keeps_exchange;

    reveal(EngineView::read_bbpll_clock_scaler);
}

pub broadcast proof fn repeats_read_bbpll_clock_scaler(a: EngineView, b: EngineView)
    requires
        together(a, b),
    ensures
        #![trigger a.read_bbpll_clock_scaler(), b.read_bbpll_clock_scaler()]
        alike_reply(a.read_bbpll_clock_scaler(), b.read_bbpll_clock_scaler()),
{
    broadcast use {
        crate::replay::engine::keeps_exchange,
        crate::replay::engine::repeats_exchange,
    };

    reveal(EngineView::read_bbpll_clock_scaler);
}

pub broadcast proof fn keeps_note_bbpll(e: EngineView, rates: Ad9361ClockRates)
    ensures
        goes_on(e.link, (#[trigger] e.note_bbpll(rates)).e.link),
{
    broadcast use keeps_read_bbpll_clock_scaler;

    reveal(EngineView::note_bbpll);
}

pub broadcast proof fn repeats_note_bbpll(a: EngineView, b: EngineView, rates: Ad9361ClockRates)
    requires
        together(a, b),
    ensures
        #![trigger a.note_bbpll(rates), b.note_bbpll(rates)]
        alike_reply(a.note_bbpll(rates), b.note_bbpll(rates)),
{
    broadcast use {
        keeps_read_bbpll_clock_scaler,
        repeats_read_bbpll_clock_scaler,
    };

    reveal(EngineView::note_bbpll);
}

pub broadcast proof fn keeps_read_rfpll_scaler(e: EngineView, is_tx: bool)
    ensures
        goes_on(e.link, (#[trigger] e.read_rfpll_scaler(is_tx)).e.link),
{
    broadcast use {
        crate::replay::engine::keeps_exchange,
        crate::replay::engine::keeps_read,
    };

    reveal(EngineView::read_rfpll_scaler);
}

pub broadcast proof fn repeats_read_rfpll_scaler(a: EngineView, b: EngineView, is_tx: bool)
    requires
        together(a, b),
    ensures
        #![trigger a.read_rfpll_scaler(is_tx), b.read_rfpll_scaler(is_tx)]
        alike_reply(a.read_rfpll_scaler(is_tx), b.read_rfpll_scaler(is_tx)),
{
    broadcast use {
        crate::replay::engine::keeps_exchange,
        crate::replay::engine::keeps_read,
        crate::replay::engine::repeats_exchange,
        crate::replay::engine::repeats_read,
    };

    reveal(EngineView::read_rfpll_scaler);
}

pub broadcast proof fn keeps_note_rfpll(e: EngineView, rates: Ad9361ClockRates, is_tx: bool)
    ensures
        goes_on(e.link, (#[trigger] e.note_rfpll(rates, is_tx)).e.link),
{
    broadcast use keeps_read_rfpll_scaler;

    reveal(EngineView::note_rfpll);
}

pub broadcast proof fn repeats_note_rfpll(
    a: EngineView,
    b: EngineView,
    rates: Ad9361ClockRates,
    is_tx: bool,
)
    requires
        together(a, b),
    ensures
        #![trigger a.note_rfpll(rates, is_tx), b.note_rfpll(rates, is_tx)]
        alike_reply(a.note_rfpll(rates, is_tx), b.note_rfpll(rates, is_tx)),
{
    broadcast use {
        keeps_read_rfpll_scaler,
        repeats_read_rfpll_scaler,
    };

    reveal(EngineView::note_rfpll);
}

pub broadcast proof fn keeps_read_clock_rates(e: EngineView)
    ensures
        goes_on(e.link, (#[trigger] e.read_clock_rates()).e.link),
{
    broadcast use {
        keeps_note_rate,
        keeps_note_bbpll,
        keeps_note_rfpll,
    };

    reveal(EngineView::read_clock_rates);
}

pub broadcast proof fn repeats_read_clock_rates(a: EngineView, b: EngineView)
    requires
        together(a, b),
    ensures
        #![trigger a.read_clock_rates(), b.read_clock_rates()]
        alike_reply(a.read_clock_rates(), b.read_clock_rates()),
{
    broadcast use {
        keeps_note_rate,
        keeps_note_bbpll,
        keeps_note_rfpll,
        repeats_note_rate,
        repeats_note_bbpll,
        repeats_note_rfpll,
    };

    reveal(EngineView::read_clock_rates);
}

pub broadcast proof fn keeps_init_clocks(e: EngineView)
    ensures
        goes_on(e.link, (#[trigger] e.init_clocks()).e.link),
{
    broadcast use keeps_read_clock_rates;

    reveal(EngineView::init_clocks);
}

pub broadcast proof fn repeats_init_clocks(a: EngineView, b: EngineView)
    requires
        together(a, b),
    ensures
        #![trigger a.init_clocks(), b.init_clocks()]
        alike(a.init_clocks(), b.init_clocks()),
{
    broadcast use {
        keeps_read_clock_rates,
        repeats_read_clock_rates,
    };

    reveal(EngineView::init_clocks);
}

pub broadcast proof fn keeps_set_clock_scaler(e: EngineView, clock: Ad9361Clock, ratio: ClockMulDiv)
    ensures
        goes_on(e.link, (#[trigger] e.set_clock_scaler(clock, ratio)).e.link),
{
    broadcast use crate::replay::engine::keeps_run;

    reveal(EngineView::set_clock_scaler);
}

pub broadcast proof fn repeats_set_clock_scaler(
    a: EngineView,
    b: EngineView,
    clock: Ad9361Clock,
    ratio: ClockMulDiv,
)
    requires
        together(a, b),
    ensures
        #![trigger a.set_clock_scaler(clock, ratio), b.set_clock_scaler(clock, ratio)]
        alike(a.set_clock_scaler(clock, ratio), b.set_clock_scaler(clock, ratio)),
{
    broadcast use {
        crate::replay::engine::keeps_run,
        crate::replay::engine::repeats_run,
    };

    reveal(EngineView::set_clock_scaler);
}

pub broadcast proof fn keeps_set_clock_rate(e: EngineView, clock: Ad9361Clock, rate: HertzU32)
    ensures
        goes_on(e.link, (#[trigger] e.set_clock_rate(clock, rate)).e.link),
{
    broadcast use {
        keeps_read_clock_scaler,
        keeps_set_clock_scaler,
    };

    reveal(EngineView::set_clock_rate);
}

pub broadcast proof fn repeats_set_clock_rate(
    a: EngineView,
    b: EngineView,
    clock: Ad9361Clock,
    rate: HertzU32,
)
    requires
        together(a, b),
    ensures
        #![trigger a.set_clock_rate(clock, rate), b.set_clock_rate(clock, rate)]
        alike(a.set_clock_rate(clock, rate), b.set_clock_rate(clock, rate)),
{
    broadcast use {
        keeps_read_clock_scaler,
        keeps_set_clock_scaler,
        repeats_read_clock_scaler,
        repeats_set_clock_scaler,
    };

    reveal(EngineView::set_clock_rate);
}

pub broadcast proof fn keeps_set_dcxo_tune(e: EngineView, coarse: U6, fine: U13)
    ensures
        goes_on(e.link, (#[trigger] e.set_dcxo_tune(coarse, fine)).e.link),
{
    broadcast use crate::replay::engine::keeps_run;

    reveal(EngineView::set_dcxo_tune);
}

pub broadcast proof fn repeats_set_dcxo_tune(a: EngineView, b: EngineView, coarse: U6, fine: U13)
    requires
        together(a, b),
    ensures
        #![trigger a.set_dcxo_tune(coarse, fine), b.set_dcxo_tune(coarse, fine)]
        alike(a.set_dcxo_tune(coarse, fine), b.set_dcxo_tune(coarse, fine)),
{
    broadcast use {
        crate::replay::engine::keeps_run,
        crate::replay::engine::repeats_run,
    };

    reveal(EngineView::set_dcxo_tune);
}

} // verus!
