//! Repetition of the operations of [`crate::control`].
use vstd::prelude::*;

use crate::control::{ClkoutMode, ForcedEnsmState, RequestedEnsmState, SavedEnsmState};
use crate::engine::EngineView;
use crate::link::{goes_on, wait};
use crate::replay::{alike, alike_reply, together};
use crate::units::TxAttenuation;

verus! {

pub broadcast proof fn keeps_ensm_state(e: EngineView)
    ensures
        goes_on(e.link, (#[trigger] e.ensm_state()).e.link),
{
    broadcast use crate::replay::engine::keeps_read;

    reveal(EngineView::ensm_state);
}

pub broadcast proof fn repeats_ensm_state(a: EngineView, b: EngineView)
    requires
        together(a, b),
    ensures
        #![trigger a.ensm_state(), b.ensm_state()]
        alike_reply(a.ensm_state(), b.ensm_state()),
{
    broadcast use {
        crate::replay::engine::keeps_read,
        crate::replay::engine::repeats_read,
    };

    reveal(EngineView::ensm_state);
}

pub broadcast proof fn keeps_ensm_settle(e: EngineView, want: u8, polls: nat)
    ensures
        goes_on(e.link, (#[trigger] e.ensm_settle(want, polls)).e.link),
    decreases polls,
{
    broadcast use {
        keeps_ensm_state,
        crate::replay::engine::keeps_run,
    };

    reveal(EngineView::ensm_settle);
    if polls > 0 {
        let mid = e.ensm_state().e.run([wait(1000)]@);
        keeps_ensm_settle(mid.e, want, (polls - 1) as nat);
    }
}

pub broadcast proof fn repeats_ensm_settle(a: EngineView, b: EngineView, want: u8, polls: nat)
    requires
        together(a, b),
    ensures
        #![trigger a.ensm_settle(want, polls), b.ensm_settle(want, polls)]
        alike(a.ensm_settle(want, polls), b.ensm_settle(want, polls)),
    decreases polls,
{
    broadcast use {
        keeps_ensm_state,
        crate::replay::engine::keeps_run,
        repeats_ensm_state,
        crate::replay::engine::repeats_run,
    };

    reveal(EngineView::ensm_settle);
    if polls > 0 {
        let mid_a = a.ensm_state().e.run([wait(1000)]@);
        let mid_b = b.ensm_state().e.run([wait(1000)]@);
        keeps_ensm_settle(mid_a.e, want, (polls - 1) as nat);
        keeps_ensm_settle(mid_b.e, want, (polls - 1) as nat);
        if together(mid_a.e, mid_b.e) {
            repeats_ensm_settle(mid_a.e, mid_b.e, want, (polls - 1) as nat);
        }
    }
}

pub broadcast proof fn keeps_ensm_force_state(e: EngineView, state: ForcedEnsmState)
    ensures
        goes_on(e.link, (#[trigger] e.ensm_force_state(state)).e.link),
{
    broadcast use {
        keeps_ensm_state,
        keeps_ensm_settle,
        crate::replay::engine::keeps_read,
        crate::replay::engine::keeps_run,
    };

    reveal(EngineView::ensm_force_state);
}

pub broadcast proof fn repeats_ensm_force_state(
    a: EngineView,
    b: EngineView,
    state: ForcedEnsmState,
)
    requires
        together(a, b),
    ensures
        #![trigger a.ensm_force_state(state), b.ensm_force_state(state)]
        alike_reply(a.ensm_force_state(state), b.ensm_force_state(state)),
{
    broadcast use {
        keeps_ensm_state,
        keeps_ensm_settle,
        crate::replay::engine::keeps_read,
        crate::replay::engine::keeps_run,
        repeats_ensm_state,
        repeats_ensm_settle,
        crate::replay::engine::repeats_read,
        crate::replay::engine::repeats_run,
    };

    reveal(EngineView::ensm_force_state);
}

pub broadcast proof fn keeps_ensm_restore_state(e: EngineView, saved: SavedEnsmState)
    ensures
        goes_on(e.link, (#[trigger] e.ensm_restore_state(saved)).e.link),
{
    broadcast use {
        crate::replay::engine::keeps_read,
        crate::replay::engine::keeps_run,
    };

    reveal(EngineView::ensm_restore_state);
}

pub broadcast proof fn repeats_ensm_restore_state(
    a: EngineView,
    b: EngineView,
    saved: SavedEnsmState,
)
    requires
        together(a, b),
    ensures
        #![trigger a.ensm_restore_state(saved), b.ensm_restore_state(saved)]
        alike(a.ensm_restore_state(saved), b.ensm_restore_state(saved)),
{
    broadcast use {
        crate::replay::engine::keeps_read,
        crate::replay::engine::keeps_run,
        crate::replay::engine::repeats_read,
        crate::replay::engine::repeats_run,
    };

    reveal(EngineView::ensm_restore_state);
}

pub broadcast proof fn keeps_save_ensm_state(e: EngineView)
    ensures
        goes_on(e.link, (#[trigger] e.save_ensm_state()).e.link),
{
    broadcast use keeps_ensm_state;

    reveal(EngineView::save_ensm_state);
}

pub broadcast proof fn repeats_save_ensm_state(a: EngineView, b: EngineView)
    requires
        together(a, b),
    ensures
        #![trigger a.save_ensm_state(), b.save_ensm_state()]
        alike_reply(a.save_ensm_state(), b.save_ensm_state()),
{
    broadcast use {
        keeps_ensm_state,
        repeats_ensm_state,
    };

    reveal(EngineView::save_ensm_state);
}

pub broadcast proof fn keeps_set_ensm_mode(e: EngineView, fdd: bool, pinctrl: bool)
    ensures
        goes_on(e.link, (#[trigger] e.set_ensm_mode(fdd, pinctrl)).e.link),
{
    broadcast use {
        crate::replay::engine::keeps_read,
        crate::replay::engine::keeps_run,
    };

    reveal(EngineView::set_ensm_mode);
}

pub broadcast proof fn repeats_set_ensm_mode(a: EngineView, b: EngineView, fdd: bool, pinctrl: bool)
    requires
        together(a, b),
    ensures
        #![trigger a.set_ensm_mode(fdd, pinctrl), b.set_ensm_mode(fdd, pinctrl)]
        alike(a.set_ensm_mode(fdd, pinctrl), b.set_ensm_mode(fdd, pinctrl)),
{
    broadcast use {
        crate::replay::engine::keeps_read,
        crate::replay::engine::keeps_run,
        crate::replay::engine::repeats_read,
        crate::replay::engine::repeats_run,
    };

    reveal(EngineView::set_ensm_mode);
}

pub broadcast proof fn keeps_set_tx_atten(
    e: EngineView,
    atten: TxAttenuation,
    tx1: bool,
    tx2: bool,
    immed: bool,
)
    ensures
        goes_on(e.link, (#[trigger] e.set_tx_atten(atten, tx1, tx2, immed)).e.link),
{
    broadcast use crate::replay::engine::keeps_run;

    reveal(EngineView::set_tx_atten);
}

pub broadcast proof fn repeats_set_tx_atten(
    a: EngineView,
    b: EngineView,
    atten: TxAttenuation,
    tx1: bool,
    tx2: bool,
    immed: bool,
)
    requires
        together(a, b),
    ensures
        #![trigger a.set_tx_atten(atten, tx1, tx2, immed), b.set_tx_atten(atten, tx1, tx2, immed)]
        alike(a.set_tx_atten(atten, tx1, tx2, immed), b.set_tx_atten(atten, tx1, tx2, immed)),
{
    broadcast use {
        crate::replay::engine::keeps_run,
        crate::replay::engine::repeats_run,
    };

    reveal(EngineView::set_tx_atten);
}

pub broadcast proof fn keeps_trx_vco_cal_control(e: EngineView, tx: bool, enable: bool)
    ensures
        goes_on(e.link, (#[trigger] e.trx_vco_cal_control(tx, enable)).e.link),
{
    broadcast use crate::replay::engine::keeps_run;

    reveal(EngineView::trx_vco_cal_control);
}

pub broadcast proof fn repeats_trx_vco_cal_control(
    a: EngineView,
    b: EngineView,
    tx: bool,
    enable: bool,
)
    requires
        together(a, b),
    ensures
        #![trigger a.trx_vco_cal_control(tx, enable), b.trx_vco_cal_control(tx, enable)]
        alike(a.trx_vco_cal_control(tx, enable), b.trx_vco_cal_control(tx, enable)),
{
    broadcast use {
        crate::replay::engine::keeps_run,
        crate::replay::engine::repeats_run,
    };

    reveal(EngineView::trx_vco_cal_control);
}

pub broadcast proof fn keeps_clkout_control(e: EngineView, mode: ClkoutMode)
    ensures
        goes_on(e.link, (#[trigger] e.clkout_control(mode)).e.link),
{
    broadcast use crate::replay::engine::keeps_run;

    reveal(EngineView::clkout_control);
}

pub broadcast proof fn repeats_clkout_control(a: EngineView, b: EngineView, mode: ClkoutMode)
    requires
        together(a, b),
    ensures
        #![trigger a.clkout_control(mode), b.clkout_control(mode)]
        alike(a.clkout_control(mode), b.clkout_control(mode)),
{
    broadcast use {
        crate::replay::engine::keeps_run,
        crate::replay::engine::repeats_run,
    };

    reveal(EngineView::clkout_control);
}

pub broadcast proof fn keeps_ensm_wake(e: EngineView)
    ensures
        goes_on(e.link, (#[trigger] e.ensm_wake()).e.link),
{
    broadcast use {
        keeps_trx_vco_cal_control,
        crate::replay::engine::keeps_run,
    };

    reveal(EngineView::ensm_wake);
}

pub broadcast proof fn repeats_ensm_wake(a: EngineView, b: EngineView)
    requires
        together(a, b),
    ensures
        #![trigger a.ensm_wake(), b.ensm_wake()]
        alike(a.ensm_wake(), b.ensm_wake()),
{
    broadcast use {
        keeps_trx_vco_cal_control,
        crate::replay::engine::keeps_run,
        repeats_trx_vco_cal_control,
        crate::replay::engine::repeats_run,
    };

    reveal(EngineView::ensm_wake);
}

pub broadcast proof fn keeps_ensm_sleep(e: EngineView)
    ensures
        goes_on(e.link, (#[trigger] e.ensm_sleep()).e.link),
{
    broadcast use {
        keeps_trx_vco_cal_control,
        crate::replay::engine::keeps_run,
    };

    reveal(EngineView::ensm_sleep);
}

pub broadcast proof fn repeats_ensm_sleep(a: EngineView, b: EngineView)
    requires
        together(a, b),
    ensures
        #![trigger a.ensm_sleep(), b.ensm_sleep()]
        alike(a.ensm_sleep(), b.ensm_sleep()),
{
    broadcast use {
        keeps_trx_vco_cal_control,
        crate::replay::engine::keeps_run,
        repeats_trx_vco_cal_control,
        crate::replay::engine::repeats_run,
    };

    reveal(EngineView::ensm_sleep);
}

pub broadcast proof fn keeps_ensm_pass_alert(
    e: EngineView,
    state: RequestedEnsmState,
    pinctrl: bool,
)
    ensures
        goes_on(e.link, (#[trigger] e.ensm_pass_alert(state, pinctrl)).e.link),
{
    broadcast use {
        crate::replay::engine::keeps_run,
        crate::replay::engine::keeps_poll,
    };

    reveal(EngineView::ensm_pass_alert);
}

pub broadcast proof fn repeats_ensm_pass_alert(
    a: EngineView,
    b: EngineView,
    state: RequestedEnsmState,
    pinctrl: bool,
)
    requires
        together(a, b),
    ensures
        #![trigger a.ensm_pass_alert(state, pinctrl), b.ensm_pass_alert(state, pinctrl)]
        alike(a.ensm_pass_alert(state, pinctrl), b.ensm_pass_alert(state, pinctrl)),
{
    broadcast use {
        crate::replay::engine::keeps_run,
        crate::replay::engine::keeps_poll,
        crate::replay::engine::repeats_run,
        crate::replay::engine::repeats_poll,
    };

    reveal(EngineView::ensm_pass_alert);
}

pub broadcast proof fn keeps_ensm_pick_synth(
    e: EngineView,
    state: RequestedEnsmState,
    pinctrl: bool,
)
    ensures
        goes_on(e.link, (#[trigger] e.ensm_pick_synth(state, pinctrl)).e.link),
{
    broadcast use {
        crate::replay::engine::keeps_run,
        crate::replay::engine::keeps_poll,
    };

    reveal(EngineView::ensm_pick_synth);
}

pub broadcast proof fn repeats_ensm_pick_synth(
    a: EngineView,
    b: EngineView,
    state: RequestedEnsmState,
    pinctrl: bool,
)
    requires
        together(a, b),
    ensures
        #![trigger a.ensm_pick_synth(state, pinctrl), b.ensm_pick_synth(state, pinctrl)]
        alike(a.ensm_pick_synth(state, pinctrl), b.ensm_pick_synth(state, pinctrl)),
{
    broadcast use {
        crate::replay::engine::keeps_run,
        crate::replay::engine::keeps_poll,
        crate::replay::engine::repeats_run,
        crate::replay::engine::repeats_poll,
    };

    reveal(EngineView::ensm_pick_synth);
}

pub broadcast proof fn keeps_reset_peak_detectors(e: EngineView)
    ensures
        goes_on(e.link, (#[trigger] e.reset_peak_detectors()).e.link),
{
    broadcast use {
        crate::replay::engine::keeps_read,
        crate::replay::engine::keeps_run,
    };

    reveal(EngineView::reset_peak_detectors);
}

pub broadcast proof fn repeats_reset_peak_detectors(a: EngineView, b: EngineView)
    requires
        together(a, b),
    ensures
        #![trigger a.reset_peak_detectors(), b.reset_peak_detectors()]
        alike(a.reset_peak_detectors(), b.reset_peak_detectors()),
{
    broadcast use {
        crate::replay::engine::keeps_read,
        crate::replay::engine::keeps_run,
        crate::replay::engine::repeats_read,
        crate::replay::engine::repeats_run,
    };

    reveal(EngineView::reset_peak_detectors);
}

pub broadcast proof fn keeps_ensm_enter(e: EngineView, state: RequestedEnsmState, pinctrl: bool)
    ensures
        goes_on(e.link, (#[trigger] e.ensm_enter(state, pinctrl)).e.link),
{
    broadcast use {
        keeps_reset_peak_detectors,
        crate::replay::engine::keeps_run,
    };

    reveal(EngineView::ensm_enter);
}

pub broadcast proof fn repeats_ensm_enter(
    a: EngineView,
    b: EngineView,
    state: RequestedEnsmState,
    pinctrl: bool,
)
    requires
        together(a, b),
    ensures
        #![trigger a.ensm_enter(state, pinctrl), b.ensm_enter(state, pinctrl)]
        alike(a.ensm_enter(state, pinctrl), b.ensm_enter(state, pinctrl)),
{
    broadcast use {
        keeps_reset_peak_detectors,
        crate::replay::engine::keeps_run,
        repeats_reset_peak_detectors,
        crate::replay::engine::repeats_run,
    };

    reveal(EngineView::ensm_enter);
}

pub broadcast proof fn keeps_ensm_set_state(e: EngineView, state: RequestedEnsmState, pinctrl: bool)
    ensures
        goes_on(e.link, (#[trigger] e.ensm_set_state(state, pinctrl)).e.link),
{
    broadcast use {
        keeps_ensm_wake,
        keeps_ensm_sleep,
        keeps_ensm_pass_alert,
        keeps_ensm_pick_synth,
        keeps_ensm_enter,
    };

    reveal(EngineView::ensm_set_state);
}

pub broadcast proof fn repeats_ensm_set_state(
    a: EngineView,
    b: EngineView,
    state: RequestedEnsmState,
    pinctrl: bool,
)
    requires
        together(a, b),
    ensures
        #![trigger a.ensm_set_state(state, pinctrl), b.ensm_set_state(state, pinctrl)]
        alike(a.ensm_set_state(state, pinctrl), b.ensm_set_state(state, pinctrl)),
{
    broadcast use {
        keeps_ensm_wake,
        keeps_ensm_sleep,
        keeps_ensm_pass_alert,
        keeps_ensm_pick_synth,
        keeps_ensm_enter,
        repeats_ensm_wake,
        repeats_ensm_sleep,
        repeats_ensm_pass_alert,
        repeats_ensm_pick_synth,
        repeats_ensm_enter,
    };

    reveal(EngineView::ensm_set_state);
}

} // verus!
