//! What the operations of [`crate::control`] leave alone.
use vstd::prelude::*;

use crate::control::{ClkoutMode, ForcedEnsmState, RequestedEnsmState, SavedEnsmState};
use crate::engine::EngineView;
use crate::kept::{calms, leaves, none, same_bandwidths, same_chip, same_los, same_table, Parts};
use crate::link::wait;
use crate::units::TxAttenuation;

verus! {

pub broadcast proof fn leaves_ensm_state(e: EngineView)
    ensures
        #![trigger e.ensm_state()]
        leaves(e.link, e.ensm_state().e.link, none()),
        calms(e.link, e.ensm_state().e.link),
        same_los(e.state.v, e.ensm_state().e.state.v),
        same_table(e.state.v, e.ensm_state().e.state.v),
        same_bandwidths(e.state.v, e.ensm_state().e.state.v),
        same_chip(e, e.ensm_state().e),
{
    broadcast use crate::kept::leaves_read;

    reveal(EngineView::ensm_state);
}

pub broadcast proof fn leaves_ensm_settle(e: EngineView, want: u8, polls: nat)
    ensures
        #![trigger e.ensm_settle(want, polls)]
        leaves(e.link, e.ensm_settle(want, polls).e.link, none()),
        calms(e.link, e.ensm_settle(want, polls).e.link),
        same_los(e.state.v, e.ensm_settle(want, polls).e.state.v),
        same_table(e.state.v, e.ensm_settle(want, polls).e.state.v),
        same_bandwidths(e.state.v, e.ensm_settle(want, polls).e.state.v),
        same_chip(e, e.ensm_settle(want, polls).e),
    decreases polls,
{
    broadcast use {
        leaves_ensm_state,
        crate::kept::leaves_run,
    };

    reveal(EngineView::ensm_settle);
    if polls > 0 {
        let mid = e.ensm_state().e.run([wait(1000)]@);
        leaves_ensm_settle(mid.e, want, (polls - 1) as nat);
    }
}

pub broadcast proof fn leaves_ensm_force_state(e: EngineView, state: ForcedEnsmState)
    ensures
        #![trigger e.ensm_force_state(state)]
        leaves(e.link, e.ensm_force_state(state).e.link, none()),
        calms(e.link, e.ensm_force_state(state).e.link),
        same_los(e.state.v, e.ensm_force_state(state).e.state.v),
        same_table(e.state.v, e.ensm_force_state(state).e.state.v),
        same_bandwidths(e.state.v, e.ensm_force_state(state).e.state.v),
        same_chip(e, e.ensm_force_state(state).e),
{
    broadcast use {
        leaves_ensm_state,
        leaves_ensm_settle,
        crate::kept::leaves_read,
        crate::kept::leaves_run,
    };

    reveal(EngineView::ensm_force_state);
}

pub broadcast proof fn leaves_ensm_restore_state(e: EngineView, saved: SavedEnsmState)
    ensures
        #![trigger e.ensm_restore_state(saved)]
        leaves(e.link, e.ensm_restore_state(saved).e.link, none()),
        calms(e.link, e.ensm_restore_state(saved).e.link),
        same_los(e.state.v, e.ensm_restore_state(saved).e.state.v),
        same_table(e.state.v, e.ensm_restore_state(saved).e.state.v),
        same_bandwidths(e.state.v, e.ensm_restore_state(saved).e.state.v),
        same_chip(e, e.ensm_restore_state(saved).e),
{
    broadcast use {
        crate::kept::leaves_read,
        crate::kept::leaves_run,
    };

    reveal(EngineView::ensm_restore_state);
}

pub broadcast proof fn leaves_save_ensm_state(e: EngineView)
    ensures
        #![trigger e.save_ensm_state()]
        leaves(e.link, e.save_ensm_state().e.link, none()),
        calms(e.link, e.save_ensm_state().e.link),
        same_los(e.state.v, e.save_ensm_state().e.state.v),
        same_table(e.state.v, e.save_ensm_state().e.state.v),
        same_bandwidths(e.state.v, e.save_ensm_state().e.state.v),
        same_chip(e, e.save_ensm_state().e),
{
    broadcast use leaves_ensm_state;

    reveal(EngineView::save_ensm_state);
}

pub broadcast proof fn leaves_set_ensm_mode(e: EngineView, fdd: bool, pinctrl: bool)
    ensures
        #![trigger e.set_ensm_mode(fdd, pinctrl)]
        leaves(e.link, e.set_ensm_mode(fdd, pinctrl).e.link, none()),
        calms(e.link, e.set_ensm_mode(fdd, pinctrl).e.link),
        same_los(e.state.v, e.set_ensm_mode(fdd, pinctrl).e.state.v),
        same_table(e.state.v, e.set_ensm_mode(fdd, pinctrl).e.state.v),
        same_bandwidths(e.state.v, e.set_ensm_mode(fdd, pinctrl).e.state.v),
        same_chip(e, e.set_ensm_mode(fdd, pinctrl).e),
{
    broadcast use {
        crate::kept::leaves_read,
        crate::kept::leaves_run,
    };

    reveal(EngineView::set_ensm_mode);
}

pub broadcast proof fn leaves_set_tx_atten(
    e: EngineView,
    atten: TxAttenuation,
    tx1: bool,
    tx2: bool,
    immed: bool,
)
    ensures
        #![trigger e.set_tx_atten(atten, tx1, tx2, immed)]
        leaves(
            e.link,
            e.set_tx_atten(atten, tx1, tx2, immed).e.link,
            Parts { attenuation: true, ..none() },
        ),
        calms(e.link, e.set_tx_atten(atten, tx1, tx2, immed).e.link),
        same_los(e.state.v, e.set_tx_atten(atten, tx1, tx2, immed).e.state.v),
        same_table(e.state.v, e.set_tx_atten(atten, tx1, tx2, immed).e.state.v),
        same_bandwidths(e.state.v, e.set_tx_atten(atten, tx1, tx2, immed).e.state.v),
        same_chip(e, e.set_tx_atten(atten, tx1, tx2, immed).e),
{
    broadcast use crate::kept::leaves_run;

    reveal(EngineView::set_tx_atten);
}

pub broadcast proof fn leaves_trx_vco_cal_control(e: EngineView, tx: bool, enable: bool)
    ensures
        #![trigger e.trx_vco_cal_control(tx, enable)]
        leaves(e.link, e.trx_vco_cal_control(tx, enable).e.link, none()),
        calms(e.link, e.trx_vco_cal_control(tx, enable).e.link),
        same_los(e.state.v, e.trx_vco_cal_control(tx, enable).e.state.v),
        same_table(e.state.v, e.trx_vco_cal_control(tx, enable).e.state.v),
        same_bandwidths(e.state.v, e.trx_vco_cal_control(tx, enable).e.state.v),
        same_chip(e, e.trx_vco_cal_control(tx, enable).e),
{
    broadcast use crate::kept::leaves_run;

    reveal(EngineView::trx_vco_cal_control);
}

pub broadcast proof fn leaves_clkout_control(e: EngineView, mode: ClkoutMode)
    ensures
        #![trigger e.clkout_control(mode)]
        leaves(e.link, e.clkout_control(mode).e.link, Parts { clkout: true, ..none() }),
        calms(e.link, e.clkout_control(mode).e.link),
        same_los(e.state.v, e.clkout_control(mode).e.state.v),
        same_table(e.state.v, e.clkout_control(mode).e.state.v),
        same_bandwidths(e.state.v, e.clkout_control(mode).e.state.v),
        same_chip(e, e.clkout_control(mode).e),
{
    broadcast use {
        crate::kept::leaves_run,
        crate::kept::lemma_fields_apart,
    };

    reveal(EngineView::clkout_control);
}

pub broadcast proof fn leaves_ensm_wake(e: EngineView)
    ensures
        #![trigger e.ensm_wake()]
        leaves(e.link, e.ensm_wake().e.link, none()),
        calms(e.link, e.ensm_wake().e.link),
        same_los(e.state.v, e.ensm_wake().e.state.v),
        same_table(e.state.v, e.ensm_wake().e.state.v),
        same_bandwidths(e.state.v, e.ensm_wake().e.state.v),
        same_chip(e, e.ensm_wake().e),
{
    broadcast use {
        leaves_trx_vco_cal_control,
        crate::kept::leaves_run,
    };

    reveal(EngineView::ensm_wake);
}

pub broadcast proof fn leaves_ensm_sleep(e: EngineView)
    ensures
        #![trigger e.ensm_sleep()]
        leaves(e.link, e.ensm_sleep().e.link, none()),
        calms(e.link, e.ensm_sleep().e.link),
        same_los(e.state.v, e.ensm_sleep().e.state.v),
        same_table(e.state.v, e.ensm_sleep().e.state.v),
        same_bandwidths(e.state.v, e.ensm_sleep().e.state.v),
        same_chip(e, e.ensm_sleep().e),
{
    broadcast use {
        leaves_trx_vco_cal_control,
        crate::kept::leaves_run,
    };

    reveal(EngineView::ensm_sleep);
}

pub broadcast proof fn leaves_ensm_pass_alert(
    e: EngineView,
    state: RequestedEnsmState,
    pinctrl: bool,
)
    ensures
        #![trigger e.ensm_pass_alert(state, pinctrl)]
        leaves(e.link, e.ensm_pass_alert(state, pinctrl).e.link, none()),
        calms(e.link, e.ensm_pass_alert(state, pinctrl).e.link),
        same_los(e.state.v, e.ensm_pass_alert(state, pinctrl).e.state.v),
        same_table(e.state.v, e.ensm_pass_alert(state, pinctrl).e.state.v),
        same_bandwidths(e.state.v, e.ensm_pass_alert(state, pinctrl).e.state.v),
        same_chip(e, e.ensm_pass_alert(state, pinctrl).e),
{
    broadcast use {
        crate::kept::leaves_run,
        crate::kept::engine::leaves_poll,
    };

    reveal(EngineView::ensm_pass_alert);
}

pub broadcast proof fn leaves_ensm_pick_synth(
    e: EngineView,
    state: RequestedEnsmState,
    pinctrl: bool,
)
    ensures
        #![trigger e.ensm_pick_synth(state, pinctrl)]
        leaves(e.link, e.ensm_pick_synth(state, pinctrl).e.link, none()),
        calms(e.link, e.ensm_pick_synth(state, pinctrl).e.link),
        same_los(e.state.v, e.ensm_pick_synth(state, pinctrl).e.state.v),
        same_table(e.state.v, e.ensm_pick_synth(state, pinctrl).e.state.v),
        same_bandwidths(e.state.v, e.ensm_pick_synth(state, pinctrl).e.state.v),
        same_chip(e, e.ensm_pick_synth(state, pinctrl).e),
{
    broadcast use {
        crate::kept::leaves_run,
        crate::kept::engine::leaves_poll,
    };

    reveal(EngineView::ensm_pick_synth);
}

pub broadcast proof fn leaves_reset_peak_detectors(e: EngineView)
    ensures
        #![trigger e.reset_peak_detectors()]
        leaves(e.link, e.reset_peak_detectors().e.link, none()),
        calms(e.link, e.reset_peak_detectors().e.link),
        same_los(e.state.v, e.reset_peak_detectors().e.state.v),
        same_table(e.state.v, e.reset_peak_detectors().e.state.v),
        same_bandwidths(e.state.v, e.reset_peak_detectors().e.state.v),
        same_chip(e, e.reset_peak_detectors().e),
{
    broadcast use {
        crate::kept::leaves_read,
        crate::kept::leaves_run,
    };

    reveal(EngineView::reset_peak_detectors);
}

pub broadcast proof fn leaves_ensm_enter(e: EngineView, state: RequestedEnsmState, pinctrl: bool)
    ensures
        #![trigger e.ensm_enter(state, pinctrl)]
        leaves(e.link, e.ensm_enter(state, pinctrl).e.link, none()),
        calms(e.link, e.ensm_enter(state, pinctrl).e.link),
        same_los(e.state.v, e.ensm_enter(state, pinctrl).e.state.v),
        same_table(e.state.v, e.ensm_enter(state, pinctrl).e.state.v),
        same_bandwidths(e.state.v, e.ensm_enter(state, pinctrl).e.state.v),
        same_chip(e, e.ensm_enter(state, pinctrl).e),
{
    broadcast use {
        leaves_reset_peak_detectors,
        crate::kept::leaves_run,
    };

    reveal(EngineView::ensm_enter);
}

pub broadcast proof fn leaves_ensm_set_state(
    e: EngineView,
    state: RequestedEnsmState,
    pinctrl: bool,
)
    ensures
        #![trigger e.ensm_set_state(state, pinctrl)]
        leaves(e.link, e.ensm_set_state(state, pinctrl).e.link, none()),
        calms(e.link, e.ensm_set_state(state, pinctrl).e.link),
        same_los(e.state.v, e.ensm_set_state(state, pinctrl).e.state.v),
        same_table(e.state.v, e.ensm_set_state(state, pinctrl).e.state.v),
        same_bandwidths(e.state.v, e.ensm_set_state(state, pinctrl).e.state.v),
        same_chip(e, e.ensm_set_state(state, pinctrl).e),
{
    broadcast use {
        leaves_ensm_wake,
        leaves_ensm_sleep,
        leaves_ensm_pass_alert,
        leaves_ensm_pick_synth,
        leaves_ensm_enter,
    };

    reveal(EngineView::ensm_set_state);
}

} // verus!
