//! What the operations of [`crate::calibration`] leave alone.
use vstd::prelude::*;

use crate::calibration::{AdcInputs, QuadPlan, RxPhase, TrackingConfig, TX_QUAD_CONVERGED};
use crate::control::SavedEnsmState;
use crate::engine::EngineView;
use crate::kept::{calms, leaves, none, same_bandwidths, same_chip, same_los, same_table, Parts};
use crate::units::HertzU32;

verus! {

pub broadcast proof fn leaves_run_calibration(e: EngineView, mask: u8)
    ensures
        #![trigger e.run_calibration(mask)]
        leaves(e.link, e.run_calibration(mask).e.link, none()),
        calms(e.link, e.run_calibration(mask).e.link),
        same_los(e.state.v, e.run_calibration(mask).e.state.v),
        same_table(e.state.v, e.run_calibration(mask).e.state.v),
        same_bandwidths(e.state.v, e.run_calibration(mask).e.state.v),
        same_chip(e, e.run_calibration(mask).e),
{
    broadcast use {
        crate::kept::leaves_run,
        crate::kept::engine::leaves_poll,
    };

    reveal(EngineView::run_calibration);
}

pub broadcast proof fn leaves_tx_quad_calib_once(
    e: EngineView,
    phase: u8,
    rxnco_word: u8,
    decim: u8,
)
    ensures
        #![trigger e.tx_quad_calib_once(phase, rxnco_word, decim)]
        leaves(e.link, e.tx_quad_calib_once(phase, rxnco_word, decim).e.link, none()),
        calms(e.link, e.tx_quad_calib_once(phase, rxnco_word, decim).e.link),
        same_los(e.state.v, e.tx_quad_calib_once(phase, rxnco_word, decim).e.state.v),
        same_table(e.state.v, e.tx_quad_calib_once(phase, rxnco_word, decim).e.state.v),
        same_bandwidths(e.state.v, e.tx_quad_calib_once(phase, rxnco_word, decim).e.state.v),
        same_chip(e, e.tx_quad_calib_once(phase, rxnco_word, decim).e),
{
    broadcast use {
        leaves_run_calibration,
        crate::kept::leaves_read,
        crate::kept::leaves_run,
    };

    reveal(EngineView::tx_quad_calib_once);
}

pub broadcast proof fn leaves_quad_trials_from(
    e: EngineView,
    i: int,
    failed: Seq<u8>,
    rxnco_word: u8,
    decim: u8,
)
    ensures
        #![trigger e.quad_trials_from(i, failed, rxnco_word, decim)]
        leaves(e.link, e.quad_trials_from(i, failed, rxnco_word, decim).e.link, none()),
        calms(e.link, e.quad_trials_from(i, failed, rxnco_word, decim).e.link),
        same_los(e.state.v, e.quad_trials_from(i, failed, rxnco_word, decim).e.state.v),
        same_table(e.state.v, e.quad_trials_from(i, failed, rxnco_word, decim).e.state.v),
        same_bandwidths(e.state.v, e.quad_trials_from(i, failed, rxnco_word, decim).e.state.v),
        same_chip(e, e.quad_trials_from(i, failed, rxnco_word, decim).e),
    decreases 32 - i,
{
    broadcast use leaves_tx_quad_calib_once;

    if i < 32 {
        let mid = e.tx_quad_calib_once(i as u8, rxnco_word, decim);
        let failed = failed.push(
            if mid.r->Ok_0 == TX_QUAD_CONVERGED {
                0
            } else {
                1
            },
        );
        leaves_quad_trials_from(mid.e, i + 1, failed, rxnco_word, decim);
    }
}

pub broadcast proof fn leaves_tx_quad_phase_search(e: EngineView, rxnco_word: u8, decim: u8)
    ensures
        #![trigger e.tx_quad_phase_search(rxnco_word, decim)]
        leaves(e.link, e.tx_quad_phase_search(rxnco_word, decim).e.link, none()),
        calms(e.link, e.tx_quad_phase_search(rxnco_word, decim).e.link),
        same_los(e.state.v, e.tx_quad_phase_search(rxnco_word, decim).e.state.v),
        same_table(e.state.v, e.tx_quad_phase_search(rxnco_word, decim).e.state.v),
        same_bandwidths(e.state.v, e.tx_quad_phase_search(rxnco_word, decim).e.state.v),
        same_chip(e, e.tx_quad_phase_search(rxnco_word, decim).e),
{
    broadcast use {
        leaves_tx_quad_calib_once,
        leaves_quad_trials_from,
    };

    reveal(EngineView::tx_quad_phase_search);
}

pub broadcast proof fn leaves_tx_quad_retry(e: EngineView, rxnco_word: u8, decim: u8)
    ensures
        #![trigger e.tx_quad_retry(rxnco_word, decim)]
        leaves(e.link, e.tx_quad_retry(rxnco_word, decim).e.link, none()),
        calms(e.link, e.tx_quad_retry(rxnco_word, decim).e.link),
        same_los(e.state.v, e.tx_quad_retry(rxnco_word, decim).e.state.v),
        same_table(e.state.v, e.tx_quad_retry(rxnco_word, decim).e.state.v),
        same_bandwidths(e.state.v, e.tx_quad_retry(rxnco_word, decim).e.state.v),
        same_chip(e, e.tx_quad_retry(rxnco_word, decim).e),
{
    broadcast use {
        leaves_tx_quad_calib_once,
        leaves_tx_quad_phase_search,
    };

    reveal(EngineView::tx_quad_retry);
}

pub broadcast proof fn leaves_tx_quad_calibrate(
    e: EngineView,
    phase: u8,
    rxnco_word: u8,
    decim: u8,
    rx_phase: RxPhase,
)
    ensures
        #![trigger e.tx_quad_calibrate(phase, rxnco_word, decim, rx_phase)]
        leaves(e.link, e.tx_quad_calibrate(phase, rxnco_word, decim, rx_phase).e.link, none()),
        calms(e.link, e.tx_quad_calibrate(phase, rxnco_word, decim, rx_phase).e.link),
        same_los(e.state.v, e.tx_quad_calibrate(phase, rxnco_word, decim, rx_phase).e.state.v),
        same_table(e.state.v, e.tx_quad_calibrate(phase, rxnco_word, decim, rx_phase).e.state.v),
        same_bandwidths(e.state.v, e.tx_quad_calibrate(phase, rxnco_word, decim, rx_phase).e.state.v),
        same_chip(e, e.tx_quad_calibrate(phase, rxnco_word, decim, rx_phase).e),
{
    broadcast use {
        leaves_tx_quad_calib_once,
        leaves_tx_quad_phase_search,
        leaves_tx_quad_retry,
    };

    reveal(EngineView::tx_quad_calibrate);
}

pub broadcast proof fn leaves_quad_phase(e: EngineView, plan: QuadPlan, rx_phase: RxPhase)
    ensures
        #![trigger e.quad_phase(plan, rx_phase)]
        leaves(e.link, e.quad_phase(plan, rx_phase).e.link, none()),
        calms(e.link, e.quad_phase(plan, rx_phase).e.link),
        same_los(e.state.v, e.quad_phase(plan, rx_phase).e.state.v),
        same_table(e.state.v, e.quad_phase(plan, rx_phase).e.state.v),
        same_bandwidths(e.state.v, e.quad_phase(plan, rx_phase).e.state.v),
        same_chip(e, e.quad_phase(plan, rx_phase).e),
{
    broadcast use crate::kept::leaves_read;

    reveal(EngineView::quad_phase);
}

pub broadcast proof fn leaves_quad_uninvert(e: EngineView)
    ensures
        #![trigger e.quad_uninvert()]
        leaves(e.link, e.quad_uninvert().e.link, none()),
        calms(e.link, e.quad_uninvert().e.link),
        same_los(e.state.v, e.quad_uninvert().e.state.v),
        same_table(e.state.v, e.quad_uninvert().e.state.v),
        same_bandwidths(e.state.v, e.quad_uninvert().e.state.v),
        same_chip(e, e.quad_uninvert().e),
{
    broadcast use {
        crate::kept::leaves_read,
        crate::kept::leaves_run,
    };

    reveal(EngineView::quad_uninvert);
}

pub broadcast proof fn leaves_quad_reinvert(e: EngineView, inverted: bool, saved: u8)
    ensures
        #![trigger e.quad_reinvert(inverted, saved)]
        leaves(e.link, e.quad_reinvert(inverted, saved).e.link, none()),
        calms(e.link, e.quad_reinvert(inverted, saved).e.link),
        same_los(e.state.v, e.quad_reinvert(inverted, saved).e.state.v),
        same_table(e.state.v, e.quad_reinvert(inverted, saved).e.state.v),
        same_bandwidths(e.state.v, e.quad_reinvert(inverted, saved).e.state.v),
        same_chip(e, e.quad_reinvert(inverted, saved).e),
{
    broadcast use crate::kept::leaves_run;

    reveal(EngineView::quad_reinvert);
}

pub broadcast proof fn leaves_quad_prepare(e: EngineView, txnco_word: u8)
    ensures
        #![trigger e.quad_prepare(txnco_word)]
        leaves(e.link, e.quad_prepare(txnco_word).e.link, none()),
        calms(e.link, e.quad_prepare(txnco_word).e.link),
        same_los(e.state.v, e.quad_prepare(txnco_word).e.state.v),
        same_table(e.state.v, e.quad_prepare(txnco_word).e.state.v),
        same_bandwidths(e.state.v, e.quad_prepare(txnco_word).e.state.v),
        same_chip(e, e.quad_prepare(txnco_word).e),
{
    broadcast use crate::kept::leaves_run;

    reveal(EngineView::quad_prepare);
}

pub broadcast proof fn leaves_rx_bb_analog_filter_calib(
    e: EngineView,
    rx_bb_bw: HertzU32,
    bbpll: HertzU32,
)
    ensures
        #![trigger e.rx_bb_analog_filter_calib(rx_bb_bw, bbpll)]
        leaves(
            e.link,
            e.rx_bb_analog_filter_calib(rx_bb_bw, bbpll).e.link,
            Parts { rx_filter: true, ..none() },
        ),
        calms(e.link, e.rx_bb_analog_filter_calib(rx_bb_bw, bbpll).e.link),
        same_los(e.state.v, e.rx_bb_analog_filter_calib(rx_bb_bw, bbpll).e.state.v),
        same_table(e.state.v, e.rx_bb_analog_filter_calib(rx_bb_bw, bbpll).e.state.v),
        same_bandwidths(e.state.v, e.rx_bb_analog_filter_calib(rx_bb_bw, bbpll).e.state.v),
        same_chip(e, e.rx_bb_analog_filter_calib(rx_bb_bw, bbpll).e),
{
    broadcast use {
        leaves_run_calibration,
        crate::kept::leaves_run,
    };

    reveal(EngineView::rx_bb_analog_filter_calib);
}

pub broadcast proof fn leaves_tx_bb_analog_filter_calib(
    e: EngineView,
    tx_bb_bw: HertzU32,
    bbpll: HertzU32,
)
    ensures
        #![trigger e.tx_bb_analog_filter_calib(tx_bb_bw, bbpll)]
        leaves(
            e.link,
            e.tx_bb_analog_filter_calib(tx_bb_bw, bbpll).e.link,
            Parts { tx_filter: true, ..none() },
        ),
        calms(e.link, e.tx_bb_analog_filter_calib(tx_bb_bw, bbpll).e.link),
        same_los(e.state.v, e.tx_bb_analog_filter_calib(tx_bb_bw, bbpll).e.state.v),
        same_table(e.state.v, e.tx_bb_analog_filter_calib(tx_bb_bw, bbpll).e.state.v),
        same_bandwidths(e.state.v, e.tx_bb_analog_filter_calib(tx_bb_bw, bbpll).e.state.v),
        same_chip(e, e.tx_bb_analog_filter_calib(tx_bb_bw, bbpll).e),
{
    broadcast use {
        leaves_run_calibration,
        crate::kept::leaves_run,
    };

    reveal(EngineView::tx_bb_analog_filter_calib);
}

pub broadcast proof fn leaves_tx_bb_second_filter_calib(e: EngineView, tx_bb_bw: HertzU32)
    ensures
        #![trigger e.tx_bb_second_filter_calib(tx_bb_bw)]
        leaves(e.link, e.tx_bb_second_filter_calib(tx_bb_bw).e.link, none()),
        calms(e.link, e.tx_bb_second_filter_calib(tx_bb_bw).e.link),
        same_los(e.state.v, e.tx_bb_second_filter_calib(tx_bb_bw).e.state.v),
        same_table(e.state.v, e.tx_bb_second_filter_calib(tx_bb_bw).e.state.v),
        same_bandwidths(e.state.v, e.tx_bb_second_filter_calib(tx_bb_bw).e.state.v),
        same_chip(e, e.tx_bb_second_filter_calib(tx_bb_bw).e),
{
    broadcast use crate::kept::leaves_run;

    reveal(EngineView::tx_bb_second_filter_calib);
}

pub broadcast proof fn leaves_read_filter_codes(e: EngineView)
    ensures
        #![trigger e.read_filter_codes()]
        leaves(e.link, e.read_filter_codes().e.link, none()),
        calms(e.link, e.read_filter_codes().e.link),
        same_los(e.state.v, e.read_filter_codes().e.state.v),
        same_table(e.state.v, e.read_filter_codes().e.state.v),
        same_bandwidths(e.state.v, e.read_filter_codes().e.state.v),
        same_chip(e, e.read_filter_codes().e),
{
    broadcast use crate::kept::leaves_read;

    reveal(EngineView::read_filter_codes);
}

pub broadcast proof fn leaves_rx_tia_calib(e: EngineView, rx_bb_bw: HertzU32)
    ensures
        #![trigger e.rx_tia_calib(rx_bb_bw)]
        leaves(e.link, e.rx_tia_calib(rx_bb_bw).e.link, none()),
        calms(e.link, e.rx_tia_calib(rx_bb_bw).e.link),
        same_los(e.state.v, e.rx_tia_calib(rx_bb_bw).e.state.v),
        same_table(e.state.v, e.rx_tia_calib(rx_bb_bw).e.state.v),
        same_bandwidths(e.state.v, e.rx_tia_calib(rx_bb_bw).e.state.v),
        same_chip(e, e.rx_tia_calib(rx_bb_bw).e),
{
    broadcast use {
        leaves_read_filter_codes,
        crate::kept::leaves_run,
    };

    reveal(EngineView::rx_tia_calib);
}

pub broadcast proof fn leaves_write_adc(e: EngineView, i: AdcInputs)
    ensures
        #![trigger e.write_adc(i)]
        leaves(e.link, e.write_adc(i).e.link, none()),
        calms(e.link, e.write_adc(i).e.link),
        same_los(e.state.v, e.write_adc(i).e.state.v),
        same_table(e.state.v, e.write_adc(i).e.state.v),
        same_bandwidths(e.state.v, e.write_adc(i).e.state.v),
        same_chip(e, e.write_adc(i).e),
{
    broadcast use crate::kept::leaves_run;

    reveal(EngineView::write_adc);
}

pub broadcast proof fn leaves_rx_adc_setup(
    e: EngineView,
    bbpll: HertzU32,
    adc: HertzU32,
    rxbbf_div: u32,
)
    ensures
        #![trigger e.rx_adc_setup(bbpll, adc, rxbbf_div)]
        leaves(e.link, e.rx_adc_setup(bbpll, adc, rxbbf_div).e.link, none()),
        calms(e.link, e.rx_adc_setup(bbpll, adc, rxbbf_div).e.link),
        same_los(e.state.v, e.rx_adc_setup(bbpll, adc, rxbbf_div).e.state.v),
        same_table(e.state.v, e.rx_adc_setup(bbpll, adc, rxbbf_div).e.state.v),
        same_bandwidths(e.state.v, e.rx_adc_setup(bbpll, adc, rxbbf_div).e.state.v),
        same_chip(e, e.rx_adc_setup(bbpll, adc, rxbbf_div).e),
{
    broadcast use {
        leaves_read_filter_codes,
        leaves_write_adc,
    };

    reveal(EngineView::rx_adc_setup);
}

pub broadcast proof fn leaves_filter_calibs(e: EngineView, rx: HertzU32, tx: HertzU32)
    ensures
        #![trigger e.filter_calibs(rx, tx)]
        leaves(
            e.link,
            e.filter_calibs(rx, tx).e.link,
            Parts { rx_filter: true, tx_filter: true, ..none() },
        ),
        calms(e.link, e.filter_calibs(rx, tx).e.link),
        same_los(e.state.v, e.filter_calibs(rx, tx).e.state.v),
        same_table(e.state.v, e.filter_calibs(rx, tx).e.state.v),
        same_bandwidths(e.state.v, e.filter_calibs(rx, tx).e.state.v),
        same_chip(e, e.filter_calibs(rx, tx).e),
{
    broadcast use {
        leaves_rx_bb_analog_filter_calib,
        leaves_tx_bb_analog_filter_calib,
        leaves_tx_bb_second_filter_calib,
        leaves_rx_tia_calib,
        leaves_rx_adc_setup,
    };

    reveal(EngineView::filter_calibs);
}

pub broadcast proof fn leaves_update_rf_bandwidth_filters(
    e: EngineView,
    rf_rx_bw: HertzU32,
    rf_tx_bw: HertzU32,
)
    ensures
        #![trigger e.update_rf_bandwidth_filters(rf_rx_bw, rf_tx_bw)]
        leaves(
            e.link,
            e.update_rf_bandwidth_filters(rf_rx_bw, rf_tx_bw).e.link,
            Parts { rx_filter: true, tx_filter: true, ..none() },
        ),
        calms(e.link, e.update_rf_bandwidth_filters(rf_rx_bw, rf_tx_bw).e.link),
        same_los(e.state.v, e.update_rf_bandwidth_filters(rf_rx_bw, rf_tx_bw).e.state.v),
        same_table(e.state.v, e.update_rf_bandwidth_filters(rf_rx_bw, rf_tx_bw).e.state.v),
        same_bandwidths(e.state.v, e.update_rf_bandwidth_filters(rf_rx_bw, rf_tx_bw).e.state.v),
        same_chip(e, e.update_rf_bandwidth_filters(rf_rx_bw, rf_tx_bw).e),
{
    broadcast use leaves_filter_calibs;

    reveal(EngineView::update_rf_bandwidth_filters);
}

pub broadcast proof fn leaves_quad_widen(e: EngineView, widen: bool, freq: u32)
    ensures
        #![trigger e.quad_widen(widen, freq)]
        leaves(
            e.link,
            e.quad_widen(widen, freq).e.link,
            Parts { rx_filter: true, tx_filter: true, ..none() },
        ),
        calms(e.link, e.quad_widen(widen, freq).e.link),
        same_los(e.state.v, e.quad_widen(widen, freq).e.state.v),
        same_table(e.state.v, e.quad_widen(widen, freq).e.state.v),
        same_bandwidths(e.state.v, e.quad_widen(widen, freq).e.state.v),
        same_chip(e, e.quad_widen(widen, freq).e),
{
    broadcast use leaves_update_rf_bandwidth_filters;

    reveal(EngineView::quad_widen);
}

pub broadcast proof fn leaves_quad_narrow(e: EngineView, widen: bool)
    ensures
        #![trigger e.quad_narrow(widen)]
        leaves(
            e.link,
            e.quad_narrow(widen).e.link,
            Parts { rx_filter: true, tx_filter: true, ..none() },
        ),
        calms(e.link, e.quad_narrow(widen).e.link),
        same_los(e.state.v, e.quad_narrow(widen).e.state.v),
        same_table(e.state.v, e.quad_narrow(widen).e.state.v),
        same_bandwidths(e.state.v, e.quad_narrow(widen).e.state.v),
        same_chip(e, e.quad_narrow(widen).e),
{
    broadcast use leaves_update_rf_bandwidth_filters;

    reveal(EngineView::quad_narrow);
}

pub broadcast proof fn leaves_tx_quad_calib(
    e: EngineView,
    bw_rx: u32,
    bw_tx: u32,
    rx_phase: RxPhase,
)
    ensures
        #![trigger e.tx_quad_calib(bw_rx, bw_tx, rx_phase)]
        leaves(
            e.link,
            e.tx_quad_calib(bw_rx, bw_tx, rx_phase).e.link,
            Parts { rx_filter: true, tx_filter: true, ..none() },
        ),
        calms(e.link, e.tx_quad_calib(bw_rx, bw_tx, rx_phase).e.link),
        same_los(e.state.v, e.tx_quad_calib(bw_rx, bw_tx, rx_phase).e.state.v),
        same_table(e.state.v, e.tx_quad_calib(bw_rx, bw_tx, rx_phase).e.state.v),
        same_bandwidths(e.state.v, e.tx_quad_calib(bw_rx, bw_tx, rx_phase).e.state.v),
        same_chip(e, e.tx_quad_calib(bw_rx, bw_tx, rx_phase).e),
{
    broadcast use {
        leaves_tx_quad_calibrate,
        leaves_quad_phase,
        leaves_quad_uninvert,
        leaves_quad_reinvert,
        leaves_quad_prepare,
        leaves_quad_widen,
        leaves_quad_narrow,
    };

    reveal(EngineView::tx_quad_calib);
}

pub broadcast proof fn leaves_tracking_control(e: EngineView, tracking: TrackingConfig)
    ensures
        #![trigger e.tracking_control(tracking)]
        leaves(e.link, e.tracking_control(tracking).e.link, Parts { tracking: true, ..none() }),
        calms(e.link, e.tracking_control(tracking).e.link),
        same_los(e.state.v, e.tracking_control(tracking).e.state.v),
        same_table(e.state.v, e.tracking_control(tracking).e.state.v),
        same_bandwidths(e.state.v, e.tracking_control(tracking).e.state.v),
        same_chip(e, e.tracking_control(tracking).e),
{
    broadcast use crate::kept::leaves_run;

    reveal(EngineView::tracking_control);
}

pub broadcast proof fn leaves_pause_tracking(e: EngineView)
    ensures
        #![trigger e.pause_tracking()]
        leaves(e.link, e.pause_tracking().e.link, Parts { tracking: true, ..none() }),
        calms(e.link, e.pause_tracking().e.link),
        same_los(e.state.v, e.pause_tracking().e.state.v),
        same_table(e.state.v, e.pause_tracking().e.state.v),
        same_bandwidths(e.state.v, e.pause_tracking().e.state.v),
        same_chip(e, e.pause_tracking().e),
{
    broadcast use {
        leaves_tracking_control,
        crate::kept::control::leaves_ensm_force_state,
    };

    reveal(EngineView::pause_tracking);
}

pub broadcast proof fn leaves_resume_tracking(
    e: EngineView,
    tracking: TrackingConfig,
    saved: SavedEnsmState,
)
    ensures
        #![trigger e.resume_tracking(tracking, saved)]
        leaves(
            e.link,
            e.resume_tracking(tracking, saved).e.link,
            Parts { tracking: true, ..none() },
        ),
        calms(e.link, e.resume_tracking(tracking, saved).e.link),
        same_los(e.state.v, e.resume_tracking(tracking, saved).e.state.v),
        same_table(e.state.v, e.resume_tracking(tracking, saved).e.state.v),
        same_bandwidths(e.state.v, e.resume_tracking(tracking, saved).e.state.v),
        same_chip(e, e.resume_tracking(tracking, saved).e),
{
    broadcast use {
        leaves_tracking_control,
        crate::kept::control::leaves_ensm_restore_state,
    };

    reveal(EngineView::resume_tracking);
}

pub broadcast proof fn leaves_tx_quad_calib_run(e: EngineView)
    ensures
        #![trigger e.tx_quad_calib_run()]
        leaves(
            e.link,
            e.tx_quad_calib_run().e.link,
            Parts { rx_filter: true, tx_filter: true, tracking: true, ..none() },
        ),
        calms(e.link, e.tx_quad_calib_run().e.link),
        same_los(e.state.v, e.tx_quad_calib_run().e.state.v),
        same_table(e.state.v, e.tx_quad_calib_run().e.state.v),
        same_bandwidths(e.state.v, e.tx_quad_calib_run().e.state.v),
        same_chip(e, e.tx_quad_calib_run().e),
{
    broadcast use {
        leaves_tx_quad_calib,
        leaves_pause_tracking,
        leaves_resume_tracking,
    };

    reveal(EngineView::tx_quad_calib_run);
}

pub broadcast proof fn leaves_bb_dc_offset_calib(e: EngineView)
    ensures
        #![trigger e.bb_dc_offset_calib()]
        leaves(e.link, e.bb_dc_offset_calib().e.link, none()),
        calms(e.link, e.bb_dc_offset_calib().e.link),
        same_los(e.state.v, e.bb_dc_offset_calib().e.state.v),
        same_table(e.state.v, e.bb_dc_offset_calib().e.state.v),
        same_bandwidths(e.state.v, e.bb_dc_offset_calib().e.state.v),
        same_chip(e, e.bb_dc_offset_calib().e),
{
    broadcast use {
        leaves_run_calibration,
        crate::kept::leaves_run,
    };

    reveal(EngineView::bb_dc_offset_calib);
}

pub broadcast proof fn leaves_rf_dc_offset_calib(e: EngineView, rx_freq: u64)
    ensures
        #![trigger e.rf_dc_offset_calib(rx_freq)]
        leaves(e.link, e.rf_dc_offset_calib(rx_freq).e.link, Parts { tracking: true, ..none() }),
        calms(e.link, e.rf_dc_offset_calib(rx_freq).e.link),
        same_los(e.state.v, e.rf_dc_offset_calib(rx_freq).e.state.v),
        same_table(e.state.v, e.rf_dc_offset_calib(rx_freq).e.state.v),
        same_bandwidths(e.state.v, e.rf_dc_offset_calib(rx_freq).e.state.v),
        same_chip(e, e.rf_dc_offset_calib(rx_freq).e),
{
    broadcast use {
        leaves_run_calibration,
        crate::kept::leaves_run,
    };

    reveal(EngineView::rf_dc_offset_calib);
}

pub broadcast proof fn leaves_calibrate_bandwidths(
    e: EngineView,
    rf_rx_bw: HertzU32,
    rf_tx_bw: HertzU32,
)
    ensures
        #![trigger e.calibrate_bandwidths(rf_rx_bw, rf_tx_bw)]
        leaves(
            e.link,
            e.calibrate_bandwidths(rf_rx_bw, rf_tx_bw).e.link,
            Parts { rx_filter: true, tx_filter: true, ..none() },
        ),
        calms(e.link, e.calibrate_bandwidths(rf_rx_bw, rf_tx_bw).e.link),
        same_los(e.state.v, e.calibrate_bandwidths(rf_rx_bw, rf_tx_bw).e.state.v),
        same_table(e.state.v, e.calibrate_bandwidths(rf_rx_bw, rf_tx_bw).e.state.v),
        same_chip(e, e.calibrate_bandwidths(rf_rx_bw, rf_tx_bw).e),
{
    broadcast use {
        leaves_update_rf_bandwidth_filters,
        leaves_tx_quad_calib,
    };

    reveal(EngineView::calibrate_bandwidths);
}

pub broadcast proof fn leaves_update_rf_bandwidth(
    e: EngineView,
    rf_rx_bw: HertzU32,
    rf_tx_bw: HertzU32,
)
    ensures
        #![trigger e.update_rf_bandwidth(rf_rx_bw, rf_tx_bw)]
        leaves(
            e.link,
            e.update_rf_bandwidth(rf_rx_bw, rf_tx_bw).e.link,
            Parts { rx_filter: true, tx_filter: true, tracking: true, ..none() },
        ),
        calms(e.link, e.update_rf_bandwidth(rf_rx_bw, rf_tx_bw).e.link),
        same_los(e.state.v, e.update_rf_bandwidth(rf_rx_bw, rf_tx_bw).e.state.v),
        same_table(e.state.v, e.update_rf_bandwidth(rf_rx_bw, rf_tx_bw).e.state.v),
        same_chip(e, e.update_rf_bandwidth(rf_rx_bw, rf_tx_bw).e),
{
    broadcast use {
        leaves_pause_tracking,
        leaves_resume_tracking,
        leaves_calibrate_bandwidths,
    };

    reveal(EngineView::update_rf_bandwidth);
}

} // verus!
