//! Repetition of the operations of [`crate::calibration`].
use vstd::prelude::*;

use crate::calibration::{AdcInputs, QuadPlan, RxPhase, TX_QUAD_CONVERGED, TrackingConfig};
use crate::control::SavedEnsmState;
use crate::engine::EngineView;
use crate::link::goes_on;
use crate::replay::{alike, alike_reply, together};
use crate::units::HertzU32;

verus! {

pub broadcast proof fn keeps_run_calibration(e: EngineView, mask: u8)
    ensures
        goes_on(e.link, (#[trigger] e.run_calibration(mask)).e.link),
{
    broadcast use {
        crate::replay::engine::keeps_run,
        crate::replay::engine::keeps_poll,
    };

    reveal(EngineView::run_calibration);
}

pub broadcast proof fn repeats_run_calibration(a: EngineView, b: EngineView, mask: u8)
    requires
        together(a, b),
    ensures
        #![trigger a.run_calibration(mask), b.run_calibration(mask)]
        alike(a.run_calibration(mask), b.run_calibration(mask)),
{
    broadcast use {
        crate::replay::engine::keeps_run,
        crate::replay::engine::keeps_poll,
        crate::replay::engine::repeats_run,
        crate::replay::engine::repeats_poll,
    };

    reveal(EngineView::run_calibration);
}

pub broadcast proof fn keeps_tx_quad_calib_once(e: EngineView, phase: u8, rxnco_word: u8, decim: u8)
    ensures
        goes_on(e.link, (#[trigger] e.tx_quad_calib_once(phase, rxnco_word, decim)).e.link),
{
    broadcast use {
        keeps_run_calibration,
        crate::replay::engine::keeps_read,
        crate::replay::engine::keeps_run,
    };

    reveal(EngineView::tx_quad_calib_once);
}

pub broadcast proof fn repeats_tx_quad_calib_once(
    a: EngineView,
    b: EngineView,
    phase: u8,
    rxnco_word: u8,
    decim: u8,
)
    requires
        together(a, b),
    ensures
        #![trigger a.tx_quad_calib_once(phase, rxnco_word, decim),
            b.tx_quad_calib_once(phase, rxnco_word, decim)]
        alike_reply(
            a.tx_quad_calib_once(phase, rxnco_word, decim),
            b.tx_quad_calib_once(phase, rxnco_word, decim),
        ),
{
    broadcast use {
        keeps_run_calibration,
        crate::replay::engine::keeps_read,
        crate::replay::engine::keeps_run,
        repeats_run_calibration,
        crate::replay::engine::repeats_read,
        crate::replay::engine::repeats_run,
    };

    reveal(EngineView::tx_quad_calib_once);
}

pub broadcast proof fn keeps_quad_trials_from(
    e: EngineView,
    i: int,
    failed: Seq<u8>,
    rxnco_word: u8,
    decim: u8,
)
    ensures
        goes_on(e.link, (#[trigger] e.quad_trials_from(i, failed, rxnco_word, decim)).e.link),
    decreases 32 - i,
{
    broadcast use keeps_tx_quad_calib_once;

    if i < 32 {
        let mid = e.tx_quad_calib_once(i as u8, rxnco_word, decim);
        let failed = failed.push(
            if mid.r->Ok_0 == TX_QUAD_CONVERGED {
                0
            } else {
                1
            },
        );
        keeps_quad_trials_from(mid.e, i + 1, failed, rxnco_word, decim);
    }
}

pub broadcast proof fn repeats_quad_trials_from(
    a: EngineView,
    b: EngineView,
    i: int,
    failed: Seq<u8>,
    rxnco_word: u8,
    decim: u8,
)
    requires
        together(a, b),
    ensures
        #![trigger a.quad_trials_from(i, failed, rxnco_word, decim),
            b.quad_trials_from(i, failed, rxnco_word, decim)]
        alike_reply(
            a.quad_trials_from(i, failed, rxnco_word, decim),
            b.quad_trials_from(i, failed, rxnco_word, decim),
        ),
    decreases 32 - i,
{
    broadcast use {
        keeps_tx_quad_calib_once,
        repeats_tx_quad_calib_once,
    };

    if i < 32 {
        let mid_a = a.tx_quad_calib_once(i as u8, rxnco_word, decim);
        let failed_a = failed.push(
            if mid_a.r->Ok_0 == TX_QUAD_CONVERGED {
                0
            } else {
                1
            },
        );
        let mid_b = b.tx_quad_calib_once(i as u8, rxnco_word, decim);
        let failed_b = failed.push(
            if mid_b.r->Ok_0 == TX_QUAD_CONVERGED {
                0
            } else {
                1
            },
        );
        keeps_quad_trials_from(mid_a.e, i + 1, failed_a, rxnco_word, decim);
        keeps_quad_trials_from(mid_b.e, i + 1, failed_b, rxnco_word, decim);
        if together(mid_a.e, mid_b.e) {
            repeats_quad_trials_from(mid_a.e, mid_b.e, i + 1, failed_a, rxnco_word, decim);
        }
    }
}

pub broadcast proof fn keeps_tx_quad_phase_search(e: EngineView, rxnco_word: u8, decim: u8)
    ensures
        goes_on(e.link, (#[trigger] e.tx_quad_phase_search(rxnco_word, decim)).e.link),
{
    broadcast use {
        keeps_tx_quad_calib_once,
        keeps_quad_trials_from,
    };

    reveal(EngineView::tx_quad_phase_search);
}

pub broadcast proof fn repeats_tx_quad_phase_search(
    a: EngineView,
    b: EngineView,
    rxnco_word: u8,
    decim: u8,
)
    requires
        together(a, b),
    ensures
        #![trigger a.tx_quad_phase_search(rxnco_word, decim),
            b.tx_quad_phase_search(rxnco_word, decim)]
        alike(a.tx_quad_phase_search(rxnco_word, decim), b.tx_quad_phase_search(rxnco_word, decim)),
{
    broadcast use {
        keeps_tx_quad_calib_once,
        keeps_quad_trials_from,
        repeats_tx_quad_calib_once,
        repeats_quad_trials_from,
    };

    reveal(EngineView::tx_quad_phase_search);
}

pub broadcast proof fn keeps_tx_quad_retry(e: EngineView, rxnco_word: u8, decim: u8)
    ensures
        goes_on(e.link, (#[trigger] e.tx_quad_retry(rxnco_word, decim)).e.link),
{
    broadcast use {
        keeps_tx_quad_calib_once,
        keeps_tx_quad_phase_search,
    };

    reveal(EngineView::tx_quad_retry);
}

pub broadcast proof fn repeats_tx_quad_retry(
    a: EngineView,
    b: EngineView,
    rxnco_word: u8,
    decim: u8,
)
    requires
        together(a, b),
    ensures
        #![trigger a.tx_quad_retry(rxnco_word, decim), b.tx_quad_retry(rxnco_word, decim)]
        alike(a.tx_quad_retry(rxnco_word, decim), b.tx_quad_retry(rxnco_word, decim)),
{
    broadcast use {
        keeps_tx_quad_calib_once,
        keeps_tx_quad_phase_search,
        repeats_tx_quad_calib_once,
        repeats_tx_quad_phase_search,
    };

    reveal(EngineView::tx_quad_retry);
}

pub broadcast proof fn keeps_tx_quad_calibrate(
    e: EngineView,
    phase: u8,
    rxnco_word: u8,
    decim: u8,
    rx_phase: RxPhase,
)
    ensures
        goes_on(
            e.link,
            (#[trigger] e.tx_quad_calibrate(phase, rxnco_word, decim, rx_phase)).e.link,
        ),
{
    broadcast use {
        keeps_tx_quad_calib_once,
        keeps_tx_quad_phase_search,
        keeps_tx_quad_retry,
    };

    reveal(EngineView::tx_quad_calibrate);
}

pub broadcast proof fn repeats_tx_quad_calibrate(
    a: EngineView,
    b: EngineView,
    phase: u8,
    rxnco_word: u8,
    decim: u8,
    rx_phase: RxPhase,
)
    requires
        together(a, b),
    ensures
        #![trigger a.tx_quad_calibrate(phase, rxnco_word, decim, rx_phase),
            b.tx_quad_calibrate(phase, rxnco_word, decim, rx_phase)]
        alike(
            a.tx_quad_calibrate(phase, rxnco_word, decim, rx_phase),
            b.tx_quad_calibrate(phase, rxnco_word, decim, rx_phase),
        ),
{
    broadcast use {
        keeps_tx_quad_calib_once,
        keeps_tx_quad_phase_search,
        keeps_tx_quad_retry,
        repeats_tx_quad_calib_once,
        repeats_tx_quad_phase_search,
        repeats_tx_quad_retry,
    };

    reveal(EngineView::tx_quad_calibrate);
}

pub broadcast proof fn keeps_quad_phase(e: EngineView, plan: QuadPlan, rx_phase: RxPhase)
    ensures
        goes_on(e.link, (#[trigger] e.quad_phase(plan, rx_phase)).e.link),
{
    broadcast use crate::replay::engine::keeps_read;

    reveal(EngineView::quad_phase);
}

pub broadcast proof fn repeats_quad_phase(
    a: EngineView,
    b: EngineView,
    plan: QuadPlan,
    rx_phase: RxPhase,
)
    requires
        together(a, b),
    ensures
        #![trigger a.quad_phase(plan, rx_phase), b.quad_phase(plan, rx_phase)]
        alike_reply(a.quad_phase(plan, rx_phase), b.quad_phase(plan, rx_phase)),
{
    broadcast use {
        crate::replay::engine::keeps_read,
        crate::replay::engine::repeats_read,
    };

    reveal(EngineView::quad_phase);
}

pub broadcast proof fn keeps_quad_uninvert(e: EngineView)
    ensures
        goes_on(e.link, (#[trigger] e.quad_uninvert()).e.link),
{
    broadcast use {
        crate::replay::engine::keeps_read,
        crate::replay::engine::keeps_run,
    };

    reveal(EngineView::quad_uninvert);
}

pub broadcast proof fn repeats_quad_uninvert(a: EngineView, b: EngineView)
    requires
        together(a, b),
    ensures
        #![trigger a.quad_uninvert(), b.quad_uninvert()]
        alike_reply(a.quad_uninvert(), b.quad_uninvert()),
{
    broadcast use {
        crate::replay::engine::keeps_read,
        crate::replay::engine::keeps_run,
        crate::replay::engine::repeats_read,
        crate::replay::engine::repeats_run,
    };

    reveal(EngineView::quad_uninvert);
}

pub broadcast proof fn keeps_quad_reinvert(e: EngineView, inverted: bool, saved: u8)
    ensures
        goes_on(e.link, (#[trigger] e.quad_reinvert(inverted, saved)).e.link),
{
    broadcast use crate::replay::engine::keeps_run;

    reveal(EngineView::quad_reinvert);
}

pub broadcast proof fn repeats_quad_reinvert(
    a: EngineView,
    b: EngineView,
    inverted: bool,
    saved: u8,
)
    requires
        together(a, b),
    ensures
        #![trigger a.quad_reinvert(inverted, saved), b.quad_reinvert(inverted, saved)]
        alike(a.quad_reinvert(inverted, saved), b.quad_reinvert(inverted, saved)),
{
    broadcast use {
        crate::replay::engine::keeps_run,
        crate::replay::engine::repeats_run,
    };

    reveal(EngineView::quad_reinvert);
}

pub broadcast proof fn keeps_quad_prepare(e: EngineView, txnco_word: u8)
    ensures
        goes_on(e.link, (#[trigger] e.quad_prepare(txnco_word)).e.link),
{
    broadcast use crate::replay::engine::keeps_run;

    reveal(EngineView::quad_prepare);
}

pub broadcast proof fn repeats_quad_prepare(a: EngineView, b: EngineView, txnco_word: u8)
    requires
        together(a, b),
    ensures
        #![trigger a.quad_prepare(txnco_word), b.quad_prepare(txnco_word)]
        alike(a.quad_prepare(txnco_word), b.quad_prepare(txnco_word)),
{
    broadcast use {
        crate::replay::engine::keeps_run,
        crate::replay::engine::repeats_run,
    };

    reveal(EngineView::quad_prepare);
}

pub broadcast proof fn keeps_rx_bb_analog_filter_calib(
    e: EngineView,
    rx_bb_bw: HertzU32,
    bbpll: HertzU32,
)
    ensures
        goes_on(e.link, (#[trigger] e.rx_bb_analog_filter_calib(rx_bb_bw, bbpll)).e.link),
{
    broadcast use {
        keeps_run_calibration,
        crate::replay::engine::keeps_run,
    };

    reveal(EngineView::rx_bb_analog_filter_calib);
}

pub broadcast proof fn repeats_rx_bb_analog_filter_calib(
    a: EngineView,
    b: EngineView,
    rx_bb_bw: HertzU32,
    bbpll: HertzU32,
)
    requires
        together(a, b),
    ensures
        #![trigger a.rx_bb_analog_filter_calib(rx_bb_bw, bbpll),
            b.rx_bb_analog_filter_calib(rx_bb_bw, bbpll)]
        alike_reply(
            a.rx_bb_analog_filter_calib(rx_bb_bw, bbpll),
            b.rx_bb_analog_filter_calib(rx_bb_bw, bbpll),
        ),
{
    broadcast use {
        keeps_run_calibration,
        crate::replay::engine::keeps_run,
        repeats_run_calibration,
        crate::replay::engine::repeats_run,
    };

    reveal(EngineView::rx_bb_analog_filter_calib);
}

pub broadcast proof fn keeps_tx_bb_analog_filter_calib(
    e: EngineView,
    tx_bb_bw: HertzU32,
    bbpll: HertzU32,
)
    ensures
        goes_on(e.link, (#[trigger] e.tx_bb_analog_filter_calib(tx_bb_bw, bbpll)).e.link),
{
    broadcast use {
        keeps_run_calibration,
        crate::replay::engine::keeps_run,
    };

    reveal(EngineView::tx_bb_analog_filter_calib);
}

pub broadcast proof fn repeats_tx_bb_analog_filter_calib(
    a: EngineView,
    b: EngineView,
    tx_bb_bw: HertzU32,
    bbpll: HertzU32,
)
    requires
        together(a, b),
    ensures
        #![trigger a.tx_bb_analog_filter_calib(tx_bb_bw, bbpll),
            b.tx_bb_analog_filter_calib(tx_bb_bw, bbpll)]
        alike(
            a.tx_bb_analog_filter_calib(tx_bb_bw, bbpll),
            b.tx_bb_analog_filter_calib(tx_bb_bw, bbpll),
        ),
{
    broadcast use {
        keeps_run_calibration,
        crate::replay::engine::keeps_run,
        repeats_run_calibration,
        crate::replay::engine::repeats_run,
    };

    reveal(EngineView::tx_bb_analog_filter_calib);
}

pub broadcast proof fn keeps_tx_bb_second_filter_calib(e: EngineView, tx_bb_bw: HertzU32)
    ensures
        goes_on(e.link, (#[trigger] e.tx_bb_second_filter_calib(tx_bb_bw)).e.link),
{
    broadcast use crate::replay::engine::keeps_run;

    reveal(EngineView::tx_bb_second_filter_calib);
}

pub broadcast proof fn repeats_tx_bb_second_filter_calib(
    a: EngineView,
    b: EngineView,
    tx_bb_bw: HertzU32,
)
    requires
        together(a, b),
    ensures
        #![trigger a.tx_bb_second_filter_calib(tx_bb_bw), b.tx_bb_second_filter_calib(tx_bb_bw)]
        alike(a.tx_bb_second_filter_calib(tx_bb_bw), b.tx_bb_second_filter_calib(tx_bb_bw)),
{
    broadcast use {
        crate::replay::engine::keeps_run,
        crate::replay::engine::repeats_run,
    };

    reveal(EngineView::tx_bb_second_filter_calib);
}

pub broadcast proof fn keeps_read_filter_codes(e: EngineView)
    ensures
        goes_on(e.link, (#[trigger] e.read_filter_codes()).e.link),
{
    broadcast use crate::replay::engine::keeps_read;

    reveal(EngineView::read_filter_codes);
}

pub broadcast proof fn repeats_read_filter_codes(a: EngineView, b: EngineView)
    requires
        together(a, b),
    ensures
        #![trigger a.read_filter_codes(), b.read_filter_codes()]
        alike_reply(a.read_filter_codes(), b.read_filter_codes()),
{
    broadcast use {
        crate::replay::engine::keeps_read,
        crate::replay::engine::repeats_read,
    };

    reveal(EngineView::read_filter_codes);
}

pub broadcast proof fn keeps_rx_tia_calib(e: EngineView, rx_bb_bw: HertzU32)
    ensures
        goes_on(e.link, (#[trigger] e.rx_tia_calib(rx_bb_bw)).e.link),
{
    broadcast use {
        keeps_read_filter_codes,
        crate::replay::engine::keeps_run,
    };

    reveal(EngineView::rx_tia_calib);
}

pub broadcast proof fn repeats_rx_tia_calib(a: EngineView, b: EngineView, rx_bb_bw: HertzU32)
    requires
        together(a, b),
    ensures
        #![trigger a.rx_tia_calib(rx_bb_bw), b.rx_tia_calib(rx_bb_bw)]
        alike(a.rx_tia_calib(rx_bb_bw), b.rx_tia_calib(rx_bb_bw)),
{
    broadcast use {
        keeps_read_filter_codes,
        crate::replay::engine::keeps_run,
        repeats_read_filter_codes,
        crate::replay::engine::repeats_run,
    };

    reveal(EngineView::rx_tia_calib);
}

pub broadcast proof fn keeps_write_adc(e: EngineView, i: AdcInputs)
    ensures
        goes_on(e.link, (#[trigger] e.write_adc(i)).e.link),
{
    broadcast use crate::replay::engine::keeps_run;

    reveal(EngineView::write_adc);
}

pub broadcast proof fn repeats_write_adc(a: EngineView, b: EngineView, i: AdcInputs)
    requires
        together(a, b),
    ensures
        #![trigger a.write_adc(i), b.write_adc(i)]
        alike(a.write_adc(i), b.write_adc(i)),
{
    broadcast use {
        crate::replay::engine::keeps_run,
        crate::replay::engine::repeats_run,
    };

    reveal(EngineView::write_adc);
}

pub broadcast proof fn keeps_rx_adc_setup(
    e: EngineView,
    bbpll: HertzU32,
    adc: HertzU32,
    rxbbf_div: u32,
)
    ensures
        goes_on(e.link, (#[trigger] e.rx_adc_setup(bbpll, adc, rxbbf_div)).e.link),
{
    broadcast use {
        keeps_read_filter_codes,
        keeps_write_adc,
    };

    reveal(EngineView::rx_adc_setup);
}

pub broadcast proof fn repeats_rx_adc_setup(
    a: EngineView,
    b: EngineView,
    bbpll: HertzU32,
    adc: HertzU32,
    rxbbf_div: u32,
)
    requires
        together(a, b),
    ensures
        #![trigger a.rx_adc_setup(bbpll, adc, rxbbf_div), b.rx_adc_setup(bbpll, adc, rxbbf_div)]
        alike(a.rx_adc_setup(bbpll, adc, rxbbf_div), b.rx_adc_setup(bbpll, adc, rxbbf_div)),
{
    broadcast use {
        keeps_read_filter_codes,
        keeps_write_adc,
        repeats_read_filter_codes,
        repeats_write_adc,
    };

    reveal(EngineView::rx_adc_setup);
}

pub broadcast proof fn keeps_filter_calibs(e: EngineView, rx: HertzU32, tx: HertzU32)
    ensures
        goes_on(e.link, (#[trigger] e.filter_calibs(rx, tx)).e.link),
{
    broadcast use {
        keeps_rx_bb_analog_filter_calib,
        keeps_tx_bb_analog_filter_calib,
        keeps_tx_bb_second_filter_calib,
        keeps_rx_tia_calib,
        keeps_rx_adc_setup,
    };

    reveal(EngineView::filter_calibs);
}

pub broadcast proof fn repeats_filter_calibs(
    a: EngineView,
    b: EngineView,
    rx: HertzU32,
    tx: HertzU32,
)
    requires
        together(a, b),
    ensures
        #![trigger a.filter_calibs(rx, tx), b.filter_calibs(rx, tx)]
        alike(a.filter_calibs(rx, tx), b.filter_calibs(rx, tx)),
{
    broadcast use {
        keeps_rx_bb_analog_filter_calib,
        keeps_tx_bb_analog_filter_calib,
        keeps_tx_bb_second_filter_calib,
        keeps_rx_tia_calib,
        keeps_rx_adc_setup,
        repeats_rx_bb_analog_filter_calib,
        repeats_tx_bb_analog_filter_calib,
        repeats_tx_bb_second_filter_calib,
        repeats_rx_tia_calib,
        repeats_rx_adc_setup,
    };

    reveal(EngineView::filter_calibs);
}

pub broadcast proof fn keeps_update_rf_bandwidth_filters(
    e: EngineView,
    rf_rx_bw: HertzU32,
    rf_tx_bw: HertzU32,
)
    ensures
        goes_on(e.link, (#[trigger] e.update_rf_bandwidth_filters(rf_rx_bw, rf_tx_bw)).e.link),
{
    broadcast use keeps_filter_calibs;

    reveal(EngineView::update_rf_bandwidth_filters);
}

pub broadcast proof fn repeats_update_rf_bandwidth_filters(
    a: EngineView,
    b: EngineView,
    rf_rx_bw: HertzU32,
    rf_tx_bw: HertzU32,
)
    requires
        together(a, b),
    ensures
        #![trigger a.update_rf_bandwidth_filters(rf_rx_bw, rf_tx_bw),
            b.update_rf_bandwidth_filters(rf_rx_bw, rf_tx_bw)]
        alike(
            a.update_rf_bandwidth_filters(rf_rx_bw, rf_tx_bw),
            b.update_rf_bandwidth_filters(rf_rx_bw, rf_tx_bw),
        ),
{
    broadcast use {
        keeps_filter_calibs,
        repeats_filter_calibs,
    };

    reveal(EngineView::update_rf_bandwidth_filters);
}

pub broadcast proof fn keeps_quad_widen(e: EngineView, widen: bool, freq: u32)
    ensures
        goes_on(e.link, (#[trigger] e.quad_widen(widen, freq)).e.link),
{
    broadcast use keeps_update_rf_bandwidth_filters;

    reveal(EngineView::quad_widen);
}

pub broadcast proof fn repeats_quad_widen(a: EngineView, b: EngineView, widen: bool, freq: u32)
    requires
        together(a, b),
    ensures
        #![trigger a.quad_widen(widen, freq), b.quad_widen(widen, freq)]
        alike(a.quad_widen(widen, freq), b.quad_widen(widen, freq)),
{
    broadcast use {
        keeps_update_rf_bandwidth_filters,
        repeats_update_rf_bandwidth_filters,
    };

    reveal(EngineView::quad_widen);
}

pub broadcast proof fn keeps_quad_narrow(e: EngineView, widen: bool)
    ensures
        goes_on(e.link, (#[trigger] e.quad_narrow(widen)).e.link),
{
    broadcast use keeps_update_rf_bandwidth_filters;

    reveal(EngineView::quad_narrow);
}

pub broadcast proof fn repeats_quad_narrow(a: EngineView, b: EngineView, widen: bool)
    requires
        together(a, b),
    ensures
        #![trigger a.quad_narrow(widen), b.quad_narrow(widen)]
        alike(a.quad_narrow(widen), b.quad_narrow(widen)),
{
    broadcast use {
        keeps_update_rf_bandwidth_filters,
        repeats_update_rf_bandwidth_filters,
    };

    reveal(EngineView::quad_narrow);
}

pub broadcast proof fn keeps_tx_quad_calib(e: EngineView, bw_rx: u32, bw_tx: u32, rx_phase: RxPhase)
    ensures
        goes_on(e.link, (#[trigger] e.tx_quad_calib(bw_rx, bw_tx, rx_phase)).e.link),
{
    broadcast use {
        keeps_tx_quad_calibrate,
        keeps_quad_phase,
        keeps_quad_uninvert,
        keeps_quad_reinvert,
        keeps_quad_prepare,
        keeps_quad_widen,
        keeps_quad_narrow,
    };

    reveal(EngineView::tx_quad_calib);
}

pub broadcast proof fn repeats_tx_quad_calib(
    a: EngineView,
    b: EngineView,
    bw_rx: u32,
    bw_tx: u32,
    rx_phase: RxPhase,
)
    requires
        together(a, b),
    ensures
        #![trigger a.tx_quad_calib(bw_rx, bw_tx, rx_phase), b.tx_quad_calib(bw_rx, bw_tx, rx_phase)]
        alike(a.tx_quad_calib(bw_rx, bw_tx, rx_phase), b.tx_quad_calib(bw_rx, bw_tx, rx_phase)),
{
    broadcast use {
        keeps_tx_quad_calibrate,
        keeps_quad_phase,
        keeps_quad_uninvert,
        keeps_quad_reinvert,
        keeps_quad_prepare,
        keeps_quad_widen,
        keeps_quad_narrow,
        repeats_tx_quad_calibrate,
        repeats_quad_phase,
        repeats_quad_uninvert,
        repeats_quad_reinvert,
        repeats_quad_prepare,
        repeats_quad_widen,
        repeats_quad_narrow,
    };

    reveal(EngineView::tx_quad_calib);
}

pub broadcast proof fn keeps_tracking_control(e: EngineView, tracking: TrackingConfig)
    ensures
        goes_on(e.link, (#[trigger] e.tracking_control(tracking)).e.link),
{
    broadcast use crate::replay::engine::keeps_run;

    reveal(EngineView::tracking_control);
}

pub broadcast proof fn repeats_tracking_control(
    a: EngineView,
    b: EngineView,
    tracking: TrackingConfig,
)
    requires
        together(a, b),
    ensures
        #![trigger a.tracking_control(tracking), b.tracking_control(tracking)]
        alike(a.tracking_control(tracking), b.tracking_control(tracking)),
{
    broadcast use {
        crate::replay::engine::keeps_run,
        crate::replay::engine::repeats_run,
    };

    reveal(EngineView::tracking_control);
}

pub broadcast proof fn keeps_pause_tracking(e: EngineView)
    ensures
        goes_on(e.link, (#[trigger] e.pause_tracking()).e.link),
{
    broadcast use {
        keeps_tracking_control,
        crate::replay::control::keeps_ensm_force_state,
    };

    reveal(EngineView::pause_tracking);
}

pub broadcast proof fn repeats_pause_tracking(a: EngineView, b: EngineView)
    requires
        together(a, b),
    ensures
        #![trigger a.pause_tracking(), b.pause_tracking()]
        alike_reply(a.pause_tracking(), b.pause_tracking()),
{
    broadcast use {
        keeps_tracking_control,
        crate::replay::control::keeps_ensm_force_state,
        repeats_tracking_control,
        crate::replay::control::repeats_ensm_force_state,
    };

    reveal(EngineView::pause_tracking);
}

pub broadcast proof fn keeps_resume_tracking(
    e: EngineView,
    tracking: TrackingConfig,
    saved: SavedEnsmState,
)
    ensures
        goes_on(e.link, (#[trigger] e.resume_tracking(tracking, saved)).e.link),
{
    broadcast use {
        keeps_tracking_control,
        crate::replay::control::keeps_ensm_restore_state,
    };

    reveal(EngineView::resume_tracking);
}

pub broadcast proof fn repeats_resume_tracking(
    a: EngineView,
    b: EngineView,
    tracking: TrackingConfig,
    saved: SavedEnsmState,
)
    requires
        together(a, b),
    ensures
        #![trigger a.resume_tracking(tracking, saved), b.resume_tracking(tracking, saved)]
        alike(a.resume_tracking(tracking, saved), b.resume_tracking(tracking, saved)),
{
    broadcast use {
        keeps_tracking_control,
        crate::replay::control::keeps_ensm_restore_state,
        repeats_tracking_control,
        crate::replay::control::repeats_ensm_restore_state,
    };

    reveal(EngineView::resume_tracking);
}

pub broadcast proof fn keeps_tx_quad_calib_run(e: EngineView)
    ensures
        goes_on(e.link, (#[trigger] e.tx_quad_calib_run()).e.link),
{
    broadcast use {
        keeps_tx_quad_calib,
        keeps_pause_tracking,
        keeps_resume_tracking,
    };

    reveal(EngineView::tx_quad_calib_run);
}

pub broadcast proof fn repeats_tx_quad_calib_run(a: EngineView, b: EngineView)
    requires
        together(a, b),
    ensures
        #![trigger a.tx_quad_calib_run(), b.tx_quad_calib_run()]
        alike(a.tx_quad_calib_run(), b.tx_quad_calib_run()),
{
    broadcast use {
        keeps_tx_quad_calib,
        keeps_pause_tracking,
        keeps_resume_tracking,
        repeats_tx_quad_calib,
        repeats_pause_tracking,
        repeats_resume_tracking,
    };

    reveal(EngineView::tx_quad_calib_run);
}

pub broadcast proof fn keeps_bb_dc_offset_calib(e: EngineView)
    ensures
        goes_on(e.link, (#[trigger] e.bb_dc_offset_calib()).e.link),
{
    broadcast use {
        keeps_run_calibration,
        crate::replay::engine::keeps_run,
    };

    reveal(EngineView::bb_dc_offset_calib);
}

pub broadcast proof fn repeats_bb_dc_offset_calib(a: EngineView, b: EngineView)
    requires
        together(a, b),
    ensures
        #![trigger a.bb_dc_offset_calib(), b.bb_dc_offset_calib()]
        alike(a.bb_dc_offset_calib(), b.bb_dc_offset_calib()),
{
    broadcast use {
        keeps_run_calibration,
        crate::replay::engine::keeps_run,
        repeats_run_calibration,
        crate::replay::engine::repeats_run,
    };

    reveal(EngineView::bb_dc_offset_calib);
}

pub broadcast proof fn keeps_rf_dc_offset_calib(e: EngineView, rx_freq: u64)
    ensures
        goes_on(e.link, (#[trigger] e.rf_dc_offset_calib(rx_freq)).e.link),
{
    broadcast use {
        keeps_run_calibration,
        crate::replay::engine::keeps_run,
    };

    reveal(EngineView::rf_dc_offset_calib);
}

pub broadcast proof fn repeats_rf_dc_offset_calib(a: EngineView, b: EngineView, rx_freq: u64)
    requires
        together(a, b),
    ensures
        #![trigger a.rf_dc_offset_calib(rx_freq), b.rf_dc_offset_calib(rx_freq)]
        alike(a.rf_dc_offset_calib(rx_freq), b.rf_dc_offset_calib(rx_freq)),
{
    broadcast use {
        keeps_run_calibration,
        crate::replay::engine::keeps_run,
        repeats_run_calibration,
        crate::replay::engine::repeats_run,
    };

    reveal(EngineView::rf_dc_offset_calib);
}

pub broadcast proof fn keeps_calibrate_bandwidths(
    e: EngineView,
    rf_rx_bw: HertzU32,
    rf_tx_bw: HertzU32,
)
    ensures
        goes_on(e.link, (#[trigger] e.calibrate_bandwidths(rf_rx_bw, rf_tx_bw)).e.link),
{
    broadcast use {
        keeps_update_rf_bandwidth_filters,
        keeps_tx_quad_calib,
    };

    reveal(EngineView::calibrate_bandwidths);
}

pub broadcast proof fn repeats_calibrate_bandwidths(
    a: EngineView,
    b: EngineView,
    rf_rx_bw: HertzU32,
    rf_tx_bw: HertzU32,
)
    requires
        together(a, b),
    ensures
        #![trigger a.calibrate_bandwidths(rf_rx_bw, rf_tx_bw),
            b.calibrate_bandwidths(rf_rx_bw, rf_tx_bw)]
        alike(
            a.calibrate_bandwidths(rf_rx_bw, rf_tx_bw),
            b.calibrate_bandwidths(rf_rx_bw, rf_tx_bw),
        ),
{
    broadcast use {
        keeps_update_rf_bandwidth_filters,
        keeps_tx_quad_calib,
        repeats_update_rf_bandwidth_filters,
        repeats_tx_quad_calib,
    };

    reveal(EngineView::calibrate_bandwidths);
}

pub broadcast proof fn keeps_update_rf_bandwidth(
    e: EngineView,
    rf_rx_bw: HertzU32,
    rf_tx_bw: HertzU32,
)
    ensures
        goes_on(e.link, (#[trigger] e.update_rf_bandwidth(rf_rx_bw, rf_tx_bw)).e.link),
{
    broadcast use {
        keeps_pause_tracking,
        keeps_resume_tracking,
        keeps_calibrate_bandwidths,
    };

    reveal(EngineView::update_rf_bandwidth);
}

pub broadcast proof fn repeats_update_rf_bandwidth(
    a: EngineView,
    b: EngineView,
    rf_rx_bw: HertzU32,
    rf_tx_bw: HertzU32,
)
    requires
        together(a, b),
    ensures
        #![trigger a.update_rf_bandwidth(rf_rx_bw, rf_tx_bw),
            b.update_rf_bandwidth(rf_rx_bw, rf_tx_bw)]
        alike(a.update_rf_bandwidth(rf_rx_bw, rf_tx_bw), b.update_rf_bandwidth(rf_rx_bw, rf_tx_bw)),
{
    broadcast use {
        keeps_pause_tracking,
        keeps_resume_tracking,
        keeps_calibrate_bandwidths,
        repeats_pause_tracking,
        repeats_resume_tracking,
        repeats_calibrate_bandwidths,
    };

    reveal(EngineView::update_rf_bandwidth);
}

} // verus!
