//! Repetition of the operations of [`crate::monitor`].
use vstd::prelude::*;

use crate::engine::EngineView;
use crate::link::{goes_on, put};
use crate::monitor::{RssiConfiguration, TxMonitorConfig};
use crate::registers::{CONFIG, GAIN_DIFF_WORDERROR_WRITE, GAIN_ERROR_READ, WORD_ADDRESS};
use crate::replay::{alike, alike_reply, together};

verus! {

pub broadcast proof fn keeps_rssi_setup(e: EngineView, ctrl: RssiConfiguration, is_update: bool)
    ensures
        goes_on(e.link, (#[trigger] e.rssi_setup(ctrl, is_update)).e.link),
{
    broadcast use crate::replay::engine::keeps_run;

    reveal(EngineView::rssi_setup);
}

pub broadcast proof fn repeats_rssi_setup(
    a: EngineView,
    b: EngineView,
    ctrl: RssiConfiguration,
    is_update: bool,
)
    requires
        together(a, b),
    ensures
        #![trigger a.rssi_setup(ctrl, is_update), b.rssi_setup(ctrl, is_update)]
        alike(a.rssi_setup(ctrl, is_update), b.rssi_setup(ctrl, is_update)),
{
    broadcast use {
        crate::replay::engine::keeps_run,
        crate::replay::engine::repeats_run,
    };

    reveal(EngineView::rssi_setup);
}

pub broadcast proof fn keeps_gain_step_prepare(e: EngineView, row: usize)
    ensures
        goes_on(e.link, (#[trigger] e.gain_step_prepare(row)).e.link),
{
    broadcast use crate::replay::engine::keeps_run;

    reveal(EngineView::gain_step_prepare);
}

pub broadcast proof fn repeats_gain_step_prepare(a: EngineView, b: EngineView, row: usize)
    requires
        together(a, b),
    ensures
        #![trigger a.gain_step_prepare(row), b.gain_step_prepare(row)]
        alike(a.gain_step_prepare(row), b.gain_step_prepare(row)),
{
    broadcast use {
        crate::replay::engine::keeps_run,
        crate::replay::engine::repeats_run,
    };

    reveal(EngineView::gain_step_prepare);
}

pub broadcast proof fn keeps_error_words_from(e: EngineView, i: int, n: int, words: Seq<u8>)
    ensures
        goes_on(e.link, (#[trigger] e.error_words_from(i, n, words)).e.link),
    decreases n - i,
{
    broadcast use {
        crate::replay::engine::keeps_read,
        crate::replay::engine::keeps_run,
    };

    if i < n {
        let mid = e.run([put(WORD_ADDRESS, i as u8)]@).read(GAIN_ERROR_READ);
        keeps_error_words_from(mid.e, i + 1, n, words.push(mid.r->Ok_0));
    }
}

pub broadcast proof fn repeats_error_words_from(
    a: EngineView,
    b: EngineView,
    i: int,
    n: int,
    words: Seq<u8>,
)
    requires
        together(a, b),
    ensures
        #![trigger a.error_words_from(i, n, words), b.error_words_from(i, n, words)]
        alike_reply(a.error_words_from(i, n, words), b.error_words_from(i, n, words)),
    decreases n - i,
{
    broadcast use {
        crate::replay::engine::keeps_read,
        crate::replay::engine::keeps_run,
        crate::replay::engine::repeats_read,
        crate::replay::engine::repeats_run,
    };

    if i < n {
        let mid_a = a.run([put(WORD_ADDRESS, i as u8)]@).read(GAIN_ERROR_READ);
        let mid_b = b.run([put(WORD_ADDRESS, i as u8)]@).read(GAIN_ERROR_READ);
        keeps_error_words_from(mid_a.e, i + 1, n, words.push(mid_a.r->Ok_0));
        keeps_error_words_from(mid_b.e, i + 1, n, words.push(mid_b.r->Ok_0));
        if together(mid_a.e, mid_b.e) {
            repeats_error_words_from(mid_a.e, mid_b.e, i + 1, n, words.push(mid_a.r->Ok_0));
        }
    }
}

pub broadcast proof fn keeps_read_error_words(e: EngineView, n: int)
    ensures
        goes_on(e.link, (#[trigger] e.read_error_words(n)).e.link),
{
    broadcast use keeps_error_words_from;

    reveal(EngineView::read_error_words);
}

pub broadcast proof fn repeats_read_error_words(a: EngineView, b: EngineView, n: int)
    requires
        together(a, b),
    ensures
        #![trigger a.read_error_words(n), b.read_error_words(n)]
        alike_reply(a.read_error_words(n), b.read_error_words(n)),
{
    broadcast use {
        keeps_error_words_from,
        repeats_error_words_from,
    };

    reveal(EngineView::read_error_words);
}

pub broadcast proof fn keeps_put_words_from(e: EngineView, words: Seq<u8>, i: int, config: u8)
    ensures
        goes_on(e.link, (#[trigger] e.put_words_from(words, i, config)).e.link),
    decreases words.len() - i,
{
    broadcast use crate::replay::engine::keeps_run;

    if i < words.len() {
        let mid = e.run(
            [
                put(WORD_ADDRESS, i as u8),
                put(GAIN_DIFF_WORDERROR_WRITE, words[i]),
                put(CONFIG, config),
            ]@,
        );
        keeps_put_words_from(mid.e, words, i + 1, config);
    }
}

pub broadcast proof fn repeats_put_words_from(
    a: EngineView,
    b: EngineView,
    words: Seq<u8>,
    i: int,
    config: u8,
)
    requires
        together(a, b),
    ensures
        #![trigger a.put_words_from(words, i, config), b.put_words_from(words, i, config)]
        alike(a.put_words_from(words, i, config), b.put_words_from(words, i, config)),
    decreases words.len() - i,
{
    broadcast use {
        crate::replay::engine::keeps_run,
        crate::replay::engine::repeats_run,
    };

    if i < words.len() {
        let mid_a = a.run(
            [
                put(WORD_ADDRESS, i as u8),
                put(GAIN_DIFF_WORDERROR_WRITE, words[i]),
                put(CONFIG, config),
            ]@,
        );
        let mid_b = b.run(
            [
                put(WORD_ADDRESS, i as u8),
                put(GAIN_DIFF_WORDERROR_WRITE, words[i]),
                put(CONFIG, config),
            ]@,
        );
        keeps_put_words_from(mid_a.e, words, i + 1, config);
        keeps_put_words_from(mid_b.e, words, i + 1, config);
        if together(mid_a.e, mid_b.e) {
            repeats_put_words_from(mid_a.e, mid_b.e, words, i + 1, config);
        }
    }
}

pub broadcast proof fn keeps_write_error_words(e: EngineView, words: Seq<u8>, config: u8)
    ensures
        goes_on(e.link, (#[trigger] e.write_error_words(words, config)).e.link),
{
    broadcast use keeps_put_words_from;

    reveal(EngineView::write_error_words);
}

pub broadcast proof fn repeats_write_error_words(
    a: EngineView,
    b: EngineView,
    words: Seq<u8>,
    config: u8,
)
    requires
        together(a, b),
    ensures
        #![trigger a.write_error_words(words, config), b.write_error_words(words, config)]
        alike(a.write_error_words(words, config), b.write_error_words(words, config)),
{
    broadcast use {
        keeps_put_words_from,
        repeats_put_words_from,
    };

    reveal(EngineView::write_error_words);
}

pub broadcast proof fn keeps_gain_step_copy(e: EngineView)
    ensures
        goes_on(e.link, (#[trigger] e.gain_step_copy()).e.link),
{
    broadcast use {
        crate::replay::engine::keeps_run,
        keeps_read_error_words,
        keeps_write_error_words,
    };

    reveal(EngineView::gain_step_copy);
}

pub broadcast proof fn repeats_gain_step_copy(a: EngineView, b: EngineView)
    requires
        together(a, b),
    ensures
        #![trigger a.gain_step_copy(), b.gain_step_copy()]
        alike(a.gain_step_copy(), b.gain_step_copy()),
{
    broadcast use {
        crate::replay::engine::keeps_run,
        keeps_read_error_words,
        keeps_write_error_words,
        crate::replay::engine::repeats_run,
        repeats_read_error_words,
        repeats_write_error_words,
    };

    reveal(EngineView::gain_step_copy);
}

pub broadcast proof fn keeps_rssi_gain_step_calib(e: EngineView)
    ensures
        goes_on(e.link, (#[trigger] e.rssi_gain_step_calib()).e.link),
{
    broadcast use {
        crate::replay::calibration::keeps_run_calibration,
        crate::replay::control::keeps_ensm_force_state,
        crate::replay::control::keeps_ensm_restore_state,
        keeps_gain_step_prepare,
        keeps_gain_step_copy,
    };

    reveal(EngineView::rssi_gain_step_calib);
}

pub broadcast proof fn repeats_rssi_gain_step_calib(a: EngineView, b: EngineView)
    requires
        together(a, b),
    ensures
        #![trigger a.rssi_gain_step_calib(), b.rssi_gain_step_calib()]
        alike(a.rssi_gain_step_calib(), b.rssi_gain_step_calib()),
{
    broadcast use {
        crate::replay::calibration::keeps_run_calibration,
        crate::replay::control::keeps_ensm_force_state,
        crate::replay::control::keeps_ensm_restore_state,
        keeps_gain_step_prepare,
        keeps_gain_step_copy,
        crate::replay::calibration::repeats_run_calibration,
        crate::replay::control::repeats_ensm_force_state,
        crate::replay::control::repeats_ensm_restore_state,
        repeats_gain_step_prepare,
        repeats_gain_step_copy,
    };

    reveal(EngineView::rssi_gain_step_calib);
}

pub broadcast proof fn keeps_txmon_setup(e: EngineView, ctrl: TxMonitorConfig)
    ensures
        goes_on(e.link, (#[trigger] e.txmon_setup(ctrl)).e.link),
{
    broadcast use crate::replay::engine::keeps_run;

    reveal(EngineView::txmon_setup);
}

pub broadcast proof fn repeats_txmon_setup(a: EngineView, b: EngineView, ctrl: TxMonitorConfig)
    requires
        together(a, b),
    ensures
        #![trigger a.txmon_setup(ctrl), b.txmon_setup(ctrl)]
        alike(a.txmon_setup(ctrl), b.txmon_setup(ctrl)),
{
    broadcast use {
        crate::replay::engine::keeps_run,
        crate::replay::engine::repeats_run,
    };

    reveal(EngineView::txmon_setup);
}

} // verus!
