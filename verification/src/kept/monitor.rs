//! What the operations of [`crate::monitor`] leave alone.
use vstd::prelude::*;

use crate::engine::EngineView;
use crate::kept::{calms, leaves, none, same_bandwidths, same_chip, same_los, same_table};
use crate::link::put;
use crate::monitor::{RssiConfiguration, TxMonitorConfig};
use crate::registers::{CONFIG, GAIN_DIFF_WORDERROR_WRITE, GAIN_ERROR_READ, WORD_ADDRESS};

verus! {

pub broadcast proof fn leaves_rssi_setup(e: EngineView, ctrl: RssiConfiguration, is_update: bool)
    ensures
        #![trigger e.rssi_setup(ctrl, is_update)]
        leaves(e.link, e.rssi_setup(ctrl, is_update).e.link, none()),
        calms(e.link, e.rssi_setup(ctrl, is_update).e.link),
        same_los(e.state.v, e.rssi_setup(ctrl, is_update).e.state.v),
        same_table(e.state.v, e.rssi_setup(ctrl, is_update).e.state.v),
        same_bandwidths(e.state.v, e.rssi_setup(ctrl, is_update).e.state.v),
        same_chip(e, e.rssi_setup(ctrl, is_update).e),
{
    broadcast use crate::kept::leaves_run;

    reveal(EngineView::rssi_setup);
}

pub broadcast proof fn leaves_gain_step_prepare(e: EngineView, row: usize)
    ensures
        #![trigger e.gain_step_prepare(row)]
        leaves(e.link, e.gain_step_prepare(row).e.link, none()),
        calms(e.link, e.gain_step_prepare(row).e.link),
        same_los(e.state.v, e.gain_step_prepare(row).e.state.v),
        same_table(e.state.v, e.gain_step_prepare(row).e.state.v),
        same_bandwidths(e.state.v, e.gain_step_prepare(row).e.state.v),
        same_chip(e, e.gain_step_prepare(row).e),
{
    broadcast use crate::kept::leaves_run;

    reveal(EngineView::gain_step_prepare);
}

pub broadcast proof fn leaves_error_words_from(e: EngineView, i: int, n: int, words: Seq<u8>)
    ensures
        #![trigger e.error_words_from(i, n, words)]
        leaves(e.link, e.error_words_from(i, n, words).e.link, none()),
        calms(e.link, e.error_words_from(i, n, words).e.link),
        same_los(e.state.v, e.error_words_from(i, n, words).e.state.v),
        same_table(e.state.v, e.error_words_from(i, n, words).e.state.v),
        same_bandwidths(e.state.v, e.error_words_from(i, n, words).e.state.v),
        same_chip(e, e.error_words_from(i, n, words).e),
    decreases n - i,
{
    broadcast use {
        crate::kept::leaves_read,
        crate::kept::leaves_run,
    };

    if i < n {
        let mid = e.run([put(WORD_ADDRESS, i as u8)]@).read(GAIN_ERROR_READ);
        leaves_error_words_from(mid.e, i + 1, n, words.push(mid.r->Ok_0));
    }
}

pub broadcast proof fn leaves_read_error_words(e: EngineView, n: int)
    ensures
        #![trigger e.read_error_words(n)]
        leaves(e.link, e.read_error_words(n).e.link, none()),
        calms(e.link, e.read_error_words(n).e.link),
        same_los(e.state.v, e.read_error_words(n).e.state.v),
        same_table(e.state.v, e.read_error_words(n).e.state.v),
        same_bandwidths(e.state.v, e.read_error_words(n).e.state.v),
        same_chip(e, e.read_error_words(n).e),
{
    broadcast use leaves_error_words_from;

    reveal(EngineView::read_error_words);
}

pub broadcast proof fn leaves_put_words_from(e: EngineView, words: Seq<u8>, i: int, config: u8)
    ensures
        #![trigger e.put_words_from(words, i, config)]
        leaves(e.link, e.put_words_from(words, i, config).e.link, none()),
        calms(e.link, e.put_words_from(words, i, config).e.link),
        same_los(e.state.v, e.put_words_from(words, i, config).e.state.v),
        same_table(e.state.v, e.put_words_from(words, i, config).e.state.v),
        same_bandwidths(e.state.v, e.put_words_from(words, i, config).e.state.v),
        same_chip(e, e.put_words_from(words, i, config).e),
    decreases words.len() - i,
{
    broadcast use crate::kept::leaves_run;

    if i < words.len() {
        let mid = e.run(
            [
                put(WORD_ADDRESS, i as u8),
                put(GAIN_DIFF_WORDERROR_WRITE, words[i]),
                put(CONFIG, config),
            ]@,
        );
        leaves_put_words_from(mid.e, words, i + 1, config);
    }
}

pub broadcast proof fn leaves_write_error_words(e: EngineView, words: Seq<u8>, config: u8)
    ensures
        #![trigger e.write_error_words(words, config)]
        leaves(e.link, e.write_error_words(words, config).e.link, none()),
        calms(e.link, e.write_error_words(words, config).e.link),
        same_los(e.state.v, e.write_error_words(words, config).e.state.v),
        same_table(e.state.v, e.write_error_words(words, config).e.state.v),
        same_bandwidths(e.state.v, e.write_error_words(words, config).e.state.v),
        same_chip(e, e.write_error_words(words, config).e),
{
    broadcast use leaves_put_words_from;

    reveal(EngineView::write_error_words);
}

pub broadcast proof fn leaves_gain_step_copy(e: EngineView)
    ensures
        #![trigger e.gain_step_copy()]
        leaves(e.link, e.gain_step_copy().e.link, none()),
        calms(e.link, e.gain_step_copy().e.link),
        same_los(e.state.v, e.gain_step_copy().e.state.v),
        same_table(e.state.v, e.gain_step_copy().e.state.v),
        same_bandwidths(e.state.v, e.gain_step_copy().e.state.v),
        same_chip(e, e.gain_step_copy().e),
{
    broadcast use {
        crate::kept::leaves_run,
        leaves_read_error_words,
        leaves_write_error_words,
    };

    reveal(EngineView::gain_step_copy);
}

pub broadcast proof fn leaves_rssi_gain_step_calib(e: EngineView)
    ensures
        #![trigger e.rssi_gain_step_calib()]
        leaves(e.link, e.rssi_gain_step_calib().e.link, none()),
        calms(e.link, e.rssi_gain_step_calib().e.link),
        same_los(e.state.v, e.rssi_gain_step_calib().e.state.v),
        same_table(e.state.v, e.rssi_gain_step_calib().e.state.v),
        same_bandwidths(e.state.v, e.rssi_gain_step_calib().e.state.v),
        same_chip(e, e.rssi_gain_step_calib().e),
{
    broadcast use {
        crate::kept::calibration::leaves_run_calibration,
        crate::kept::control::leaves_ensm_force_state,
        crate::kept::control::leaves_ensm_restore_state,
        leaves_gain_step_prepare,
        leaves_gain_step_copy,
    };

    reveal(EngineView::rssi_gain_step_calib);
}

pub broadcast proof fn leaves_txmon_setup(e: EngineView, ctrl: TxMonitorConfig)
    ensures
        #![trigger e.txmon_setup(ctrl)]
        leaves(e.link, e.txmon_setup(ctrl).e.link, none()),
        calms(e.link, e.txmon_setup(ctrl).e.link),
        same_los(e.state.v, e.txmon_setup(ctrl).e.state.v),
        same_table(e.state.v, e.txmon_setup(ctrl).e.state.v),
        same_bandwidths(e.state.v, e.txmon_setup(ctrl).e.state.v),
        same_chip(e, e.txmon_setup(ctrl).e),
{
    broadcast use crate::kept::leaves_run;

    reveal(EngineView::txmon_setup);
}

} // verus!
