//! What the operations of [`crate::gain_control`] leave alone.
use vstd::prelude::*;

use crate::engine::EngineView;
use crate::gain_control::{GainControl, GainMode, GainTableDest, GM_ST_CTRL, GM_ST_GAIN};
use crate::kept::{calms, leaves, none, same_bandwidths, same_chip, same_los, same_table, Parts};
use crate::link::put;
use crate::ports::Channel;
use crate::registers::{
    GAIN_TABLE_ADDRESS, GAIN_TABLE_CONFIG, GAIN_TABLE_READ_DATA1, GAIN_TABLE_WRITE_DATA1,
    GAIN_TABLE_WRITE_DATA2, GAIN_TABLE_WRITE_DATA3, GM_SUB_TABLE_ADDRESS, GM_SUB_TABLE_BIAS_WRITE,
    GM_SUB_TABLE_CONFIG, GM_SUB_TABLE_CONTROL_WRITE, GM_SUB_TABLE_GAIN_READ,
    GM_SUB_TABLE_GAIN_WRITE, START_GM_SUB_TABLE_CLOCK, WRITE_GAIN_TABLE, WRITE_GM_SUB_TABLE,
};

verus! {

pub broadcast proof fn leaves_gc_update(e: EngineView)
    ensures
        #![trigger e.gc_update()]
        leaves(e.link, e.gc_update().e.link, none()),
        calms(e.link, e.gc_update().e.link),
        same_los(e.state.v, e.gc_update().e.state.v),
        same_table(e.state.v, e.gc_update().e.state.v),
        same_bandwidths(e.state.v, e.gc_update().e.state.v),
        same_chip(e, e.gc_update().e),
{
    broadcast use crate::kept::leaves_run;

    reveal(EngineView::gc_update);
}

pub broadcast proof fn leaves_gm_rows_from(e: EngineView, i: int)
    ensures
        #![trigger e.gm_rows_from(i)]
        leaves(e.link, e.gm_rows_from(i).e.link, none()),
        calms(e.link, e.gm_rows_from(i).e.link),
        same_los(e.state.v, e.gm_rows_from(i).e.state.v),
        same_table(e.state.v, e.gm_rows_from(i).e.state.v),
        same_bandwidths(e.state.v, e.gm_rows_from(i).e.state.v),
        same_chip(e, e.gm_rows_from(i).e),
    decreases 16 - i,
{
    broadcast use crate::kept::leaves_run;

    if i < 16 {
        let mid = e.run(
            [
                put(GM_SUB_TABLE_ADDRESS, (15 - i) as u8),
                put(GM_SUB_TABLE_BIAS_WRITE, 0),
                put(GM_SUB_TABLE_GAIN_WRITE, GM_ST_GAIN[i]),
                put(GM_SUB_TABLE_CONTROL_WRITE, GM_ST_CTRL[i]),
                put(GM_SUB_TABLE_CONFIG, START_GM_SUB_TABLE_CLOCK | WRITE_GM_SUB_TABLE),
                put(GM_SUB_TABLE_GAIN_READ, 0),
                put(GM_SUB_TABLE_GAIN_READ, 0),
            ]@,
        );
        leaves_gm_rows_from(mid.e, i + 1);
    }
}

pub broadcast proof fn leaves_load_mixer_gm_subtable(e: EngineView)
    ensures
        #![trigger e.load_mixer_gm_subtable()]
        leaves(e.link, e.load_mixer_gm_subtable().e.link, none()),
        calms(e.link, e.load_mixer_gm_subtable().e.link),
        same_los(e.state.v, e.load_mixer_gm_subtable().e.state.v),
        same_table(e.state.v, e.load_mixer_gm_subtable().e.state.v),
        same_bandwidths(e.state.v, e.load_mixer_gm_subtable().e.state.v),
        same_chip(e, e.load_mixer_gm_subtable().e),
{
    broadcast use {
        crate::kept::leaves_run,
        leaves_gm_rows_from,
    };

    reveal(EngineView::load_mixer_gm_subtable);
}

pub broadcast proof fn leaves_gc_modes(e: EngineView, ctrl: GainControl)
    ensures
        #![trigger e.gc_modes(ctrl)]
        leaves(e.link, e.gc_modes(ctrl).e.link, Parts { modes: true, ..none() }),
        calms(e.link, e.gc_modes(ctrl).e.link),
        same_los(e.state.v, e.gc_modes(ctrl).e.state.v),
        same_table(e.state.v, e.gc_modes(ctrl).e.state.v),
        same_bandwidths(e.state.v, e.gc_modes(ctrl).e.state.v),
        same_chip(e, e.gc_modes(ctrl).e),
{
    broadcast use crate::kept::leaves_run;

    reveal(EngineView::gc_modes);
}

pub broadcast proof fn leaves_gc_thresholds(e: EngineView, ctrl: GainControl)
    ensures
        #![trigger e.gc_thresholds(ctrl)]
        leaves(e.link, e.gc_thresholds(ctrl).e.link, none()),
        calms(e.link, e.gc_thresholds(ctrl).e.link),
        same_los(e.state.v, e.gc_thresholds(ctrl).e.state.v),
        same_table(e.state.v, e.gc_thresholds(ctrl).e.state.v),
        same_bandwidths(e.state.v, e.gc_thresholds(ctrl).e.state.v),
        same_chip(e, e.gc_thresholds(ctrl).e),
{
    broadcast use crate::kept::leaves_run;

    reveal(EngineView::gc_thresholds);
}

pub broadcast proof fn leaves_gc_slow_attack(e: EngineView, ctrl: GainControl)
    ensures
        #![trigger e.gc_slow_attack(ctrl)]
        leaves(e.link, e.gc_slow_attack(ctrl).e.link, none()),
        calms(e.link, e.gc_slow_attack(ctrl).e.link),
        same_los(e.state.v, e.gc_slow_attack(ctrl).e.state.v),
        same_table(e.state.v, e.gc_slow_attack(ctrl).e.state.v),
        same_bandwidths(e.state.v, e.gc_slow_attack(ctrl).e.state.v),
        same_chip(e, e.gc_slow_attack(ctrl).e),
{
    broadcast use crate::kept::leaves_run;

    reveal(EngineView::gc_slow_attack);
}

pub broadcast proof fn leaves_gc_fast_attack(e: EngineView, ctrl: GainControl)
    ensures
        #![trigger e.gc_fast_attack(ctrl)]
        leaves(e.link, e.gc_fast_attack(ctrl).e.link, none()),
        calms(e.link, e.gc_fast_attack(ctrl).e.link),
        same_los(e.state.v, e.gc_fast_attack(ctrl).e.state.v),
        same_table(e.state.v, e.gc_fast_attack(ctrl).e.state.v),
        same_bandwidths(e.state.v, e.gc_fast_attack(ctrl).e.state.v),
        same_chip(e, e.gc_fast_attack(ctrl).e),
{
    broadcast use crate::kept::leaves_run;

    reveal(EngineView::gc_fast_attack);
}

pub broadcast proof fn leaves_gc_unlock(e: EngineView, ctrl: GainControl)
    ensures
        #![trigger e.gc_unlock(ctrl)]
        leaves(e.link, e.gc_unlock(ctrl).e.link, none()),
        calms(e.link, e.gc_unlock(ctrl).e.link),
        same_los(e.state.v, e.gc_unlock(ctrl).e.state.v),
        same_table(e.state.v, e.gc_unlock(ctrl).e.state.v),
        same_bandwidths(e.state.v, e.gc_unlock(ctrl).e.state.v),
        same_chip(e, e.gc_unlock(ctrl).e),
{
    broadcast use crate::kept::leaves_run;

    reveal(EngineView::gc_unlock);
}

pub broadcast proof fn leaves_set_agc_pulled_high(
    e: EngineView,
    goto_max_or_opt: bool,
    goto_set: bool,
    goto_opt: Option<bool>,
)
    ensures
        #![trigger e.set_agc_pulled_high(goto_max_or_opt, goto_set, goto_opt)]
        leaves(e.link, e.set_agc_pulled_high(goto_max_or_opt, goto_set, goto_opt).e.link, none()),
        calms(e.link, e.set_agc_pulled_high(goto_max_or_opt, goto_set, goto_opt).e.link),
        same_los(e.state.v, e.set_agc_pulled_high(goto_max_or_opt, goto_set, goto_opt).e.state.v),
        same_table(e.state.v, e.set_agc_pulled_high(goto_max_or_opt, goto_set, goto_opt).e.state.v),
        same_bandwidths(e.state.v, e.set_agc_pulled_high(goto_max_or_opt, goto_set, goto_opt).e.state.v),
        same_chip(e, e.set_agc_pulled_high(goto_max_or_opt, goto_set, goto_opt).e),
{
    broadcast use crate::kept::leaves_run;

    reveal(EngineView::set_agc_pulled_high);
}

pub broadcast proof fn leaves_gc_setup(e: EngineView, ctrl: GainControl)
    ensures
        #![trigger e.gc_setup(ctrl)]
        leaves(e.link, e.gc_setup(ctrl).e.link, Parts { modes: true, ..none() }),
        calms(e.link, e.gc_setup(ctrl).e.link),
        same_los(e.state.v, e.gc_setup(ctrl).e.state.v),
        same_table(e.state.v, e.gc_setup(ctrl).e.state.v),
        same_bandwidths(e.state.v, e.gc_setup(ctrl).e.state.v),
        same_chip(e, e.gc_setup(ctrl).e),
{
    broadcast use {
        crate::kept::leaves_run,
        leaves_gc_modes,
        leaves_gc_thresholds,
        leaves_gc_slow_attack,
        leaves_gc_fast_attack,
        leaves_gc_unlock,
        leaves_set_agc_pulled_high,
        leaves_gc_update,
    };

    reveal(EngineView::gc_setup);
}

pub broadcast proof fn leaves_gain_rows_from(
    e: EngineView,
    entries: Seq<[u8; 3]>,
    i: int,
    config: u8,
    ext_lna: u8,
    mask: u8,
)
    ensures
        #![trigger e.gain_rows_from(entries, i, config, ext_lna, mask)]
        leaves(e.link, e.gain_rows_from(entries, i, config, ext_lna, mask).e.link, none()),
        same_los(e.state.v, e.gain_rows_from(entries, i, config, ext_lna, mask).e.state.v),
        same_table(e.state.v, e.gain_rows_from(entries, i, config, ext_lna, mask).e.state.v),
        same_bandwidths(e.state.v, e.gain_rows_from(entries, i, config, ext_lna, mask).e.state.v),
        same_chip(e, e.gain_rows_from(entries, i, config, ext_lna, mask).e),
    decreases entries.len() - i,
{
    broadcast use crate::kept::leaves_run;

    if i < entries.len() {
        let word = entries[i];
        let row = e.run(
            [
                put(GAIN_TABLE_ADDRESS, i as u8),
                put(GAIN_TABLE_WRITE_DATA1, word[0] | ext_lna),
                put(GAIN_TABLE_WRITE_DATA2, word[1]),
                put(GAIN_TABLE_WRITE_DATA3, word[2]),
                put(GAIN_TABLE_CONFIG, config | WRITE_GAIN_TABLE),
                put(GAIN_TABLE_READ_DATA1, 0),
                put(GAIN_TABLE_READ_DATA1, 0),
            ]@,
        );
        let mid = if word[1] & mask == 0x20 {
            row.set_lpf_tia_match(Some(i as u8))
        } else {
            row
        };
        leaves_gain_rows_from(mid.e, entries, i + 1, config, ext_lna, mask);
    }
}

pub broadcast proof fn leaves_gain_rows(e: EngineView, band: usize, config: u8)
    ensures
        #![trigger e.gain_rows(band, config)]
        leaves(e.link, e.gain_rows(band, config).e.link, none()),
        same_los(e.state.v, e.gain_rows(band, config).e.state.v),
        same_table(e.state.v, e.gain_rows(band, config).e.state.v),
        same_bandwidths(e.state.v, e.gain_rows(band, config).e.state.v),
        same_chip(e, e.gain_rows(band, config).e),
{
    broadcast use leaves_gain_rows_from;

    reveal(EngineView::gain_rows);
}

pub broadcast proof fn leaves_current_gains(e: EngineView)
    ensures
        #![trigger e.current_gains()]
        leaves(e.link, e.current_gains().e.link, none()),
        calms(e.link, e.current_gains().e.link),
        same_los(e.state.v, e.current_gains().e.state.v),
        same_table(e.state.v, e.current_gains().e.state.v),
        same_bandwidths(e.state.v, e.current_gains().e.state.v),
        same_chip(e, e.current_gains().e),
{
    broadcast use crate::kept::leaves_read;

    reveal(EngineView::current_gains);
}

pub broadcast proof fn leaves_write_gain_table(e: EngineView, band: usize, dest: GainTableDest)
    ensures
        #![trigger e.write_gain_table(band, dest)]
        leaves(e.link, e.write_gain_table(band, dest).e.link, Parts { table_size: true, ..none() }),
        same_los(e.state.v, e.write_gain_table(band, dest).e.state.v),
        same_bandwidths(e.state.v, e.write_gain_table(band, dest).e.state.v),
        same_chip(e, e.write_gain_table(band, dest).e),
{
    broadcast use {
        crate::kept::leaves_run,
        leaves_gain_rows,
        leaves_current_gains,
    };

    reveal(EngineView::write_gain_table);
}

pub broadcast proof fn leaves_load_gain_table(e: EngineView, freq: u64, dest: GainTableDest)
    ensures
        #![trigger e.load_gain_table(freq, dest)]
        leaves(e.link, e.load_gain_table(freq, dest).e.link, Parts { table_size: true, ..none() }),
        same_los(e.state.v, e.load_gain_table(freq, dest).e.state.v),
        same_bandwidths(e.state.v, e.load_gain_table(freq, dest).e.state.v),
        same_chip(e, e.load_gain_table(freq, dest).e),
{
    broadcast use leaves_write_gain_table;

    reveal(EngineView::load_gain_table);
}

pub broadcast proof fn leaves_set_gain_mode(e: EngineView, channel: Channel, mode: GainMode)
    ensures
        #![trigger e.set_gain_mode(channel, mode)]
        leaves(
            e.link,
            e.set_gain_mode(channel, mode).e.link,
            Parts { modes: true, channels: true, ..none() },
        ),
        calms(e.link, e.set_gain_mode(channel, mode).e.link),
        same_los(e.state.v, e.set_gain_mode(channel, mode).e.state.v),
        same_table(e.state.v, e.set_gain_mode(channel, mode).e.state.v),
        same_bandwidths(e.state.v, e.set_gain_mode(channel, mode).e.state.v),
        same_chip(e, e.set_gain_mode(channel, mode).e),
{
    broadcast use {
        crate::kept::leaves_read,
        crate::kept::leaves_run,
        leaves_gc_update,
        crate::kept::lemma_fields_apart,
    };

    reveal(EngineView::set_gain_mode);
}

pub broadcast proof fn leaves_set_manual_rx_gain(e: EngineView, channel: Channel, gain_db: i8)
    ensures
        #![trigger e.set_manual_rx_gain(channel, gain_db)]
        leaves(e.link, e.set_manual_rx_gain(channel, gain_db).e.link, none()),
        calms(e.link, e.set_manual_rx_gain(channel, gain_db).e.link),
        same_los(e.state.v, e.set_manual_rx_gain(channel, gain_db).e.state.v),
        same_table(e.state.v, e.set_manual_rx_gain(channel, gain_db).e.state.v),
        same_bandwidths(e.state.v, e.set_manual_rx_gain(channel, gain_db).e.state.v),
        same_chip(e, e.set_manual_rx_gain(channel, gain_db).e),
{
    broadcast use crate::kept::leaves_run;

    reveal(EngineView::set_manual_rx_gain);
}

} // verus!
