//! Repetition of the operations of [`crate::gain_control`].
use vstd::prelude::*;

use crate::engine::EngineView;
use crate::gain_control::{GM_ST_CTRL, GM_ST_GAIN, GainControl, GainMode, GainTableDest};
use crate::link::{goes_on, put};
use crate::ports::Channel;
use crate::registers::{
    GAIN_TABLE_ADDRESS, GAIN_TABLE_CONFIG, GAIN_TABLE_READ_DATA1, GAIN_TABLE_WRITE_DATA1,
    GAIN_TABLE_WRITE_DATA2, GAIN_TABLE_WRITE_DATA3, GM_SUB_TABLE_ADDRESS, GM_SUB_TABLE_BIAS_WRITE,
    GM_SUB_TABLE_CONFIG, GM_SUB_TABLE_CONTROL_WRITE, GM_SUB_TABLE_GAIN_READ,
    GM_SUB_TABLE_GAIN_WRITE, START_GM_SUB_TABLE_CLOCK, WRITE_GAIN_TABLE, WRITE_GM_SUB_TABLE,
};
use crate::replay::{alike, alike_reply, together};

verus! {

pub broadcast proof fn keeps_gc_update(e: EngineView)
    ensures
        goes_on(e.link, (#[trigger] e.gc_update()).e.link),
{
    broadcast use crate::replay::engine::keeps_run;

    reveal(EngineView::gc_update);
}

pub broadcast proof fn repeats_gc_update(a: EngineView, b: EngineView)
    requires
        together(a, b),
    ensures
        #![trigger a.gc_update(), b.gc_update()]
        alike(a.gc_update(), b.gc_update()),
{
    broadcast use {
        crate::replay::engine::keeps_run,
        crate::replay::engine::repeats_run,
    };

    reveal(EngineView::gc_update);
}

pub broadcast proof fn keeps_gm_rows_from(e: EngineView, i: int)
    ensures
        goes_on(e.link, (#[trigger] e.gm_rows_from(i)).e.link),
    decreases 16 - i,
{
    broadcast use crate::replay::engine::keeps_run;

    if i < 16 {
        let mid = e.run(
            [
                put(GM_SUB_TABLE_ADDRESS, (15 - i) as u8),
                put(GM_SUB_TABLE_BIAS_WRITE, 0),
                put(GM_SUB_TABLE_GAIN_WRITE, GM_ST_GAIN[i]),
                put(GM_SUB_TABLE_CONTROL_WRITE, GM_ST_CTRL[i]),
                put(GM_SUB_TABLE_CONFIG, START_GM_SUB_TABLE_CLOCK | WRITE_GM_SUB_TABLE),
                put(GM_SUB_TABLE_GAIN_READ, 0),
                put(GM_SUB_TABLE_GAIN_READ, 0),
            ]@,
        );
        keeps_gm_rows_from(mid.e, i + 1);
    }
}

pub broadcast proof fn repeats_gm_rows_from(a: EngineView, b: EngineView, i: int)
    requires
        together(a, b),
    ensures
        #![trigger a.gm_rows_from(i), b.gm_rows_from(i)]
        alike(a.gm_rows_from(i), b.gm_rows_from(i)),
    decreases 16 - i,
{
    broadcast use {
        crate::replay::engine::keeps_run,
        crate::replay::engine::repeats_run,
    };

    if i < 16 {
        let mid_a = a.run(
            [
                put(GM_SUB_TABLE_ADDRESS, (15 - i) as u8),
                put(GM_SUB_TABLE_BIAS_WRITE, 0),
                put(GM_SUB_TABLE_GAIN_WRITE, GM_ST_GAIN[i]),
                put(GM_SUB_TABLE_CONTROL_WRITE, GM_ST_CTRL[i]),
                put(GM_SUB_TABLE_CONFIG, START_GM_SUB_TABLE_CLOCK | WRITE_GM_SUB_TABLE),
                put(GM_SUB_TABLE_GAIN_READ, 0),
                put(GM_SUB_TABLE_GAIN_READ, 0),
            ]@,
        );
        let mid_b = b.run(
            [
                put(GM_SUB_TABLE_ADDRESS, (15 - i) as u8),
                put(GM_SUB_TABLE_BIAS_WRITE, 0),
                put(GM_SUB_TABLE_GAIN_WRITE, GM_ST_GAIN[i]),
                put(GM_SUB_TABLE_CONTROL_WRITE, GM_ST_CTRL[i]),
                put(GM_SUB_TABLE_CONFIG, START_GM_SUB_TABLE_CLOCK | WRITE_GM_SUB_TABLE),
                put(GM_SUB_TABLE_GAIN_READ, 0),
                put(GM_SUB_TABLE_GAIN_READ, 0),
            ]@,
        );
        keeps_gm_rows_from(mid_a.e, i + 1);
        keeps_gm_rows_from(mid_b.e, i + 1);
        if together(mid_a.e, mid_b.e) {
            repeats_gm_rows_from(mid_a.e, mid_b.e, i + 1);
        }
    }
}

pub broadcast proof fn keeps_load_mixer_gm_subtable(e: EngineView)
    ensures
        goes_on(e.link, (#[trigger] e.load_mixer_gm_subtable()).e.link),
{
    broadcast use {
        crate::replay::engine::keeps_run,
        keeps_gm_rows_from,
    };

    reveal(EngineView::load_mixer_gm_subtable);
}

pub broadcast proof fn repeats_load_mixer_gm_subtable(a: EngineView, b: EngineView)
    requires
        together(a, b),
    ensures
        #![trigger a.load_mixer_gm_subtable(), b.load_mixer_gm_subtable()]
        alike(a.load_mixer_gm_subtable(), b.load_mixer_gm_subtable()),
{
    broadcast use {
        crate::replay::engine::keeps_run,
        keeps_gm_rows_from,
        crate::replay::engine::repeats_run,
        repeats_gm_rows_from,
    };

    reveal(EngineView::load_mixer_gm_subtable);
}

pub broadcast proof fn keeps_gc_modes(e: EngineView, ctrl: GainControl)
    ensures
        goes_on(e.link, (#[trigger] e.gc_modes(ctrl)).e.link),
{
    broadcast use crate::replay::engine::keeps_run;

    reveal(EngineView::gc_modes);
}

pub broadcast proof fn repeats_gc_modes(a: EngineView, b: EngineView, ctrl: GainControl)
    requires
        together(a, b),
    ensures
        #![trigger a.gc_modes(ctrl), b.gc_modes(ctrl)]
        alike(a.gc_modes(ctrl), b.gc_modes(ctrl)),
{
    broadcast use {
        crate::replay::engine::keeps_run,
        crate::replay::engine::repeats_run,
    };

    reveal(EngineView::gc_modes);
}

pub broadcast proof fn keeps_gc_thresholds(e: EngineView, ctrl: GainControl)
    ensures
        goes_on(e.link, (#[trigger] e.gc_thresholds(ctrl)).e.link),
{
    broadcast use crate::replay::engine::keeps_run;

    reveal(EngineView::gc_thresholds);
}

pub broadcast proof fn repeats_gc_thresholds(a: EngineView, b: EngineView, ctrl: GainControl)
    requires
        together(a, b),
    ensures
        #![trigger a.gc_thresholds(ctrl), b.gc_thresholds(ctrl)]
        alike(a.gc_thresholds(ctrl), b.gc_thresholds(ctrl)),
{
    broadcast use {
        crate::replay::engine::keeps_run,
        crate::replay::engine::repeats_run,
    };

    reveal(EngineView::gc_thresholds);
}

pub broadcast proof fn keeps_gc_slow_attack(e: EngineView, ctrl: GainControl)
    ensures
        goes_on(e.link, (#[trigger] e.gc_slow_attack(ctrl)).e.link),
{
    broadcast use crate::replay::engine::keeps_run;

    reveal(EngineView::gc_slow_attack);
}

pub broadcast proof fn repeats_gc_slow_attack(a: EngineView, b: EngineView, ctrl: GainControl)
    requires
        together(a, b),
    ensures
        #![trigger a.gc_slow_attack(ctrl), b.gc_slow_attack(ctrl)]
        alike(a.gc_slow_attack(ctrl), b.gc_slow_attack(ctrl)),
{
    broadcast use {
        crate::replay::engine::keeps_run,
        crate::replay::engine::repeats_run,
    };

    reveal(EngineView::gc_slow_attack);
}

pub broadcast proof fn keeps_gc_fast_attack(e: EngineView, ctrl: GainControl)
    ensures
        goes_on(e.link, (#[trigger] e.gc_fast_attack(ctrl)).e.link),
{
    broadcast use crate::replay::engine::keeps_run;

    reveal(EngineView::gc_fast_attack);
}

pub broadcast proof fn repeats_gc_fast_attack(a: EngineView, b: EngineView, ctrl: GainControl)
    requires
        together(a, b),
    ensures
        #![trigger a.gc_fast_attack(ctrl), b.gc_fast_attack(ctrl)]
        alike(a.gc_fast_attack(ctrl), b.gc_fast_attack(ctrl)),
{
    broadcast use {
        crate::replay::engine::keeps_run,
        crate::replay::engine::repeats_run,
    };

    reveal(EngineView::gc_fast_attack);
}

pub broadcast proof fn keeps_gc_unlock(e: EngineView, ctrl: GainControl)
    ensures
        goes_on(e.link, (#[trigger] e.gc_unlock(ctrl)).e.link),
{
    broadcast use crate::replay::engine::keeps_run;

    reveal(EngineView::gc_unlock);
}

pub broadcast proof fn repeats_gc_unlock(a: EngineView, b: EngineView, ctrl: GainControl)
    requires
        together(a, b),
    ensures
        #![trigger a.gc_unlock(ctrl), b.gc_unlock(ctrl)]
        alike(a.gc_unlock(ctrl), b.gc_unlock(ctrl)),
{
    broadcast use {
        crate::replay::engine::keeps_run,
        crate::replay::engine::repeats_run,
    };

    reveal(EngineView::gc_unlock);
}

pub broadcast proof fn keeps_set_agc_pulled_high(
    e: EngineView,
    goto_max_or_opt: bool,
    goto_set: bool,
    goto_opt: Option<bool>,
)
    ensures
        goes_on(
            e.link,
            (#[trigger] e.set_agc_pulled_high(goto_max_or_opt, goto_set, goto_opt)).e.link,
        ),
{
    broadcast use crate::replay::engine::keeps_run;

    reveal(EngineView::set_agc_pulled_high);
}

pub broadcast proof fn repeats_set_agc_pulled_high(
    a: EngineView,
    b: EngineView,
    goto_max_or_opt: bool,
    goto_set: bool,
    goto_opt: Option<bool>,
)
    requires
        together(a, b),
    ensures
        #![trigger a.set_agc_pulled_high(goto_max_or_opt, goto_set, goto_opt),
            b.set_agc_pulled_high(goto_max_or_opt, goto_set, goto_opt)]
        alike(
            a.set_agc_pulled_high(goto_max_or_opt, goto_set, goto_opt),
            b.set_agc_pulled_high(goto_max_or_opt, goto_set, goto_opt),
        ),
{
    broadcast use {
        crate::replay::engine::keeps_run,
        crate::replay::engine::repeats_run,
    };

    reveal(EngineView::set_agc_pulled_high);
}

pub broadcast proof fn keeps_gc_setup(e: EngineView, ctrl: GainControl)
    ensures
        goes_on(e.link, (#[trigger] e.gc_setup(ctrl)).e.link),
{
    broadcast use {
        crate::replay::engine::keeps_run,
        keeps_gc_modes,
        keeps_gc_thresholds,
        keeps_gc_slow_attack,
        keeps_gc_fast_attack,
        keeps_gc_unlock,
        keeps_set_agc_pulled_high,
        keeps_gc_update,
    };

    reveal(EngineView::gc_setup);
}

pub broadcast proof fn repeats_gc_setup(a: EngineView, b: EngineView, ctrl: GainControl)
    requires
        together(a, b),
    ensures
        #![trigger a.gc_setup(ctrl), b.gc_setup(ctrl)]
        alike(a.gc_setup(ctrl), b.gc_setup(ctrl)),
{
    broadcast use {
        crate::replay::engine::keeps_run,
        keeps_gc_modes,
        keeps_gc_thresholds,
        keeps_gc_slow_attack,
        keeps_gc_fast_attack,
        keeps_gc_unlock,
        keeps_set_agc_pulled_high,
        keeps_gc_update,
        crate::replay::engine::repeats_run,
        repeats_gc_modes,
        repeats_gc_thresholds,
        repeats_gc_slow_attack,
        repeats_gc_fast_attack,
        repeats_gc_unlock,
        repeats_set_agc_pulled_high,
        repeats_gc_update,
    };

    reveal(EngineView::gc_setup);
}

pub broadcast proof fn keeps_gain_rows_from(
    e: EngineView,
    entries: Seq<[u8; 3]>,
    i: int,
    config: u8,
    ext_lna: u8,
    mask: u8,
)
    ensures
        goes_on(e.link, (#[trigger] e.gain_rows_from(entries, i, config, ext_lna, mask)).e.link),
    decreases entries.len() - i,
{
    broadcast use crate::replay::engine::keeps_run;

    if i < entries.len() {
        let word = entries[i];
        let row = e.run(
            [
                put(GAIN_TABLE_ADDRESS, i as u8),
                put(GAIN_TABLE_WRITE_DATA1, word[0] | ext_lna),
                put(GAIN_TABLE_WRITE_DATA2, word[1]),
                put(GAIN_TABLE_WRITE_DATA3, word[2]),
                put(GAIN_TABLE_CONFIG, config | WRITE_GAIN_TABLE),
                put(GAIN_TABLE_READ_DATA1, 0),
                put(GAIN_TABLE_READ_DATA1, 0),
            ]@,
        );
        let mid = if word[1] & mask == 0x20 {
            row.set_lpf_tia_match(Some(i as u8))
        } else {
            row
        };
        keeps_gain_rows_from(mid.e, entries, i + 1, config, ext_lna, mask);
    }
}

pub broadcast proof fn repeats_gain_rows_from(
    a: EngineView,
    b: EngineView,
    entries: Seq<[u8; 3]>,
    i: int,
    config: u8,
    ext_lna: u8,
    mask: u8,
)
    requires
        together(a, b),
    ensures
        #![trigger a.gain_rows_from(entries, i, config, ext_lna, mask),
            b.gain_rows_from(entries, i, config, ext_lna, mask)]
        alike(
            a.gain_rows_from(entries, i, config, ext_lna, mask),
            b.gain_rows_from(entries, i, config, ext_lna, mask),
        ),
    decreases entries.len() - i,
{
    broadcast use {
        crate::replay::engine::keeps_run,
        crate::replay::engine::repeats_run,
    };

    if i < entries.len() {
        let word = entries[i];
        let row_a = a.run(
            [
                put(GAIN_TABLE_ADDRESS, i as u8),
                put(GAIN_TABLE_WRITE_DATA1, word[0] | ext_lna),
                put(GAIN_TABLE_WRITE_DATA2, word[1]),
                put(GAIN_TABLE_WRITE_DATA3, word[2]),
                put(GAIN_TABLE_CONFIG, config | WRITE_GAIN_TABLE),
                put(GAIN_TABLE_READ_DATA1, 0),
                put(GAIN_TABLE_READ_DATA1, 0),
            ]@,
        );
        let mid_a = if word[1] & mask == 0x20 {
            row_a.set_lpf_tia_match(Some(i as u8))
        } else {
            row_a
        };
        let row_b = b.run(
            [
                put(GAIN_TABLE_ADDRESS, i as u8),
                put(GAIN_TABLE_WRITE_DATA1, word[0] | ext_lna),
                put(GAIN_TABLE_WRITE_DATA2, word[1]),
                put(GAIN_TABLE_WRITE_DATA3, word[2]),
                put(GAIN_TABLE_CONFIG, config | WRITE_GAIN_TABLE),
                put(GAIN_TABLE_READ_DATA1, 0),
                put(GAIN_TABLE_READ_DATA1, 0),
            ]@,
        );
        let mid_b = if word[1] & mask == 0x20 {
            row_b.set_lpf_tia_match(Some(i as u8))
        } else {
            row_b
        };
        keeps_gain_rows_from(mid_a.e, entries, i + 1, config, ext_lna, mask);
        keeps_gain_rows_from(mid_b.e, entries, i + 1, config, ext_lna, mask);
        if together(mid_a.e, mid_b.e) {
            repeats_gain_rows_from(mid_a.e, mid_b.e, entries, i + 1, config, ext_lna, mask);
        }
    }
}

pub broadcast proof fn keeps_gain_rows(e: EngineView, band: usize, config: u8)
    ensures
        goes_on(e.link, (#[trigger] e.gain_rows(band, config)).e.link),
{
    broadcast use keeps_gain_rows_from;

    reveal(EngineView::gain_rows);
}

pub broadcast proof fn repeats_gain_rows(a: EngineView, b: EngineView, band: usize, config: u8)
    requires
        together(a, b),
    ensures
        #![trigger a.gain_rows(band, config), b.gain_rows(band, config)]
        alike(a.gain_rows(band, config), b.gain_rows(band, config)),
{
    broadcast use {
        keeps_gain_rows_from,
        repeats_gain_rows_from,
    };

    reveal(EngineView::gain_rows);
}

pub broadcast proof fn keeps_current_gains(e: EngineView)
    ensures
        goes_on(e.link, (#[trigger] e.current_gains()).e.link),
{
    broadcast use crate::replay::engine::keeps_read;

    reveal(EngineView::current_gains);
}

pub broadcast proof fn repeats_current_gains(a: EngineView, b: EngineView)
    requires
        together(a, b),
    ensures
        #![trigger a.current_gains(), b.current_gains()]
        alike_reply(a.current_gains(), b.current_gains()),
{
    broadcast use {
        crate::replay::engine::keeps_read,
        crate::replay::engine::repeats_read,
    };

    reveal(EngineView::current_gains);
}

pub broadcast proof fn keeps_write_gain_table(e: EngineView, band: usize, dest: GainTableDest)
    ensures
        goes_on(e.link, (#[trigger] e.write_gain_table(band, dest)).e.link),
{
    broadcast use {
        crate::replay::engine::keeps_run,
        keeps_gain_rows,
        keeps_current_gains,
    };

    reveal(EngineView::write_gain_table);
}

pub broadcast proof fn repeats_write_gain_table(
    a: EngineView,
    b: EngineView,
    band: usize,
    dest: GainTableDest,
)
    requires
        together(a, b),
    ensures
        #![trigger a.write_gain_table(band, dest), b.write_gain_table(band, dest)]
        alike(a.write_gain_table(band, dest), b.write_gain_table(band, dest)),
{
    broadcast use {
        crate::replay::engine::keeps_run,
        keeps_gain_rows,
        keeps_current_gains,
        crate::replay::engine::repeats_run,
        repeats_gain_rows,
        repeats_current_gains,
    };

    reveal(EngineView::write_gain_table);
}

pub broadcast proof fn keeps_load_gain_table(e: EngineView, freq: u64, dest: GainTableDest)
    ensures
        goes_on(e.link, (#[trigger] e.load_gain_table(freq, dest)).e.link),
{
    broadcast use keeps_write_gain_table;

    reveal(EngineView::load_gain_table);
}

pub broadcast proof fn repeats_load_gain_table(
    a: EngineView,
    b: EngineView,
    freq: u64,
    dest: GainTableDest,
)
    requires
        together(a, b),
    ensures
        #![trigger a.load_gain_table(freq, dest), b.load_gain_table(freq, dest)]
        alike(a.load_gain_table(freq, dest), b.load_gain_table(freq, dest)),
{
    broadcast use {
        keeps_write_gain_table,
        repeats_write_gain_table,
    };

    reveal(EngineView::load_gain_table);
}

pub broadcast proof fn keeps_set_gain_mode(e: EngineView, channel: Channel, mode: GainMode)
    ensures
        goes_on(e.link, (#[trigger] e.set_gain_mode(channel, mode)).e.link),
{
    broadcast use {
        crate::replay::engine::keeps_read,
        crate::replay::engine::keeps_run,
        keeps_gc_update,
    };

    reveal(EngineView::set_gain_mode);
}

pub broadcast proof fn repeats_set_gain_mode(
    a: EngineView,
    b: EngineView,
    channel: Channel,
    mode: GainMode,
)
    requires
        together(a, b),
    ensures
        #![trigger a.set_gain_mode(channel, mode), b.set_gain_mode(channel, mode)]
        alike(a.set_gain_mode(channel, mode), b.set_gain_mode(channel, mode)),
{
    broadcast use {
        crate::replay::engine::keeps_read,
        crate::replay::engine::keeps_run,
        keeps_gc_update,
        crate::replay::engine::repeats_read,
        crate::replay::engine::repeats_run,
        repeats_gc_update,
    };

    reveal(EngineView::set_gain_mode);
}

pub broadcast proof fn keeps_set_manual_rx_gain(e: EngineView, channel: Channel, gain_db: i8)
    ensures
        goes_on(e.link, (#[trigger] e.set_manual_rx_gain(channel, gain_db)).e.link),
{
    broadcast use crate::replay::engine::keeps_run;

    reveal(EngineView::set_manual_rx_gain);
}

pub broadcast proof fn repeats_set_manual_rx_gain(
    a: EngineView,
    b: EngineView,
    channel: Channel,
    gain_db: i8,
)
    requires
        together(a, b),
    ensures
        #![trigger a.set_manual_rx_gain(channel, gain_db), b.set_manual_rx_gain(channel, gain_db)]
        alike_reply(a.set_manual_rx_gain(channel, gain_db), b.set_manual_rx_gain(channel, gain_db)),
{
    broadcast use {
        crate::replay::engine::keeps_run,
        crate::replay::engine::repeats_run,
    };

    reveal(EngineView::set_manual_rx_gain);
}

} // verus!
