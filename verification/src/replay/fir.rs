//! Repetition of the operations of [`crate::fir`].
use vstd::prelude::*;

use crate::engine::EngineView;
use crate::fir::{
    FirChannels, FirFactor, FirGain, RxFirConfig, TxFirConfig, fir_addr, tap_high, tap_low,
};
use crate::link::{goes_on, put};
use crate::registers::{
    FIR_WRITE, TX_FILTER_COEF_ADDR, TX_FILTER_COEF_READ_DATA2, TX_FILTER_COEF_WRITE_DATA1,
    TX_FILTER_COEF_WRITE_DATA2, TX_FILTER_CONF,
};
use crate::replay::{alike, alike_reply, together};

verus! {

pub broadcast proof fn keeps_taps_from(e: EngineView, rx: bool, conf: u8, taps: Seq<i16>, i: int)
    ensures
        goes_on(e.link, (#[trigger] e.taps_from(rx, conf, taps, i)).e.link),
    decreases taps.len() - i,
{
    broadcast use crate::replay::engine::keeps_run;

    if i < taps.len() {
        let mid = e.run(
            [
                put(fir_addr(rx, TX_FILTER_COEF_ADDR), i as u8),
                put(fir_addr(rx, TX_FILTER_COEF_WRITE_DATA1), tap_low(taps[i])),
                put(fir_addr(rx, TX_FILTER_COEF_WRITE_DATA2), tap_high(taps[i])),
                put(fir_addr(rx, TX_FILTER_CONF), conf | FIR_WRITE),
                put(fir_addr(rx, TX_FILTER_COEF_READ_DATA2), 0),
                put(fir_addr(rx, TX_FILTER_COEF_READ_DATA2), 0),
            ]@,
        );
        keeps_taps_from(mid.e, rx, conf, taps, i + 1);
    }
}

pub broadcast proof fn repeats_taps_from(
    a: EngineView,
    b: EngineView,
    rx: bool,
    conf: u8,
    taps: Seq<i16>,
    i: int,
)
    requires
        together(a, b),
    ensures
        #![trigger a.taps_from(rx, conf, taps, i), b.taps_from(rx, conf, taps, i)]
        alike(a.taps_from(rx, conf, taps, i), b.taps_from(rx, conf, taps, i)),
    decreases taps.len() - i,
{
    broadcast use {
        crate::replay::engine::keeps_run,
        crate::replay::engine::repeats_run,
    };

    if i < taps.len() {
        let mid_a = a.run(
            [
                put(fir_addr(rx, TX_FILTER_COEF_ADDR), i as u8),
                put(fir_addr(rx, TX_FILTER_COEF_WRITE_DATA1), tap_low(taps[i])),
                put(fir_addr(rx, TX_FILTER_COEF_WRITE_DATA2), tap_high(taps[i])),
                put(fir_addr(rx, TX_FILTER_CONF), conf | FIR_WRITE),
                put(fir_addr(rx, TX_FILTER_COEF_READ_DATA2), 0),
                put(fir_addr(rx, TX_FILTER_COEF_READ_DATA2), 0),
            ]@,
        );
        let mid_b = b.run(
            [
                put(fir_addr(rx, TX_FILTER_COEF_ADDR), i as u8),
                put(fir_addr(rx, TX_FILTER_COEF_WRITE_DATA1), tap_low(taps[i])),
                put(fir_addr(rx, TX_FILTER_COEF_WRITE_DATA2), tap_high(taps[i])),
                put(fir_addr(rx, TX_FILTER_CONF), conf | FIR_WRITE),
                put(fir_addr(rx, TX_FILTER_COEF_READ_DATA2), 0),
                put(fir_addr(rx, TX_FILTER_COEF_READ_DATA2), 0),
            ]@,
        );
        keeps_taps_from(mid_a.e, rx, conf, taps, i + 1);
        keeps_taps_from(mid_b.e, rx, conf, taps, i + 1);
        if together(mid_a.e, mid_b.e) {
            repeats_taps_from(mid_a.e, mid_b.e, rx, conf, taps, i + 1);
        }
    }
}

pub broadcast proof fn keeps_write_taps(e: EngineView, rx: bool, conf: u8, taps: Seq<i16>)
    ensures
        goes_on(e.link, (#[trigger] e.write_taps(rx, conf, taps)).e.link),
{
    broadcast use keeps_taps_from;

    reveal(EngineView::write_taps);
}

pub broadcast proof fn repeats_write_taps(
    a: EngineView,
    b: EngineView,
    rx: bool,
    conf: u8,
    taps: Seq<i16>,
)
    requires
        together(a, b),
    ensures
        #![trigger a.write_taps(rx, conf, taps), b.write_taps(rx, conf, taps)]
        alike(a.write_taps(rx, conf, taps), b.write_taps(rx, conf, taps)),
{
    broadcast use {
        keeps_taps_from,
        repeats_taps_from,
    };

    reveal(EngineView::write_taps);
}

pub broadcast proof fn keeps_start_fir_clock(e: EngineView, gain: FirGain, factor: FirFactor)
    ensures
        goes_on(e.link, (#[trigger] e.start_fir_clock(gain, factor)).e.link),
{
    broadcast use {
        crate::replay::engine::keeps_read,
        crate::replay::engine::keeps_run,
    };

    reveal(EngineView::start_fir_clock);
}

pub broadcast proof fn repeats_start_fir_clock(
    a: EngineView,
    b: EngineView,
    gain: FirGain,
    factor: FirFactor,
)
    requires
        together(a, b),
    ensures
        #![trigger a.start_fir_clock(gain, factor), b.start_fir_clock(gain, factor)]
        alike_reply(a.start_fir_clock(gain, factor), b.start_fir_clock(gain, factor)),
{
    broadcast use {
        crate::replay::engine::keeps_read,
        crate::replay::engine::keeps_run,
        crate::replay::engine::repeats_read,
        crate::replay::engine::repeats_run,
    };

    reveal(EngineView::start_fir_clock);
}

pub broadcast proof fn keeps_restore_fir_enable(e: EngineView, rx: bool, byte: u8)
    ensures
        goes_on(e.link, (#[trigger] e.restore_fir_enable(rx, byte)).e.link),
{
    broadcast use crate::replay::engine::keeps_run;

    reveal(EngineView::restore_fir_enable);
}

pub broadcast proof fn repeats_restore_fir_enable(a: EngineView, b: EngineView, rx: bool, byte: u8)
    requires
        together(a, b),
    ensures
        #![trigger a.restore_fir_enable(rx, byte), b.restore_fir_enable(rx, byte)]
        alike(a.restore_fir_enable(rx, byte), b.restore_fir_enable(rx, byte)),
{
    broadcast use {
        crate::replay::engine::keeps_run,
        crate::replay::engine::repeats_run,
    };

    reveal(EngineView::restore_fir_enable);
}

pub broadcast proof fn keeps_write_fir_coefficients(
    e: EngineView,
    channels: FirChannels,
    gain: FirGain,
    factor: FirFactor,
    taps: Seq<i16>,
)
    ensures
        goes_on(e.link, (#[trigger] e.write_fir_coefficients(channels, gain, factor, taps)).e.link),
{
    broadcast use {
        crate::replay::engine::keeps_run,
        keeps_write_taps,
        keeps_start_fir_clock,
        keeps_restore_fir_enable,
    };

    reveal(EngineView::write_fir_coefficients);
}

pub broadcast proof fn repeats_write_fir_coefficients(
    a: EngineView,
    b: EngineView,
    channels: FirChannels,
    gain: FirGain,
    factor: FirFactor,
    taps: Seq<i16>,
)
    requires
        together(a, b),
    ensures
        #![trigger a.write_fir_coefficients(channels, gain, factor, taps),
            b.write_fir_coefficients(channels, gain, factor, taps)]
        alike(
            a.write_fir_coefficients(channels, gain, factor, taps),
            b.write_fir_coefficients(channels, gain, factor, taps),
        ),
{
    broadcast use {
        crate::replay::engine::keeps_run,
        keeps_write_taps,
        keeps_start_fir_clock,
        keeps_restore_fir_enable,
        crate::replay::engine::repeats_run,
        repeats_write_taps,
        repeats_start_fir_clock,
        repeats_restore_fir_enable,
    };

    reveal(EngineView::write_fir_coefficients);
}

pub broadcast proof fn keeps_load_fir_filter_coef(
    e: EngineView,
    channels: FirChannels,
    gain: FirGain,
    factor: FirFactor,
    taps: Seq<i16>,
)
    ensures
        goes_on(e.link, (#[trigger] e.load_fir_filter_coef(channels, gain, factor, taps)).e.link),
{
    broadcast use {
        crate::replay::control::keeps_ensm_force_state,
        crate::replay::control::keeps_ensm_restore_state,
        keeps_write_fir_coefficients,
    };

    reveal(EngineView::load_fir_filter_coef);
}

pub broadcast proof fn repeats_load_fir_filter_coef(
    a: EngineView,
    b: EngineView,
    channels: FirChannels,
    gain: FirGain,
    factor: FirFactor,
    taps: Seq<i16>,
)
    requires
        together(a, b),
    ensures
        #![trigger a.load_fir_filter_coef(channels, gain, factor, taps),
            b.load_fir_filter_coef(channels, gain, factor, taps)]
        alike(
            a.load_fir_filter_coef(channels, gain, factor, taps),
            b.load_fir_filter_coef(channels, gain, factor, taps),
        ),
{
    broadcast use {
        crate::replay::control::keeps_ensm_force_state,
        crate::replay::control::keeps_ensm_restore_state,
        keeps_write_fir_coefficients,
        crate::replay::control::repeats_ensm_force_state,
        crate::replay::control::repeats_ensm_restore_state,
        repeats_write_fir_coefficients,
    };

    reveal(EngineView::load_fir_filter_coef);
}

pub broadcast proof fn keeps_set_rx_fir_config(e: EngineView, config: RxFirConfig)
    ensures
        goes_on(e.link, (#[trigger] e.set_rx_fir_config(config)).e.link),
{
    broadcast use keeps_load_fir_filter_coef;

    reveal(EngineView::set_rx_fir_config);
}

pub broadcast proof fn repeats_set_rx_fir_config(a: EngineView, b: EngineView, config: RxFirConfig)
    requires
        together(a, b),
    ensures
        #![trigger a.set_rx_fir_config(config), b.set_rx_fir_config(config)]
        alike(a.set_rx_fir_config(config), b.set_rx_fir_config(config)),
{
    broadcast use {
        keeps_load_fir_filter_coef,
        repeats_load_fir_filter_coef,
    };

    reveal(EngineView::set_rx_fir_config);
}

pub broadcast proof fn keeps_set_tx_fir_config(e: EngineView, config: TxFirConfig)
    ensures
        goes_on(e.link, (#[trigger] e.set_tx_fir_config(config)).e.link),
{
    broadcast use keeps_load_fir_filter_coef;

    reveal(EngineView::set_tx_fir_config);
}

pub broadcast proof fn repeats_set_tx_fir_config(a: EngineView, b: EngineView, config: TxFirConfig)
    requires
        together(a, b),
    ensures
        #![trigger a.set_tx_fir_config(config), b.set_tx_fir_config(config)]
        alike(a.set_tx_fir_config(config), b.set_tx_fir_config(config)),
{
    broadcast use {
        keeps_load_fir_filter_coef,
        repeats_load_fir_filter_coef,
    };

    reveal(EngineView::set_tx_fir_config);
}

pub broadcast proof fn keeps_redo_bandwidths(e: EngineView)
    ensures
        goes_on(e.link, (#[trigger] e.redo_bandwidths()).e.link),
{
    broadcast use {
        crate::replay::calibration::keeps_update_rf_bandwidth,
        crate::replay::dig_tune::keeps_dig_tune,
    };

    reveal(EngineView::redo_bandwidths);
}

pub broadcast proof fn repeats_redo_bandwidths(a: EngineView, b: EngineView)
    requires
        together(a, b),
    ensures
        #![trigger a.redo_bandwidths(), b.redo_bandwidths()]
        alike(a.redo_bandwidths(), b.redo_bandwidths()),
{
    broadcast use {
        crate::replay::calibration::keeps_update_rf_bandwidth,
        crate::replay::dig_tune::keeps_dig_tune,
        crate::replay::calibration::repeats_update_rf_bandwidth,
        crate::replay::dig_tune::repeats_dig_tune,
    };

    reveal(EngineView::redo_bandwidths);
}

pub broadcast proof fn keeps_validate_enable_fir(e: EngineView)
    ensures
        goes_on(e.link, (#[trigger] e.validate_enable_fir()).e.link),
{
    broadcast use {
        crate::replay::clock_chain::keeps_set_trx_clock_chain,
        keeps_redo_bandwidths,
    };

    reveal(EngineView::validate_enable_fir);
}

pub broadcast proof fn repeats_validate_enable_fir(a: EngineView, b: EngineView)
    requires
        together(a, b),
    ensures
        #![trigger a.validate_enable_fir(), b.validate_enable_fir()]
        alike(a.validate_enable_fir(), b.validate_enable_fir()),
{
    broadcast use {
        crate::replay::clock_chain::keeps_set_trx_clock_chain,
        keeps_redo_bandwidths,
        crate::replay::clock_chain::repeats_set_trx_clock_chain,
        repeats_redo_bandwidths,
    };

    reveal(EngineView::validate_enable_fir);
}

pub broadcast proof fn keeps_set_rx_fir_en_dis(e: EngineView, enable: bool)
    ensures
        goes_on(e.link, (#[trigger] e.set_rx_fir_en_dis(enable)).e.link),
{
    broadcast use keeps_validate_enable_fir;

    reveal(EngineView::set_rx_fir_en_dis);
}

pub broadcast proof fn repeats_set_rx_fir_en_dis(a: EngineView, b: EngineView, enable: bool)
    requires
        together(a, b),
    ensures
        #![trigger a.set_rx_fir_en_dis(enable), b.set_rx_fir_en_dis(enable)]
        alike(a.set_rx_fir_en_dis(enable), b.set_rx_fir_en_dis(enable)),
{
    broadcast use {
        keeps_validate_enable_fir,
        repeats_validate_enable_fir,
    };

    reveal(EngineView::set_rx_fir_en_dis);
}

pub broadcast proof fn keeps_set_tx_fir_en_dis(e: EngineView, enable: bool)
    ensures
        goes_on(e.link, (#[trigger] e.set_tx_fir_en_dis(enable)).e.link),
{
    broadcast use keeps_validate_enable_fir;

    reveal(EngineView::set_tx_fir_en_dis);
}

pub broadcast proof fn repeats_set_tx_fir_en_dis(a: EngineView, b: EngineView, enable: bool)
    requires
        together(a, b),
    ensures
        #![trigger a.set_tx_fir_en_dis(enable), b.set_tx_fir_en_dis(enable)]
        alike(a.set_tx_fir_en_dis(enable), b.set_tx_fir_en_dis(enable)),
{
    broadcast use {
        keeps_validate_enable_fir,
        repeats_validate_enable_fir,
    };

    reveal(EngineView::set_tx_fir_en_dis);
}

} // verus!
