//! What the operations of [`crate::fir`] leave alone.
use vstd::prelude::*;

use crate::engine::EngineView;
use crate::fir::{
    fir_addr, tap_high, tap_low, FirChannels, FirFactor, FirGain, RxFirConfig, TxFirConfig,
};
use crate::kept::{calms, leaves, none, same_bandwidths, same_chip, same_los, same_table, Parts};
use crate::link::put;
use crate::registers::{
    FIR_WRITE, TX_FILTER_COEF_ADDR, TX_FILTER_COEF_READ_DATA2, TX_FILTER_COEF_WRITE_DATA1,
    TX_FILTER_COEF_WRITE_DATA2, TX_FILTER_CONF,
};

verus! {

pub broadcast proof fn leaves_taps_from(e: EngineView, rx: bool, conf: u8, taps: Seq<i16>, i: int)
    ensures
        #![trigger e.taps_from(rx, conf, taps, i)]
        leaves(e.link, e.taps_from(rx, conf, taps, i).e.link, none()),
        calms(e.link, e.taps_from(rx, conf, taps, i).e.link),
        same_los(e.state.v, e.taps_from(rx, conf, taps, i).e.state.v),
        same_table(e.state.v, e.taps_from(rx, conf, taps, i).e.state.v),
        same_bandwidths(e.state.v, e.taps_from(rx, conf, taps, i).e.state.v),
        same_chip(e, e.taps_from(rx, conf, taps, i).e),
    decreases taps.len() - i,
{
    broadcast use crate::kept::leaves_run;

    if i < taps.len() {
        let mid = e.run(
            [
                put(fir_addr(rx, TX_FILTER_COEF_ADDR), i as u8),
                put(fir_addr(rx, TX_FILTER_COEF_WRITE_DATA1), tap_low(taps[i])),
                put(fir_addr(rx, TX_FILTER_COEF_WRITE_DATA2), tap_high(taps[i])),
                put(fir_addr(rx, TX_FILTER_CONF), conf | FIR_WRITE),
                put(fir_addr(rx, TX_FILTER_COEF_READ_DATA2), 0),
                put(fir_addr(rx, TX_FILTER_COEF_READ_DATA2), 0),
            ]@,
        );
        leaves_taps_from(mid.e, rx, conf, taps, i + 1);
    }
}

pub broadcast proof fn leaves_write_taps(e: EngineView, rx: bool, conf: u8, taps: Seq<i16>)
    ensures
        #![trigger e.write_taps(rx, conf, taps)]
        leaves(e.link, e.write_taps(rx, conf, taps).e.link, none()),
        calms(e.link, e.write_taps(rx, conf, taps).e.link),
        same_los(e.state.v, e.write_taps(rx, conf, taps).e.state.v),
        same_table(e.state.v, e.write_taps(rx, conf, taps).e.state.v),
        same_bandwidths(e.state.v, e.write_taps(rx, conf, taps).e.state.v),
        same_chip(e, e.write_taps(rx, conf, taps).e),
{
    broadcast use leaves_taps_from;

    reveal(EngineView::write_taps);
}

pub broadcast proof fn leaves_start_fir_clock(e: EngineView, gain: FirGain, factor: FirFactor)
    ensures
        #![trigger e.start_fir_clock(gain, factor)]
        leaves(
            e.link,
            e.start_fir_clock(gain, factor).e.link,
            Parts { rx_fir: true, tx_fir: true, ..none() },
        ),
        calms(e.link, e.start_fir_clock(gain, factor).e.link),
        same_los(e.state.v, e.start_fir_clock(gain, factor).e.state.v),
        same_table(e.state.v, e.start_fir_clock(gain, factor).e.state.v),
        same_bandwidths(e.state.v, e.start_fir_clock(gain, factor).e.state.v),
        same_chip(e, e.start_fir_clock(gain, factor).e),
{
    broadcast use {
        crate::kept::leaves_read,
        crate::kept::leaves_run,
        crate::kept::lemma_fields_apart,
    };

    reveal(EngineView::start_fir_clock);
}

pub broadcast proof fn leaves_restore_fir_enable(e: EngineView, rx: bool, byte: u8)
    ensures
        #![trigger e.restore_fir_enable(rx, byte)]
        leaves(
            e.link,
            e.restore_fir_enable(rx, byte).e.link,
            Parts { rx_fir: true, tx_fir: true, ..none() },
        ),
        calms(e.link, e.restore_fir_enable(rx, byte).e.link),
        same_los(e.state.v, e.restore_fir_enable(rx, byte).e.state.v),
        same_table(e.state.v, e.restore_fir_enable(rx, byte).e.state.v),
        same_bandwidths(e.state.v, e.restore_fir_enable(rx, byte).e.state.v),
        same_chip(e, e.restore_fir_enable(rx, byte).e),
{
    broadcast use {
        crate::kept::leaves_run,
        crate::kept::lemma_fields_apart,
    };

    reveal(EngineView::restore_fir_enable);
}

pub broadcast proof fn leaves_write_fir_coefficients(
    e: EngineView,
    channels: FirChannels,
    gain: FirGain,
    factor: FirFactor,
    taps: Seq<i16>,
)
    ensures
        #![trigger e.write_fir_coefficients(channels, gain, factor, taps)]
        leaves(
            e.link,
            e.write_fir_coefficients(channels, gain, factor, taps).e.link,
            Parts { rx_fir: true, tx_fir: true, ..none() },
        ),
        calms(e.link, e.write_fir_coefficients(channels, gain, factor, taps).e.link),
        same_los(e.state.v, e.write_fir_coefficients(channels, gain, factor, taps).e.state.v),
        same_table(e.state.v, e.write_fir_coefficients(channels, gain, factor, taps).e.state.v),
        same_bandwidths(e.state.v, e.write_fir_coefficients(channels, gain, factor, taps).e.state.v),
        same_chip(e, e.write_fir_coefficients(channels, gain, factor, taps).e),
{
    broadcast use {
        crate::kept::leaves_run,
        leaves_write_taps,
        leaves_start_fir_clock,
        leaves_restore_fir_enable,
    };

    reveal(EngineView::write_fir_coefficients);
}

pub broadcast proof fn leaves_load_fir_filter_coef(
    e: EngineView,
    channels: FirChannels,
    gain: FirGain,
    factor: FirFactor,
    taps: Seq<i16>,
)
    ensures
        #![trigger e.load_fir_filter_coef(channels, gain, factor, taps)]
        leaves(
            e.link,
            e.load_fir_filter_coef(channels, gain, factor, taps).e.link,
            Parts { rx_fir: true, tx_fir: true, ..none() },
        ),
        calms(e.link, e.load_fir_filter_coef(channels, gain, factor, taps).e.link),
        same_los(e.state.v, e.load_fir_filter_coef(channels, gain, factor, taps).e.state.v),
        same_table(e.state.v, e.load_fir_filter_coef(channels, gain, factor, taps).e.state.v),
        same_bandwidths(e.state.v, e.load_fir_filter_coef(channels, gain, factor, taps).e.state.v),
        same_chip(e, e.load_fir_filter_coef(channels, gain, factor, taps).e),
{
    broadcast use {
        crate::kept::control::leaves_ensm_force_state,
        crate::kept::control::leaves_ensm_restore_state,
        leaves_write_fir_coefficients,
    };

    reveal(EngineView::load_fir_filter_coef);
}

pub broadcast proof fn leaves_set_rx_fir_config(e: EngineView, config: RxFirConfig)
    ensures
        #![trigger e.set_rx_fir_config(config)]
        leaves(
            e.link,
            e.set_rx_fir_config(config).e.link,
            Parts { rx_fir: true, tx_fir: true, ..none() },
        ),
        calms(e.link, e.set_rx_fir_config(config).e.link),
        same_los(e.state.v, e.set_rx_fir_config(config).e.state.v),
        same_table(e.state.v, e.set_rx_fir_config(config).e.state.v),
        same_bandwidths(e.state.v, e.set_rx_fir_config(config).e.state.v),
        same_chip(e, e.set_rx_fir_config(config).e),
{
    broadcast use leaves_load_fir_filter_coef;

    reveal(EngineView::set_rx_fir_config);
}

pub broadcast proof fn leaves_set_tx_fir_config(e: EngineView, config: TxFirConfig)
    ensures
        #![trigger e.set_tx_fir_config(config)]
        leaves(
            e.link,
            e.set_tx_fir_config(config).e.link,
            Parts { rx_fir: true, tx_fir: true, ..none() },
        ),
        calms(e.link, e.set_tx_fir_config(config).e.link),
        same_los(e.state.v, e.set_tx_fir_config(config).e.state.v),
        same_table(e.state.v, e.set_tx_fir_config(config).e.state.v),
        same_bandwidths(e.state.v, e.set_tx_fir_config(config).e.state.v),
        same_chip(e, e.set_tx_fir_config(config).e),
{
    broadcast use leaves_load_fir_filter_coef;

    reveal(EngineView::set_tx_fir_config);
}

pub broadcast proof fn leaves_redo_bandwidths(e: EngineView)
    ensures
        #![trigger e.redo_bandwidths()]
        leaves(
            e.link,
            e.redo_bandwidths().e.link,
            Parts {
                rx_filter: true,
                tx_filter: true,
                attenuation: true,
                channels: true,
                tracking: true,
                ..none()
            },
        ),
        calms(e.link, e.redo_bandwidths().e.link),
        same_los(e.state.v, e.redo_bandwidths().e.state.v),
        same_table(e.state.v, e.redo_bandwidths().e.state.v),
        same_chip(e, e.redo_bandwidths().e),
{
    broadcast use {
        crate::kept::calibration::leaves_update_rf_bandwidth,
        crate::kept::dig_tune::leaves_dig_tune,
    };

    reveal(EngineView::redo_bandwidths);
}

pub broadcast proof fn leaves_validate_enable_fir(e: EngineView)
    ensures
        #![trigger e.validate_enable_fir()]
        leaves(
            e.link,
            e.validate_enable_fir().e.link,
            Parts {
                rx_fir: true,
                tx_fir: true,
                rx_filter: true,
                tx_filter: true,
                attenuation: true,
                channels: true,
                tracking: true,
                ..none()
            },
        ),
        calms(e.link, e.validate_enable_fir().e.link),
        same_los(e.state.v, e.validate_enable_fir().e.state.v),
        same_table(e.state.v, e.validate_enable_fir().e.state.v),
        same_chip(e, e.validate_enable_fir().e),
{
    broadcast use {
        crate::kept::clock_chain::leaves_set_trx_clock_chain,
        leaves_redo_bandwidths,
    };

    reveal(EngineView::validate_enable_fir);
}

pub broadcast proof fn leaves_set_rx_fir_en_dis(e: EngineView, enable: bool)
    ensures
        #![trigger e.set_rx_fir_en_dis(enable)]
        leaves(
            e.link,
            e.set_rx_fir_en_dis(enable).e.link,
            Parts {
                rx_fir: true,
                tx_fir: true,
                rx_filter: true,
                tx_filter: true,
                attenuation: true,
                channels: true,
                tracking: true,
                ..none()
            },
        ),
        calms(e.link, e.set_rx_fir_en_dis(enable).e.link),
        same_los(e.state.v, e.set_rx_fir_en_dis(enable).e.state.v),
        same_table(e.state.v, e.set_rx_fir_en_dis(enable).e.state.v),
        same_chip(e, e.set_rx_fir_en_dis(enable).e),
{
    broadcast use leaves_validate_enable_fir;

    reveal(EngineView::set_rx_fir_en_dis);
}

pub broadcast proof fn leaves_set_tx_fir_en_dis(e: EngineView, enable: bool)
    ensures
        #![trigger e.set_tx_fir_en_dis(enable)]
        leaves(
            e.link,
            e.set_tx_fir_en_dis(enable).e.link,
            Parts {
                rx_fir: true,
                tx_fir: true,
                rx_filter: true,
                tx_filter: true,
                attenuation: true,
                channels: true,
                tracking: true,
                ..none()
            },
        ),
        calms(e.link, e.set_tx_fir_en_dis(enable).e.link),
        same_los(e.state.v, e.set_tx_fir_en_dis(enable).e.state.v),
        same_table(e.state.v, e.set_tx_fir_en_dis(enable).e.state.v),
        same_chip(e, e.set_tx_fir_en_dis(enable).e),
{
    broadcast use leaves_validate_enable_fir;

    reveal(EngineView::set_tx_fir_en_dis);
}

} // verus!
