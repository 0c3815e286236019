//! Running an operation again.
//!
//! An operation that needs an answer stops, the requests it made are performed, and it runs again
//! from the same state with the answers. That works since it makes the same requests again. It is
//! shown here of every operation, each from the ones it is made of.
use vstd::prelude::*;

use crate::api::start_chip;
use crate::config::Ad9361Config;
use crate::engine::{EngineView, Flow, Reply};
use crate::fir::{RxFirConfig, TxFirConfig};
use crate::gain_control::GainMode;
use crate::link::{
    belies, continues, exchange, goes_on, in_step, lemma_exchange_goes_on, lemma_exchange_repeats,
    lemma_repeated, matched, repeated, used_up, Performed, Request, Trace,
};
use crate::ports::Channel;
use crate::registers::{PRODUCT_ID, STATE};
use crate::spi::{reset_pulse, told};
use crate::tables::ChipTables;
use crate::units::{HertzU32, HertzU64, TxAttenuation};

pub mod api;
pub mod axi_init;
pub mod calibration;
pub mod clock_chain;
pub mod clocks;
pub mod control;
pub mod dig_tune;
pub mod engine;
pub mod fir;
pub mod gain_control;
pub mod monitor;
pub mod ports;
pub mod setup;
pub mod synth;

verus! {

/// Two engines at the same place: the same state, and conversations in step.
pub open spec fn together(a: EngineView, b: EngineView) -> bool {
    &&& in_step(a.link, b.link)
    &&& a.state == b.state
    &&& a.tables == b.tables
}

/// Where an operation and its repetition stand: at the same place with the same outcome, or the
/// first one has not made the requests the repetition has answers for, or the repetition has used
/// its answers up.
pub open spec fn alike(f: Flow, g: Flow) -> bool {
    ||| together(f.e, g.e) && f.err == g.err
    ||| belies(f.e.link, g.e.link.done)
    ||| used_up(g.e.link)
}

/// The same for an operation that returns a value.
pub open spec fn alike_reply<T>(f: Reply<T>, g: Reply<T>) -> bool {
    ||| together(f.e, g.e) && f.r == g.r
    ||| belies(f.e.link, g.e.link.done)
    ||| used_up(g.e.link)
}

/// The engine at the start of a conversation with these answers.
pub open spec fn beginning(e: EngineView, done: Seq<Performed>) -> EngineView {
    EngineView { link: Trace { sent: Seq::empty(), done, stalled: false }, ..e }
}

proof fn lemma_beginnings(e: EngineView, first: Seq<Performed>, again: Seq<Performed>)
    ensures
        matched(beginning(e, again).link),
        continues(first, again) ==> together(beginning(e, first), beginning(e, again)),
{
    reveal(in_step);
}

/// Setting the sample rate can be repeated: with answers to the requests it made it makes them
/// again.
pub proof fn law_sample_rate_repeats(
    e: EngineView,
    first: Seq<Performed>,
    again: Seq<Performed>,
    rate: HertzU32,
)
    ensures
        repeated(
            beginning(e, first).set_trx_clock_chain_freq(rate).e.link,
            beginning(e, again).set_trx_clock_chain_freq(rate).e.link,
        ),
{
    let a = beginning(e, first);
    let b = beginning(e, again);
    lemma_beginnings(e, first, again);
    clock_chain::keeps_set_trx_clock_chain_freq(a, rate);
    clock_chain::keeps_set_trx_clock_chain_freq(b, rate);
    if continues(first, again) {
        clock_chain::repeats_set_trx_clock_chain_freq(a, b, rate);
        lemma_repeated(
            a.set_trx_clock_chain_freq(rate).e.link,
            b.set_trx_clock_chain_freq(rate).e.link,
        );
    }
}

/// Setting an LO can be repeated: with answers to the requests it made it makes them again.
pub proof fn law_lo_frequency_repeats(
    e: EngineView,
    first: Seq<Performed>,
    again: Seq<Performed>,
    tx: bool,
    frequency: HertzU64,
)
    ensures
        repeated(
            beginning(e, first).set_rfpll_rate(tx, frequency).e.link,
            beginning(e, again).set_rfpll_rate(tx, frequency).e.link,
        ),
{
    let a = beginning(e, first);
    let b = beginning(e, again);
    lemma_beginnings(e, first, again);
    synth::keeps_set_rfpll_rate(a, tx, frequency);
    synth::keeps_set_rfpll_rate(b, tx, frequency);
    if continues(first, again) {
        synth::repeats_set_rfpll_rate(a, b, tx, frequency);
        lemma_repeated(
            a.set_rfpll_rate(tx, frequency).e.link,
            b.set_rfpll_rate(tx, frequency).e.link,
        );
    }
}

/// Setting the bandwidths can be repeated: with answers to the requests it made it makes them
/// again.
pub proof fn law_bandwidths_repeats(
    e: EngineView,
    first: Seq<Performed>,
    again: Seq<Performed>,
    rx: HertzU32,
    tx: HertzU32,
)
    ensures
        repeated(
            beginning(e, first).update_rf_bandwidth(rx, tx).e.link,
            beginning(e, again).update_rf_bandwidth(rx, tx).e.link,
        ),
{
    let a = beginning(e, first);
    let b = beginning(e, again);
    lemma_beginnings(e, first, again);
    calibration::keeps_update_rf_bandwidth(a, rx, tx);
    calibration::keeps_update_rf_bandwidth(b, rx, tx);
    if continues(first, again) {
        calibration::repeats_update_rf_bandwidth(a, b, rx, tx);
        lemma_repeated(a.update_rf_bandwidth(rx, tx).e.link, b.update_rf_bandwidth(rx, tx).e.link);
    }
}

/// Setting the TX attenuation can be repeated: with answers to the requests it made it makes them
/// again.
pub proof fn law_tx_attenuation_repeats(
    e: EngineView,
    first: Seq<Performed>,
    again: Seq<Performed>,
    atten: TxAttenuation,
)
    ensures
        repeated(
            beginning(e, first).set_tx_atten(atten, true, true, true).e.link,
            beginning(e, again).set_tx_atten(atten, true, true, true).e.link,
        ),
{
    let a = beginning(e, first);
    let b = beginning(e, again);
    lemma_beginnings(e, first, again);
    control::keeps_set_tx_atten(a, atten, true, true, true);
    control::keeps_set_tx_atten(b, atten, true, true, true);
    if continues(first, again) {
        control::repeats_set_tx_atten(a, b, atten, true, true, true);
        lemma_repeated(
            a.set_tx_atten(atten, true, true, true).e.link,
            b.set_tx_atten(atten, true, true, true).e.link,
        );
    }
}

/// Reading the TX attenuation can be repeated: with answers to the requests it made it makes them
/// again.
pub proof fn law_reading_attenuation_repeats(
    e: EngineView,
    first: Seq<Performed>,
    again: Seq<Performed>,
)
    ensures
        repeated(
            beginning(e, first).tx_atten(false).e.link,
            beginning(e, again).tx_atten(false).e.link,
        ),
{
    let a = beginning(e, first);
    let b = beginning(e, again);
    lemma_beginnings(e, first, again);
    dig_tune::keeps_tx_atten(a, false);
    dig_tune::keeps_tx_atten(b, false);
    if continues(first, again) {
        dig_tune::repeats_tx_atten(a, b, false);
        lemma_repeated(a.tx_atten(false).e.link, b.tx_atten(false).e.link);
    }
}

/// Setting a gain mode can be repeated: with answers to the requests it made it makes them again.
pub proof fn law_gain_mode_repeats(
    e: EngineView,
    first: Seq<Performed>,
    again: Seq<Performed>,
    channel: Channel,
    mode: GainMode,
)
    ensures
        repeated(
            beginning(e, first).set_gain_mode(channel, mode).e.link,
            beginning(e, again).set_gain_mode(channel, mode).e.link,
        ),
{
    let a = beginning(e, first);
    let b = beginning(e, again);
    lemma_beginnings(e, first, again);
    gain_control::keeps_set_gain_mode(a, channel, mode);
    gain_control::keeps_set_gain_mode(b, channel, mode);
    if continues(first, again) {
        gain_control::repeats_set_gain_mode(a, b, channel, mode);
        lemma_repeated(
            a.set_gain_mode(channel, mode).e.link,
            b.set_gain_mode(channel, mode).e.link,
        );
    }
}

/// Setting a manual gain can be repeated: with answers to the requests it made it makes them again.
pub proof fn law_manual_gain_repeats(
    e: EngineView,
    first: Seq<Performed>,
    again: Seq<Performed>,
    channel: Channel,
    gain_db: i8,
)
    ensures
        repeated(
            beginning(e, first).set_manual_rx_gain(channel, gain_db).e.link,
            beginning(e, again).set_manual_rx_gain(channel, gain_db).e.link,
        ),
{
    let a = beginning(e, first);
    let b = beginning(e, again);
    lemma_beginnings(e, first, again);
    gain_control::keeps_set_manual_rx_gain(a, channel, gain_db);
    gain_control::keeps_set_manual_rx_gain(b, channel, gain_db);
    if continues(first, again) {
        gain_control::repeats_set_manual_rx_gain(a, b, channel, gain_db);
        lemma_repeated(
            a.set_manual_rx_gain(channel, gain_db).e.link,
            b.set_manual_rx_gain(channel, gain_db).e.link,
        );
    }
}

/// Loading the RX FIR can be repeated: with answers to the requests it made it makes them again.
pub proof fn law_rx_fir_repeats(
    e: EngineView,
    first: Seq<Performed>,
    again: Seq<Performed>,
    config: RxFirConfig,
)
    ensures
        repeated(
            beginning(e, first).set_rx_fir_config(config).e.link,
            beginning(e, again).set_rx_fir_config(config).e.link,
        ),
{
    let a = beginning(e, first);
    let b = beginning(e, again);
    lemma_beginnings(e, first, again);
    fir::keeps_set_rx_fir_config(a, config);
    fir::keeps_set_rx_fir_config(b, config);
    if continues(first, again) {
        fir::repeats_set_rx_fir_config(a, b, config);
        lemma_repeated(a.set_rx_fir_config(config).e.link, b.set_rx_fir_config(config).e.link);
    }
}

/// Loading the TX FIR can be repeated: with answers to the requests it made it makes them again.
pub proof fn law_tx_fir_repeats(
    e: EngineView,
    first: Seq<Performed>,
    again: Seq<Performed>,
    config: TxFirConfig,
)
    ensures
        repeated(
            beginning(e, first).set_tx_fir_config(config).e.link,
            beginning(e, again).set_tx_fir_config(config).e.link,
        ),
{
    let a = beginning(e, first);
    let b = beginning(e, again);
    lemma_beginnings(e, first, again);
    fir::keeps_set_tx_fir_config(a, config);
    fir::keeps_set_tx_fir_config(b, config);
    if continues(first, again) {
        fir::repeats_set_tx_fir_config(a, b, config);
        lemma_repeated(a.set_tx_fir_config(config).e.link, b.set_tx_fir_config(config).e.link);
    }
}

/// Enabling or bypassing the RX FIR can be repeated: with answers to the requests it made it makes
/// them again.
pub proof fn law_rx_fir_switch_repeats(
    e: EngineView,
    first: Seq<Performed>,
    again: Seq<Performed>,
    enable: bool,
)
    ensures
        repeated(
            beginning(e, first).set_rx_fir_en_dis(enable).e.link,
            beginning(e, again).set_rx_fir_en_dis(enable).e.link,
        ),
{
    let a = beginning(e, first);
    let b = beginning(e, again);
    lemma_beginnings(e, first, again);
    fir::keeps_set_rx_fir_en_dis(a, enable);
    fir::keeps_set_rx_fir_en_dis(b, enable);
    if continues(first, again) {
        fir::repeats_set_rx_fir_en_dis(a, b, enable);
        lemma_repeated(a.set_rx_fir_en_dis(enable).e.link, b.set_rx_fir_en_dis(enable).e.link);
    }
}

/// Enabling or bypassing the TX FIR can be repeated: with answers to the requests it made it makes
/// them again.
pub proof fn law_tx_fir_switch_repeats(
    e: EngineView,
    first: Seq<Performed>,
    again: Seq<Performed>,
    enable: bool,
)
    ensures
        repeated(
            beginning(e, first).set_tx_fir_en_dis(enable).e.link,
            beginning(e, again).set_tx_fir_en_dis(enable).e.link,
        ),
{
    let a = beginning(e, first);
    let b = beginning(e, again);
    lemma_beginnings(e, first, again);
    fir::keeps_set_tx_fir_en_dis(a, enable);
    fir::keeps_set_tx_fir_en_dis(b, enable);
    if continues(first, again) {
        fir::repeats_set_tx_fir_en_dis(a, b, enable);
        lemma_repeated(a.set_tx_fir_en_dis(enable).e.link, b.set_tx_fir_en_dis(enable).e.link);
    }
}

/// Choosing the data source of the DAC can be repeated: with answers to the requests it made it
/// makes them again.
pub proof fn law_data_source_repeats(
    e: EngineView,
    first: Seq<Performed>,
    again: Seq<Performed>,
    channels: u8,
    source: u8,
)
    ensures
        repeated(
            beginning(e, first).dac_set_data_source(channels, source).e.link,
            beginning(e, again).dac_set_data_source(channels, source).e.link,
        ),
{
    let a = beginning(e, first);
    let b = beginning(e, again);
    lemma_beginnings(e, first, again);
    axi_init::keeps_dac_set_data_source(a, channels, source);
    axi_init::keeps_dac_set_data_source(b, channels, source);
    if continues(first, again) {
        axi_init::repeats_dac_set_data_source(a, b, channels, source);
        lemma_repeated(
            a.dac_set_data_source(channels, source).e.link,
            b.dac_set_data_source(channels, source).e.link,
        );
    }
}

proof fn lemma_told_repeats(t: Trace, u: Trace, request: Request)
    requires
        in_step(t, u),
    ensures
        ({
            let (t1, r1) = told(t, request);
            let (u1, r2) = told(u, request);
            ||| in_step(t1, u1) && r1 == r2
            ||| belies(t1, u1.done)
            ||| used_up(u1)
        }),
{
    lemma_exchange_repeats(t, u, request);
}

proof fn lemma_reset_goes_on(t: Trace)
    ensures
        goes_on(t, reset_pulse(t).0),
{
    let low = told(t, Request::Reset { high: false }).0;
    let held = told(low, Request::Wait { micros: 1000 }).0;
    let high = told(held, Request::Reset { high: true }).0;
    lemma_exchange_goes_on(t, Request::Reset { high: false });
    lemma_exchange_goes_on(low, Request::Wait { micros: 1000 });
    lemma_exchange_goes_on(held, Request::Reset { high: true });
    lemma_exchange_goes_on(high, Request::Wait { micros: 1000 });
}

proof fn lemma_reset_repeats(t: Trace, u: Trace)
    requires
        in_step(t, u),
    ensures
        ({
            let (t1, r1) = reset_pulse(t);
            let (u1, r2) = reset_pulse(u);
            ||| in_step(t1, u1) && r1 == r2
            ||| belies(t1, u1.done)
            ||| used_up(u1)
        }),
{
    let down = Request::Reset { high: false };
    let pause = Request::Wait { micros: 1000 };
    let up = Request::Reset { high: true };
    let (t1, u1) = (told(t, down).0, told(u, down).0);
    let (t2, u2) = (told(t1, pause).0, told(u1, pause).0);
    let (t3, u3) = (told(t2, up).0, told(u2, up).0);
    lemma_exchange_goes_on(t, down);
    lemma_exchange_goes_on(u, down);
    lemma_exchange_goes_on(t1, pause);
    lemma_exchange_goes_on(u1, pause);
    lemma_exchange_goes_on(t2, up);
    lemma_exchange_goes_on(u2, up);
    lemma_exchange_goes_on(t3, pause);
    lemma_exchange_goes_on(u3, pause);
    lemma_told_repeats(t, u, down);
    if in_step(t1, u1) {
        lemma_told_repeats(t1, u1, pause);
        if in_step(t2, u2) {
            lemma_told_repeats(t2, u2, up);
            if in_step(t3, u3) {
                lemma_told_repeats(t3, u3, pause);
            }
        }
    }
}

/// The start can be repeated: with answers to the requests it made it makes them again.
pub proof fn law_start_repeats(
    tables: ChipTables,
    config: Ad9361Config,
    core_id: u32,
    first: Seq<Performed>,
    again: Seq<Performed>,
)
    ensures
        repeated(
            start_chip(
                Trace { sent: Seq::empty(), done: first, stalled: false },
                tables,
                config,
                core_id,
            ).link,
            start_chip(
                Trace { sent: Seq::empty(), done: again, stalled: false },
                tables,
                config,
                core_id,
            ).link,
        ),
{
    broadcast use {api::keeps_bring_up, api::repeats_bring_up};

    let t = Trace { sent: Seq::empty(), done: first, stalled: false };
    let u = Trace { sent: Seq::empty(), done: again, stalled: false };
    let id = Request::Read { addr: PRODUCT_ID, len: 1 };
    let state = Request::Read { addr: STATE, len: 1 };
    let (t1, u1) = (reset_pulse(t).0, reset_pulse(u).0);
    let (t2, u2) = (exchange(t1, id).0, exchange(u1, id).0);
    let (t3, u3) = (exchange(t2, state).0, exchange(u2, state).0);
    lemma_reset_goes_on(t);
    lemma_reset_goes_on(u);
    lemma_exchange_goes_on(t1, id);
    lemma_exchange_goes_on(u1, id);
    lemma_exchange_goes_on(t2, state);
    lemma_exchange_goes_on(u2, state);
    let end_t = start_chip(t, tables, config, core_id).link;
    let end_u = start_chip(u, tables, config, core_id).link;
    if continues(first, again) {
        assert(in_step(t, u)) by {
            reveal(in_step);
        }
        lemma_reset_repeats(t, u);
        if in_step(t1, u1) {
            lemma_exchange_repeats(t1, u1, id);
            if in_step(t2, u2) {
                lemma_exchange_repeats(t2, u2, state);
            }
        }
        lemma_repeated(end_t, end_u);
    }
}

} // verus!
