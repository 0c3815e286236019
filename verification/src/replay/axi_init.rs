//! Repetition of the operations of [`crate::axi_init`].
use vstd::prelude::*;

use crate::axi_init::{ADC_PATH_PLAIN, ToneSetting};
use crate::engine::EngineView;
use crate::link::{AxiRequest, axi, goes_on};
use crate::replay::{alike, together};

verus! {

pub broadcast proof fn keeps_set_tone(e: EngineView, chan: u8, second: bool, setting: ToneSetting)
    ensures
        goes_on(e.link, (#[trigger] e.set_tone(chan, second, setting)).e.link),
{
    broadcast use {
        crate::replay::engine::keeps_exchange,
        crate::replay::engine::keeps_run,
    };

    reveal(EngineView::set_tone);
}

pub broadcast proof fn repeats_set_tone(
    a: EngineView,
    b: EngineView,
    chan: u8,
    second: bool,
    setting: ToneSetting,
)
    requires
        together(a, b),
    ensures
        #![trigger a.set_tone(chan, second, setting), b.set_tone(chan, second, setting)]
        alike(a.set_tone(chan, second, setting), b.set_tone(chan, second, setting)),
{
    broadcast use {
        crate::replay::engine::keeps_exchange,
        crate::replay::engine::keeps_run,
        crate::replay::engine::repeats_exchange,
        crate::replay::engine::repeats_run,
    };

    reveal(EngineView::set_tone);
}

pub broadcast proof fn keeps_default_tone(e: EngineView, chan: u8, second: bool, clock_hz: u64)
    ensures
        goes_on(e.link, (#[trigger] e.default_tone(chan, second, clock_hz)).e.link),
{
    broadcast use keeps_set_tone;

    reveal(EngineView::default_tone);
}

pub broadcast proof fn repeats_default_tone(
    a: EngineView,
    b: EngineView,
    chan: u8,
    second: bool,
    clock_hz: u64,
)
    requires
        together(a, b),
    ensures
        #![trigger a.default_tone(chan, second, clock_hz), b.default_tone(chan, second, clock_hz)]
        alike(a.default_tone(chan, second, clock_hz), b.default_tone(chan, second, clock_hz)),
{
    broadcast use {
        keeps_set_tone,
        repeats_set_tone,
    };

    reveal(EngineView::default_tone);
}

pub broadcast proof fn keeps_tones_from(e: EngineView, chan: int, channels: int, clock_hz: u64)
    ensures
        goes_on(e.link, (#[trigger] e.tones_from(chan, channels, clock_hz)).e.link),
    decreases channels - chan,
{
    broadcast use keeps_default_tone;

    if chan < channels {
        let mid = e.default_tone(chan as u8, false, clock_hz).default_tone(
            chan as u8,
            true,
            clock_hz,
        );
        keeps_tones_from(mid.e, chan + 1, channels, clock_hz);
    }
}

pub broadcast proof fn repeats_tones_from(
    a: EngineView,
    b: EngineView,
    chan: int,
    channels: int,
    clock_hz: u64,
)
    requires
        together(a, b),
    ensures
        #![trigger a.tones_from(chan, channels, clock_hz), b.tones_from(chan, channels, clock_hz)]
        alike(a.tones_from(chan, channels, clock_hz), b.tones_from(chan, channels, clock_hz)),
    decreases channels - chan,
{
    broadcast use {
        keeps_default_tone,
        repeats_default_tone,
    };

    if chan < channels {
        let mid_a = a.default_tone(chan as u8, false, clock_hz).default_tone(
            chan as u8,
            true,
            clock_hz,
        );
        let mid_b = b.default_tone(chan as u8, false, clock_hz).default_tone(
            chan as u8,
            true,
            clock_hz,
        );
        keeps_tones_from(mid_a.e, chan + 1, channels, clock_hz);
        keeps_tones_from(mid_b.e, chan + 1, channels, clock_hz);
        if together(mid_a.e, mid_b.e) {
            repeats_tones_from(mid_a.e, mid_b.e, chan + 1, channels, clock_hz);
        }
    }
}

pub broadcast proof fn keeps_default_tones(e: EngineView, channels: u8, clock_hz: u64)
    ensures
        goes_on(e.link, (#[trigger] e.default_tones(channels, clock_hz)).e.link),
{
    broadcast use keeps_tones_from;

    reveal(EngineView::default_tones);
}

pub broadcast proof fn repeats_default_tones(
    a: EngineView,
    b: EngineView,
    channels: u8,
    clock_hz: u64,
)
    requires
        together(a, b),
    ensures
        #![trigger a.default_tones(channels, clock_hz), b.default_tones(channels, clock_hz)]
        alike(a.default_tones(channels, clock_hz), b.default_tones(channels, clock_hz)),
{
    broadcast use {
        keeps_tones_from,
        repeats_tones_from,
    };

    reveal(EngineView::default_tones);
}

pub broadcast proof fn keeps_dac_set_data_source(e: EngineView, channels: u8, source: u8)
    ensures
        goes_on(e.link, (#[trigger] e.dac_set_data_source(channels, source)).e.link),
{
    broadcast use crate::replay::engine::keeps_run;

    reveal(EngineView::dac_set_data_source);
}

pub broadcast proof fn repeats_dac_set_data_source(
    a: EngineView,
    b: EngineView,
    channels: u8,
    source: u8,
)
    requires
        together(a, b),
    ensures
        #![trigger a.dac_set_data_source(channels, source), b.dac_set_data_source(channels, source)]
        alike(a.dac_set_data_source(channels, source), b.dac_set_data_source(channels, source)),
{
    broadcast use {
        crate::replay::engine::keeps_run,
        crate::replay::engine::repeats_run,
    };

    reveal(EngineView::dac_set_data_source);
}

pub broadcast proof fn keeps_core_dac_init(e: EngineView, channels: u8, rate: u8)
    ensures
        goes_on(e.link, (#[trigger] e.core_dac_init(channels, rate)).e.link),
{
    broadcast use {
        keeps_default_tones,
        keeps_dac_set_data_source,
        crate::replay::engine::keeps_exchange,
        crate::replay::engine::keeps_run,
    };

    reveal(EngineView::core_dac_init);
}

pub broadcast proof fn repeats_core_dac_init(a: EngineView, b: EngineView, channels: u8, rate: u8)
    requires
        together(a, b),
    ensures
        #![trigger a.core_dac_init(channels, rate), b.core_dac_init(channels, rate)]
        alike(a.core_dac_init(channels, rate), b.core_dac_init(channels, rate)),
{
    broadcast use {
        keeps_default_tones,
        keeps_dac_set_data_source,
        crate::replay::engine::keeps_exchange,
        crate::replay::engine::keeps_run,
        repeats_default_tones,
        repeats_dac_set_data_source,
        crate::replay::engine::repeats_exchange,
        crate::replay::engine::repeats_run,
    };

    reveal(EngineView::core_dac_init);
}

pub broadcast proof fn keeps_dac_init(e: EngineView)
    ensures
        goes_on(e.link, (#[trigger] e.dac_init()).e.link),
{
    broadcast use keeps_core_dac_init;

    reveal(EngineView::dac_init);
}

pub broadcast proof fn repeats_dac_init(a: EngineView, b: EngineView)
    requires
        together(a, b),
    ensures
        #![trigger a.dac_init(), b.dac_init()]
        alike(a.dac_init(), b.dac_init()),
{
    broadcast use {
        keeps_core_dac_init,
        repeats_core_dac_init,
    };

    reveal(EngineView::dac_init);
}

pub broadcast proof fn keeps_adc_channels_from(e: EngineView, chan: int, channels: int)
    ensures
        goes_on(e.link, (#[trigger] e.adc_channels_from(chan, channels)).e.link),
    decreases channels - chan,
{
    broadcast use crate::replay::engine::keeps_run;

    if chan < channels {
        let mid = e.run(
            [axi(AxiRequest::AdcWriteDataPath { chan: chan as u8, raw: ADC_PATH_PLAIN })]@,
        );
        keeps_adc_channels_from(mid.e, chan + 1, channels);
    }
}

pub broadcast proof fn repeats_adc_channels_from(
    a: EngineView,
    b: EngineView,
    chan: int,
    channels: int,
)
    requires
        together(a, b),
    ensures
        #![trigger a.adc_channels_from(chan, channels), b.adc_channels_from(chan, channels)]
        alike(a.adc_channels_from(chan, channels), b.adc_channels_from(chan, channels)),
    decreases channels - chan,
{
    broadcast use {
        crate::replay::engine::keeps_run,
        crate::replay::engine::repeats_run,
    };

    if chan < channels {
        let mid_a = a.run(
            [axi(AxiRequest::AdcWriteDataPath { chan: chan as u8, raw: ADC_PATH_PLAIN })]@,
        );
        let mid_b = b.run(
            [axi(AxiRequest::AdcWriteDataPath { chan: chan as u8, raw: ADC_PATH_PLAIN })]@,
        );
        keeps_adc_channels_from(mid_a.e, chan + 1, channels);
        keeps_adc_channels_from(mid_b.e, chan + 1, channels);
        if together(mid_a.e, mid_b.e) {
            repeats_adc_channels_from(mid_a.e, mid_b.e, chan + 1, channels);
        }
    }
}

pub broadcast proof fn keeps_enable_adc_channels(e: EngineView, channels: u8)
    ensures
        goes_on(e.link, (#[trigger] e.enable_adc_channels(channels)).e.link),
{
    broadcast use keeps_adc_channels_from;

    reveal(EngineView::enable_adc_channels);
}

pub broadcast proof fn repeats_enable_adc_channels(a: EngineView, b: EngineView, channels: u8)
    requires
        together(a, b),
    ensures
        #![trigger a.enable_adc_channels(channels), b.enable_adc_channels(channels)]
        alike(a.enable_adc_channels(channels), b.enable_adc_channels(channels)),
{
    broadcast use {
        keeps_adc_channels_from,
        repeats_adc_channels_from,
    };

    reveal(EngineView::enable_adc_channels);
}

pub broadcast proof fn keeps_adc_init(e: EngineView, channels: u8)
    ensures
        goes_on(e.link, (#[trigger] e.adc_init(channels)).e.link),
{
    broadcast use {
        keeps_enable_adc_channels,
        crate::replay::engine::keeps_exchange,
        crate::replay::engine::keeps_run,
    };

    reveal(EngineView::adc_init);
}

pub broadcast proof fn repeats_adc_init(a: EngineView, b: EngineView, channels: u8)
    requires
        together(a, b),
    ensures
        #![trigger a.adc_init(channels), b.adc_init(channels)]
        alike(a.adc_init(channels), b.adc_init(channels)),
{
    broadcast use {
        keeps_enable_adc_channels,
        crate::replay::engine::keeps_exchange,
        crate::replay::engine::keeps_run,
        repeats_enable_adc_channels,
        crate::replay::engine::repeats_exchange,
        crate::replay::engine::repeats_run,
    };

    reveal(EngineView::adc_init);
}

} // verus!
