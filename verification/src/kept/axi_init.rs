//! What the operations of [`crate::axi_init`] leave alone.
use vstd::prelude::*;

use crate::axi_init::{ToneSetting, ADC_PATH_PLAIN};
use crate::engine::EngineView;
use crate::kept::{calms, leaves, none, same_bandwidths, same_chip, same_los, same_table};
use crate::link::{axi, AxiRequest};

verus! {

pub broadcast proof fn leaves_set_tone(e: EngineView, chan: u8, second: bool, setting: ToneSetting)
    ensures
        #![trigger e.set_tone(chan, second, setting)]
        leaves(e.link, e.set_tone(chan, second, setting).e.link, none()),
        calms(e.link, e.set_tone(chan, second, setting).e.link),
        same_los(e.state.v, e.set_tone(chan, second, setting).e.state.v),
        same_table(e.state.v, e.set_tone(chan, second, setting).e.state.v),
        same_bandwidths(e.state.v, e.set_tone(chan, second, setting).e.state.v),
        same_chip(e, e.set_tone(chan, second, setting).e),
{
    broadcast use {
        crate::kept::leaves_exchange,
        crate::kept::leaves_run,
    };

    reveal(EngineView::set_tone);
}

pub broadcast proof fn leaves_default_tone(e: EngineView, chan: u8, second: bool, clock_hz: u64)
    ensures
        #![trigger e.default_tone(chan, second, clock_hz)]
        leaves(e.link, e.default_tone(chan, second, clock_hz).e.link, none()),
        calms(e.link, e.default_tone(chan, second, clock_hz).e.link),
        same_los(e.state.v, e.default_tone(chan, second, clock_hz).e.state.v),
        same_table(e.state.v, e.default_tone(chan, second, clock_hz).e.state.v),
        same_bandwidths(e.state.v, e.default_tone(chan, second, clock_hz).e.state.v),
        same_chip(e, e.default_tone(chan, second, clock_hz).e),
{
    broadcast use leaves_set_tone;

    reveal(EngineView::default_tone);
}

pub broadcast proof fn leaves_tones_from(e: EngineView, chan: int, channels: int, clock_hz: u64)
    ensures
        #![trigger e.tones_from(chan, channels, clock_hz)]
        leaves(e.link, e.tones_from(chan, channels, clock_hz).e.link, none()),
        calms(e.link, e.tones_from(chan, channels, clock_hz).e.link),
        same_los(e.state.v, e.tones_from(chan, channels, clock_hz).e.state.v),
        same_table(e.state.v, e.tones_from(chan, channels, clock_hz).e.state.v),
        same_bandwidths(e.state.v, e.tones_from(chan, channels, clock_hz).e.state.v),
        same_chip(e, e.tones_from(chan, channels, clock_hz).e),
    decreases channels - chan,
{
    broadcast use leaves_default_tone;

    if chan < channels {
        let mid = e.default_tone(chan as u8, false, clock_hz).default_tone(
            chan as u8,
            true,
            clock_hz,
        );
        leaves_tones_from(mid.e, chan + 1, channels, clock_hz);
    }
}

pub broadcast proof fn leaves_default_tones(e: EngineView, channels: u8, clock_hz: u64)
    ensures
        #![trigger e.default_tones(channels, clock_hz)]
        leaves(e.link, e.default_tones(channels, clock_hz).e.link, none()),
        calms(e.link, e.default_tones(channels, clock_hz).e.link),
        same_los(e.state.v, e.default_tones(channels, clock_hz).e.state.v),
        same_table(e.state.v, e.default_tones(channels, clock_hz).e.state.v),
        same_bandwidths(e.state.v, e.default_tones(channels, clock_hz).e.state.v),
        same_chip(e, e.default_tones(channels, clock_hz).e),
{
    broadcast use leaves_tones_from;

    reveal(EngineView::default_tones);
}

pub broadcast proof fn leaves_dac_set_data_source(e: EngineView, channels: u8, source: u8)
    ensures
        #![trigger e.dac_set_data_source(channels, source)]
        leaves(e.link, e.dac_set_data_source(channels, source).e.link, none()),
        calms(e.link, e.dac_set_data_source(channels, source).e.link),
        same_los(e.state.v, e.dac_set_data_source(channels, source).e.state.v),
        same_table(e.state.v, e.dac_set_data_source(channels, source).e.state.v),
        same_bandwidths(e.state.v, e.dac_set_data_source(channels, source).e.state.v),
        same_chip(e, e.dac_set_data_source(channels, source).e),
{
    broadcast use crate::kept::leaves_run;

    reveal(EngineView::dac_set_data_source);
}

pub broadcast proof fn leaves_core_dac_init(e: EngineView, channels: u8, rate: u8)
    ensures
        #![trigger e.core_dac_init(channels, rate)]
        leaves(e.link, e.core_dac_init(channels, rate).e.link, none()),
        calms(e.link, e.core_dac_init(channels, rate).e.link),
        same_los(e.state.v, e.core_dac_init(channels, rate).e.state.v),
        same_table(e.state.v, e.core_dac_init(channels, rate).e.state.v),
        same_bandwidths(e.state.v, e.core_dac_init(channels, rate).e.state.v),
        same_chip(e, e.core_dac_init(channels, rate).e),
{
    broadcast use {
        leaves_default_tones,
        leaves_dac_set_data_source,
        crate::kept::leaves_exchange,
        crate::kept::leaves_run,
    };

    reveal(EngineView::core_dac_init);
}

pub broadcast proof fn leaves_dac_init(e: EngineView)
    ensures
        #![trigger e.dac_init()]
        leaves(e.link, e.dac_init().e.link, none()),
        calms(e.link, e.dac_init().e.link),
        same_los(e.state.v, e.dac_init().e.state.v),
        same_table(e.state.v, e.dac_init().e.state.v),
        same_bandwidths(e.state.v, e.dac_init().e.state.v),
        same_chip(e, e.dac_init().e),
{
    broadcast use leaves_core_dac_init;

    reveal(EngineView::dac_init);
}

pub broadcast proof fn leaves_adc_channels_from(e: EngineView, chan: int, channels: int)
    ensures
        #![trigger e.adc_channels_from(chan, channels)]
        leaves(e.link, e.adc_channels_from(chan, channels).e.link, none()),
        calms(e.link, e.adc_channels_from(chan, channels).e.link),
        same_los(e.state.v, e.adc_channels_from(chan, channels).e.state.v),
        same_table(e.state.v, e.adc_channels_from(chan, channels).e.state.v),
        same_bandwidths(e.state.v, e.adc_channels_from(chan, channels).e.state.v),
        same_chip(e, e.adc_channels_from(chan, channels).e),
    decreases channels - chan,
{
    broadcast use crate::kept::leaves_run;

    if chan < channels {
        let mid = e.run(
            [axi(AxiRequest::AdcWriteDataPath { chan: chan as u8, raw: ADC_PATH_PLAIN })]@,
        );
        leaves_adc_channels_from(mid.e, chan + 1, channels);
    }
}

pub broadcast proof fn leaves_enable_adc_channels(e: EngineView, channels: u8)
    ensures
        #![trigger e.enable_adc_channels(channels)]
        leaves(e.link, e.enable_adc_channels(channels).e.link, none()),
        calms(e.link, e.enable_adc_channels(channels).e.link),
        same_los(e.state.v, e.enable_adc_channels(channels).e.state.v),
        same_table(e.state.v, e.enable_adc_channels(channels).e.state.v),
        same_bandwidths(e.state.v, e.enable_adc_channels(channels).e.state.v),
        same_chip(e, e.enable_adc_channels(channels).e),
{
    broadcast use leaves_adc_channels_from;

    reveal(EngineView::enable_adc_channels);
}

pub broadcast proof fn leaves_adc_init(e: EngineView, channels: u8)
    ensures
        #![trigger e.adc_init(channels)]
        leaves(e.link, e.adc_init(channels).e.link, none()),
        calms(e.link, e.adc_init(channels).e.link),
        same_los(e.state.v, e.adc_init(channels).e.state.v),
        same_table(e.state.v, e.adc_init(channels).e.state.v),
        same_bandwidths(e.state.v, e.adc_init(channels).e.state.v),
        same_chip(e, e.adc_init(channels).e),
{
    broadcast use {
        leaves_enable_adc_channels,
        crate::kept::leaves_exchange,
        crate::kept::leaves_run,
    };

    reveal(EngineView::adc_init);
}

} // verus!
