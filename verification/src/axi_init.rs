//! AXI ADC/DAC core start and the DDS tones.
use vstd::prelude::*;

use crate::dig_tune::num_phy_chan;
use crate::engine::{Engine, EngineView, flow, Flow};
use crate::error::Ad9361Error;
use crate::link::{axi, AxiRequest, Fault, wait};

verus! {

/// AXI core init errors.
#[derive(Debug, Clone, Copy, PartialEq, Eq, Structural)]
pub enum AxiInitError {
    /// Core reports errors, usually no clock or no lock on the interface
    Status,
}

/// DDS frequency of every tone.
pub const DEFAULT_DDS_FREQUENCY_HZ: u32 = 3_000_000;

/// DDS scale of every tone, in millionths of full scale.
pub const DEFAULT_DDS_SCALE_MICRO: i32 = 50_000;

/// DAC data source that plays the DDS tones.
pub const SOURCE_TONE: u8 = 0;

/// DAC data source that plays the data of the DMA.
pub const SOURCE_DMA: u8 = 2;

/// ADC datapath: sign extended, formatted, enabled.
pub const ADC_PATH_PLAIN: u32 = 0x51;

/// Clock rate from the core's frequency and ratio registers. The product of the two wraps.
#[verifier::allow_in_spec]
pub fn core_clock_hz(freq: u32, ratio: u32) -> u64
    returns
        ((freq.wrapping_mul(ratio) * 390_625) / 256) as u64,
{
    freq.wrapping_mul(ratio) as u64 * 390_625 / 256
}

/// Whether a status register reports a running core.
pub fn check_status(status: u32) -> (r: Result<(), AxiInitError>)
    ensures
        r is Ok <==> status != 0,
        r matches Err(error) ==> error == AxiInitError::Status,
{
    if status == 0 {
        Err(AxiInitError::Status)
    } else {
        Ok(())
    }
}

/// A setting of a DDS tone.
#[derive(Debug, Clone, Copy, PartialEq, Eq, Structural)]
pub enum ToneSetting {
    /// phase increment per sample, 16 bits
    Increment(u32),
    /// initial phase, 16 bits
    Phase(u32),
    /// scale, 16 bits
    Scale(u32),
}

impl ToneSetting {
    /// A frequency, at the clock of the DAC.
    #[verifier::allow_in_spec]
    pub fn frequency(freq_hz: u32, dac_clock_hz: u64) -> Self
        returns
            (ToneSetting::Increment(
                ((freq_hz * 0xFFFF) as u64 / (if dac_clock_hz > 1 {
                    dac_clock_hz
                } else {
                    1
                })) as u32 & 0xFFFF,
            )),
    {
        proof {
            assert(0 <= freq_hz * 0xFFFF <= 0xFFFF_FFFF * 0xFFFF);
        }
        let clock: u64 = if dac_clock_hz > 1 {
            dac_clock_hz
        } else {
            1
        };
        ToneSetting::Increment((freq_hz as u64 * 0xFFFF / clock) as u32 & 0xFFFF)
    }

    /// A phase in millidegrees, rounded to 65536 steps.
    #[verifier::allow_in_spec]
    pub fn phase(phase_mdeg: u32) -> Self
        returns
            (ToneSetting::Phase(((phase_mdeg * 0x10000 + 180_000) / 360_000) as u32 & 0xFFFF)),
    {
        ToneSetting::Phase(((phase_mdeg as u64 * 0x10000 + 180_000) / 360_000) as u32 & 0xFFFF)
    }

    /// A scale in millionths of full scale, negative inverts. Just below two times full scale at
    /// most.
    #[verifier::allow_in_spec]
    pub fn scale(scale_micro: i32) -> Self
        returns
            (ToneSetting::Scale(
                (((scale_magnitude(scale_micro) * 0x4000) / 1_000_000) as u32 | (if scale_micro
                    < 0 {
                    0x8000u32
                } else {
                    0
                })) & 0xFFFF,
            )),
    {
        let value: u32 = (scale_magnitude(scale_micro) as u64 * 0x4000 / 1_000_000) as u32;
        let sign: u32 = if scale_micro < 0 {
            0x8000
        } else {
            0
        };
        ToneSetting::Scale((value | sign) & 0xFFFF)
    }

    /// The scale and phase registers of a tone with this setting changed. A tone always advances.
    #[verifier::allow_in_spec]
    pub fn applied(self, scale: u32, phase: u32) -> (u32, u32)
        returns
            (match self {
                ToneSetting::Increment(increment) => (
                    scale,
                    (phase & 0xFFFF_0000) | increment | 1,
                ),
                ToneSetting::Phase(init) => (scale, (phase & 0xFFFF) | (init << 16)),
                ToneSetting::Scale(value) => (value, phase),
            }),
    {
        match self {
            ToneSetting::Increment(increment) => (scale, (phase & 0xFFFF_0000) | increment | 1),
            ToneSetting::Phase(init) => (scale, (phase & 0xFFFF) | (init << 16)),
            ToneSetting::Scale(value) => (value, phase),
        }
    }
}

/// Size of a scale, limited to what the register can hold.
#[verifier::allow_in_spec]
pub fn scale_magnitude(scale_micro: i32) -> u32
    returns
        (if scale_micro >= 1_999_000 || scale_micro <= -1_999_000 {
            1_999_000u32
        } else if scale_micro < 0 {
            (-scale_micro) as u32
        } else {
            scale_micro as u32
        }),
{
    if scale_micro >= 1_999_000 || scale_micro <= -1_999_000 {
        1_999_000
    } else if scale_micro < 0 {
        (-scale_micro) as u32
    } else {
        scale_micro as u32
    }
}

/// The settings of a tone don't disturb each other: a frequency leaves the initial phase and the
/// scale, a phase leaves the frequency and the scale, a scale leaves the others.
pub proof fn law_tone_settings_are_independent(
    freq_hz: u32,
    clock_hz: u64,
    phase_mdeg: u32,
    scale_micro: i32,
    scale: u32,
    phase: u32,
)
    ensures
        ({
            let (s, p) = ToneSetting::frequency(freq_hz, clock_hz).applied(scale, phase);
            s == scale && p >> 16 == phase >> 16
        }),
        ({
            let (s, p) = ToneSetting::phase(phase_mdeg).applied(scale, phase);
            s == scale && p & 0xFFFF == phase & 0xFFFF
        }),
        ToneSetting::scale(scale_micro).applied(scale, phase).1 == phase,
{
    if let ToneSetting::Increment(increment) = ToneSetting::frequency(freq_hz, clock_hz) {
        let wide = (((freq_hz * 0xFFFF) as u64) / (if clock_hz > 1 {
            clock_hz
        } else {
            1
        })) as u32;
        assert(((phase & 0xFFFF_0000) | increment | 1) >> 16 == phase >> 16) by (bit_vector)
            requires
                increment == wide & 0xFFFF,
        ;
    }
    if let ToneSetting::Phase(init) = ToneSetting::phase(phase_mdeg) {
        assert(((phase & 0xFFFF) | (init << 16)) & 0xFFFF == phase & 0xFFFF) by (bit_vector);
    }
}

/// Initial phase of the tones of a channel in millidegrees: I and Q are 90 degrees apart.
#[verifier::allow_in_spec]
pub fn channel_phase(chan: u8) -> u32
    returns
        (if chan % 2 == 1 {
            0u32
        } else {
            90_000
        }),
{
    if chan % 2 == 1 {
        0
    } else {
        90_000
    }
}

impl EngineView {
    /// Enables the channels from `chan` on.
    pub open spec fn adc_channels_from(self, chan: int, channels: int) -> Flow
        decreases channels - chan,
    {
        if chan >= channels {
            self.start()
        } else {
            let written = self.run(
                [axi(AxiRequest::AdcWriteDataPath { chan: chan as u8, raw: ADC_PATH_PLAIN })]@,
            );
            if written.err is Some {
                written
            } else {
                written.e.adc_channels_from(chan + 1, channels)
            }
        }
    }

    /// Enables the ADC channels.
    #[verifier::opaque]
    pub open spec fn enable_adc_channels(self, channels: u8) -> Flow {
        self.adc_channels_from(0, channels as int)
    }

    /// Starts the ADC core. Fails if it reports no status.
    #[verifier::opaque]
    pub open spec fn adc_init(self, channels: u8) -> Flow {
        let status = self.run([axi(AxiRequest::AdcEnable)]@).enable_adc_channels(channels).run(
            [wait(100_000)]@,
        ).axi(AxiRequest::AdcReadStatus);
        match status.r {
            Err(error) => status.done(),
            Ok(value) => if value as u32 == 0 {
                status.e.fail(Ad9361Error::AxiStatus)
            } else {
                status.e.start()
            },
        }
    }

    /// Changes a setting of a DDS tone, two of them per channel, with the DAC sync pulsed around it.
    #[verifier::opaque]
    pub open spec fn set_tone(self, chan: u8, second: bool, setting: ToneSetting) -> Flow {
        let scale = self.run([axi(AxiRequest::DacClearSync)]@).axi(
            AxiRequest::DacReadToneScale { chan, second },
        );
        match scale.r {
            Err(error) => scale.done(),
            Ok(old_scale) => {
                let phase = scale.e.axi(AxiRequest::DacReadTonePhase { chan, second });
                match phase.r {
                    Err(error) => phase.done(),
                    Ok(old_phase) => {
                        let words = setting.applied(old_scale as u32, old_phase as u32);
                        phase.e.run(
                            [
                                axi(AxiRequest::DacWriteToneScale { chan, second, raw: words.0 }),
                                axi(AxiRequest::DacWriteTonePhase { chan, second, raw: words.1 }),
                                axi(AxiRequest::DacSynchronize),
                            ]@,
                        )
                    },
                }
            },
        }
    }

    /// Default frequency, phase and scale of a tone.
    #[verifier::opaque]
    pub open spec fn default_tone(self, chan: u8, second: bool, clock_hz: u64) -> Flow {
        self.set_tone(
            chan,
            second,
            ToneSetting::frequency(DEFAULT_DDS_FREQUENCY_HZ, clock_hz),
        ).set_tone(chan, second, ToneSetting::phase(channel_phase(chan))).set_tone(
            chan,
            second,
            ToneSetting::scale(DEFAULT_DDS_SCALE_MICRO),
        )
    }

    /// Sets up both tones of the channels from `chan` on.
    pub open spec fn tones_from(self, chan: int, channels: int, clock_hz: u64) -> Flow
        decreases channels - chan,
    {
        if chan >= channels {
            self.start()
        } else {
            let written = self.default_tone(chan as u8, false, clock_hz).default_tone(
                chan as u8,
                true,
                clock_hz,
            );
            if written.err is Some {
                written
            } else {
                written.e.tones_from(chan + 1, channels, clock_hz)
            }
        }
    }

    /// Sets up all tones.
    #[verifier::opaque]
    pub open spec fn default_tones(self, channels: u8, clock_hz: u64) -> Flow {
        self.tones_from(0, channels as int, clock_hz)
    }

    /// Starts the DAC core with the DDS tones as data source. `rate` is the divider minus one.
    /// Fails if the core reports no status.
    #[verifier::opaque]
    pub open spec fn core_dac_init(self, channels: u8, rate: u8) -> Flow {
        let status = self.run(
            [
                axi(AxiRequest::DacEnable),
                axi(AxiRequest::DacRateDivider { divider: rate.saturating_add(1) }),
                wait(100_000),
            ]@,
        ).axi(AxiRequest::DacReadInterfaceStatus);
        match status.r {
            Err(error) => status.done(),
            Ok(value) => if value as u32 == 0 {
                status.e.fail(Ad9361Error::AxiStatus)
            } else {
                let freq = status.e.axi(AxiRequest::DacReadClockFrequency);
                match freq.r {
                    Err(error) => freq.done(),
                    Ok(freq_raw) => {
                        let ratio = freq.e.axi(AxiRequest::DacReadClockRatio);
                        match ratio.r {
                            Err(error) => ratio.done(),
                            Ok(ratio_raw) => ratio.e.default_tones(
                                channels,
                                core_clock_hz(freq_raw as u32, ratio_raw as u32),
                            ).dac_set_data_source(channels, SOURCE_TONE),
                        }
                    },
                }
            },
        }
    }

    /// Data source of the first DAC channels.
    #[verifier::opaque]
    pub open spec fn dac_set_data_source(self, channels: u8, source: u8) -> Flow {
        self.run([axi(AxiRequest::DacSelectSources { channels, source })]@)
    }

    /// Starts the DAC core for the channels in use.
    #[verifier::opaque]
    pub open spec fn dac_init(self) -> Flow {
        if self.state.v.mode.rx2tx2 {
            self.core_dac_init(4, 3)
        } else {
            self.core_dac_init(2, 1)
        }
    }
}

/// The same steps, after others.
impl Flow {
    pub open spec fn enable_adc_channels(self, channels: u8) -> Flow {
        if self.err is Some {
            self
        } else {
            self.e.enable_adc_channels(channels)
        }
    }

    pub open spec fn adc_init(self, channels: u8) -> Flow {
        if self.err is Some {
            self
        } else {
            self.e.adc_init(channels)
        }
    }

    pub open spec fn set_tone(self, chan: u8, second: bool, setting: ToneSetting) -> Flow {
        if self.err is Some {
            self
        } else {
            self.e.set_tone(chan, second, setting)
        }
    }

    pub open spec fn default_tone(self, chan: u8, second: bool, clock_hz: u64) -> Flow {
        if self.err is Some {
            self
        } else {
            self.e.default_tone(chan, second, clock_hz)
        }
    }

    pub open spec fn default_tones(self, channels: u8, clock_hz: u64) -> Flow {
        if self.err is Some {
            self
        } else {
            self.e.default_tones(channels, clock_hz)
        }
    }

    pub open spec fn core_dac_init(self, channels: u8, rate: u8) -> Flow {
        if self.err is Some {
            self
        } else {
            self.e.core_dac_init(channels, rate)
        }
    }

    pub open spec fn dac_set_data_source(self, channels: u8, source: u8) -> Flow {
        if self.err is Some {
            self
        } else {
            self.e.dac_set_data_source(channels, source)
        }
    }

    pub open spec fn dac_init(self) -> Flow {
        if self.err is Some {
            self
        } else {
            self.e.dac_init()
        }
    }
}

impl<'a> Engine<'a> {
    fn enable_adc_channels(&mut self, channels: u8) -> (r: Result<(), Fault>)
        ensures
            flow(final(self)@, r) == old(self)@.enable_adc_channels(channels),
    {
        reveal(EngineView::enable_adc_channels);
        let mut chan: u8 = 0;
        while chan < channels
            invariant
                chan <= channels,
                old(self)@.enable_adc_channels(channels) == self@.adc_channels_from(
                    chan as int,
                    channels as int,
                ),
            decreases channels - chan,
        {
            self.run(&[axi(AxiRequest::AdcWriteDataPath { chan: chan as u8, raw: ADC_PATH_PLAIN })])?;
            chan = chan + 1;
        }
        Ok(())
    }

    /// Starts the ADC core: enable the channels, check the status.
    pub fn adc_init(&mut self, channels: u8) -> (r: Result<(), Fault>)
        requires
            channels <= 16,
        ensures
            flow(final(self)@, r) == old(self)@.adc_init(channels),
    {
        reveal(EngineView::adc_init);
        self.run(&[axi(AxiRequest::AdcEnable)])?;
        self.enable_adc_channels(channels)?;
        self.run(&[wait(100_000)])?;
        let status: u64 = self.axi(AxiRequest::AdcReadStatus)?;
        match check_status(status as u32) {
            Ok(()) => Ok(()),
            Err(_) => Err(Ad9361Error::AxiStatus),
        }
    }

    fn set_tone(&mut self, chan: u8, second: bool, setting: ToneSetting) -> (r: Result<(), Fault>)
        ensures
            flow(final(self)@, r) == old(self)@.set_tone(chan, second, setting),
    {
        reveal(EngineView::set_tone);
        self.run(&[axi(AxiRequest::DacClearSync)])?;
        let old_scale: u64 = self.axi(AxiRequest::DacReadToneScale { chan, second })?;
        let old_phase: u64 = self.axi(AxiRequest::DacReadTonePhase { chan, second })?;
        let words: (u32, u32) = setting.applied(old_scale as u32, old_phase as u32);
        self.run(&[
            axi(AxiRequest::DacWriteToneScale { chan, second, raw: words.0 }),
            axi(AxiRequest::DacWriteTonePhase { chan, second, raw: words.1 }),
            axi(AxiRequest::DacSynchronize),
        ])
    }

    fn default_tone(&mut self, chan: u8, second: bool, clock_hz: u64) -> (r: Result<(), Fault>)
        ensures
            flow(final(self)@, r) == old(self)@.default_tone(chan, second, clock_hz),
    {
        reveal(EngineView::default_tone);
        self.set_tone(chan, second, ToneSetting::frequency(DEFAULT_DDS_FREQUENCY_HZ, clock_hz))?;
        self.set_tone(chan, second, ToneSetting::phase(channel_phase(chan)))?;
        self.set_tone(chan, second, ToneSetting::scale(DEFAULT_DDS_SCALE_MICRO))
    }

    fn default_tones(&mut self, channels: u8, clock_hz: u64) -> (r: Result<(), Fault>)
        ensures
            flow(final(self)@, r) == old(self)@.default_tones(channels, clock_hz),
    {
        reveal(EngineView::default_tones);
        let mut chan: u8 = 0;
        while chan < channels
            invariant
                chan <= channels,
                old(self)@.default_tones(channels, clock_hz) == self@.tones_from(
                    chan as int,
                    channels as int,
                    clock_hz,
                ),
            decreases channels - chan,
        {
            self.default_tone(chan, false, clock_hz)?;
            self.default_tone(chan, true, clock_hz)?;
            chan = chan + 1;
        }
        Ok(())
    }

    /// Starts the DAC core with the DDS as data source. `rate` is the rate register value, divider
    /// minus one.
    pub fn core_dac_init(&mut self, channels: u8, rate: u8) -> (r: Result<(), Fault>)
        requires
            channels <= 15,
        ensures
            flow(final(self)@, r) == old(self)@.core_dac_init(channels, rate),
    {
        reveal(EngineView::core_dac_init);
        self.run(&[
            axi(AxiRequest::DacEnable),
            axi(AxiRequest::DacRateDivider { divider: rate.saturating_add(1) }),
            wait(100_000),
        ])?;
        let status: u64 = self.axi(AxiRequest::DacReadInterfaceStatus)?;
        if check_status(status as u32).is_err() {
            return Err(Ad9361Error::AxiStatus);
        }
        let freq_raw: u64 = self.axi(AxiRequest::DacReadClockFrequency)?;
        let ratio_raw: u64 = self.axi(AxiRequest::DacReadClockRatio)?;
        // two tones per channel, I and Q 90 degrees apart
        self.default_tones(channels, core_clock_hz(freq_raw as u32, ratio_raw as u32))?;
        self.dac_set_data_source(channels, SOURCE_TONE)
    }

    /// Data source for the first `channels` DAC channels.
    pub fn dac_set_data_source(&mut self, channels: u8, source: u8) -> (r: Result<(), Fault>)
        requires
            channels <= 15,
        ensures
            flow(final(self)@, r) == old(self)@.dac_set_data_source(channels, source),
    {
        reveal(EngineView::dac_set_data_source);
        self.run(&[axi(AxiRequest::DacSelectSources { channels, source })])
    }

    /// Starts the DAC core with the DDS as source.
    pub fn dac_init(&mut self) -> (r: Result<(), Fault>)
        ensures
            flow(final(self)@, r) == old(self)@.dac_init(),
    {
        reveal(EngineView::dac_init);
        if self.state.v.mode.rx2tx2 {
            self.core_dac_init(4, 3)
        } else {
            self.core_dac_init(2, 1)
        }
    }

    /// DAC takes data from the DMA.
    pub fn dac_use_dma_data(&mut self) -> (r: Result<(), Fault>)
        ensures
            flow(final(self)@, r) == old(self)@.dac_set_data_source(
                num_phy_chan(&old(self)@.state.v.mode),
                SOURCE_DMA,
            ),
    {
        reveal(EngineView::dac_set_data_source);
        let channels: u8 = num_phy_chan(&self.state.v.mode);
        self.dac_set_data_source(channels, SOURCE_DMA)
    }

    /// Back to the DDS tones.
    pub fn dac_use_dds(&mut self) -> (r: Result<(), Fault>)
        ensures
            flow(final(self)@, r) == old(self)@.dac_set_data_source(
                num_phy_chan(&old(self)@.state.v.mode),
                SOURCE_TONE,
            ),
    {
        reveal(EngineView::dac_set_data_source);
        let channels: u8 = num_phy_chan(&self.state.v.mode);
        self.dac_set_data_source(channels, SOURCE_TONE)
    }

    /// TX channels the DMA data is interleaved for.
    pub fn dac_num_tx_channels(&self) -> (n: usize)
        ensures
            n == (if self@.state.v.mode.rx2tx2 {
                2usize
            } else {
                1
            }),
    {
        num_phy_chan(&self.state.v.mode) as usize / 2
    }
}

} // verus!
