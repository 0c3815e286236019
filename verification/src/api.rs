//! The public API: [`Uninitialized`], [`Configured`] and [`Ad9361`], plus the handles
//! [`ManualRxGain`], [`RxFir`] and [`TxFir`].
//!
//! Nothing here touches the bus. Every operation takes the answers known so far and leaves the
//! requests that follow from them in its [`Link`]. Whoever owns the bus performs the requests that
//! have no answer yet and runs the operation again from where it started, until the conversation
//! [is complete](Link::is_complete).
use vstd::prelude::*;

use crate::axi_init::{SOURCE_DMA, SOURCE_TONE};
use crate::clocks::Ad9361ClockRates;
use crate::config::{config_error, Ad9361Config, Ad9361Settings, ConfigError, ReferenceClock};
use crate::dig_tune::num_phy_chan;
use crate::engine::{flow, Engine, EngineView, Flow, Held, Reply};
use crate::error::{Ad9361Error, InitError};
use crate::fir::{law_failed_fir_is_bypassed, law_fir_is_switched, RxFirConfig, TxFirConfig};
use crate::gain_control::GainMode;
use crate::link::{error_of, exchange, BusFault, Fault, Link, Performed, Request, Trace};
use crate::ports::Channel;
use crate::registers::{DEVICE_ID, DEVICE_REVISION, ENSM_STATE, PRODUCT_ID, STATE};
use crate::spi::{reset, reset_pulse};
use crate::state::EngineState;
use crate::tables::ChipTables;
use crate::units::{
    HertzU32, HertzU64, RfBandwidth, RxLoFrequency, SampleRate, TxAttenuation, TxLoFrequency,
};

verus! {

/// Errors of the start.
pub type InitFault = InitError<BusFault, BusFault>;

/// AD936X that has not been configured.
///
/// Needs the [`ReferenceClock`] frequency the chip runs on and the instance number of the AXI core.
/// Next is [`Self::configure`].
#[derive(Debug, Clone, Copy)]
pub struct Uninitialized {
    ref_clk: ReferenceClock,
    core_id: u32,
}

impl Uninitialized {
    pub closed spec fn spec_ref_clk(self) -> ReferenceClock {
        self.ref_clk
    }

    pub closed spec fn spec_core_id(self) -> u32 {
        self.core_id
    }

    /// Stores the parts. Nothing is sent to the chip.
    pub fn new(ref_clk: ReferenceClock, core_id: u32) -> (chip: Self)
        ensures
            chip.spec_ref_clk() == ref_clk,
            chip.spec_core_id() == core_id,
    {
        Uninitialized { ref_clk, core_id }
    }

    /// Checks the settings and returns a [`Configured`] if they are valid. Nothing is sent to the
    /// chip.
    ///
    /// Errors are reported here instead of half way through the setup: path clocks over the chip's
    /// limits, a reference clock that can't reach the synth reference window, settings that don't
    /// fit their register field, and combinations the chip can't do. See [`ConfigError`].
    pub fn configure(self, settings: Ad9361Settings) -> (r: Result<Configured, ConfigError>)
        ensures
            error_of(r) == config_error(settings, self.spec_ref_clk()),
            r matches Ok(configured) ==> {
                &&& configured.spec_config().spec_settings() == settings
                &&& configured.spec_config().spec_ref_clk() == self.spec_ref_clk()
                &&& configured.spec_core_id() == self.spec_core_id()
            },
    {
        let config = Ad9361Config::new(settings, self.ref_clk)?;
        Ok(Configured { config, core_id: self.core_id })
    }
}

/// Checked settings, chip not touched yet.
///
/// Call [`Self::init`] to set up the chip.
#[derive(Debug, Clone)]
pub struct Configured {
    config: Ad9361Config,
    core_id: u32,
}

/// Product ID that the chip has to report.
pub const SUPPORTED_PRODUCT: u8 = 1;

/// Product ID from the identification register.
#[verifier::allow_in_spec]
pub fn product_id(id: u8) -> u8
    returns
        (id & DEVICE_ID) >> 3,
{
    (id & DEVICE_ID) >> 3
}

impl EngineView {
    /// Loads the FIRs of the settings.
    #[verifier::opaque]
    pub open spec fn load_firs(self, settings: Ad9361Settings) -> Flow {
        let tx = match settings.tx_fir {
            Some(fir) => self.set_tx_fir_config(fir),
            None => self.start(),
        };
        match settings.rx_fir {
            Some(fir) => tx.set_rx_fir_config(fir),
            None => tx,
        }
    }

    /// Everything after the chip has been identified: the clock rates, the setup, the FIRs, the
    /// DAC core.
    #[verifier::opaque]
    pub open spec fn bring_up(self, config: Ad9361Config) -> Flow {
        self.init_clocks().init(config).load_firs(config.spec_settings()).dac_init()
    }
}

/// The same steps, after others.
impl Flow {
    pub open spec fn load_firs(self, settings: Ad9361Settings) -> Flow {
        if self.err is Some {
            self
        } else {
            self.e.load_firs(settings)
        }
    }
}

/// Outcome of the start: the conversation, and the state and the revision of the chip.
pub struct Started {
    pub link: Trace,
    pub r: Result<(Held<EngineState>, u8), InitFault>,
}

/// The start: reset, identification, ENSM state, then the rest off the checked settings.
pub open spec fn start_chip(
    t: Trace,
    tables: ChipTables,
    config: Ad9361Config,
    core_id: u32,
) -> Started {
    let (after_reset, pin) = reset_pulse(t);
    if let Some(fault) = pin {
        Started { link: after_reset, r: Err(InitError::ResetPin(fault)) }
    } else {
        let (identified, id) = exchange(after_reset, Request::Read { addr: PRODUCT_ID, len: 1 });
        match id {
            Err(fault) => Started {
                link: identified,
                r: Err(InitError::Chip(Ad9361Error::Spi(fault))),
            },
            Ok(id) => if product_id(id as u8) != SUPPORTED_PRODUCT {
                Started {
                    link: identified,
                    r: Err(InitError::UnsupportedDevice { product_id: product_id(id as u8) }),
                }
            } else {
                let (link, ensm) = exchange(identified, Request::Read { addr: STATE, len: 1 });
                match ensm {
                    Err(fault) => Started {
                        link,
                        r: Err(InitError::Chip(Ad9361Error::Spi(fault))),
                    },
                    Ok(ensm) => {
                        let fresh = EngineState::fresh(
                            config,
                            tables,
                            core_id,
                            ensm as u8 & ENSM_STATE,
                        );
                        let up = (EngineView { link, state: Held { v: fresh }, tables }).bring_up(
                            config,
                        );
                        Started {
                            link: up.e.link,
                            r: match up.err {
                                Some(error) => Err(InitError::Chip(error)),
                                None => Ok((up.e.state, id as u8 & DEVICE_REVISION)),
                            },
                        }
                    },
                }
            },
        }
    }
}

impl<'t> Engine<'t> {
    fn load_firs(&mut self, settings: &Ad9361Settings) -> (r: Result<(), Fault>)
        ensures
            flow(final(self)@, r) == old(self)@.load_firs(*settings),
    {
        reveal(EngineView::load_firs);
        if let Some(fir) = &settings.tx_fir {
            self.set_tx_fir_config(fir)?;
        }
        if let Some(fir) = &settings.rx_fir {
            self.set_rx_fir_config(fir)?;
        }
        Ok(())
    }

    fn bring_up(&mut self, config: &Ad9361Config) -> (r: Result<(), Fault>)
        ensures
            flow(final(self)@, r) == old(self)@.bring_up(*config),
    {
        reveal(EngineView::bring_up);
        self.init_clocks()?;
        self.init(config)?;
        self.load_firs(config.settings())?;
        self.dac_init()
    }
}

impl Configured {
    pub closed spec fn spec_config(self) -> Ad9361Config {
        self.config
    }

    pub closed spec fn spec_core_id(self) -> u32 {
        self.core_id
    }

    /// The checked settings.
    pub fn config(&self) -> (config: &Ad9361Config)
        ensures
            *config == self.spec_config(),
    {
        &self.config
    }

    /// Resets and sets up the chip:
    ///
    /// 1. pulse the reset pin and check the product ID
    /// 2. read the clock rates and run the setup (clock chain, synths, ports, gain control,
    ///    baseband filter and DC offset calibrations, TX quadrature calibration, tracking, RSSI)
    /// 3. bring up the ADC core and tune the digital interface
    /// 4. load the FIRs from the settings, still bypassed
    /// 5. bring up the DAC core with the DDS tones as data source
    ///
    /// Returns the conversation beside the chip.
    ///
    /// # Errors
    ///
    /// [`InitError::UnsupportedDevice`] means the product ID is wrong. That is usually the SPI
    /// setup (mode, clock, wiring, chip select). A calibration or lock timeout usually means the
    /// reference clock or the data interface clock is missing.
    ///
    /// After an error the chip is in an undefined state, which the reset at the start of the next
    /// `init` fixes.
    pub fn init<'t>(&self, link: Link, tables: &'t ChipTables) -> (out: (
        Link,
        Result<Ad9361<'t>, InitFault>,
    ))
        ensures
            ({
                let started = start_chip(link@, *tables, self.spec_config(), self.spec_core_id());
                &&& out.0@ == started.link
                &&& match started.r {
                    Err(error) => out.1 == Err::<Ad9361<'t>, InitFault>(error),
                    Ok((state, revision)) => out.1 matches Ok(chip) && chip@ == (EngineView {
                        link: Trace { sent: Seq::empty(), done: Seq::empty(), stalled: false },
                        state,
                        tables: *tables,
                    }) && chip.spec_revision() == revision,
                }
            }),
    {
        let mut link: Link = link;
        if let Err(fault) = reset(&mut link) {
            return (link, Err(InitError::ResetPin(fault)));
        }
        let id: u8 = match link.exchange(Request::Read { addr: PRODUCT_ID, len: 1 }) {
            Err(fault) => return (link, Err(InitError::Chip(Ad9361Error::Spi(fault)))),
            Ok(value) => value as u8,
        };
        if product_id(id) != SUPPORTED_PRODUCT {
            return (link, Err(InitError::UnsupportedDevice { product_id: product_id(id) }));
        }
        let ensm_state: u8 = match link.exchange(Request::Read { addr: STATE, len: 1 }) {
            Err(fault) => return (link, Err(InitError::Chip(Ad9361Error::Spi(fault)))),
            Ok(value) => value as u8 & ENSM_STATE,
        };
        let mut engine = Engine::new(link, tables, &self.config, self.core_id, ensm_state);
        if let Err(error) = engine.bring_up(&self.config) {
            return (engine.link, Err(InitError::Chip(error)));
        }
        let state: Held<EngineState> = engine.state;
        let done: Vec<Performed> = Vec::new();
        assert(done@ =~= Seq::empty());
        let chip = Ad9361 {
            engine: Engine { link: Link::new(done), state, tables },
            revision: id & DEVICE_REVISION,
        };
        (engine.link, Ok(chip))
    }
}

/// A running chip, returned by [`Configured::init`].
///
/// Change chip settings only through this type. It caches the clock rates and some other state,
/// and registers written behind its back leave the cache wrong.
#[derive(Debug, Clone)]
pub struct Ad9361<'t> {
    engine: Engine<'t>,
    revision: u8,
}

impl<'t> View for Ad9361<'t> {
    type V = EngineView;

    closed spec fn view(&self) -> EngineView {
        self.engine@
    }
}

impl<'t> Ad9361<'t> {
    pub closed spec fn spec_revision(self) -> u8 {
        self.revision
    }

    /// Starts a new conversation, with the requests that were performed before.
    pub fn begin(&mut self, done: Vec<Performed>)
        ensures
            final(self)@ == (EngineView {
                link: Trace { sent: Seq::empty(), done: done@, stalled: false },
                ..old(self)@
            }),
            final(self).spec_revision() == old(self).spec_revision(),
    {
        self.engine.link = Link::new(done);
    }

    /// The conversation so far.
    pub fn link(&self) -> (link: &Link)
        ensures
            link@ == self@.link,
    {
        &self.engine.link
    }

    /// Silicon revision, read during `init`.
    pub fn revision(&self) -> (revision: u8)
        ensures
            revision == self.spec_revision(),
    {
        self.revision
    }

    /// Current clock rates (`rx_sampl` is the RX sample rate, and so on). Cached, so no SPI access.
    pub fn clock_rates(&self) -> (rates: &Ad9361ClockRates)
        ensures
            *rates == self@.state.v.clk.rates,
    {
        self.engine.clock_rates()
    }

    /// Sets the RX and TX sample rate and retunes the digital interface.
    ///
    /// Can fail with [`Ad9361Error::InvalidRate`] even for a [`SampleRate`] in range, when the
    /// dividers can't make it with the current FIR settings. Low rates usually need a FIR with
    /// interpolation or decimation.
    pub fn set_sample_rate(&mut self, rate: SampleRate) -> (r: Result<(), Fault>)
        ensures
            flow(final(self)@, r) == old(self)@.set_trx_clock_chain_freq(
                HertzU32 { raw: rate.hz() },
            ),
            final(self).spec_revision() == old(self).spec_revision(),
    {
        self.engine.set_trx_clock_chain_freq(rate.get())
    }

    /// TX1 attenuation, read from the chip. [`Self::set_tx_attenuation`] sets both channels to the
    /// same value.
    pub fn tx_attenuation(&mut self) -> (r: Result<TxAttenuation, Fault>)
        ensures
            (Reply { e: final(self)@, r }) == old(self)@.tx_atten(false),
            final(self).spec_revision() == old(self).spec_revision(),
    {
        self.engine.tx_atten(false)
    }

    /// Sets the RX LO and loads the gain table for the new band. Waits for the synth to lock and
    /// can time out.
    pub fn set_rx_lo_frequency(&mut self, frequency: RxLoFrequency) -> (r: Result<(), Fault>)
        ensures
            flow(final(self)@, r) == old(self)@.set_rfpll_rate(
                false,
                HertzU64 { raw: frequency.hz() },
            ),
            final(self).spec_revision() == old(self).spec_revision(),
    {
        self.engine.set_rfpll_rate(false, frequency.get())
    }

    /// Sets the TX LO. A move of more than 100 MHz reruns the TX quadrature calibration, which
    /// takes a while.
    pub fn set_tx_lo_frequency(&mut self, frequency: TxLoFrequency) -> (r: Result<(), Fault>)
        ensures
            flow(final(self)@, r) == old(self)@.set_rfpll_rate(
                true,
                HertzU64 { raw: frequency.hz() },
            ),
            final(self).spec_revision() == old(self).spec_revision(),
    {
        self.engine.set_rfpll_rate(true, frequency.get())
    }

    /// Sets the RF bandwidths. Slow, since the baseband filters, TIA and ADC are calibrated again,
    /// followed by the TX quadrature calibration.
    pub fn set_bandwidths(&mut self, rx: RfBandwidth, tx: RfBandwidth) -> (r: Result<(), Fault>)
        ensures
            flow(final(self)@, r) == old(self)@.update_rf_bandwidth(
                HertzU32 { raw: rx.hz() },
                HertzU32 { raw: tx.hz() },
            ),
            final(self).spec_revision() == old(self).spec_revision(),
    {
        self.engine.update_rf_bandwidth(rx.get(), tx.get())
    }

    /// Sets the TX attenuation on both channels. Takes effect immediately, the output steps.
    pub fn set_tx_attenuation(&mut self, atten: TxAttenuation) -> (r: Result<(), Fault>)
        ensures
            flow(final(self)@, r) == old(self)@.set_tx_atten(atten, true, true, true),
            final(self).spec_revision() == old(self).spec_revision(),
    {
        self.engine.set_tx_atten(atten, true, true, true)
    }

    /// Gain mode of the channel.
    pub fn gain_mode(&self, channel: Channel) -> (mode: GainMode)
        ensures
            mode == self@.state.v.gain.mode(channel),
    {
        self.engine.gain_mode(channel)
    }

    /// Sets the gain mode of the channel. The channel is switched off briefly during the change.
    ///
    /// Use [`Self::manual_gain`] to go to manual mode.
    pub fn set_gain_mode(&mut self, channel: Channel, mode: GainMode) -> (r: Result<(), Fault>)
        ensures
            flow(final(self)@, r) == old(self)@.set_gain_mode(channel, mode),
            final(self).spec_revision() == old(self).spec_revision(),
    {
        self.engine.set_gain_mode(channel, mode)
    }

    /// Switches the channel to manual gain and returns a [`ManualRxGain`] to set the gain.
    ///
    /// Drop the handle and call [`Self::set_gain_mode`] to go back to AGC.
    ///
    /// # Errors
    ///
    /// [`Ad9361Error::UnsupportedGainTable`] with the split gain table.
    pub fn manual_gain(&mut self, channel: Channel) -> (r: Result<ManualRxGain<'_, 't>, Fault>)
        ensures
            ({
                let switched = if old(self)@.state.v.gain.split_gt {
                    old(self)@.fail(Ad9361Error::UnsupportedGainTable)
                } else {
                    old(self)@.set_gain_mode(channel, GainMode::Manual)
                };
                match r {
                    Ok(gain) => {
                        &&& switched == (Flow { e: gain.driver@, err: None })
                        &&& gain.driver.spec_revision() == old(self).spec_revision()
                        &&& gain.channel == channel
                        &&& *final(self) == *final(gain.driver)
                    },
                    Err(error) => {
                        &&& switched == (Flow { e: final(self)@, err: Some(error) })
                        &&& final(self).spec_revision() == old(self).spec_revision()
                    },
                }
            }),
    {
        if self.engine.state.v.gain.split_gt {
            return Err(Ad9361Error::UnsupportedGainTable);
        }
        self.engine.set_gain_mode(channel, GainMode::Manual)?;
        Ok(ManualRxGain { driver: self, channel })
    }

    /// Loads RX FIR coefficients and returns the [`RxFir`]. The filter is bypassed until enabled.
    pub fn load_rx_fir(&mut self, config: &RxFirConfig) -> (r: Result<RxFir<'_, 't>, Fault>)
        ensures
            ({
                let loaded = old(self)@.set_rx_fir_config(*config);
                match r {
                    Ok(fir) => {
                        &&& loaded == (Flow { e: fir.driver@, err: None })
                        &&& fir.driver.spec_revision() == old(self).spec_revision()
                        &&& *final(self) == *final(fir.driver)
                    },
                    Err(error) => {
                        &&& loaded == (Flow { e: final(self)@, err: Some(error) })
                        &&& final(self).spec_revision() == old(self).spec_revision()
                    },
                }
            }),
    {
        self.engine.set_rx_fir_config(config)?;
        Ok(RxFir { driver: self })
    }

    /// The RX FIR, or `None` if no coefficients are loaded. The default settings load some.
    pub fn rx_fir(&mut self) -> (r: Option<RxFir<'_, 't>>)
        ensures
            r is Some <==> old(self)@.state.v.fir.rx is Some,
            match r {
                Some(fir) => *fir.driver == *old(self) && *final(self) == *final(fir.driver),
                None => *final(self) == *old(self),
            },
    {
        if self.engine.state.v.fir.rx.is_some() {
            Some(RxFir { driver: self })
        } else {
            None
        }
    }

    /// Loads TX FIR coefficients and returns the [`TxFir`]. The filter is bypassed until enabled.
    pub fn load_tx_fir(&mut self, config: &TxFirConfig) -> (r: Result<TxFir<'_, 't>, Fault>)
        ensures
            ({
                let loaded = old(self)@.set_tx_fir_config(*config);
                match r {
                    Ok(fir) => {
                        &&& loaded == (Flow { e: fir.driver@, err: None })
                        &&& fir.driver.spec_revision() == old(self).spec_revision()
                        &&& *final(self) == *final(fir.driver)
                    },
                    Err(error) => {
                        &&& loaded == (Flow { e: final(self)@, err: Some(error) })
                        &&& final(self).spec_revision() == old(self).spec_revision()
                    },
                }
            }),
    {
        self.engine.set_tx_fir_config(config)?;
        Ok(TxFir { driver: self })
    }

    /// The TX FIR, or `None` if no coefficients are loaded. The default settings load some.
    pub fn tx_fir(&mut self) -> (r: Option<TxFir<'_, 't>>)
        ensures
            r is Some <==> old(self)@.state.v.fir.tx is Some,
            match r {
                Some(fir) => *fir.driver == *old(self) && *final(self) == *final(fir.driver),
                None => *final(self) == *old(self),
            },
    {
        if self.engine.state.v.fir.tx.is_some() {
            Some(TxFir { driver: self })
        } else {
            None
        }
    }

    /// Makes the DAC play the data from its DMA. The data is one 32 bit word per TX channel and
    /// sample, channels interleaved ([`Self::dac_num_tx_channels`]), I in the lower and Q in the
    /// upper half. The DMA has to be running for anything to come out.
    pub fn dac_use_dma_data(&mut self) -> (r: Result<(), Fault>)
        ensures
            flow(final(self)@, r) == old(self)@.dac_set_data_source(
                num_phy_chan(&old(self)@.state.v.mode),
                SOURCE_DMA,
            ),
            final(self).spec_revision() == old(self).spec_revision(),
    {
        self.engine.dac_use_dma_data()
    }

    /// Makes the DAC play its DDS tones. This is the state after `init`.
    pub fn dac_use_dds(&mut self) -> (r: Result<(), Fault>)
        ensures
            flow(final(self)@, r) == old(self)@.dac_set_data_source(
                num_phy_chan(&old(self)@.state.v.mode),
                SOURCE_TONE,
            ),
            final(self).spec_revision() == old(self).spec_revision(),
    {
        self.engine.dac_use_dds()
    }

    /// Number of TX channels the DMA data is interleaved for: 2 in 2R2T, 1 in 1R1T.
    pub fn dac_num_tx_channels(&self) -> (n: usize)
        ensures
            n == (if self@.state.v.mode.rx2tx2 {
                2usize
            } else {
                1
            }),
    {
        self.engine.dac_num_tx_channels()
    }
}

/// An RX channel in manual gain mode, from [`Ad9361::manual_gain`].
///
/// Holds the driver mutably, so the gain mode can't change while it exists.
pub struct ManualRxGain<'d, 't> {
    pub driver: &'d mut Ad9361<'t>,
    pub channel: Channel,
}

impl<'d, 't> ManualRxGain<'d, 't> {
    /// Sets the gain in dB and returns the gain that was set.
    ///
    /// The gain table has fixed steps, so the closest entry is used. Values above the table give
    /// the last entry. The table depends on the RX LO, so the same value can give another gain
    /// after [`Ad9361::set_rx_lo_frequency`] changes the band.
    pub fn set_gain(&mut self, gain_db: i8) -> (r: Result<i8, Fault>)
        ensures
            (Reply { e: final(self).driver@, r }) == old(self).driver@.set_manual_rx_gain(
                old(self).channel,
                gain_db,
            ),
            final(self).driver.spec_revision() == old(self).driver.spec_revision(),
            final(self).channel == old(self).channel,
            *final(final(self).driver) == *final(old(self).driver),
    {
        self.driver.engine.set_manual_rx_gain(self.channel, gain_db)
    }
}

/// The RX FIR with coefficients loaded, from [`Ad9361::rx_fir`] or [`Ad9361::load_rx_fir`].
pub struct RxFir<'d, 't> {
    pub driver: &'d mut Ad9361<'t>,
}

impl<'d, 't> RxFir<'d, 't> {
    /// Enables or bypasses the filter. The clocks and bandwidths are redone, which fails if the
    /// filter doesn't fit the sample rate. The filter stays bypassed then.
    pub fn set_enabled(&mut self, enable: bool) -> (r: Result<(), Fault>)
        ensures
            flow(final(self).driver@, r) == old(self).driver@.set_rx_fir_en_dis(enable),
            final(self).driver.spec_revision() == old(self).driver.spec_revision(),
            *final(final(self).driver) == *final(old(self).driver),
            r is Ok ==> final(self).driver@.state.v.fir.rx_bypassed() == !enable,
            r is Err ==> final(self).driver@.state.v.fir.rx_bypassed(),
    {
        proof {
            law_fir_is_switched(self.driver@, enable);
            law_failed_fir_is_bypassed(self.driver@, enable);
        }
        self.driver.engine.set_rx_fir_en_dis(enable)
    }
}

/// The TX FIR with coefficients loaded, from [`Ad9361::tx_fir`] or [`Ad9361::load_tx_fir`].
pub struct TxFir<'d, 't> {
    pub driver: &'d mut Ad9361<'t>,
}

impl<'d, 't> TxFir<'d, 't> {
    /// Enables or bypasses the filter. The clocks and bandwidths are redone, which fails if the
    /// filter doesn't fit the sample rate. The filter stays bypassed then.
    pub fn set_enabled(&mut self, enable: bool) -> (r: Result<(), Fault>)
        ensures
            flow(final(self).driver@, r) == old(self).driver@.set_tx_fir_en_dis(enable),
            final(self).driver.spec_revision() == old(self).driver.spec_revision(),
            *final(final(self).driver) == *final(old(self).driver),
            r is Ok ==> final(self).driver@.state.v.fir.tx_bypassed() == !enable,
            r is Err ==> final(self).driver@.state.v.fir.tx_bypassed(),
    {
        proof {
            law_fir_is_switched(self.driver@, enable);
            law_failed_fir_is_bypassed(self.driver@, enable);
        }
        self.driver.engine.set_tx_fir_en_dis(enable)
    }
}

} // verus!
