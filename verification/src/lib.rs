//! Driver core for the AD9361 RF transceiver and the AXI AD9361 core next to it in the FPGA, which
//! its digital interface is tuned with.
//!
//! Start with [`api::Uninitialized`], call `configure` with the [`config::Ad9361Settings`], then
//! `init`. The result is an [`api::Ad9361`], which can change the sample rate, LO frequencies,
//! bandwidths, TX attenuation and RX gain mode, and load and enable the FIRs.
//!
//! The library decides what to send and what to make of the answers. It doesn't touch a bus, a pin
//! or a clock itself: every operation is a conversation on a [`link::Link`], see [`api`].
//!
//! Each operation has a model in [`engine::EngineView`], and its contract says that it does what
//! the model does. The laws about them are the public proof functions named `law_`.
pub mod api;
pub mod axi_init;
pub mod calibration;
pub mod chip_settings;
pub mod clock_chain;
pub mod clocks;
pub mod config;
pub mod control;
pub mod dig_tune;
pub mod engine;
pub mod error;
pub mod fir;
pub mod fir_switch;
pub mod frame;
pub mod gain_control;
pub mod gain_rows;
pub mod kept;
pub mod link;
pub mod lo_settings;
pub mod math;
pub mod monitor;
mod narrow;
pub mod on_chip;
pub mod ports;
pub mod regfile;
pub mod registers;
pub mod replay;
pub mod sample_rate;
pub mod setup;
pub mod setup_settings;
pub mod spi;
pub mod start_settings;
pub mod state;
pub mod synth;
pub mod tables;
pub mod units;

pub use api::{Ad9361, Configured, ManualRxGain, RxFir, TxFir, Uninitialized};
pub use axi_init::AxiInitError;
pub use calibration::{DcOffsetConfig, RxPhase, TrackingConfig};
pub use clock_chain::PathClocks;
pub use clocks::{Ad9361Clock, Ad9361ClockRates, ClockMulDiv, PllScaler, RfPllScaler};
pub use config::{
    Ad9361Config, Ad9361Settings, ChannelMode, ConfigError, DigInterfaceTune, Duplex, GainTableKind,
    RateGovernor, ReferenceClock,
};
pub use control::{ClkoutMode, EnsmState, ForcedEnsmState, RequestedEnsmState};
pub use dig_tune::{BistLoopback, BistMode, DigTuneFlags};
pub use error::{Ad9361Error, InitError};
pub use fir::{
    FirChannels, FirCoefficients, FirFactor, RxFirConfig, RxFirGain, TxFirConfig, TxFirGain,
    DEFAULT_FIR_COEFFICIENTS,
};
pub use gain_control::{FastAgcTargetGain, GainControl, GainMode, GainTableDest};
pub use monitor::{RssiConfiguration, RssiRestartMode, TxMonitorConfig};
pub use ports::{
    AuxAdcConfig, AuxDacConfig, Channel, CtrlOutsConfig, Dac, ElnaConfig, GpoConfig, PortConfig,
};
pub use units::{
    AuxAdcDecimation, ElnaGain, HertzU32, HertzU64, OutOfRange, RfBandwidth, RxInput, RxLoFrequency,
    SampleRate, TxAttenuation, TxLoFrequency,
};
use vstd::prelude::*;

verus! {

/// Modulus of the RF synthesizers' fractional word.
pub const RFPLL_MODULUS: u32 = 8388593;

/// Modulus of the baseband PLL's fractional word.
pub const BBPLL_MODULUS: u32 = 2088960;

/// Highest reference of the baseband PLL in Hz.
pub const MAX_BBPLL_FREF: u32 = 70_007_000;

/// Lowest rate of the baseband PLL in Hz.
pub const MIN_BBPLL_FREQ: u32 = 714_928_500;

/// Highest rate of the baseband PLL in Hz.
pub const MAX_BBPLL_FREQ: u32 = 1_430_143_000;

/// Highest ADC rate in Hz.
pub const MAX_ADC_CLK: u32 = 640_000_000;

/// Highest DAC rate in Hz, half the one of the ADC.
pub const MAX_DAC_CLK: u32 = 320_000_000;

/// Highest CLKRF rate in Hz.
pub const MAX_RX_HB1: u32 = 245_760_000;

/// Highest R1 rate in Hz.
pub const MAX_RX_HB2: u32 = 320_000_000;

/// Highest R2 rate in Hz.
pub const MAX_RX_HB3: u32 = 640_000_000;

/// Highest CLKTF rate in Hz.
pub const MAX_TX_HB1: u32 = 160_000_000;

/// Highest T1 rate in Hz.
pub const MAX_TX_HB2: u32 = 320_000_000;

/// Highest T2 rate in Hz.
pub const MAX_TX_HB3: u32 = 320_000_000;

/// Highest sample rate in Hz.
pub const MAX_BASEBAND_RATE: u32 = 61_440_000;

/// Highest reference of the RF synthesizers in Hz.
pub const MAX_SYNTH_FREF: u32 = 80_008_000;

/// Lowest reference of the RF synthesizers in Hz.
pub const MIN_SYNTH_FREF: u32 = 9_999_000;

} // verus!
