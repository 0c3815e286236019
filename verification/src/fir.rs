//! RX and TX FIR loading and enabling.
use vstd::prelude::*;

use crate::clock_chain::PathClocks;
use crate::control::{
    ForcedEnsmState, law_force_keeps_state, law_restore_keeps_state, SavedEnsmState,
};
use crate::dig_tune::DigTuneFlags;
use crate::engine::{
    Engine, EngineView, flow, Flow, law_read_keeps_state, law_run_keeps_state, Reply,
};
use crate::error::Ad9361Error;
use crate::link::{Fault, Op, put, update};
use crate::math::flag;
use crate::registers::{
    FIR_START_CLK, FIR_WRITE, RX_ENABLE_FILTER_CONTROL, RX_FILTER_GAIN, RX_FIR_ENABLE_DECIMATION,
    RX_FIR_OFFSET, TX_ENABLE_FILTER_CONTROL, TX_FILTER_COEF_ADDR, TX_FILTER_COEF_READ_DATA2,
    TX_FILTER_COEF_WRITE_DATA1, TX_FILTER_COEF_WRITE_DATA2, TX_FILTER_CONF,
    TX_FIR_ENABLE_INTERPOLATION, TX_FIR_GAIN_6DB,
};
use crate::state::{EngineState, FirState, LoadedFir};
use crate::units::{HertzU32, OutOfRange};

verus! {

/// Band pass, 3/20 fs to 1/4 fs, 64 taps.
pub const DEFAULT_FIR_COEFFICIENTS: [i16; 64] = [
    -4, -6, -37, 35, 186, 86, -284, -315,
    107, 219, -4, 271, 558, -307, -1182, -356,
    658, 157, 207, 1648, 790, -2525, -2553, 748,
    865, -476, 3737, 6560, -3583, -14731, -5278, 14819,
    14819, -5278, -14731, -3583, 6560, 3737, -476, 865,
    748, -2553, -2525, 790, 1648, 207, 157, 658,
    -356, -1182, -307, 558, 271, -4, 219, 107,
    -315, -284, 86, 186, 35, -37, -6, -4,
];

/// Channels a FIR is loaded for. Both channels share the coefficients.
#[derive(Debug, Clone, Copy, PartialEq, Eq, Structural)]
pub enum FirChannels {
    Ch1,
    Ch2,
    Both,
}

impl FirChannels {
    /// The register field.
    #[verifier::allow_in_spec]
    pub fn code(self) -> u8
        returns
            (match self {
                FirChannels::Ch1 => 1u8,
                FirChannels::Ch2 => 2,
                FirChannels::Both => 3,
            }),
    {
        match self {
            FirChannels::Ch1 => 1,
            FirChannels::Ch2 => 2,
            FirChannels::Both => 3,
        }
    }
}

/// RX FIR decimation or TX FIR interpolation. `X1` is no rate change.
#[derive(Debug, Clone, Copy, PartialEq, Eq, Structural)]
pub enum FirFactor {
    X1,
    X2,
    X4,
}

impl FirFactor {
    /// The factor as a number.
    #[verifier::allow_in_spec]
    pub fn factor(self) -> u32
        returns
            (match self {
                FirFactor::X1 => 1u32,
                FirFactor::X2 => 2,
                FirFactor::X4 => 4,
            }),
    {
        match self {
            FirFactor::X1 => 1,
            FirFactor::X2 => 2,
            FirFactor::X4 => 4,
        }
    }

    /// The filter clock field: the factor, with 4 encoded as 3.
    #[verifier::allow_in_spec]
    pub fn clock_field(self) -> u8
        returns
            (match self {
                FirFactor::X1 => 1u8,
                FirFactor::X2 => 2,
                FirFactor::X4 => 3,
            }),
    {
        match self {
            FirFactor::X1 => 1,
            FirFactor::X2 => 2,
            FirFactor::X4 => 3,
        }
    }
}

/// FIR taps, 16 to 128 of them in steps of 16. `new` rejects any other length. The taps are
/// 16-bit signed, and the DC gain is set separately with `RxFirGain` or `TxFirGain`.
#[derive(Debug, Clone, Copy)]
pub struct FirCoefficients {
    taps: &'static [i16],
}

/// Tap counts the chip can hold.
pub open spec fn valid_tap_count(n: nat) -> bool {
    1 <= n <= 128 && n % 16 == 0
}

impl FirCoefficients {
    #[verifier::type_invariant]
    spec fn in_range(self) -> bool {
        valid_tap_count(self.taps@.len())
    }

    /// The taps.
    pub closed spec fn spec_taps(self) -> Seq<i16> {
        self.taps@
    }

    pub fn new(taps: &'static [i16]) -> (r: Result<Self, OutOfRange>)
        ensures
            r is Ok <==> valid_tap_count(taps@.len()),
            r matches Ok(coefficients) ==> coefficients.spec_taps() == taps@,
    {
        if taps.len() == 0 || taps.len() > 128 || taps.len() % 16 != 0 {
            return Err(OutOfRange);
        }
        Ok(FirCoefficients { taps })
    }

    /// The 64 tap band pass.
    pub fn default_filter() -> (coefficients: Self)
        ensures
            coefficients.spec_taps() == DEFAULT_FIR_COEFFICIENTS@,
    {
        FirCoefficients { taps: DEFAULT_FIR_COEFFICIENTS.as_slice() }
    }

    pub fn taps(&self) -> (taps: &'static [i16])
        ensures
            taps@ == self.spec_taps(),
            valid_tap_count(taps@.len()),
    {
        proof {
            use_type_invariant(self);
        }
        self.taps
    }
}

/// RX FIR gain.
#[derive(Debug, Clone, Copy, PartialEq, Eq, Structural)]
pub enum RxFirGain {
    Minus12Db,
    Minus6Db,
    ZeroDb,
    Plus6Db,
}

impl RxFirGain {
    /// The register field.
    #[verifier::allow_in_spec]
    pub fn field(self) -> u8
        returns
            (match self {
                RxFirGain::Minus12Db => 3u8,
                RxFirGain::Minus6Db => 2,
                RxFirGain::ZeroDb => 1,
                RxFirGain::Plus6Db => 0,
            }),
    {
        match self {
            RxFirGain::Minus12Db => 3,
            RxFirGain::Minus6Db => 2,
            RxFirGain::ZeroDb => 1,
            RxFirGain::Plus6Db => 0,
        }
    }
}

/// TX FIR gain.
#[derive(Debug, Clone, Copy, PartialEq, Eq, Structural)]
pub enum TxFirGain {
    Minus6Db,
    ZeroDb,
}

/// FIR gain, RX or TX.
#[derive(Debug, Clone, Copy, PartialEq, Eq, Structural)]
pub enum FirGain {
    Rx(RxFirGain),
    Tx(TxFirGain),
}

/// RX FIR settings. Load with `Ad9361::load_rx_fir`. The filter stays bypassed after loading
/// until it is enabled.
#[derive(Debug, Clone, Copy)]
pub struct RxFirConfig {
    pub channels: FirChannels,
    pub gain: RxFirGain,
    pub decimation: FirFactor,
    pub coefficients: FirCoefficients,
}

impl RxFirConfig {
    /// The 64 tap band pass for both channels, which doesn't decimate.
    pub open spec fn is_default(self) -> bool {
        &&& self.channels == FirChannels::Both
        &&& self.gain == RxFirGain::ZeroDb
        &&& self.decimation == FirFactor::X1
        &&& self.coefficients.spec_taps() == DEFAULT_FIR_COEFFICIENTS@
    }
}

impl Default for RxFirConfig {
    /// The 64 tap band pass for both channels.
    fn default() -> (config: Self)
        ensures
            config.is_default(),
    {
        RxFirConfig {
            channels: FirChannels::Both,
            gain: RxFirGain::ZeroDb,
            decimation: FirFactor::X1,
            coefficients: FirCoefficients::default_filter(),
        }
    }
}

/// TX FIR settings, loaded with `Ad9361::load_tx_fir`. Use `new` because the tap count is
/// limited by the interpolation. With no interpolation the chip has room for 64 taps.
#[derive(Debug, Clone, Copy)]
pub struct TxFirConfig {
    channels: FirChannels,
    gain: TxFirGain,
    interpolation: FirFactor,
    coefficients: FirCoefficients,
}

impl TxFirConfig {
    #[verifier::type_invariant]
    spec fn in_range(self) -> bool {
        self.interpolation == FirFactor::X1 ==> self.coefficients.spec_taps().len() <= 64
    }

    pub closed spec fn spec_channels(self) -> FirChannels {
        self.channels
    }

    pub closed spec fn spec_gain(self) -> TxFirGain {
        self.gain
    }

    pub closed spec fn spec_interpolation(self) -> FirFactor {
        self.interpolation
    }

    pub closed spec fn spec_taps(self) -> Seq<i16> {
        self.coefficients.spec_taps()
    }

    /// The 64 tap band pass for both channels, which doesn't interpolate.
    pub open spec fn is_default(self) -> bool {
        &&& self.spec_channels() == FirChannels::Both
        &&& self.spec_gain() == TxFirGain::Minus6Db
        &&& self.spec_interpolation() == FirFactor::X1
        &&& self.spec_taps() == DEFAULT_FIR_COEFFICIENTS@
    }

    /// No interpolation means 64 taps at most.
    pub fn new(
        channels: FirChannels,
        gain: TxFirGain,
        interpolation: FirFactor,
        coefficients: FirCoefficients,
    ) -> (r: Result<Self, OutOfRange>)
        ensures
            r is Ok <==> (interpolation == FirFactor::X1 ==> coefficients.spec_taps().len() <= 64),
            r matches Ok(config) ==> {
                &&& config.spec_channels() == channels
                &&& config.spec_gain() == gain
                &&& config.spec_interpolation() == interpolation
                &&& config.spec_taps() == coefficients.spec_taps()
            },
    {
        if interpolation == FirFactor::X1 && coefficients.taps().len() > 64 {
            return Err(OutOfRange);
        }
        Ok(TxFirConfig { channels, gain, interpolation, coefficients })
    }
}

impl Default for TxFirConfig {
    /// The 64 tap band pass for both channels.
    fn default() -> (config: Self)
        ensures
            config.is_default(),
    {
        TxFirConfig {
            channels: FirChannels::Both,
            gain: TxFirGain::Minus6Db,
            interpolation: FirFactor::X1,
            coefficients: FirCoefficients::default_filter(),
        }
    }
}

impl TxFirConfig {
    pub fn channels(&self) -> (channels: FirChannels)
        ensures
            channels == self.spec_channels(),
    {
        self.channels
    }

    pub fn gain(&self) -> (gain: TxFirGain)
        ensures
            gain == self.spec_gain(),
    {
        self.gain
    }

    pub fn interpolation(&self) -> (interpolation: FirFactor)
        ensures
            interpolation == self.spec_interpolation(),
    {
        self.interpolation
    }

    pub fn coefficients(&self) -> (coefficients: FirCoefficients)
        ensures
            coefficients.spec_taps() == self.spec_taps(),
    {
        self.coefficients
    }
}

impl FirGain {
    /// Gain of an RX FIR.
    #[verifier::allow_in_spec]
    pub fn is_rx(self) -> bool
        returns
            (match self {
                FirGain::Rx(_) => true,
                FirGain::Tx(_) => false,
            }),
    {
        match self {
            FirGain::Rx(_) => true,
            FirGain::Tx(_) => false,
        }
    }

    /// The 6 dB bit of the configuration register. RX has its gain in a register of its own.
    #[verifier::allow_in_spec]
    pub fn conf_bit(self) -> u8
        returns
            (match self {
                FirGain::Rx(_) => 0u8,
                FirGain::Tx(gain) => flag(gain == TxFirGain::Minus6Db, TX_FIR_GAIN_6DB),
            }),
    {
        match self {
            FirGain::Rx(_) => 0,
            FirGain::Tx(gain) => flag(gain == TxFirGain::Minus6Db, TX_FIR_GAIN_6DB),
        }
    }
}

/// Address of a FIR register, from the TX one.
#[verifier::allow_in_spec]
pub fn fir_addr(rx: bool, addr: u16) -> u16
    requires
        addr < 0x100,
    returns
        (if rx {
            (addr + RX_FIR_OFFSET) as u16
        } else {
            addr
        }),
{
    if rx {
        addr + RX_FIR_OFFSET
    } else {
        addr
    }
}

/// FIR configuration register with the clock off.
#[verifier::allow_in_spec]
pub fn fir_conf(channels: FirChannels, gain: FirGain, taps: usize) -> u8
    requires
        16 <= taps <= 128,
    returns
        ((((taps / 16) - 1) as u8) << 5) | (channels.code() << 3) | gain.conf_bit(),
{
    (((taps / 16 - 1) as u8) << 5) | (channels.code() << 3) | gain.conf_bit()
}

/// Low byte of a tap.
#[verifier::allow_in_spec]
pub fn tap_low(tap: i16) -> u8
    returns
        (tap as u16 & 0xFF) as u8,
{
    (tap as u16 & 0xFF) as u8
}

/// High byte of a tap.
#[verifier::allow_in_spec]
pub fn tap_high(tap: i16) -> u8
    returns
        (tap as u16 >> 8) as u8,
{
    (tap as u16 >> 8) as u8
}

/// The two bytes of a tap make up its two's complement.
pub proof fn law_tap_bytes(tap: i16)
    ensures
        tap_high(tap) * 256 + tap_low(tap) == (if tap < 0 {
            tap + 65536
        } else {
            tap as int
        }),
{
    let word = tap as u16;
    assert(word == (if tap < 0 {
        tap + 65536
    } else {
        tap as int
    })) by (bit_vector)
        requires
            word == tap as u16,
    ;
    assert(((word >> 8) as u8) * 256 + ((word & 0xFF) as u8) == word) by (bit_vector);
}

/// Most taps of a TX FIR at the clocks of its path.
#[verifier::allow_in_spec]
pub fn max_tx_taps(tx: &PathClocks) -> u32
    returns
        ((tx.converter.raw / (if tx.sample.raw > 1 {
            tx.sample.raw
        } else {
            1
        })) as u32).wrapping_mul(16),
{
    let sample: u32 = if tx.sample.raw > 1 {
        tx.sample.raw
    } else {
        1
    };
    (tx.converter.raw / sample).wrapping_mul(16)
}

/// Most taps of an RX FIR at the clocks of its path.
#[verifier::allow_in_spec]
pub fn max_rx_taps(rx: &PathClocks) -> u32
    returns
        (((rx.converter.raw / (if rx.converter == rx.hb3 {
            1u32
        } else {
            2
        })) as u32 / (if rx.sample.raw > 1 {
            rx.sample.raw
        } else {
            1
        })) as u32).wrapping_mul(16),
{
    let half: u32 = if rx.converter == rx.hb3 {
        1
    } else {
        2
    };
    let sample: u32 = if rx.sample.raw > 1 {
        rx.sample.raw
    } else {
        1
    };
    (rx.converter.raw / half / sample).wrapping_mul(16)
}

/// Whether a FIR has more taps than fit. A bypassed one never has.
#[verifier::allow_in_spec]
pub fn too_long(fir: Option<LoadedFir>, max: u32) -> bool
    returns
        (match fir {
            Some(fir) => !fir.bypassed && fir.ntaps > max,
            None => false,
        }),
{
    match fir {
        Some(fir) => !fir.bypassed && fir.ntaps > max,
        None => false,
    }
}

/// The same FIR, enabled or bypassed.
#[verifier::allow_in_spec]
pub fn with_bypass(fir: Option<LoadedFir>, bypassed: bool) -> Option<LoadedFir>
    returns
        (match fir {
            Some(fir) => Some(LoadedFir { bypassed, ..fir }),
            None => None,
        }),
{
    match fir {
        Some(fir) => Some(LoadedFir { bypassed, ..fir }),
        None => None,
    }
}

/// TX rate the clock chain is built for if there is none for the current one.
#[verifier::allow_in_spec]
pub fn lowest_rate(rate_governor: u32) -> HertzU32
    returns
        (HertzU32 {
            raw: if rate_governor != 0 {
                1_500_000u32
            } else {
                1_000_000
            },
        }),
{
    HertzU32 {
        raw: if rate_governor != 0 {
            1_500_000
        } else {
            1_000_000
        },
    }
}

impl EngineView {
    /// Changes the FIR state.
    pub open spec fn set_fir(self, fir: FirState) -> Flow {
        self.set(EngineState { fir, ..self.state.v })
    }

    /// Writes the taps from `i` on. The last two writes of each give the chip time.
    pub open spec fn taps_from(self, rx: bool, conf: u8, taps: Seq<i16>, i: int) -> Flow
        decreases taps.len() - i,
    {
        if i >= taps.len() {
            self.start()
        } else {
            let written = self.run(
                [
                    put(fir_addr(rx, TX_FILTER_COEF_ADDR), i as u8),
                    put(fir_addr(rx, TX_FILTER_COEF_WRITE_DATA1), tap_low(taps[i])),
                    put(fir_addr(rx, TX_FILTER_COEF_WRITE_DATA2), tap_high(taps[i])),
                    put(fir_addr(rx, TX_FILTER_CONF), conf | FIR_WRITE),
                    put(fir_addr(rx, TX_FILTER_COEF_READ_DATA2), 0),
                    put(fir_addr(rx, TX_FILTER_COEF_READ_DATA2), 0),
                ]@,
            );
            if written.err is Some {
                written
            } else {
                written.e.taps_from(rx, conf, taps, i + 1)
            }
        }
    }

    /// Writes the taps.
    #[verifier::opaque]
    pub open spec fn write_taps(self, rx: bool, conf: u8, taps: Seq<i16>) -> Flow {
        self.taps_from(rx, conf, taps, 0)
    }

    /// Sets the gain and runs the filter clock at `factor`. Hands out the enable register from
    /// before.
    #[verifier::opaque]
    pub open spec fn start_fir_clock(self, gain: FirGain, factor: FirFactor) -> Reply<u8> {
        match gain {
            FirGain::Rx(rx_gain) => {
                let enable = self.run([put(RX_FILTER_GAIN, rx_gain.field())]@).read(
                    RX_ENABLE_FILTER_CONTROL,
                );
                match enable.r {
                    Err(error) => enable,
                    Ok(byte) => enable.e.run(
                        [
                            update(
                                RX_ENABLE_FILTER_CONTROL,
                                RX_FIR_ENABLE_DECIMATION,
                                factor.clock_field(),
                            ),
                        ]@,
                    ).reply(byte),
                }
            },
            FirGain::Tx(_) => {
                let enable = self.read(TX_ENABLE_FILTER_CONTROL);
                match enable.r {
                    Err(error) => enable,
                    Ok(byte) => enable.e.run(
                        [
                            update(
                                TX_ENABLE_FILTER_CONTROL,
                                TX_FIR_ENABLE_INTERPOLATION,
                                factor.clock_field(),
                            ),
                        ]@,
                    ).reply(byte),
                }
            },
        }
    }

    /// Puts the enable field back to what it was.
    #[verifier::opaque]
    pub open spec fn restore_fir_enable(self, rx: bool, byte: u8) -> Flow {
        if rx {
            self.run([update(RX_ENABLE_FILTER_CONTROL, RX_FIR_ENABLE_DECIMATION, byte)]@)
        } else {
            self.run([update(TX_ENABLE_FILTER_CONTROL, TX_FIR_ENABLE_INTERPOLATION, byte)]@)
        }
    }

    /// Writes gain, configuration and taps of a FIR. Its clock runs at `factor` meanwhile, and its
    /// enable field is what it was before.
    #[verifier::opaque]
    pub open spec fn write_fir_coefficients(
        self,
        channels: FirChannels,
        gain: FirGain,
        factor: FirFactor,
        taps: Seq<i16>,
    ) -> Flow {
        let rx = gain.is_rx();
        let conf = fir_conf(channels, gain, taps.len() as usize);
        let enable = self.start_fir_clock(gain, factor);
        match enable.r {
            Err(error) => enable.done(),
            Ok(byte) => enable.e.run(
                [put(fir_addr(rx, TX_FILTER_CONF), conf | FIR_START_CLK)]@,
            ).write_taps(rx, conf | FIR_START_CLK, taps).run(
                [
                    put(fir_addr(rx, TX_FILTER_CONF), conf | FIR_START_CLK),
                    put(fir_addr(rx, TX_FILTER_CONF), conf),
                ]@,
            ).restore_fir_enable(rx, byte),
        }
    }

    /// [`Self::write_fir_coefficients`] in alert.
    #[verifier::opaque]
    pub open spec fn load_fir_filter_coef(
        self,
        channels: FirChannels,
        gain: FirGain,
        factor: FirFactor,
        taps: Seq<i16>,
    ) -> Flow {
        let forced = self.ensm_force_state(ForcedEnsmState::Alert);
        match forced.r {
            Err(error) => forced.done(),
            Ok(saved) => {
                let written = forced.e.write_fir_coefficients(channels, gain, factor, taps);
                written.e.ensm_restore_state(saved).after(written.err)
            },
        }
    }

    /// Notes and loads an RX FIR. It is as enabled or bypassed as the one before.
    #[verifier::opaque]
    pub open spec fn set_rx_fir_config(self, config: RxFirConfig) -> Flow {
        let fir = self.state.v.fir;
        let taps = config.coefficients.spec_taps();
        self.set_fir(
            FirState {
                rx: Some(
                    LoadedFir {
                        factor: config.decimation,
                        ntaps: taps.len() as u32,
                        bypassed: fir.rx_bypassed(),
                    },
                ),
                ..fir
            },
        ).load_fir_filter_coef(config.channels, FirGain::Rx(config.gain), config.decimation, taps)
    }

    /// Notes and loads a TX FIR. It is as enabled or bypassed as the one before.
    #[verifier::opaque]
    pub open spec fn set_tx_fir_config(self, config: TxFirConfig) -> Flow {
        let fir = self.state.v.fir;
        let taps = config.spec_taps();
        self.set_fir(
            FirState {
                tx: Some(
                    LoadedFir {
                        factor: config.spec_interpolation(),
                        ntaps: taps.len() as u32,
                        bypassed: fir.tx_bypassed(),
                    },
                ),
                ..fir
            },
        ).load_fir_filter_coef(
            config.spec_channels(),
            FirGain::Tx(config.spec_gain()),
            config.spec_interpolation(),
            taps,
        )
    }

    /// Enables or bypasses the RX FIR and redoes clocks and bandwidths. It stays off if that fails.
    #[verifier::opaque]
    pub open spec fn set_rx_fir_en_dis(self, enable: bool) -> Flow {
        let fir = self.state.v.fir;
        match fir.rx {
            None => self.fail(Ad9361Error::FirNotLoaded),
            Some(loaded) => if loaded.bypassed == !enable {
                self.start()
            } else {
                let result = self.set_fir(
                    FirState { rx: with_bypass(fir.rx, !enable), ..fir },
                ).validate_enable_fir();
                if result.err is Some {
                    let after = result.e.state.v.fir;
                    result.e.set_fir(FirState { rx: with_bypass(after.rx, true), ..after }).after(
                        result.err,
                    )
                } else {
                    result
                }
            },
        }
    }

    /// Enables or bypasses the TX FIR and redoes clocks and bandwidths. It stays off if that fails.
    #[verifier::opaque]
    pub open spec fn set_tx_fir_en_dis(self, enable: bool) -> Flow {
        let fir = self.state.v.fir;
        match fir.tx {
            None => self.fail(Ad9361Error::FirNotLoaded),
            Some(loaded) => if loaded.bypassed == !enable {
                self.start()
            } else {
                let result = self.set_fir(
                    FirState { tx: with_bypass(fir.tx, !enable), ..fir },
                ).validate_enable_fir();
                if result.err is Some {
                    let after = result.e.state.v.fir;
                    result.e.set_fir(FirState { tx: with_bypass(after.tx, true), ..after }).after(
                        result.err,
                    )
                } else {
                    result
                }
            },
        }
    }

    /// Clock chain for the current TX rate, or else for the lowest one.
    pub open spec fn chain_with_firs(self) -> Option<(PathClocks, PathClocks)> {
        let clk = self.state.v.clk;
        match self.chain_for(clk.rates.tx_sampl, clk.rate_governor) {
            Some(chain) => Some(chain),
            None => self.chain_for(lowest_rate(clk.rate_governor), clk.rate_governor),
        }
    }

    /// Puts the configured delays back if both FIRs are off, whatever comes of it, then redoes the
    /// bandwidths.
    #[verifier::opaque]
    pub open spec fn redo_bandwidths(self) -> Flow {
        let st = self.state.v;
        let tuned = if !st.tune.dig_interface_tune_fir_disable && st.fir.tx_bypassed()
            && st.fir.rx_bypassed() {
            self.dig_tune(
                HertzU32 { raw: 0 },
                DigTuneFlags { restore_default: true, skip_store_result: false },
            ).e
        } else {
            self
        };
        tuned.update_rf_bandwidth(
            tuned.state.v.cal.current_rx_bw,
            tuned.state.v.cal.current_tx_bw,
        )
    }

    /// Checks the FIRs against the clock chain, recomputes the chain for the current TX rate and
    /// redoes the bandwidths.
    #[verifier::opaque]
    pub open spec fn validate_enable_fir(self) -> Flow {
        let fir = self.state.v.fir;
        match self.chain_with_firs() {
            None => self.fail(Ad9361Error::InvalidRate),
            Some(chain) => if too_long(fir.tx, max_tx_taps(&chain.1)) || too_long(
                fir.rx,
                max_rx_taps(&chain.0),
            ) {
                self.fail(Ad9361Error::FirTooLong)
            } else {
                self.set_trx_clock_chain(chain.0, chain.1).redo_bandwidths()
            },
        }
    }
}

/// The same steps, after others.
impl Flow {
    pub open spec fn set_fir(self, fir: FirState) -> Flow {
        if self.err is Some {
            self
        } else {
            self.e.set_fir(fir)
        }
    }

    pub open spec fn write_taps(self, rx: bool, conf: u8, taps: Seq<i16>) -> Flow {
        if self.err is Some {
            self
        } else {
            self.e.write_taps(rx, conf, taps)
        }
    }

    pub open spec fn start_fir_clock(self, gain: FirGain, factor: FirFactor) -> Reply<u8> {
        match self.err {
            Some(error) => Reply { e: self.e, r: Err(error) },
            None => self.e.start_fir_clock(gain, factor),
        }
    }

    pub open spec fn restore_fir_enable(self, rx: bool, byte: u8) -> Flow {
        if self.err is Some {
            self
        } else {
            self.e.restore_fir_enable(rx, byte)
        }
    }

    pub open spec fn write_fir_coefficients(
        self,
        channels: FirChannels,
        gain: FirGain,
        factor: FirFactor,
        taps: Seq<i16>,
    ) -> Flow {
        if self.err is Some {
            self
        } else {
            self.e.write_fir_coefficients(channels, gain, factor, taps)
        }
    }

    pub open spec fn load_fir_filter_coef(
        self,
        channels: FirChannels,
        gain: FirGain,
        factor: FirFactor,
        taps: Seq<i16>,
    ) -> Flow {
        if self.err is Some {
            self
        } else {
            self.e.load_fir_filter_coef(channels, gain, factor, taps)
        }
    }

    pub open spec fn set_rx_fir_config(self, config: RxFirConfig) -> Flow {
        if self.err is Some {
            self
        } else {
            self.e.set_rx_fir_config(config)
        }
    }

    pub open spec fn set_tx_fir_config(self, config: TxFirConfig) -> Flow {
        if self.err is Some {
            self
        } else {
            self.e.set_tx_fir_config(config)
        }
    }

    pub open spec fn set_rx_fir_en_dis(self, enable: bool) -> Flow {
        if self.err is Some {
            self
        } else {
            self.e.set_rx_fir_en_dis(enable)
        }
    }

    pub open spec fn set_tx_fir_en_dis(self, enable: bool) -> Flow {
        if self.err is Some {
            self
        } else {
            self.e.set_tx_fir_en_dis(enable)
        }
    }

    pub open spec fn redo_bandwidths(self) -> Flow {
        if self.err is Some {
            self
        } else {
            self.e.redo_bandwidths()
        }
    }

    pub open spec fn validate_enable_fir(self) -> Flow {
        if self.err is Some {
            self
        } else {
            self.e.validate_enable_fir()
        }
    }
}

proof fn lemma_taps_keep_state(e: EngineView, rx: bool, conf: u8, taps: Seq<i16>, i: int)
    ensures
        e.taps_from(rx, conf, taps, i).e.state == e.state,
    decreases taps.len() - i,
{
    if i < taps.len() {
        let ops = [
            put(fir_addr(rx, TX_FILTER_COEF_ADDR), i as u8),
            put(fir_addr(rx, TX_FILTER_COEF_WRITE_DATA1), tap_low(taps[i])),
            put(fir_addr(rx, TX_FILTER_COEF_WRITE_DATA2), tap_high(taps[i])),
            put(fir_addr(rx, TX_FILTER_CONF), conf | FIR_WRITE),
            put(fir_addr(rx, TX_FILTER_COEF_READ_DATA2), 0),
            put(fir_addr(rx, TX_FILTER_COEF_READ_DATA2), 0),
        ]@;
        law_run_keeps_state(e, ops);
        lemma_taps_keep_state(e.run(ops).e, rx, conf, taps, i + 1);
    }
}

proof fn lemma_coefficients_keep_state(
    e: EngineView,
    channels: FirChannels,
    gain: FirGain,
    factor: FirFactor,
    taps: Seq<i16>,
)
    ensures
        e.write_fir_coefficients(channels, gain, factor, taps).e.state == e.state,
{
    reveal(EngineView::write_fir_coefficients);
    reveal(EngineView::start_fir_clock);
    reveal(EngineView::write_taps);
    reveal(EngineView::restore_fir_enable);
    assert forall|at: EngineView, ops: Seq<Op>| #[trigger] at.run(ops).e.state == at.state by {
        law_run_keeps_state(at, ops);
    }
    assert forall|at: EngineView, addr: u16| #[trigger] at.read(addr).e.state == at.state by {
        law_read_keeps_state(at, addr);
    }
    assert forall|at: EngineView, rx: bool, conf: u8| #[trigger]
        at.taps_from(rx, conf, taps, 0).e.state == at.state by {
        lemma_taps_keep_state(at, rx, conf, taps, 0);
    }
}

/// Loading coefficients leaves the FIR state alone.
pub proof fn law_load_keeps_fir_state(
    e: EngineView,
    channels: FirChannels,
    gain: FirGain,
    factor: FirFactor,
    taps: Seq<i16>,
)
    ensures
        e.load_fir_filter_coef(channels, gain, factor, taps).e.state.v.fir == e.state.v.fir,
{
    reveal(EngineView::load_fir_filter_coef);
    law_force_keeps_state(e, ForcedEnsmState::Alert);
    let forced = e.ensm_force_state(ForcedEnsmState::Alert);
    if let Ok(saved) = forced.r {
        lemma_coefficients_keep_state(forced.e, channels, gain, factor, taps);
        law_restore_keeps_state(
            forced.e.write_fir_coefficients(channels, gain, factor, taps).e,
            saved,
        );
    }
}

/// A FIR that was bypassed, or none at all, is bypassed after new coefficients are loaded. Loading
/// one FIR doesn't change the other.
pub proof fn law_loaded_fir_stays_bypassed(e: EngineView, rx: RxFirConfig, tx: TxFirConfig)
    ensures
        ({
            let fir = e.set_rx_fir_config(rx).e.state.v.fir;
            &&& fir.rx is Some
            &&& fir.rx_bypassed() == e.state.v.fir.rx_bypassed()
            &&& fir.tx == e.state.v.fir.tx
        }),
        ({
            let fir = e.set_tx_fir_config(tx).e.state.v.fir;
            &&& fir.tx is Some
            &&& fir.tx_bypassed() == e.state.v.fir.tx_bypassed()
            &&& fir.rx == e.state.v.fir.rx
        }),
{
    reveal(EngineView::set_rx_fir_config);
    reveal(EngineView::set_tx_fir_config);
    assert forall|
        at: EngineView,
        channels: FirChannels,
        gain: FirGain,
        factor: FirFactor,
        taps: Seq<i16>,
    | #[trigger]
        at.load_fir_filter_coef(channels, gain, factor, taps).e.state.v.fir == at.state.v.fir by {
        law_load_keeps_fir_state(at, channels, gain, factor, taps);
    }
}

/// A FIR whose change failed is bypassed.
pub proof fn law_failed_fir_is_bypassed(e: EngineView, enable: bool)
    ensures
        e.set_rx_fir_en_dis(enable).err is Some ==> e.set_rx_fir_en_dis(
            enable,
        ).e.state.v.fir.rx_bypassed(),
        e.set_tx_fir_en_dis(enable).err is Some ==> e.set_tx_fir_en_dis(
            enable,
        ).e.state.v.fir.tx_bypassed(),
{
    reveal(EngineView::set_rx_fir_en_dis);
    reveal(EngineView::set_tx_fir_en_dis);
}

/// A FIR that was enabled is on and one that was bypassed is off, with the coefficients it had. The
/// other one stays as it was.
pub proof fn law_fir_is_switched(e: EngineView, enable: bool)
    ensures
        e.set_rx_fir_en_dis(enable).err is None ==> {
            let fir = e.set_rx_fir_en_dis(enable).e.state.v.fir;
            &&& fir.rx_bypassed() == !enable
            &&& fir == FirState { rx: with_bypass(e.state.v.fir.rx, !enable), ..e.state.v.fir }
        },
        e.set_tx_fir_en_dis(enable).err is None ==> {
            let fir = e.set_tx_fir_en_dis(enable).e.state.v.fir;
            &&& fir.tx_bypassed() == !enable
            &&& fir == FirState { tx: with_bypass(e.state.v.fir.tx, !enable), ..e.state.v.fir }
        },
{
    broadcast use crate::frame::spares_validate_enable_fir;

    reveal(EngineView::set_rx_fir_en_dis);
    reveal(EngineView::set_tx_fir_en_dis);
}

/// Without coefficients there is nothing to enable, and nothing is sent.
pub proof fn law_fir_must_be_loaded(e: EngineView, enable: bool)
    ensures
        e.state.v.fir.rx is None ==> e.set_rx_fir_en_dis(enable) == e.fail(
            Ad9361Error::FirNotLoaded,
        ),
        e.state.v.fir.tx is None ==> e.set_tx_fir_en_dis(enable) == e.fail(
            Ad9361Error::FirNotLoaded,
        ),
{
    reveal(EngineView::set_rx_fir_en_dis);
    reveal(EngineView::set_tx_fir_en_dis);
}

impl<'a> Engine<'a> {
    fn write_taps(&mut self, rx: bool, conf: u8, taps: &[i16]) -> (r: Result<(), Fault>)
        requires
            taps@.len() <= 128,
        ensures
            flow(final(self)@, r) == old(self)@.write_taps(rx, conf, taps@),
    {
        reveal(EngineView::write_taps);
        let mut i: usize = 0;
        while i < taps.len()
            invariant
                i <= taps@.len() <= 128,
                old(self)@.write_taps(rx, conf, taps@) == self@.taps_from(
                    rx,
                    conf,
                    taps@,
                    i as int,
                ),
            decreases taps@.len() - i,
        {
            self.run(&[
                put(fir_addr(rx, TX_FILTER_COEF_ADDR), i as u8),
                put(fir_addr(rx, TX_FILTER_COEF_WRITE_DATA1), tap_low(taps[i])),
                put(fir_addr(rx, TX_FILTER_COEF_WRITE_DATA2), tap_high(taps[i])),
                put(fir_addr(rx, TX_FILTER_CONF), conf | FIR_WRITE),
                put(fir_addr(rx, TX_FILTER_COEF_READ_DATA2), 0),
                put(fir_addr(rx, TX_FILTER_COEF_READ_DATA2), 0),
            ])?;
            i = i + 1;
        }
        Ok(())
    }

    fn start_fir_clock(&mut self, gain: FirGain, factor: FirFactor) -> (r: Result<u8, Fault>)
        ensures
            (Reply { e: final(self)@, r }) == old(self)@.start_fir_clock(gain, factor),
    {
        reveal(EngineView::start_fir_clock);
        match gain {
            FirGain::Rx(rx_gain) => {
                self.run(&[put(RX_FILTER_GAIN, rx_gain.field())])?;
                let byte: u8 = self.read(RX_ENABLE_FILTER_CONTROL)?;
                self.run(&[
                    update(
                        RX_ENABLE_FILTER_CONTROL,
                        RX_FIR_ENABLE_DECIMATION,
                        factor.clock_field(),
                    ),
                ])?;
                Ok(byte)
            },
            FirGain::Tx(_) => {
                let byte: u8 = self.read(TX_ENABLE_FILTER_CONTROL)?;
                self.run(&[
                    update(
                        TX_ENABLE_FILTER_CONTROL,
                        TX_FIR_ENABLE_INTERPOLATION,
                        factor.clock_field(),
                    ),
                ])?;
                Ok(byte)
            },
        }
    }

    fn restore_fir_enable(&mut self, rx: bool, byte: u8) -> (r: Result<(), Fault>)
        ensures
            flow(final(self)@, r) == old(self)@.restore_fir_enable(rx, byte),
    {
        reveal(EngineView::restore_fir_enable);
        if rx {
            self.run(&[update(RX_ENABLE_FILTER_CONTROL, RX_FIR_ENABLE_DECIMATION, byte)])
        } else {
            self.run(&[update(TX_ENABLE_FILTER_CONTROL, TX_FIR_ENABLE_INTERPOLATION, byte)])
        }
    }

    fn write_fir_coefficients(
        &mut self,
        channels: FirChannels,
        gain: FirGain,
        factor: FirFactor,
        taps: &[i16],
    ) -> (r: Result<(), Fault>)
        requires
            valid_tap_count(taps@.len()),
        ensures
            flow(final(self)@, r) == old(self)@.write_fir_coefficients(
                channels,
                gain,
                factor,
                taps@,
            ),
    {
        reveal(EngineView::write_fir_coefficients);
        let rx: bool = gain.is_rx();
        let conf: u8 = fir_conf(channels, gain, taps.len());
        let byte: u8 = self.start_fir_clock(gain, factor)?;
        self.run(&[put(fir_addr(rx, TX_FILTER_CONF), conf | FIR_START_CLK)])?;
        self.write_taps(rx, conf | FIR_START_CLK, taps)?;
        self.run(&[
            put(fir_addr(rx, TX_FILTER_CONF), conf | FIR_START_CLK),
            put(fir_addr(rx, TX_FILTER_CONF), conf),
        ])?;
        self.restore_fir_enable(rx, byte)
    }

    fn load_fir_filter_coef(
        &mut self,
        channels: FirChannels,
        gain: FirGain,
        factor: FirFactor,
        taps: &[i16],
    ) -> (r: Result<(), Fault>)
        requires
            valid_tap_count(taps@.len()),
        ensures
            flow(final(self)@, r) == old(self)@.load_fir_filter_coef(channels, gain, factor, taps@),
    {
        reveal(EngineView::load_fir_filter_coef);
        let saved: SavedEnsmState = self.ensm_force_state(ForcedEnsmState::Alert)?;
        let result = self.write_fir_coefficients(channels, gain, factor, taps);
        self.ensm_restore_state(saved)?;
        result
    }

    /// Loads an RX FIR.
    pub fn set_rx_fir_config(&mut self, config: &RxFirConfig) -> (r: Result<(), Fault>)
        ensures
            flow(final(self)@, r) == old(self)@.set_rx_fir_config(*config),
    {
        reveal(EngineView::set_rx_fir_config);
        let taps: &[i16] = config.coefficients.taps();
        // still bypassed after loading, until someone enables it
        let bypassed: bool = self.state.v.fir.rx_bypassed();
        self.state.v.fir.rx = Some(
            LoadedFir { factor: config.decimation, ntaps: taps.len() as u32, bypassed },
        );
        self.load_fir_filter_coef(
            config.channels,
            FirGain::Rx(config.gain),
            config.decimation,
            taps,
        )
    }

    /// Loads a TX FIR.
    pub fn set_tx_fir_config(&mut self, config: &TxFirConfig) -> (r: Result<(), Fault>)
        ensures
            flow(final(self)@, r) == old(self)@.set_tx_fir_config(*config),
    {
        reveal(EngineView::set_tx_fir_config);
        let coefficients: FirCoefficients = config.coefficients();
        let taps: &[i16] = coefficients.taps();
        let bypassed: bool = self.state.v.fir.tx_bypassed();
        self.state.v.fir.tx = Some(
            LoadedFir { factor: config.interpolation(), ntaps: taps.len() as u32, bypassed },
        );
        self.load_fir_filter_coef(
            config.channels(),
            FirGain::Tx(config.gain()),
            config.interpolation(),
            taps,
        )
    }

    /// Enables or bypasses the RX FIR. Redoes clocks and bandwidths, and the filter stays off if
    /// that fails.
    pub fn set_rx_fir_en_dis(&mut self, enable: bool) -> (r: Result<(), Fault>)
        ensures
            flow(final(self)@, r) == old(self)@.set_rx_fir_en_dis(enable),
    {
        reveal(EngineView::set_rx_fir_en_dis);
        let fir: FirState = self.state.v.fir;
        match fir.rx {
            None => Err(Ad9361Error::FirNotLoaded),
            Some(loaded) => {
                if loaded.bypassed == !enable {
                    return Ok(());
                }
                self.state.v.fir.rx = with_bypass(fir.rx, !enable);
                let result = self.validate_enable_fir();
                if result.is_err() {
                    self.state.v.fir.rx = with_bypass(self.state.v.fir.rx, true);
                }
                result
            },
        }
    }

    /// Enables or bypasses the TX FIR. Redoes clocks and bandwidths, and the filter stays off if
    /// that fails.
    pub fn set_tx_fir_en_dis(&mut self, enable: bool) -> (r: Result<(), Fault>)
        ensures
            flow(final(self)@, r) == old(self)@.set_tx_fir_en_dis(enable),
    {
        reveal(EngineView::set_tx_fir_en_dis);
        let fir: FirState = self.state.v.fir;
        match fir.tx {
            None => Err(Ad9361Error::FirNotLoaded),
            Some(loaded) => {
                if loaded.bypassed == !enable {
                    return Ok(());
                }
                self.state.v.fir.tx = with_bypass(fir.tx, !enable);
                let result = self.validate_enable_fir();
                if result.is_err() {
                    self.state.v.fir.tx = with_bypass(self.state.v.fir.tx, true);
                }
                result
            },
        }
    }

    fn redo_bandwidths(&mut self) -> (r: Result<(), Fault>)
        ensures
            flow(final(self)@, r) == old(self)@.redo_bandwidths(),
    {
        reveal(EngineView::redo_bandwidths);
        if !self.state.v.tune.dig_interface_tune_fir_disable && self.state.v.fir.tx_bypassed()
            && self.state.v.fir.rx_bypassed() {
            let _ = self.dig_tune(
                HertzU32 { raw: 0 },
                DigTuneFlags { restore_default: true, skip_store_result: false },
            );
        }
        let rx_bw: HertzU32 = self.state.v.cal.current_rx_bw;
        let tx_bw: HertzU32 = self.state.v.cal.current_tx_bw;
        self.update_rf_bandwidth(rx_bw, tx_bw)
    }

    /// Checks the FIRs against the clock chain, recomputes the chain for the current TX rate and
    /// redoes the bandwidths.
    pub fn validate_enable_fir(&mut self) -> (r: Result<(), Fault>)
        ensures
            flow(final(self)@, r) == old(self)@.validate_enable_fir(),
    {
        reveal(EngineView::validate_enable_fir);
        // no valid chain for the current rate? use the lowest one
        let governor: u32 = self.state.v.clk.rate_governor;
        let (rx, tx) = match self.calculate_rf_clock_chain(
            self.state.v.clk.rates.tx_sampl,
            governor,
        ) {
            Ok(chain) => chain,
            Err(_) => self.calculate_rf_clock_chain(lowest_rate(governor), governor)?,
        };
        let fir: FirState = self.state.v.fir;
        if too_long(fir.tx, max_tx_taps(&tx)) || too_long(fir.rx, max_rx_taps(&rx)) {
            return Err(Ad9361Error::FirTooLong);
        }
        self.set_trx_clock_chain(&rx, &tx)?;
        self.redo_bandwidths()
    }
}

} // verus!
