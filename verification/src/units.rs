//! Types for values with a limited range. The constructors return [`OutOfRange`] for anything
//! outside it, so a value of one of these types is always one the chip can take.
use vstd::arithmetic::power2::{lemma2_to64, pow2};
use vstd::prelude::*;

use crate::math::{ilog2, lemma_log2_pow2, lemma_pow2_monotone};

verus! {

/// Value out of range.
#[derive(Debug, Clone, Copy, PartialEq, Eq, Structural)]
pub struct OutOfRange;

/// A rate in Hz, 32 bits wide.
#[derive(Debug, Clone, Copy, PartialEq, Eq, Structural)]
pub struct HertzU32 {
    pub raw: u32,
}

impl HertzU32 {
    #[allow(non_snake_case)]
    pub fn Hz(hz: u32) -> (rate: Self)
        ensures
            rate.raw == hz,
    {
        HertzU32 { raw: hz }
    }

    /// Whole megahertz.
    #[allow(non_snake_case)]
    pub fn MHz(mhz: u32) -> (rate: Self)
        requires
            mhz <= 4294,
        ensures
            rate.raw == mhz * 1_000_000,
    {
        HertzU32 { raw: mhz * 1_000_000 }
    }

    pub fn from_raw(raw: u32) -> (rate: Self)
        ensures
            rate.raw == raw,
    {
        HertzU32 { raw }
    }

    pub fn to_raw(self) -> (raw: u32)
        ensures
            raw == self.raw,
    {
        self.raw
    }
}

/// A rate in Hz, 64 bits wide. The RF synthesizers go up to 6 GHz.
#[derive(Debug, Clone, Copy, PartialEq, Eq, Structural)]
pub struct HertzU64 {
    pub raw: u64,
}

impl HertzU64 {
    #[allow(non_snake_case)]
    pub fn Hz(hz: u64) -> (rate: Self)
        ensures
            rate.raw == hz,
    {
        HertzU64 { raw: hz }
    }

    pub fn from_raw(raw: u64) -> (rate: Self)
        ensures
            rate.raw == raw,
    {
        HertzU64 { raw }
    }

    pub fn to_raw(self) -> (raw: u64)
        ensures
            raw == self.raw,
    {
        self.raw
    }
}

/// Most steps of 0.25 dB the TX attenuator has.
pub const MAX_QUARTER_DB: u16 = 359;

/// TX attenuation, 0 to 89.75 dB in 0.25 dB steps.
#[derive(Debug, Clone, Copy, PartialEq, Eq, Structural, PartialOrd, Ord)]
pub struct TxAttenuation {
    quarter_db: u16,
}

impl TxAttenuation {
    #[verifier::type_invariant]
    spec fn in_range(self) -> bool {
        self.quarter_db <= MAX_QUARTER_DB
    }

    /// The attenuation in steps of 0.25 dB.
    pub closed spec fn steps(self) -> u16 {
        self.quarter_db
    }

    /// No attenuation.
    pub fn minimum() -> (atten: Self)
        ensures
            atten == saturated(0),
            atten.steps() == 0,
    {
        TxAttenuation { quarter_db: 0 }
    }

    /// 89.75 dB.
    pub fn maximum() -> (atten: Self)
        ensures
            atten == saturated(MAX_QUARTER_DB),
            atten.steps() == MAX_QUARTER_DB,
    {
        TxAttenuation { quarter_db: MAX_QUARTER_DB }
    }

    /// Whole dB, at most 89.
    pub fn from_db(db: u8) -> (atten: Self)
        requires
            db <= 89,
        ensures
            atten.steps() == db * 4,
    {
        TxAttenuation { quarter_db: db as u16 * 4 }
    }

    /// Steps of 0.25 dB, at most 359.
    pub fn from_quarter_db(quarter_db: u16) -> (r: Result<Self, OutOfRange>)
        ensures
            r is Ok <==> quarter_db <= MAX_QUARTER_DB,
            r matches Ok(atten) ==> atten.steps() == quarter_db,
    {
        if quarter_db <= MAX_QUARTER_DB {
            Ok(TxAttenuation { quarter_db })
        } else {
            Err(OutOfRange)
        }
    }

    /// Like [`Self::from_quarter_db`], but anything above the range becomes the maximum. The
    /// register can hold bigger values.
    pub fn saturating_from_quarter_db(quarter_db: u16) -> (atten: Self)
        ensures
            atten == saturated(quarter_db),
            atten.steps() == (if quarter_db <= MAX_QUARTER_DB { quarter_db } else { MAX_QUARTER_DB }),
    {
        if quarter_db <= MAX_QUARTER_DB {
            TxAttenuation { quarter_db }
        } else {
            TxAttenuation::maximum()
        }
    }

    /// In millidB, rounded down to the 0.25 dB steps.
    pub fn from_mdb(mdb: u32) -> (r: Result<Self, OutOfRange>)
        ensures
            r is Ok <==> mdb < (MAX_QUARTER_DB + 1) * 250,
            r matches Ok(atten) ==> atten.steps() == mdb as int / 250,
    {
        let quarter_db: u32 = mdb / 250;
        if quarter_db > MAX_QUARTER_DB as u32 {
            return Err(OutOfRange);
        }
        Ok(TxAttenuation { quarter_db: quarter_db as u16 })
    }

    pub fn quarter_db(self) -> (steps: u16)
        ensures
            steps == self.steps(),
            steps <= MAX_QUARTER_DB,
    {
        proof {
            use_type_invariant(self);
        }
        self.quarter_db
    }

    pub fn mdb(self) -> (mdb: u32)
        ensures
            mdb == self.steps() * 250,
            mdb <= 89_750,
    {
        proof {
            use_type_invariant(self);
        }
        self.quarter_db as u32 * 250
    }
}

/// The attenuation a register reading stands for.
pub closed spec fn saturated(quarter_db: u16) -> TxAttenuation {
    TxAttenuation { quarter_db: if quarter_db <= MAX_QUARTER_DB { quarter_db } else { MAX_QUARTER_DB } }
}

/// A reading up to the maximum is its number of steps.
pub proof fn lemma_saturated(quarter_db: u16)
    ensures
        quarter_db <= MAX_QUARTER_DB ==> saturated(quarter_db).steps() == quarter_db,
{
}

/// Setting an attenuation from the steps of one gives the same one.
pub proof fn law_attenuation_reads_back(atten: TxAttenuation)
    requires
        atten.steps() <= MAX_QUARTER_DB,
    ensures
        saturated(atten.steps()) == atten,
{
}

/// Lowest RF bandwidth in Hz.
pub const MIN_RF_BANDWIDTH: u32 = 200_000;

/// Highest RF bandwidth in Hz.
pub const MAX_RF_BANDWIDTH: u32 = 56_000_000;

/// Highest baseband sample rate in Hz.
pub const MAX_SAMPLE_RATE: u32 = 61_440_000;

/// Lowest RX carrier in Hz.
pub const MIN_RX_CARRIER_FREQ_HZ: u64 = 70_000_000;

/// Lowest TX carrier in Hz.
pub const MIN_TX_CARRIER_FREQ_HZ: u64 = 46_875_001;

/// Highest carrier in Hz.
pub const MAX_CARRIER_FREQ_HZ: u64 = 6_000_000_000;

/// RF bandwidth, 200 kHz to 56 MHz. The baseband filters work on half of it, since the signal
/// is complex.
#[derive(Debug, Clone, Copy, PartialEq, Eq, Structural)]
pub struct RfBandwidth {
    bandwidth: HertzU32,
}

impl RfBandwidth {
    #[verifier::type_invariant]
    spec fn in_range(self) -> bool {
        MIN_RF_BANDWIDTH <= self.bandwidth.raw <= MAX_RF_BANDWIDTH
    }

    /// The bandwidth in Hz.
    pub closed spec fn hz(self) -> u32 {
        self.bandwidth.raw
    }

    /// Clamps into range.
    pub fn new_clamped(bandwidth: HertzU32) -> (r: Self)
        ensures
            r.hz() == (if bandwidth.raw < MIN_RF_BANDWIDTH {
                MIN_RF_BANDWIDTH
            } else if bandwidth.raw > MAX_RF_BANDWIDTH {
                MAX_RF_BANDWIDTH
            } else {
                bandwidth.raw
            }),
    {
        let raw: u32 = if bandwidth.raw < MIN_RF_BANDWIDTH {
            MIN_RF_BANDWIDTH
        } else if bandwidth.raw > MAX_RF_BANDWIDTH {
            MAX_RF_BANDWIDTH
        } else {
            bandwidth.raw
        };
        RfBandwidth { bandwidth: HertzU32 { raw } }
    }

    pub fn new(bandwidth: HertzU32) -> (r: Result<Self, OutOfRange>)
        ensures
            r is Ok <==> MIN_RF_BANDWIDTH <= bandwidth.raw <= MAX_RF_BANDWIDTH,
            r matches Ok(b) ==> b.hz() == bandwidth.raw,
    {
        if bandwidth.raw >= MIN_RF_BANDWIDTH && bandwidth.raw <= MAX_RF_BANDWIDTH {
            Ok(RfBandwidth { bandwidth })
        } else {
            Err(OutOfRange)
        }
    }

    pub fn get(self) -> (bandwidth: HertzU32)
        ensures
            bandwidth.raw == self.hz(),
            MIN_RF_BANDWIDTH <= bandwidth.raw <= MAX_RF_BANDWIDTH,
    {
        proof {
            use_type_invariant(self);
        }
        self.bandwidth
    }
}

/// Baseband sample rate, up to 61.44 MSPS.
///
/// Only the range is checked. The dividers may still be unable to make the rate.
#[derive(Debug, Clone, Copy, PartialEq, Eq, Structural)]
pub struct SampleRate {
    rate: HertzU32,
}

impl SampleRate {
    #[verifier::type_invariant]
    spec fn in_range(self) -> bool {
        0 < self.rate.raw <= MAX_SAMPLE_RATE
    }

    /// The rate in Hz.
    pub closed spec fn hz(self) -> u32 {
        self.rate.raw
    }

    pub fn new(rate: HertzU32) -> (r: Result<Self, OutOfRange>)
        ensures
            r is Ok <==> 0 < rate.raw <= MAX_SAMPLE_RATE,
            r matches Ok(s) ==> s.hz() == rate.raw,
    {
        if rate.raw > 0 && rate.raw <= MAX_SAMPLE_RATE {
            Ok(SampleRate { rate })
        } else {
            Err(OutOfRange)
        }
    }

    pub fn get(self) -> (rate: HertzU32)
        ensures
            rate.raw == self.hz(),
            0 < rate.raw <= MAX_SAMPLE_RATE,
    {
        proof {
            use_type_invariant(self);
        }
        self.rate
    }
}

/// RX LO frequency, 70 MHz to 6 GHz.
#[derive(Debug, Clone, Copy, PartialEq, Eq, Structural)]
pub struct RxLoFrequency {
    frequency: HertzU64,
}

impl RxLoFrequency {
    #[verifier::type_invariant]
    spec fn in_range(self) -> bool {
        MIN_RX_CARRIER_FREQ_HZ <= self.frequency.raw <= MAX_CARRIER_FREQ_HZ
    }

    /// The frequency in Hz.
    pub closed spec fn hz(self) -> u64 {
        self.frequency.raw
    }

    pub fn new(frequency: HertzU64) -> (r: Result<Self, OutOfRange>)
        ensures
            r is Ok <==> MIN_RX_CARRIER_FREQ_HZ <= frequency.raw <= MAX_CARRIER_FREQ_HZ,
            r matches Ok(f) ==> f.hz() == frequency.raw,
    {
        if frequency.raw >= MIN_RX_CARRIER_FREQ_HZ && frequency.raw <= MAX_CARRIER_FREQ_HZ {
            Ok(RxLoFrequency { frequency })
        } else {
            Err(OutOfRange)
        }
    }

    /// In Hz, 70 MHz to 6 GHz.
    pub fn from_hz(hz: u64) -> (f: Self)
        requires
            MIN_RX_CARRIER_FREQ_HZ <= hz <= MAX_CARRIER_FREQ_HZ,
        ensures
            f.hz() == hz,
    {
        RxLoFrequency { frequency: HertzU64 { raw: hz } }
    }

    pub fn get(self) -> (frequency: HertzU64)
        ensures
            frequency.raw == self.hz(),
            MIN_RX_CARRIER_FREQ_HZ <= frequency.raw <= MAX_CARRIER_FREQ_HZ,
    {
        proof {
            use_type_invariant(self);
        }
        self.frequency
    }
}

/// TX LO frequency, 46.875001 MHz to 6 GHz.
#[derive(Debug, Clone, Copy, PartialEq, Eq, Structural)]
pub struct TxLoFrequency {
    frequency: HertzU64,
}

impl TxLoFrequency {
    #[verifier::type_invariant]
    spec fn in_range(self) -> bool {
        MIN_TX_CARRIER_FREQ_HZ <= self.frequency.raw <= MAX_CARRIER_FREQ_HZ
    }

    /// The frequency in Hz.
    pub closed spec fn hz(self) -> u64 {
        self.frequency.raw
    }

    pub fn new(frequency: HertzU64) -> (r: Result<Self, OutOfRange>)
        ensures
            r is Ok <==> MIN_TX_CARRIER_FREQ_HZ <= frequency.raw <= MAX_CARRIER_FREQ_HZ,
            r matches Ok(f) ==> f.hz() == frequency.raw,
    {
        if frequency.raw >= MIN_TX_CARRIER_FREQ_HZ && frequency.raw <= MAX_CARRIER_FREQ_HZ {
            Ok(TxLoFrequency { frequency })
        } else {
            Err(OutOfRange)
        }
    }

    /// In Hz, 46.875001 MHz to 6 GHz.
    pub fn from_hz(hz: u64) -> (f: Self)
        requires
            MIN_TX_CARRIER_FREQ_HZ <= hz <= MAX_CARRIER_FREQ_HZ,
        ensures
            f.hz() == hz,
    {
        TxLoFrequency { frequency: HertzU64 { raw: hz } }
    }

    pub fn get(self) -> (frequency: HertzU64)
        ensures
            frequency.raw == self.hz(),
            MIN_TX_CARRIER_FREQ_HZ <= frequency.raw <= MAX_CARRIER_FREQ_HZ,
    {
        proof {
            use_type_invariant(self);
        }
        self.frequency
    }
}

/// RX input pins. RX1 and RX2 switch together.
///
/// `A`, `B` and `C` are the three differential inputs. The single ended variants use one pin of a
/// set. The TX monitor inputs are not supported.
#[derive(Debug, Clone, Copy, PartialEq, Eq, Structural)]
pub enum RxInput {
    /// RX1A and RX2A, differential
    DifferentialA,
    /// RX1B and RX2B, differential
    DifferentialB,
    /// RX1C and RX2C, differential
    DifferentialC,
    /// The `_N`/`_P` pins of A, B and C, single ended
    SingleEndedAN,
    SingleEndedAP,
    SingleEndedBN,
    SingleEndedBP,
    SingleEndedCN,
    SingleEndedCP,
}

impl RxInput {
    /// Value for the RX input select field: one bit per pin, a differential pair takes both of
    /// its pins.
    pub open spec fn select(self) -> u8 {
        match self {
            RxInput::DifferentialA => 3,
            RxInput::DifferentialB => 12,
            RxInput::DifferentialC => 48,
            RxInput::SingleEndedAN => 1,
            RxInput::SingleEndedAP => 2,
            RxInput::SingleEndedBN => 4,
            RxInput::SingleEndedBP => 8,
            RxInput::SingleEndedCN => 16,
            RxInput::SingleEndedCP => 32,
        }
    }

    pub fn select_bits(self) -> (bits: u8)
        ensures
            bits == self.select(),
            bits < 64,
    {
        match self {
            RxInput::DifferentialA => 0b000011,
            RxInput::DifferentialB => 0b001100,
            RxInput::DifferentialC => 0b110000,
            RxInput::SingleEndedAN => 0b000001,
            RxInput::SingleEndedAP => 0b000010,
            RxInput::SingleEndedBN => 0b000100,
            RxInput::SingleEndedBP => 0b001000,
            RxInput::SingleEndedCN => 0b010000,
            RxInput::SingleEndedCP => 0b100000,
        }
    }
}

/// AuxADC / temperature sensor decimation, 256 to 32768. The register holds
/// log2(decimation) - 8.
#[derive(Debug, Clone, Copy, PartialEq, Eq, Structural)]
pub struct AuxAdcDecimation {
    log: u8,
}

impl AuxAdcDecimation {
    #[verifier::type_invariant]
    spec fn in_range(self) -> bool {
        self.log <= 7
    }

    /// The register field.
    pub closed spec fn code(self) -> u8 {
        self.log
    }

    /// Decimation by 256.
    pub fn d256() -> (d: Self)
        ensures
            d.code() == 0,
    {
        AuxAdcDecimation { log: 0 }
    }

    /// Rounds down to a power of two.
    pub fn new(decimation: u32) -> (r: Result<Self, OutOfRange>)
        ensures
            r is Ok <==> 256 <= decimation < 65536,
            r matches Ok(d) ==> {
                &&& d.code() <= 7
                &&& pow2(d.code() as nat + 8) <= decimation < pow2(d.code() as nat + 9)
            },
    {
        if decimation < 256 || decimation >= 65536 {
            return Err(OutOfRange);
        }
        let log: u32 = ilog2(decimation);
        proof {
            lemma_log2_pow2(decimation as nat);
            assert(pow2(8) == 256 && pow2(16) == 65536) by {
                lemma2_to64();
            }
            if log < 8 {
                lemma_pow2_monotone(log as nat + 1, 8);
            }
            if log > 15 {
                lemma_pow2_monotone(16, log as nat);
            }
        }
        Ok(AuxAdcDecimation { log: (log - 8) as u8 })
    }

    pub fn field(self) -> (code: u8)
        ensures
            code == self.code(),
            code <= 7,
    {
        proof {
            use_type_invariant(self);
        }
        self.log
    }
}

/// External LNA gain, 0.5 dB steps up to 31.5 dB.
#[derive(Debug, Clone, Copy, PartialEq, Eq, Structural)]
pub struct ElnaGain {
    half_db: u8,
}

impl ElnaGain {
    #[verifier::type_invariant]
    spec fn in_range(self) -> bool {
        self.half_db < 64
    }

    /// The gain in steps of 0.5 dB.
    pub closed spec fn steps(self) -> u8 {
        self.half_db
    }

    /// 0 dB.
    pub fn zero() -> (gain: Self)
        ensures
            gain.steps() == 0,
    {
        ElnaGain { half_db: 0 }
    }

    /// In millidB, rounded down to 0.5 dB.
    pub fn from_mdb(mdb: u16) -> (r: Result<Self, OutOfRange>)
        ensures
            r is Ok <==> mdb < 32_000,
            r matches Ok(gain) ==> gain.steps() == mdb as int / 500,
    {
        let steps: u16 = mdb / 500;
        if steps < 64 {
            Ok(ElnaGain { half_db: steps as u8 })
        } else {
            Err(OutOfRange)
        }
    }

    pub fn field(self) -> (steps: u8)
        ensures
            steps == self.steps(),
            steps < 64,
    {
        proof {
            use_type_invariant(self);
        }
        self.half_db
    }
}

/// A number of at most four bits.
#[derive(Debug, Clone, Copy, PartialEq, Eq, Structural)]
pub struct U4 {
    bits: u8,
}

impl U4 {
    #[verifier::type_invariant]
    spec fn in_range(self) -> bool {
        self.bits < 16
    }

    pub closed spec fn bits(self) -> u8 {
        self.bits
    }

    pub fn new(value: u8) -> (n: Self)
        requires
            value < 16,
        ensures
            n.bits() == value,
    {
        U4 { bits: value }
    }

    pub fn value(self) -> (value: u8)
        ensures
            value == self.bits(),
            value < 16,
    {
        proof {
            use_type_invariant(self);
        }
        self.bits
    }
}

/// A number of at most six bits.
#[derive(Debug, Clone, Copy, PartialEq, Eq, Structural)]
pub struct U6 {
    bits: u8,
}

impl U6 {
    #[verifier::type_invariant]
    spec fn in_range(self) -> bool {
        self.bits < 64
    }

    pub closed spec fn bits(self) -> u8 {
        self.bits
    }

    pub fn new(value: u8) -> (n: Self)
        requires
            value < 64,
        ensures
            n.bits() == value,
    {
        U6 { bits: value }
    }

    pub fn value(self) -> (value: u8)
        ensures
            value == self.bits(),
            value < 64,
    {
        proof {
            use_type_invariant(self);
        }
        self.bits
    }
}

/// A number of at most thirteen bits.
#[derive(Debug, Clone, Copy, PartialEq, Eq, Structural)]
pub struct U13 {
    bits: u16,
}

impl U13 {
    #[verifier::type_invariant]
    spec fn in_range(self) -> bool {
        self.bits < 8192
    }

    pub closed spec fn bits(self) -> u16 {
        self.bits
    }

    pub fn new(value: u16) -> (n: Self)
        requires
            value < 8192,
        ensures
            n.bits() == value,
    {
        U13 { bits: value }
    }

    pub fn value(self) -> (value: u16)
        ensures
            value == self.bits(),
            value < 8192,
    {
        proof {
            use_type_invariant(self);
        }
        self.bits
    }
}

} // verus!
