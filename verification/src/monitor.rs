//! RSSI setup, RSSI gain step calibration, TX monitor.
use vstd::prelude::*;

use crate::control::{ForcedEnsmState, SavedEnsmState};
use crate::engine::{Engine, EngineView, flow, Flow, Reply};
use crate::error::Ad9361Error;
use crate::gain_control::duration_field;
use crate::link::{Fault, put, update, wait};
use crate::math::{flag, ilog2, least, lemma_log2_pow2, lemma_pow2_monotone, log2};
use crate::registers::{
    CONFIG, DEFAULT_RSSI_MEAS_MODE, GAIN_DIFF_WORDERROR_WRITE, GAIN_ERROR_READ, LNA_GAIN,
    MAX_MIXER_CALIBRATION_GAIN_INDEX, MEASURE_DURATION, MEASURE_DURATION01, MEASURE_DURATION23,
    ONE_SHOT_MODE, READ_SELECT, RSSI_CONFIG, RSSI_DELAY, RSSI_WAIT_TIME, RSSI_WEIGHT0,
    RSSI_WEIGHT1, RSSI_WEIGHT2, RSSI_WEIGHT3, RX_GAIN_STEP_CAL, SETTLE_TIME,
    START_CALIB_TABLE_CLOCK, START_RSSI_MEAS, TPM_MODE_ENABLE, TX_ATTEN_THRESH, TX_LEVEL_THRESH,
    TX_MON1_CONFIG, TX_MON2_CONFIG, TX_MON_DELAY, TX_MON_DELAY_COUNTER, TX_MON_HIGH_GAIN,
    TX_MON_LOW_GAIN, TX_MON_TRACK, WORD_ADDRESS, WRITE_LNA_ERROR_TABLE, WRITE_LNA_GAIN_DIFF,
    WRITE_MIXER_ERROR_TABLE,
};
use vstd::arithmetic::power2::lemma2_to64;
use vstd::arithmetic::power2::lemma_pow2_unfold;
use vstd::arithmetic::power2::pow2;

verus! {

/// What restarts an RSSI measurement.
#[derive(Debug, Clone, Copy, PartialEq, Eq, Structural)]
pub enum RssiRestartMode {
    AgcInFastAttackModeLocksTheGain,
    EnAgcPinIsPulledHigh,
    EntersRxMode,
    GainChangeOccurs,
    SpiWriteToRegister,
    GainChangeOccursOrEnAgcPinPulledHigh,
}

impl RssiRestartMode {
    /// The register field.
    #[verifier::allow_in_spec]
    pub fn code(self) -> u8
        returns
            (match self {
                RssiRestartMode::AgcInFastAttackModeLocksTheGain => 0u8,
                RssiRestartMode::EnAgcPinIsPulledHigh => 1,
                RssiRestartMode::EntersRxMode => 2,
                RssiRestartMode::GainChangeOccurs => 3,
                RssiRestartMode::SpiWriteToRegister => 4,
                RssiRestartMode::GainChangeOccursOrEnAgcPinPulledHigh => 5,
            }),
    {
        match self {
            RssiRestartMode::AgcInFastAttackModeLocksTheGain => 0,
            RssiRestartMode::EnAgcPinIsPulledHigh => 1,
            RssiRestartMode::EntersRxMode => 2,
            RssiRestartMode::GainChangeOccurs => 3,
            RssiRestartMode::SpiWriteToRegister => 4,
            RssiRestartMode::GainChangeOccursOrEnAgcPinPulledHigh => 5,
        }
    }
}

/// RSSI config.
#[derive(Debug, Clone, Copy, PartialEq, Eq, Structural)]
pub struct RssiConfiguration {
    pub restart_mode: RssiRestartMode,
    /// delay, wait and duration in RX samples, not microseconds
    pub unit_is_rx_samples: bool,
    pub delay: u32,
    pub wait: u32,
    pub duration: u32,
}

/// One millisecond, restarted by gain changes.
pub open spec fn default_rssi() -> RssiConfiguration {
    RssiConfiguration {
        restart_mode: RssiRestartMode::GainChangeOccurs,
        unit_is_rx_samples: false,
        delay: 1,
        wait: 1,
        duration: 1000,
    }
}

impl Default for RssiConfiguration {
    fn default() -> (config: Self)
        ensures
            config == default_rssi(),
    {
        RssiConfiguration {
            restart_mode: RssiRestartMode::GainChangeOccurs,
            unit_is_rx_samples: false,
            delay: 1,
            wait: 1,
            duration: 1000,
        }
    }
}

/// TX monitor config.
#[derive(Debug, Clone, Copy, PartialEq, Eq, Structural)]
pub struct TxMonitorConfig {
    pub track_en: bool,
    pub one_shot_mode_en: bool,
    pub low_high_gain_threshold_mdb: u32,
    pub low_gain_db: u8,
    pub high_gain_db: u8,
    pub delay: u16,
    pub duration: u16,
    pub tx1_front_end_gain: u8,
    pub tx2_front_end_gain: u8,
    pub tx1_lo_cm: u8,
    pub tx2_lo_cm: u8,
}

/// Tracking and one shot mode off, 37 dB between the gains' ranges.
pub open spec fn default_txmon() -> TxMonitorConfig {
    TxMonitorConfig {
        track_en: false,
        one_shot_mode_en: false,
        low_high_gain_threshold_mdb: 37_000,
        low_gain_db: 0,
        high_gain_db: 24,
        delay: 511,
        duration: 8192,
        tx1_front_end_gain: 2,
        tx2_front_end_gain: 2,
        tx1_lo_cm: 48,
        tx2_lo_cm: 48,
    }
}

impl Default for TxMonitorConfig {
    fn default() -> (config: Self)
        ensures
            config == default_txmon(),
    {
        TxMonitorConfig {
            track_en: false,
            one_shot_mode_en: false,
            low_high_gain_threshold_mdb: 37_000,
            low_gain_db: 0,
            high_gain_db: 24,
            delay: 511,
            duration: 8192,
            tx1_front_end_gain: 2,
            tx2_front_end_gain: 2,
            tx1_lo_cm: 48,
            tx2_lo_cm: 48,
        }
    }
}

/// RSSI gain step calibration values (LNA gain and gain step words) per LO range: up to 1300,
/// 3300 and 4100 MHz, and above.
pub const GAIN_STEP_CALIB_REG_VAL: [[u8; 5]; 4] = [
    [0xC0, 0x2E, 0x10, 0x06, 0x00],
    [0xC0, 0x2C, 0x10, 0x06, 0x00],
    [0xB8, 0x2C, 0x10, 0x06, 0x00],
    [0xA0, 0x24, 0x10, 0x06, 0x00],
];

/// Row of the gain step calibration values for an LO in Hz.
#[verifier::allow_in_spec]
pub fn gain_step_row(lo_freq: u64) -> usize
    returns
        (if lo_freq < 1_300_000_000 {
            0usize
        } else if lo_freq < 3_300_000_000 {
            1
        } else if lo_freq < 4_100_000_000 {
            2
        } else {
            3
        }),
{
    if lo_freq < 1_300_000_000 {
        0
    } else if lo_freq < 3_300_000_000 {
        1
    } else if lo_freq < 4_100_000_000 {
        2
    } else {
        3
    }
}

/// What the weights of an RSSI measurement add up to.
pub const RSSI_MAX_WEIGHT: u32 = 255;

/// Largest power of two in a duration, 2^14 at most.
#[verifier::allow_in_spec]
pub fn chunk_exponent(duration: u32) -> u8
    returns
        least(14, ilog2(duration)) as u8,
{
    least(14, ilog2(duration)) as u8
}

/// A power of two up to 2^14.
#[verifier::allow_in_spec]
pub fn chunk_size(exponent: u8) -> u32
    returns
        (match exponent {
            0 => 1u32,
            1 => 2,
            2 => 4,
            3 => 8,
            4 => 16,
            5 => 32,
            6 => 64,
            7 => 128,
            8 => 256,
            9 => 512,
            10 => 1024,
            11 => 2048,
            12 => 4096,
            13 => 8192,
            _ => 16384,
        }),
{
    match exponent {
        0 => 1,
        1 => 2,
        2 => 4,
        3 => 8,
        4 => 16,
        5 => 32,
        6 => 64,
        7 => 128,
        8 => 256,
        9 => 512,
        10 => 1024,
        11 => 2048,
        12 => 4096,
        13 => 8192,
        _ => 16384,
    }
}

/// A measurement duration in chunks of powers of two.
#[derive(Debug, Clone, Copy, PartialEq, Eq, Structural)]
pub struct RssiChunks {
    /// number of chunks, four at most
    pub count: u8,
    /// exponents of the chunks, zero for those past the count
    pub e0: u8,
    pub e1: u8,
    pub e2: u8,
    pub e3: u8,
    /// sum of the chunks
    pub total: u32,
    /// what the chunks leave of the duration
    pub left: u32,
}

impl RssiChunks {
    pub open spec fn wf(self) -> bool {
        &&& self.count <= 4
        &&& self.total <= self.count * 16384
        &&& self.count > 0 ==> self.total > 0
        &&& self.e0 <= 14 && self.e1 <= 14 && self.e2 <= 14 && self.e3 <= 14
    }

    /// No chunks yet.
    #[verifier::allow_in_spec]
    pub fn none(duration: u32) -> Self
        returns
            (RssiChunks { count: 0, e0: 0, e1: 0, e2: 0, e3: 0, total: 0, left: duration }),
    {
        RssiChunks { count: 0, e0: 0, e1: 0, e2: 0, e3: 0, total: 0, left: duration }
    }

    /// One more chunk: the largest power of two that fits into what is left.
    pub open spec fn more(self) -> Self {
        if self.left == 0 || self.count >= 4 {
            self
        } else {
            let e = chunk_exponent(self.left);
            let grown = RssiChunks {
                count: (self.count + 1) as u8,
                total: (self.total + chunk_size(e)) as u32,
                left: (self.left - chunk_size(e)) as u32,
                ..self
            };
            match self.count {
                0 => RssiChunks { e0: e, ..grown },
                1 => RssiChunks { e1: e, ..grown },
                2 => RssiChunks { e2: e, ..grown },
                _ => RssiChunks { e3: e, ..grown },
            }
        }
    }

    fn add_chunk(self) -> (chunks: Self)
        requires
            self.wf(),
        ensures
            chunks == self.more(),
            chunks.wf(),
    {
        if self.left == 0 || self.count >= 4 {
            return self;
        }
        let e: u8 = chunk_exponent(self.left);
        proof {
            lemma_chunk_fits(self.left);
        }
        let grown = RssiChunks {
            count: self.count + 1,
            total: self.total + chunk_size(e),
            left: self.left - chunk_size(e),
            ..self
        };
        match self.count {
            0 => RssiChunks { e0: e, ..grown },
            1 => RssiChunks { e1: e, ..grown },
            2 => RssiChunks { e2: e, ..grown },
            _ => RssiChunks { e3: e, ..grown },
        }
    }

    /// Exponent of a chunk.
    #[verifier::allow_in_spec]
    pub fn exponent(self, i: u8) -> u8
        returns
            (match i {
                0 => self.e0,
                1 => self.e1,
                2 => self.e2,
                _ => self.e3,
            }),
    {
        match i {
            0 => self.e0,
            1 => self.e1,
            2 => self.e2,
            _ => self.e3,
        }
    }

    /// Share of a chunk in the duration, out of 255, rounded.
    #[verifier::allow_in_spec]
    pub fn share(self, i: u8) -> u32
        requires
            self.total <= 65_536,
            self.count > 0 ==> self.total > 0,
        returns
            (if i < self.count {
                (RSSI_MAX_WEIGHT * chunk_size(self.exponent(i)) + self.total / 2) as u32
                    / self.total
            } else {
                0u32
            }),
    {
        if i < self.count {
            (RSSI_MAX_WEIGHT * chunk_size(self.exponent(i)) + self.total / 2) / self.total
        } else {
            0
        }
    }

    /// Weight of a chunk: its share, and the last one makes up for the rounding. A last weight
    /// below zero wraps.
    #[verifier::allow_in_spec]
    pub fn weight(self, i: u8) -> u8
        requires
            self.wf(),
            i < 4,
        returns
            (if i + 1 == self.count {
                self.share(i).wrapping_sub(
                    ((self.share(0) + self.share(1) + self.share(2) + self.share(
                        3,
                    )) as u32).wrapping_sub(RSSI_MAX_WEIGHT),
                ) as u8
            } else {
                self.share(i) as u8
            }),
    {
        proof {
            self.lemma_share(0);
            self.lemma_share(1);
            self.lemma_share(2);
            self.lemma_share(3);
        }
        if i + 1 == self.count {
            let total: u32 = self.share(0) + self.share(1) + self.share(2) + self.share(3);
            self.share(i).wrapping_sub(total.wrapping_sub(RSSI_MAX_WEIGHT)) as u8
        } else {
            self.share(i) as u8
        }
    }

    proof fn lemma_share(self, i: u8)
        requires
            self.wf(),
        ensures
            self.share(i) <= 5_000_000,
    {
        if i < self.count {
            let n = (RSSI_MAX_WEIGHT * chunk_size(self.exponent(i)) + self.total / 2) as int;
            assert(n / self.total as int <= n) by (nonlinear_arith)
                requires
                    n >= 0,
                    self.total >= 1,
            ;
        }
    }
}

/// The chunks of a duration, four at most.
pub open spec fn rssi_chunks(duration: u32) -> RssiChunks {
    RssiChunks::none(duration).more().more().more().more()
}

proof fn lemma_chunk_fits(left: u32)
    requires
        left > 0,
    ensures
        1 <= chunk_size(chunk_exponent(left)) <= left,
        chunk_size(chunk_exponent(left)) <= 16384,
        chunk_exponent(left) <= 14,
        chunk_exponent(left) < 14 ==> left < 2 * chunk_size(chunk_exponent(left)),
{
    lemma_log2_pow2(left as nat);
    lemma2_to64();
    let log = log2(left as nat);
    lemma_pow2_unfold(log + 1);
    assert(pow2(log + 1) == 2 * pow2(log));
    if log > 14 {
        lemma_pow2_monotone(14, log);
    }
    if log >= 32 {
        lemma_pow2_monotone(32, log);
    }
}

/// The chunks and what they leave make up the duration. Each chunk is the largest power of two, up
/// to 2^14, that fits into what was left before it.
pub proof fn law_chunks_make_up_the_duration(duration: u32)
    ensures
        ({
            let chunks = rssi_chunks(duration);
            &&& chunks.wf()
            &&& chunks.total + chunks.left == duration
            &&& chunks.count == 0 <==> duration == 0
        }),
        forall|left: u32|
            #![trigger chunk_exponent(left)]
            left > 0 ==> chunk_size(chunk_exponent(left)) <= left && (chunk_exponent(left) < 14
                ==> left < 2 * chunk_size(chunk_exponent(left))),
{
    let c0 = RssiChunks::none(duration);
    let c1 = c0.more();
    let c2 = c1.more();
    let c3 = c2.more();
    if c0.left > 0 {
        lemma_chunk_fits(c0.left);
    }
    if c1.left > 0 {
        lemma_chunk_fits(c1.left);
    }
    if c2.left > 0 {
        lemma_chunk_fits(c2.left);
    }
    if c3.left > 0 {
        lemma_chunk_fits(c3.left);
    }
    assert forall|left: u32|
        #![trigger chunk_exponent(left)]
        left > 0 implies chunk_size(chunk_exponent(left)) <= left && (chunk_exponent(left) < 14
        ==> left < 2 * chunk_size(chunk_exponent(left))) by {
        lemma_chunk_fits(left);
    }
}

/// The weights of a measurement add up to 255 in eight bit arithmetic. They add up to 255 outright
/// where the rounded shares of all chunks but the last don't exceed 255.
pub proof fn law_weights_add_up(duration: u32)
    requires
        duration > 0,
    ensures
        ({
            let c = rssi_chunks(duration);
            let sum = c.weight(0) + c.weight(1) + c.weight(2) + c.weight(3);
            let shares = c.share(0) + c.share(1) + c.share(2) + c.share(3);
            &&& sum % 256 == 255
            &&& shares - c.share((c.count - 1) as u8) <= 255 ==> sum == 255
        }),
{
    law_chunks_make_up_the_duration(duration);
    lemma_weights_add_up(rssi_chunks(duration));
}

proof fn lemma_weights_add_up(c: RssiChunks)
    requires
        c.wf(),
        c.count > 0,
    ensures
        ({
            let sum = c.weight(0) + c.weight(1) + c.weight(2) + c.weight(3);
            let shares = c.share(0) + c.share(1) + c.share(2) + c.share(3);
            &&& sum % 256 == 255
            &&& shares - c.share((c.count - 1) as u8) <= 255 ==> sum == 255
        }),
{
    let (s0, s1, s2, s3) = (c.share(0), c.share(1), c.share(2), c.share(3));
    c.lemma_share(0);
    c.lemma_share(1);
    c.lemma_share(2);
    c.lemma_share(3);
    lemma_low_byte(s0);
    lemma_low_byte(s1);
    lemma_low_byte(s2);
    let shares = (s0 + s1 + s2 + s3) as u32;
    lemma_last_weight(c.share((c.count - 1) as u8), shares);
    if c.count == 1 {
        lemma_mod_sum(0, 0, 0);
    } else if c.count == 2 {
        lemma_mod_sum(s0 as int, 0, 0);
    } else if c.count == 3 {
        lemma_mod_sum(s0 as int, s1 as int, 0);
    } else {
        lemma_mod_sum(s0 as int, s1 as int, s2 as int);
    }
}

proof fn lemma_last_weight(own: u32, shares: u32)
    requires
        own <= shares <= 20_000_000,
    ensures
        own.wrapping_sub(shares.wrapping_sub(RSSI_MAX_WEIGHT)) as u8 == (255 - (shares - own)) % 256,
{
    let last = own.wrapping_sub(shares.wrapping_sub(RSSI_MAX_WEIGHT));
    lemma_low_byte(last);
    assert(last == own - shares + 255 || last == own - shares + 255 + 0x1_0000_0000);
}

proof fn lemma_mod_sum(a: int, b: int, c: int)
    requires
        a >= 0,
        b >= 0,
        c >= 0,
    ensures
        (a % 256 + b % 256 + c % 256 + (255 - (a + b + c)) % 256) % 256 == 255,
        a + b + c <= 255 ==> a % 256 + b % 256 + c % 256 + (255 - (a + b + c)) % 256 == 255,
{
}

proof fn lemma_low_byte(value: u32)
    ensures
        value as u8 == value % 256,
{
    assert(value as u8 == value % 256) by (bit_vector);
}

/// Rate in kHz, rounded.
#[verifier::allow_in_spec]
pub fn rate_khz(rate: u32) -> u32
    returns
        rate.wrapping_add(500) / 1000,
{
    rate.wrapping_add(500) / 1000
}

/// A time in microseconds as a number of samples, rounded.
#[verifier::allow_in_spec]
pub fn samples_in(micros: u32, khz: u32) -> u32
    returns
        micros.wrapping_mul(khz).wrapping_add(500) / 1000,
{
    micros.wrapping_mul(khz).wrapping_add(500) / 1000
}

/// A setting in samples.
#[verifier::allow_in_spec]
pub fn in_samples(ctrl: &RssiConfiguration, value: u32, rx_sampl: u32) -> u32
    returns
        (if ctrl.unit_is_rx_samples {
            value
        } else {
            samples_in(value, rate_khz(rx_sampl))
        }),
{
    if ctrl.unit_is_rx_samples {
        value
    } else {
        samples_in(value, rate_khz(rx_sampl))
    }
}

/// RSSI delay field, in units of 8 samples. None where the EN_AGC pin restarts the measurement.
#[verifier::allow_in_spec]
pub fn rssi_delay_field(ctrl: &RssiConfiguration, rx_sampl: u32) -> u8
    returns
        (if ctrl.restart_mode == RssiRestartMode::EnAgcPinIsPulledHigh {
            0u8
        } else {
            least(in_samples(ctrl, ctrl.delay, rx_sampl) / 8, 255) as u8
        }),
{
    if ctrl.restart_mode == RssiRestartMode::EnAgcPinIsPulledHigh {
        0
    } else {
        least(in_samples(ctrl, ctrl.delay, rx_sampl) / 8, 255) as u8
    }
}

/// RSSI wait field, in units of 4 samples.
#[verifier::allow_in_spec]
pub fn rssi_wait_field(ctrl: &RssiConfiguration, rx_sampl: u32) -> u8
    returns
        least(in_samples(ctrl, ctrl.wait, rx_sampl) / 4, 255) as u8,
{
    least(in_samples(ctrl, ctrl.wait, rx_sampl) / 4, 255) as u8
}

/// Config register of the gain step table, both receivers selected and the clock running.
pub const GAIN_TABLE_OPEN: u8 = 0x61;

impl EngineView {
    /// RSSI setup. An update only refreshes what depends on the RX sample rate, and there is
    /// nothing like that if the settings are in samples.
    #[verifier::opaque]
    pub open spec fn rssi_setup(self, ctrl: RssiConfiguration, is_update: bool) -> Flow {
        let rx_sampl = self.state.v.clk.rates.rx_sampl.raw;
        let chunks = rssi_chunks(in_samples(&ctrl, ctrl.duration, rx_sampl));
        if ctrl.unit_is_rx_samples && is_update {
            self.start()
        } else if chunks.count == 0 {
            self.fail(Ad9361Error::RssiDurationTooShort)
        } else {
            self.run(
                [
                    put(MEASURE_DURATION01, chunks.e0 | (chunks.e1 << 4)),
                    put(MEASURE_DURATION23, chunks.e2 | (chunks.e3 << 4)),
                    put(RSSI_WEIGHT0, chunks.weight(0)),
                    put(RSSI_WEIGHT1, chunks.weight(1)),
                    put(RSSI_WEIGHT2, chunks.weight(2)),
                    put(RSSI_WEIGHT3, chunks.weight(3)),
                    put(RSSI_DELAY, rssi_delay_field(&ctrl, rx_sampl)),
                    put(RSSI_WAIT_TIME, rssi_wait_field(&ctrl, rx_sampl)),
                    put(
                        RSSI_CONFIG,
                        (ctrl.restart_mode.code() << 2) | flag(
                            ctrl.restart_mode == RssiRestartMode::SpiWriteToRegister,
                            START_RSSI_MEAS,
                        ) | flag(chunks.left == 0 && chunks.count == 1, DEFAULT_RSSI_MEAS_MODE),
                    ),
                ]@,
            )
        }
    }

    /// Reads the error words from `i` up to `n`.
    pub open spec fn error_words_from(self, i: int, n: int, words: Seq<u8>) -> Reply<Seq<u8>>
        decreases n - i,
    {
        if i >= n {
            Reply { e: self, r: Ok(words) }
        } else {
            let word = self.run([put(WORD_ADDRESS, i as u8)]@).read(GAIN_ERROR_READ);
            match word.r {
                Err(error) => Reply { e: word.e, r: Err(error) },
                Ok(byte) => word.e.error_words_from(i + 1, n, words.push(byte)),
            }
        }
    }

    /// Reads `n` error words.
    #[verifier::opaque]
    pub open spec fn read_error_words(self, n: int) -> Reply<Seq<u8>> {
        self.error_words_from(0, n, Seq::empty())
    }

    /// Writes the error words from `i` on.
    pub open spec fn put_words_from(self, words: Seq<u8>, i: int, config: u8) -> Flow
        decreases words.len() - i,
    {
        if i >= words.len() {
            self.start()
        } else {
            let written = self.run(
                [
                    put(WORD_ADDRESS, i as u8),
                    put(GAIN_DIFF_WORDERROR_WRITE, words[i]),
                    put(CONFIG, config),
                ]@,
            );
            if written.err is Some {
                written
            } else {
                written.e.put_words_from(words, i + 1, config)
            }
        }
    }

    /// Writes error words.
    #[verifier::opaque]
    pub open spec fn write_error_words(self, words: Seq<u8>, config: u8) -> Flow {
        self.put_words_from(words, 0, config)
    }

    /// Prepares the gain step calibration: measurement, then the gain differences of the LNA.
    #[verifier::opaque]
    pub open spec fn gain_step_prepare(self, row: usize) -> Flow {
        let table = GAIN_STEP_CALIB_REG_VAL[row as int];
        self.run(
            [
                put(MAX_MIXER_CALIBRATION_GAIN_INDEX, 0x0F),
                put(MEASURE_DURATION, 0x0E),
                put(SETTLE_TIME, 0x3F),
                put(RSSI_CONFIG, (3u8 << 2) | DEFAULT_RSSI_MEAS_MODE),
                put(MEASURE_DURATION01, 0x0E),
                put(LNA_GAIN, table[0]),
                put(CONFIG, GAIN_TABLE_OPEN),
                put(WORD_ADDRESS, 0),
                put(GAIN_DIFF_WORDERROR_WRITE, table[1]),
                put(CONFIG, GAIN_TABLE_OPEN | WRITE_LNA_GAIN_DIFF),
                wait(3),
                put(WORD_ADDRESS, 1),
                put(GAIN_DIFF_WORDERROR_WRITE, table[2]),
                put(CONFIG, GAIN_TABLE_OPEN | WRITE_LNA_GAIN_DIFF),
                wait(3),
                put(WORD_ADDRESS, 2),
                put(GAIN_DIFF_WORDERROR_WRITE, table[3]),
                put(CONFIG, GAIN_TABLE_OPEN | WRITE_LNA_GAIN_DIFF),
                wait(3),
                put(WORD_ADDRESS, 3),
                put(GAIN_DIFF_WORDERROR_WRITE, table[4]),
                put(CONFIG, GAIN_TABLE_OPEN | WRITE_LNA_GAIN_DIFF),
                wait(3),
                put(CONFIG, START_CALIB_TABLE_CLOCK),
                put(CONFIG, 0),
            ]@,
        )
    }

    /// Copies the measured errors: reads the LNA and mixer errors, then writes them into the
    /// tables of both receivers.
    #[verifier::opaque]
    pub open spec fn gain_step_copy(self) -> Flow {
        let lna = self.run([put(CONFIG, (1u8 << 5) | READ_SELECT)]@).read_error_words(4);
        match lna.r {
            Err(error) => lna.done(),
            Ok(lna_error) => {
                let mixer = lna.e.run([put(CONFIG, 1u8 << 5)]@).read_error_words(15);
                match mixer.r {
                    Err(error) => mixer.done(),
                    Ok(mixer_error) => mixer.e.run(
                        [put(CONFIG, 0), put(CONFIG, GAIN_TABLE_OPEN)]@,
                    ).write_error_words(
                        lna_error,
                        GAIN_TABLE_OPEN | WRITE_LNA_ERROR_TABLE,
                    ).run([put(CONFIG, GAIN_TABLE_OPEN)]@).write_error_words(
                        mixer_error,
                        GAIN_TABLE_OPEN | WRITE_MIXER_ERROR_TABLE,
                    ).run([put(CONFIG, 0)]@),
                }
            },
        }
    }

    /// RSSI gain step calibration for the current RX LO. The chip sits in alert while it runs. The
    /// tables are copied and the state is restored whatever came of the calibration.
    #[verifier::opaque]
    pub open spec fn rssi_gain_step_calib(self) -> Flow {
        let row = gain_step_row(self.state.v.clk.rates.rx_rfpll.raw);
        let forced = self.ensm_force_state(ForcedEnsmState::Alert);
        match forced.r {
            Err(error) => forced.done(),
            Ok(saved) => {
                let ready = forced.e.gain_step_prepare(row);
                if ready.err is Some {
                    ready
                } else {
                    let result = ready.e.run_calibration(RX_GAIN_STEP_CAL);
                    result.e.gain_step_copy().ensm_restore_state(saved).after(result.err)
                }
            },
        }
    }

    /// TX monitor setup.
    #[verifier::opaque]
    pub open spec fn txmon_setup(self, ctrl: TxMonitorConfig) -> Flow {
        self.run(
            [
                put(
                    TPM_MODE_ENABLE,
                    flag(ctrl.one_shot_mode_en, ONE_SHOT_MODE) | duration_field(
                        ctrl.duration as u32,
                    ),
                ),
                put(TX_MON_DELAY, ctrl.delay as u8),
                update(
                    TX_LEVEL_THRESH,
                    TX_MON_DELAY_COUNTER,
                    ((ctrl.delay / 256) as u8 & 0x3) << 6,
                ),
                put(
                    TX_MON1_CONFIG,
                    ((ctrl.tx1_lo_cm & 0x3F) << 2) | (ctrl.tx1_front_end_gain & 0x3),
                ),
                put(
                    TX_MON2_CONFIG,
                    ((ctrl.tx2_lo_cm & 0x3F) << 2) | (ctrl.tx2_front_end_gain & 0x3),
                ),
                put(TX_ATTEN_THRESH, (ctrl.low_high_gain_threshold_mdb / 250) as u8),
                put(TX_MON_HIGH_GAIN, ctrl.high_gain_db & 0x1F),
                put(
                    TX_MON_LOW_GAIN,
                    flag(ctrl.track_en, TX_MON_TRACK) | (ctrl.low_gain_db & 0x1F),
                ),
            ]@,
        )
    }
}

/// The same steps, after others.
impl Flow {
    pub open spec fn rssi_setup(self, ctrl: RssiConfiguration, is_update: bool) -> Flow {
        if self.err is Some {
            self
        } else {
            self.e.rssi_setup(ctrl, is_update)
        }
    }

    pub open spec fn read_error_words(self, n: int) -> Reply<Seq<u8>> {
        match self.err {
            Some(error) => Reply { e: self.e, r: Err(error) },
            None => self.e.read_error_words(n),
        }
    }

    pub open spec fn write_error_words(self, words: Seq<u8>, config: u8) -> Flow {
        if self.err is Some {
            self
        } else {
            self.e.write_error_words(words, config)
        }
    }

    pub open spec fn gain_step_prepare(self, row: usize) -> Flow {
        if self.err is Some {
            self
        } else {
            self.e.gain_step_prepare(row)
        }
    }

    pub open spec fn gain_step_copy(self) -> Flow {
        if self.err is Some {
            self
        } else {
            self.e.gain_step_copy()
        }
    }

    pub open spec fn rssi_gain_step_calib(self) -> Flow {
        if self.err is Some {
            self
        } else {
            self.e.rssi_gain_step_calib()
        }
    }

    pub open spec fn txmon_setup(self, ctrl: TxMonitorConfig) -> Flow {
        if self.err is Some {
            self
        } else {
            self.e.txmon_setup(ctrl)
        }
    }
}

impl<'a> Engine<'a> {
    /// Sets up the RSSI. `is_update` only refreshes what depends on the RX sample rate.
    pub fn rssi_setup(&mut self, ctrl: &RssiConfiguration, is_update: bool) -> (r: Result<
        (),
        Fault,
    >)
        ensures
            flow(final(self)@, r) == old(self)@.rssi_setup(*ctrl, is_update),
    {
        reveal(EngineView::rssi_setup);
        let ctrl: RssiConfiguration = *ctrl;
        let rx_sampl: u32 = self.state.v.clk.rates.rx_sampl.raw;
        if ctrl.unit_is_rx_samples && is_update {
            return Ok(()); // No update required
        }
        let duration: u32 = in_samples(&ctrl, ctrl.duration, rx_sampl);
        let chunks: RssiChunks = RssiChunks::none(duration).add_chunk().add_chunk().add_chunk().add_chunk();
        if chunks.count == 0 {
            return Err(Ad9361Error::RssiDurationTooShort);
        }
        self.run(&[
            put(MEASURE_DURATION01, chunks.e0 | (chunks.e1 << 4)),
            put(MEASURE_DURATION23, chunks.e2 | (chunks.e3 << 4)),
            put(RSSI_WEIGHT0, chunks.weight(0)),
            put(RSSI_WEIGHT1, chunks.weight(1)),
            put(RSSI_WEIGHT2, chunks.weight(2)),
            put(RSSI_WEIGHT3, chunks.weight(3)),
            put(RSSI_DELAY, rssi_delay_field(&ctrl, rx_sampl)),
            put(RSSI_WAIT_TIME, rssi_wait_field(&ctrl, rx_sampl)),
            put(
                RSSI_CONFIG,
                (ctrl.restart_mode.code() << 2) | flag(
                    ctrl.restart_mode == RssiRestartMode::SpiWriteToRegister,
                    START_RSSI_MEAS,
                ) | flag(chunks.left == 0 && chunks.count == 1, DEFAULT_RSSI_MEAS_MODE),
            ),
        ])
    }

    fn read_error_words(&mut self, n: u8) -> (r: Result<Vec<u8>, Fault>)
        ensures
            match r {
                Ok(words) => old(self)@.read_error_words(n as int) == (Reply {
                    e: final(self)@,
                    r: Ok(words@),
                }) && words@.len() == n,
                Err(error) => old(self)@.read_error_words(n as int) == (Reply::<Seq<u8>> {
                    e: final(self)@,
                    r: Err(error),
                }),
            },
    {
        reveal(EngineView::read_error_words);
        let mut words: Vec<u8> = Vec::new();
        assert(words@ =~= Seq::empty());
        let mut i: u8 = 0;
        while i < n
            invariant
                i <= n,
                words@.len() == i,
                old(self)@.read_error_words(n as int) == self@.error_words_from(
                    i as int,
                    n as int,
                    words@,
                ),
            decreases n - i,
        {
            self.run(&[put(WORD_ADDRESS, i as u8)])?;
            let byte: u8 = self.read(GAIN_ERROR_READ)?;
            words.push(byte);
            i = i + 1;
        }
        Ok(words)
    }

    fn write_error_words(&mut self, words: &Vec<u8>, config: u8) -> (r: Result<(), Fault>)
        ensures
            flow(final(self)@, r) == old(self)@.write_error_words(words@, config),
    {
        reveal(EngineView::write_error_words);
        let mut i: usize = 0;
        while i < words.len()
            invariant
                i <= words@.len(),
                old(self)@.write_error_words(words@, config) == self@.put_words_from(
                    words@,
                    i as int,
                    config,
                ),
            decreases words@.len() - i,
        {
            self.run(&[
                put(WORD_ADDRESS, i as u8),
                put(GAIN_DIFF_WORDERROR_WRITE, words[i]),
                put(CONFIG, config),
            ])?;
            i = i + 1;
        }
        Ok(())
    }

    fn gain_step_prepare(&mut self, row: usize) -> (r: Result<(), Fault>)
        requires
            row < 4,
        ensures
            flow(final(self)@, r) == old(self)@.gain_step_prepare(row),
    {
        reveal(EngineView::gain_step_prepare);
        let table: [u8; 5] = GAIN_STEP_CALIB_REG_VAL[row];
        self.run(&[
            put(MAX_MIXER_CALIBRATION_GAIN_INDEX, 0x0F),
            put(MEASURE_DURATION, 0x0E),
            put(SETTLE_TIME, 0x3F),
            put(RSSI_CONFIG, (3u8 << 2) | DEFAULT_RSSI_MEAS_MODE),
            put(MEASURE_DURATION01, 0x0E),
            put(LNA_GAIN, table[0]),
            put(CONFIG, GAIN_TABLE_OPEN),
            put(WORD_ADDRESS, 0),
            put(GAIN_DIFF_WORDERROR_WRITE, table[1]),
            put(CONFIG, GAIN_TABLE_OPEN | WRITE_LNA_GAIN_DIFF),
            wait(3),
            put(WORD_ADDRESS, 1),
            put(GAIN_DIFF_WORDERROR_WRITE, table[2]),
            put(CONFIG, GAIN_TABLE_OPEN | WRITE_LNA_GAIN_DIFF),
            wait(3),
            put(WORD_ADDRESS, 2),
            put(GAIN_DIFF_WORDERROR_WRITE, table[3]),
            put(CONFIG, GAIN_TABLE_OPEN | WRITE_LNA_GAIN_DIFF),
            wait(3),
            put(WORD_ADDRESS, 3),
            put(GAIN_DIFF_WORDERROR_WRITE, table[4]),
            put(CONFIG, GAIN_TABLE_OPEN | WRITE_LNA_GAIN_DIFF),
            wait(3),
            put(CONFIG, START_CALIB_TABLE_CLOCK),
            put(CONFIG, 0),
        ])
    }

    fn gain_step_copy(&mut self) -> (r: Result<(), Fault>)
        ensures
            flow(final(self)@, r) == old(self)@.gain_step_copy(),
    {
        reveal(EngineView::gain_step_copy);
        self.run(&[put(CONFIG, (1u8 << 5) | READ_SELECT)])?;
        let lna_error: Vec<u8> = self.read_error_words(4)?;
        self.run(&[put(CONFIG, 1u8 << 5)])?;
        let mixer_error: Vec<u8> = self.read_error_words(15)?;
        self.run(&[put(CONFIG, 0), put(CONFIG, GAIN_TABLE_OPEN)])?;
        self.write_error_words(&lna_error, GAIN_TABLE_OPEN | WRITE_LNA_ERROR_TABLE)?;
        self.run(&[put(CONFIG, GAIN_TABLE_OPEN)])?;
        self.write_error_words(&mixer_error, GAIN_TABLE_OPEN | WRITE_MIXER_ERROR_TABLE)?;
        self.run(&[put(CONFIG, 0)])
    }

    /// RSSI gain step calibration for the current RX LO. The chip sits in alert while it runs.
    pub fn rssi_gain_step_calib(&mut self) -> (r: Result<(), Fault>)
        ensures
            flow(final(self)@, r) == old(self)@.rssi_gain_step_calib(),
    {
        reveal(EngineView::rssi_gain_step_calib);
        let row: usize = gain_step_row(self.state.v.clk.rates.rx_rfpll.raw);
        let saved: SavedEnsmState = self.ensm_force_state(ForcedEnsmState::Alert)?;
        self.gain_step_prepare(row)?;
        let result = self.run_calibration(RX_GAIN_STEP_CAL);
        self.gain_step_copy()?;
        self.ensm_restore_state(saved)?;
        result
    }

    /// Sets up the TX monitor.
    pub fn txmon_setup(&mut self, ctrl: &TxMonitorConfig) -> (r: Result<(), Fault>)
        ensures
            flow(final(self)@, r) == old(self)@.txmon_setup(*ctrl),
    {
        reveal(EngineView::txmon_setup);
        self.run(&[
            put(
                TPM_MODE_ENABLE,
                flag(ctrl.one_shot_mode_en, ONE_SHOT_MODE) | duration_field(
                    ctrl.duration as u32,
                ),
            ),
            put(TX_MON_DELAY, ctrl.delay as u8),
            update(
                TX_LEVEL_THRESH,
                TX_MON_DELAY_COUNTER,
                ((ctrl.delay / 256) as u8 & 0x3) << 6,
            ),
            put(
                TX_MON1_CONFIG,
                ((ctrl.tx1_lo_cm & 0x3F) << 2) | (ctrl.tx1_front_end_gain & 0x3),
            ),
            put(
                TX_MON2_CONFIG,
                ((ctrl.tx2_lo_cm & 0x3F) << 2) | (ctrl.tx2_front_end_gain & 0x3),
            ),
            put(TX_ATTEN_THRESH, (ctrl.low_high_gain_threshold_mdb / 250) as u8),
            put(TX_MON_HIGH_GAIN, ctrl.high_gain_db & 0x1F),
            put(
                TX_MON_LOW_GAIN,
                flag(ctrl.track_en, TX_MON_TRACK) | (ctrl.low_gain_db & 0x1F),
            ),
        ])
    }
}

} // verus!
