//! Baseband filter, TIA and ADC calibration and setup, DC offset, tracking, TX quadrature
//! calibration.
use vstd::prelude::*;

use crate::control::{ForcedEnsmState, SavedEnsmState};
use crate::engine::{Engine, EngineView, flow, Flow, Reply};
use crate::error::Ad9361Error;
use crate::link::{Fault, put, update};
use crate::math::{clamped, div_round_closest, div_round_up, flag, isqrt, least, lemma_isqrt};
use crate::ports::Channel;
use crate::registers::{
    BBDC_CAL, BB_DC_OFFSET_ATTEN, BB_DC_OFFSET_COUNT, BB_DC_OFFSET_SHIFT, CALIBRATION_CONFIG1,
    CALIBRATION_CONFIG2, CALIBRATION_CONFIG2_DFLT, CALIBRATION_CONFIG3, CALIBRATION_CONTROL,
    CAPACITOR, CONFIG0, CORRECTION_WORD_DECIMATION_M, DC_OFFSET_CONFIG2, DC_OFFSET_ENABLE,
    ENABLE_BB_DC_OFFSET_TRACKING, ENABLE_CORR_WORD_DECIMATION, ENABLE_GAIN_CORR, ENABLE_PHASE_CORR,
    ENABLE_RF_OFFSET_TRACKING, ENABLE_TRACKING_MODE_CH1, ENABLE_TRACKING_MODE_CH2, FREE_RUN_MODE,
    GAIN_ENABLE, INVERT_BITS, INVERT_RX1_RF_DC_CGOUT_WORD, INVERT_RX2, INVERT_RX2_RF_DC_CGOUT_WORD,
    KEXP1, KEXP2, MAG_FTEST_THRESH, MAG_FTEST_THRESH2, PARALLEL_PORT_CONF2, PD_TUNE, PD_TUNE_RX,
    PHASE_ENABLE, PREVENT_POS_LOOP_GAIN, QUAD_CAL_CONTROL, QUAD_CAL_COUNT,
    QUAD_CAL_NCO_FREQ_PHASE_OFFSET, QUAD_CAL_SOFT_RESET, QUAD_CAL_STATUS_TX1, QUAD_CAL_STATUS_TX2,
    QUAD_SETTLE_COUNT, RESISTOR, RFDC_CAL, RF_DC_OFFSET_ATTEN, RF_DC_OFFSET_CONFIG1,
    RF_DC_OFFSET_COUNT, RX1_TUNE_CONTROL, RX2_TUNE_CONTROL, RX_ADC_BASE, RX_BBBW_KHZ, RX_BBBW_MHZ,
    RX_BBF_C3_LSB, RX_BBF_C3_MSB, RX_BBF_R2346, RX_BBF_TUNE_CONFIG, RX_BBF_TUNE_DIVIDE,
    RX_BBF_TUNE_DIVIDE_MSB, RX_BB_TUNE_CAL, RX_MIX_GM_CONFIG, RX_MIX_LO_CM, RX_QUAD_GAIN2,
    RX_TIA_CONFIG, SETTLE_MAIN_ENABLE, TIA1_C_LSB, TIA1_C_MSB, TIA2_C_LSB, TIA2_C_MSB,
    TUNER_RESAMPLE, TUNE_RESAMPLE, TX_BBF_TUNE_DIVIDER, TX_BBF_TUNE_DIVIDER_MSB, TX_BBF_TUNE_MODE,
    TX_BB_TUNE_CAL, TX_ENABLE_FILTER_CONTROL, TX_NCO_FREQ, TX_QUAD_CAL, TX_QUAD_FULL_LMT_GAIN,
    TX_QUAD_LPF_GAIN, TX_TUNE_CONTROL, USE_WAIT_COUNTER_FOR_RF_DC_INIT_CAL, WAIT_COUNT,
};
use crate::state::{CalibrationState, EngineState, ModeState};
use crate::units::HertzU32;

verus! {

/// RX DC offset calibration and tracking.
#[derive(Debug, Clone, Copy, PartialEq, Eq, Structural)]
pub struct DcOffsetConfig {
    /// tracking update events
    pub update_events: u8,
    pub attenuation_high: u8,
    pub attenuation_low: u8,
    pub count_high: u8,
    pub count_low: u8,
}

/// The usual counts and attenuations.
pub open spec fn default_dc_offset() -> DcOffsetConfig {
    DcOffsetConfig {
        update_events: 5,
        attenuation_high: 6,
        attenuation_low: 5,
        count_high: 0x28,
        count_low: 0x32,
    }
}

impl Default for DcOffsetConfig {
    fn default() -> (config: Self)
        ensures
            config == default_dc_offset(),
    {
        DcOffsetConfig {
            update_events: 5,
            attenuation_high: 6,
            attenuation_low: 5,
            count_high: 0x28,
            count_low: 0x32,
        }
    }
}

/// Which RX tracking calibrations are on.
#[derive(Debug, Clone, Copy, PartialEq, Eq, Structural)]
pub struct TrackingConfig {
    pub bbdc: bool,
    pub rfdc: bool,
    pub rx_quad: bool,
    /// slow mode for the quadrature error correction tracking
    pub qec_slow_mode: bool,
}

/// Everything tracks, in fast mode.
pub open spec fn default_tracking() -> TrackingConfig {
    TrackingConfig { bbdc: true, rfdc: true, rx_quad: true, qec_slow_mode: false }
}

impl Default for TrackingConfig {
    fn default() -> (config: Self)
        ensures
            config == default_tracking(),
    {
        TrackingConfig { bbdc: true, rfdc: true, rx_quad: true, qec_slow_mode: false }
    }
}

/// RX NCO phase offset the TX quadrature calibration starts from.
#[derive(Debug, Clone, Copy, PartialEq, Eq, Structural)]
pub enum RxPhase {
    /// the one that matches the clock config
    Auto,
    /// a specific one, 0..=31
    Fixed(u8),
    /// skip the first attempt, search all of them
    ForceSearch,
}

/// Number of zeros in a row from `i` on.
pub open spec fn zeros_from(field: Seq<u8>, i: int) -> int
    decreases field.len() - i,
{
    if 0 <= i < field.len() && field[i] == 0 {
        1 + zeros_from(field, i + 1)
    } else {
        0
    }
}

/// Longest run of zeros among those that start at `i` or later: length and start. The first one of
/// several. Zero and zero if there is none.
pub open spec fn longest_run(field: Seq<u8>, i: int) -> (int, int)
    decreases field.len() - i,
{
    if i >= field.len() {
        (0, 0)
    } else {
        let later = longest_run(field, i + 1);
        let here = zeros_from(field, i);
        if here > 0 && here >= later.0 {
            (here, i)
        } else {
            later
        }
    }
}

proof fn lemma_zeros_from(field: Seq<u8>, i: int)
    requires
        0 <= i <= field.len(),
    ensures
        0 <= zeros_from(field, i) <= field.len() - i,
        forall|k: int| i <= k < i + zeros_from(field, i) ==> field[k] == 0,
        i + zeros_from(field, i) < field.len() ==> field[i + zeros_from(field, i)] != 0,
    decreases field.len() - i,
{
    if i < field.len() && field[i] == 0 {
        lemma_zeros_from(field, i + 1);
    }
}

proof fn lemma_longest_run(field: Seq<u8>, i: int)
    requires
        0 <= i <= field.len(),
    ensures
        ({
            let (count, start) = longest_run(field, i);
            &&& 0 <= count <= field.len() - i
            &&& count == 0 ==> start == 0
            &&& count > 0 ==> {
                &&& i <= start
                &&& start + count <= field.len()
                &&& zeros_from(field, start) == count
            }
            &&& forall|k: int|
                i <= k < field.len() ==> {
                    &&& #[trigger] zeros_from(field, k) <= count
                    &&& zeros_from(field, k) == count && count > 0 ==> start <= k
                }
        }),
    decreases field.len() - i,
{
    if i < field.len() {
        lemma_longest_run(field, i + 1);
        lemma_zeros_from(field, i);
    }
}

/// `n` zeros in a row from `from` on.
pub open spec fn is_zero_run(field: Seq<u8>, from: int, n: int) -> bool {
    &&& 0 <= from
    &&& 0 <= n
    &&& from + n <= field.len()
    &&& forall|k: int| from <= k < from + n ==> field[k] == 0
}

/// The run found is a run of zeros, and no run of zeros in the field is longer. Of several that
/// long it is the first one.
pub proof fn law_longest_run(field: Seq<u8>)
    ensures
        ({
            let (count, start) = longest_run(field, 0);
            &&& is_zero_run(field, start, count)
            &&& forall|from: int, n: int|
                n > 0 && #[trigger] is_zero_run(field, from, n) ==> n <= count && (n == count
                    ==> start <= from)
        }),
{
    lemma_longest_run(field, 0);
    let (count, start) = longest_run(field, 0);
    if count > 0 {
        lemma_zeros_from(field, start);
    }
    assert forall|from: int, n: int| n > 0 && #[trigger] is_zero_run(field, from, n) implies n
        <= count && (n == count ==> start <= from) by {
        lemma_zeros_from(field, from);
        let zeros = zeros_from(field, from);
        if zeros < n {
            assert(field[from + zeros] != 0);
        }
        assert(zeros <= count);
    }
}

/// Longest run of zeros in `field`: (length, start).
pub fn find_opt(field: &[u8]) -> (run: (usize, usize))
    ensures
        (run.0 as int, run.1 as int) == longest_run(field@, 0),
        run.0 + run.1 <= field@.len(),
{
    let mut i: usize = field.len();
    let mut zeros: usize = 0;
    let mut best: usize = 0;
    let mut start: usize = 0;
    while i > 0
        invariant
            i <= field@.len(),
            zeros == zeros_from(field@, i as int),
            zeros <= field@.len() - i,
            (best as int, start as int) == longest_run(field@, i as int),
        decreases i,
    {
        i = i - 1;
        if field[i] == 0 {
            zeros = zeros + 1;
        } else {
            zeros = 0;
        }
        if zeros > 0 && zeros >= best {
            best = zeros;
            start = i;
        }
    }
    proof {
        law_longest_run(field@);
    }
    (best, start)
}

/// RX baseband filter tune divider: 1.4 * BBBW * 2PI / ln(2), nine bits. Zero without a BBPLL.
#[verifier::allow_in_spec]
pub fn rx_tune_divider(bw: u32, bbpll: u32) -> u32
    requires
        200_000 <= bw <= 28_000_000,
    returns
        least(511, div_round_up(bbpll, (126_906 * (bw / 10_000)) as u32)),
{
    least(511, div_round_up(bbpll, 126_906 * (bw / 10_000)))
}

/// TX baseband filter tune divider: 1.6 * BBBW * 2PI / ln(2), nine bits.
#[verifier::allow_in_spec]
pub fn tx_tune_divider(bw: u32, bbpll: u32) -> u32
    requires
        625_000 <= bw <= 20_000_000,
    returns
        least(511, div_round_up(bbpll, (145_036 * (bw / 10_000)) as u32)),
{
    least(511, div_round_up(bbpll, 145_036 * (bw / 10_000)))
}

/// Fraction of a bandwidth below a megahertz, in steps of 1/128 MHz.
#[verifier::allow_in_spec]
pub fn bandwidth_fraction(bw: u32) -> u8
    returns
        least(div_round_closest(((bw % 1_000_000) * 128) as u32, 1_000_000), 127) as u8,
{
    least(div_round_closest((bw % 1_000_000) * 128, 1_000_000), 127) as u8
}

/// Capacitor of the TX secondary filter for a corner (BBBW * 5PI) and a resistor setting.
pub open spec fn second_filter_cap(corner: u32, res: int) -> u64 {
    (((500_000_000 + (corner * res) / 2) / (corner * res)) as u64).wrapping_sub(12)
}

/// First resistor setting (1, 2, 4, 8) with which the capacitor fits its six bits, and the
/// capacitor. 16 if none fits, with the capacitor of the last one.
pub open spec fn second_filter(corner: u32) -> (u32, u64) {
    if second_filter_cap(corner, 1) < 64 {
        (1, second_filter_cap(corner, 1))
    } else if second_filter_cap(corner, 2) < 64 {
        (2, second_filter_cap(corner, 2))
    } else if second_filter_cap(corner, 4) < 64 {
        (4, second_filter_cap(corner, 4))
    } else if second_filter_cap(corner, 8) < 64 {
        (8, second_filter_cap(corner, 8))
    } else {
        (16, second_filter_cap(corner, 8))
    }
}

fn second_filter_capacitor(corner: u32, res: u32) -> (cap: u64)
    requires
        0 < corner <= 0x1000_0000,
        1 <= res <= 8,
    ensures
        cap == second_filter_cap(corner, res as int),
{
    assert(0 < corner * res <= 0x8000_0000) by (nonlinear_arith)
        requires
            0 < corner <= 0x1000_0000,
            1 <= res <= 8,
    ;
    let div: u64 = corner as u64 * res as u64;
    ((500_000_000 + div / 2) / div).wrapping_sub(12)
}

fn pick_second_filter(corner: u32) -> (pick: (u32, u64))
    requires
        0 < corner <= 0x1000_0000,
    ensures
        pick == second_filter(corner),
{
    let cap1: u64 = second_filter_capacitor(corner, 1);
    if cap1 < 64 {
        return (1, cap1);
    }
    let cap2: u64 = second_filter_capacitor(corner, 2);
    if cap2 < 64 {
        return (2, cap2);
    }
    let cap4: u64 = second_filter_capacitor(corner, 4);
    if cap4 < 64 {
        return (4, cap4);
    }
    let cap8: u64 = second_filter_capacitor(corner, 8);
    if cap8 < 64 {
        (8, cap8)
    } else {
        (16, cap8)
    }
}

/// Configuration of the TX secondary filter for a bandwidth.
#[verifier::allow_in_spec]
pub fn second_filter_config(bw: u32) -> u8
    returns
        (if bw <= 4_500_000 {
            0x59u8
        } else if bw <= 12_000_000 {
            0x56
        } else {
            0x57
        }),
{
    if bw <= 4_500_000 {
        0x59
    } else if bw <= 12_000_000 {
        0x56
    } else {
        0x57
    }
}

/// Resistor code of the TX secondary filter.
#[verifier::allow_in_spec]
pub fn resistor_code(res: u32) -> u8
    returns
        (match res {
            1 => 0x0Cu8,
            2 => 0x04,
            4 => 0x03,
            _ => 0x01,
        }),
{
    match res {
        1 => 0x0C,
        2 => 0x04,
        4 => 0x03,
        _ => 0x01,
    }
}

/// TIA configuration for a bandwidth.
#[verifier::allow_in_spec]
pub fn tia_config(bw: u32) -> u8
    returns
        (if bw <= 3_000_000 {
            0xE0u8
        } else if bw <= 10_000_000 {
            0x60
        } else {
            0x20
        }),
{
    if bw <= 3_000_000 {
        0xE0
    } else if bw <= 10_000_000 {
        0x60
    } else {
        0x20
    }
}

/// TIA capacitance in fF from the baseband filter's capacitor and resistor codes.
#[verifier::allow_in_spec]
pub fn tia_capacitance(c3_msb: u8, c3_lsb: u8, r2346: u8) -> u64
    returns
        ((c3_msb * 160 + c3_lsb * 10 + 140) * (18_300 * (r2346 % 8)) * 560 / 3_500_000) as u64,
{
    let cbbf: u64 = c3_msb as u64 * 160 + c3_lsb as u64 * 10 + 140;
    let r: u64 = 18_300 * (r2346 as u64 % 8);
    proof {
        assert(cbbf * r <= 43_490 * 128_100) by (nonlinear_arith)
            requires
                0 <= cbbf <= 43_490,
                0 <= r <= 128_100,
        ;
        assert((c3_msb * 160 + c3_lsb * 10 + 140) * (18_300 * (r2346 % 8)) == cbbf * r);
    }
    cbbf * r * 560 / 3_500_000
}

/// Low and high capacitor byte of the TIA. The low byte is cut to eight bits.
#[verifier::allow_in_spec]
pub fn tia_bytes(ctia_ff: u64) -> (u8, u8)
    returns
        (if ctia_ff > 2920 {
            (
                0x40u8,
                least(127, div_round_closest((ctia_ff as u32).wrapping_sub(400), 320)) as u8,
            )
        } else {
            (
                div_round_closest((ctia_ff as u32).wrapping_sub(400), 40).wrapping_add(0x40) as u8,
                0u8,
            )
        }),
{
    if ctia_ff > 2920 {
        (0x40, least(127, div_round_closest((ctia_ff as u32).wrapping_sub(400), 320)) as u8)
    } else {
        (div_round_closest((ctia_ff as u32).wrapping_sub(400), 40).wrapping_add(0x40) as u8, 0)
    }
}

impl EngineView {
    /// Runs the calibrations in `mask` and waits until the chip has cleared their bits.
    #[verifier::opaque]
    pub open spec fn run_calibration(self, mask: u8) -> Flow {
        self.run([put(CALIBRATION_CONTROL, mask)]@).wait_until(CALIBRATION_CONTROL, mask, 0, 1200)
    }

    /// RX baseband analog filter calibration. The tuner is powered down again whatever came of it.
    /// Returns the tune divider.
    #[verifier::opaque]
    pub open spec fn rx_bb_analog_filter_calib(
        self,
        rx_bb_bw: HertzU32,
        bbpll: HertzU32,
    ) -> Reply<u32> {
        let bw = clamped(rx_bb_bw.raw, 200_000, 28_000_000);
        let div = rx_tune_divider(bw, bbpll.raw);
        if div == 0 {
            self.fail(Ad9361Error::InvalidRate).reply(0)
        } else {
            let ready = self.run(
                [
                    put(RX_BBF_TUNE_DIVIDE, div as u8),
                    update(
                        RX_BBF_TUNE_CONFIG,
                        RX_BBF_TUNE_DIVIDE_MSB,
                        flag(div >= 256, RX_BBF_TUNE_DIVIDE_MSB),
                    ),
                    put(RX_BBBW_MHZ, (bw / 1_000_000) as u8),
                    put(RX_BBBW_KHZ, bandwidth_fraction(bw)),
                    put(RX_MIX_LO_CM, 0x3F),
                    put(RX_MIX_GM_CONFIG, 3),
                    put(RX1_TUNE_CONTROL, TUNE_RESAMPLE),
                    put(RX2_TUNE_CONTROL, TUNE_RESAMPLE),
                ]@,
            );
            if ready.err is Some {
                ready.reply(div)
            } else {
                let cal = ready.e.run_calibration(RX_BB_TUNE_CAL);
                cal.e.run(
                    [
                        put(RX1_TUNE_CONTROL, TUNE_RESAMPLE | PD_TUNE_RX),
                        put(RX2_TUNE_CONTROL, TUNE_RESAMPLE | PD_TUNE_RX),
                    ]@,
                ).after(cal.err).reply(div)
            }
        }
    }

    /// TX baseband analog filter calibration. The tuner is powered down again whatever came of it.
    #[verifier::opaque]
    pub open spec fn tx_bb_analog_filter_calib(self, tx_bb_bw: HertzU32, bbpll: HertzU32) -> Flow {
        let div = tx_tune_divider(clamped(tx_bb_bw.raw, 625_000, 20_000_000), bbpll.raw);
        let ready = self.run(
            [
                put(TX_BBF_TUNE_DIVIDER, div as u8),
                update(
                    TX_BBF_TUNE_MODE,
                    TX_BBF_TUNE_DIVIDER_MSB,
                    flag(div >= 256, TX_BBF_TUNE_DIVIDER_MSB),
                ),
                put(TX_TUNE_CONTROL, TUNER_RESAMPLE | 1),
            ]@,
        );
        if ready.err is Some {
            ready
        } else {
            let cal = ready.e.run_calibration(TX_BB_TUNE_CAL);
            cal.e.run([put(TX_TUNE_CONTROL, TUNER_RESAMPLE | 1 | PD_TUNE)]@).after(cal.err)
        }
    }

    /// TX secondary filter.
    #[verifier::opaque]
    pub open spec fn tx_bb_second_filter_calib(self, tx_bb_bw: HertzU32) -> Flow {
        let bw = clamped(tx_bb_bw.raw, 530_000, 20_000_000);
        let (res, cap) = second_filter((15_708 * (bw / 10_000)) as u32);
        self.run(
            [
                put(CONFIG0, second_filter_config(bw)),
                put(RESISTOR, resistor_code(res)),
                put(
                    CAPACITOR,
                    if cap < 63 {
                        cap as u8
                    } else {
                        63
                    },
                ),
            ]@,
        )
    }

    /// RX TIA setup off the baseband filter settings.
    #[verifier::opaque]
    pub open spec fn rx_tia_calib(self, rx_bb_bw: HertzU32) -> Flow {
        let filter = self.read_filter_codes();
        match filter.r {
            Err(error) => filter.done(),
            Ok((c3_msb, c3_lsb, r2346)) => {
                let (c_lsb, c_msb) = tia_bytes(tia_capacitance(c3_msb, c3_lsb, r2346));
                filter.e.run(
                    [
                        put(
                            RX_TIA_CONFIG,
                            tia_config(clamped(rx_bb_bw.raw, 200_000, 20_000_000)),
                        ),
                        put(TIA1_C_LSB, c_lsb),
                        put(TIA1_C_MSB, c_msb),
                        put(TIA2_C_LSB, c_lsb),
                        put(TIA2_C_MSB, c_msb),
                    ]@,
                )
            },
        }
    }

    /// Capacitor (high and low) and resistor codes of the RX baseband filter, from the chip.
    #[verifier::opaque]
    pub open spec fn read_filter_codes(self) -> Reply<(u8, u8, u8)> {
        let msb = self.read(RX_BBF_C3_MSB);
        match msb.r {
            Err(error) => Reply { e: msb.e, r: Err(error) },
            Ok(c3_msb) => {
                let lsb = msb.e.read(RX_BBF_C3_LSB);
                match lsb.r {
                    Err(error) => Reply { e: lsb.e, r: Err(error) },
                    Ok(c3_lsb) => {
                        let res = lsb.e.read(RX_BBF_R2346);
                        match res.r {
                            Err(error) => Reply { e: res.e, r: Err(error) },
                            Ok(r2346) => Reply { e: res.e, r: Ok((c3_msb, c3_lsb, r2346)) },
                        }
                    },
                }
            },
        }
    }

    /// Baseband DC offset calibration.
    #[verifier::opaque]
    pub open spec fn bb_dc_offset_calib(self) -> Flow {
        self.run(
            [
                put(BB_DC_OFFSET_COUNT, 0x3F),
                put(BB_DC_OFFSET_SHIFT, 0xF),
                put(BB_DC_OFFSET_ATTEN, 1),
            ]@,
        ).run_calibration(BBDC_CAL)
    }

    /// RF DC offset calibration for an RX carrier in Hz.
    #[verifier::opaque]
    pub open spec fn rf_dc_offset_calib(self, rx_freq: u64) -> Flow {
        let dc = self.state.v.cal.dc_offset;
        let low = rx_freq <= 4_000_000_000;
        self.run(
            [
                put(WAIT_COUNT, 0x20),
                put(
                    RF_DC_OFFSET_COUNT,
                    if low {
                        dc.count_low
                    } else {
                        dc.count_high
                    },
                ),
                put(
                    RF_DC_OFFSET_CONFIG1,
                    4 | (if low {
                        2u8
                    } else {
                        3u8
                    } << 4),
                ),
                put(
                    RF_DC_OFFSET_ATTEN,
                    (if low {
                        dc.attenuation_low
                    } else {
                        dc.attenuation_high
                    }) & 0x1F,
                ),
                put(DC_OFFSET_CONFIG2, USE_WAIT_COUNTER_FOR_RF_DC_INIT_CAL | 3),
                put(
                    INVERT_BITS,
                    INVERT_RX1_RF_DC_CGOUT_WORD | flag(
                        !self.state.v.cal.rx_phase_inversion,
                        INVERT_RX2_RF_DC_CGOUT_WORD,
                    ),
                ),
            ]@,
        ).run_calibration(RFDC_CAL)
    }

    /// Switches the RX tracking calibrations on or off. In 1R1T only the channel in use tracks
    /// quadrature.
    #[verifier::opaque]
    pub open spec fn tracking_control(self, tracking: TrackingConfig) -> Flow {
        let mode = self.state.v.mode;
        self.run(
            [
                put(CALIBRATION_CONFIG2, CALIBRATION_CONFIG2_DFLT | 0x15),
                put(CALIBRATION_CONFIG3, PREVENT_POS_LOOP_GAIN | 0x15),
                put(
                    DC_OFFSET_CONFIG2,
                    USE_WAIT_COUNTER_FOR_RF_DC_INIT_CAL | (self.state.v.cal.dc_offset.update_events
                        & 0x7) | flag(tracking.bbdc, ENABLE_BB_DC_OFFSET_TRACKING) | flag(
                        tracking.rfdc,
                        ENABLE_RF_OFFSET_TRACKING,
                    ),
                ),
                update(
                    RX_QUAD_GAIN2,
                    CORRECTION_WORD_DECIMATION_M,
                    flag(tracking.qec_slow_mode, 0x80),
                ),
                put(
                    CALIBRATION_CONFIG1,
                    ENABLE_PHASE_CORR | ENABLE_GAIN_CORR | FREE_RUN_MODE
                        | ENABLE_CORR_WORD_DECIMATION | flag(
                        tracking.rx_quad && (mode.rx2tx2 || mode.rx1tx1_use_rx == Channel::Ch1),
                        ENABLE_TRACKING_MODE_CH1,
                    ) | flag(
                        tracking.rx_quad && (mode.rx2tx2 || mode.rx1tx1_use_rx == Channel::Ch2),
                        ENABLE_TRACKING_MODE_CH2,
                    ),
                ),
            ]@,
        )
    }
}

impl<'a> Engine<'a> {
    /// Runs the calibrations in `mask` and waits.
    pub fn run_calibration(&mut self, mask: u8) -> (r: Result<(), Fault>)
        ensures
            flow(final(self)@, r) == old(self)@.run_calibration(mask),
    {
        reveal(EngineView::run_calibration);
        self.run(&[put(CALIBRATION_CONTROL, mask)])?;
        self.wait_until(CALIBRATION_CONTROL, mask, 0, 1200)
    }

    /// RX baseband analog filter calibration. Returns the tune divider, [`Self::rx_adc_setup`]
    /// wants it.
    pub fn rx_bb_analog_filter_calib(&mut self, rx_bb_bw: HertzU32, bbpll: HertzU32) -> (r: Result<
        u32,
        Fault,
    >)
        ensures
            (Reply { e: final(self)@, r }) == old(self)@.rx_bb_analog_filter_calib(rx_bb_bw, bbpll),
            r matches Ok(div) ==> div != 0,
    {
        reveal(EngineView::rx_bb_analog_filter_calib);
        let bw: u32 = clamped(rx_bb_bw.raw, 200_000, 28_000_000);
        let div: u32 = rx_tune_divider(bw, bbpll.raw);
        if div == 0 {
            return Err(Ad9361Error::InvalidRate);
        }
        self.run(&[
            put(RX_BBF_TUNE_DIVIDE, div as u8),
            update(
                RX_BBF_TUNE_CONFIG,
                RX_BBF_TUNE_DIVIDE_MSB,
                flag(div >= 256, RX_BBF_TUNE_DIVIDE_MSB),
            ),
            put(RX_BBBW_MHZ, (bw / 1_000_000) as u8),
            put(RX_BBBW_KHZ, bandwidth_fraction(bw)),
            put(RX_MIX_LO_CM, 0x3F),
            put(RX_MIX_GM_CONFIG, 3),
            put(RX1_TUNE_CONTROL, TUNE_RESAMPLE),
            put(RX2_TUNE_CONTROL, TUNE_RESAMPLE),
        ])?;
        let result = self.run_calibration(RX_BB_TUNE_CAL);
        self.run(&[
            put(RX1_TUNE_CONTROL, TUNE_RESAMPLE | PD_TUNE_RX),
            put(RX2_TUNE_CONTROL, TUNE_RESAMPLE | PD_TUNE_RX),
        ])?;
        match result {
            Ok(()) => Ok(div),
            Err(error) => Err(error),
        }
    }

    /// TX baseband analog filter calibration.
    pub fn tx_bb_analog_filter_calib(&mut self, tx_bb_bw: HertzU32, bbpll: HertzU32) -> (r: Result<
        (),
        Fault,
    >)
        ensures
            flow(final(self)@, r) == old(self)@.tx_bb_analog_filter_calib(tx_bb_bw, bbpll),
    {
        reveal(EngineView::tx_bb_analog_filter_calib);
        let bw: u32 = clamped(tx_bb_bw.raw, 625_000, 20_000_000);
        let div: u32 = tx_tune_divider(bw, bbpll.raw);
        self.run(&[
            put(TX_BBF_TUNE_DIVIDER, div as u8),
            update(
                TX_BBF_TUNE_MODE,
                TX_BBF_TUNE_DIVIDER_MSB,
                flag(div >= 256, TX_BBF_TUNE_DIVIDER_MSB),
            ),
            put(TX_TUNE_CONTROL, TUNER_RESAMPLE | 1),
        ])?;
        let result = self.run_calibration(TX_BB_TUNE_CAL);
        self.run(&[put(TX_TUNE_CONTROL, TUNER_RESAMPLE | 1 | PD_TUNE)])?;
        result
    }

    /// Sets the TX secondary filter.
    pub fn tx_bb_second_filter_calib(&mut self, tx_bb_bw: HertzU32) -> (r: Result<(), Fault>)
        ensures
            flow(final(self)@, r) == old(self)@.tx_bb_second_filter_calib(tx_bb_bw),
    {
        reveal(EngineView::tx_bb_second_filter_calib);
        let bw: u32 = clamped(tx_bb_bw.raw, 530_000, 20_000_000);
        // BBBW * 5PI
        let (res, cap) = pick_second_filter(15_708 * (bw / 10_000));
        self.run(&[
            put(CONFIG0, second_filter_config(bw)),
            put(RESISTOR, resistor_code(res)),
            put(
                CAPACITOR,
                if cap < 63 {
                    cap as u8
                } else {
                    63
                },
            ),
        ])
    }

    /// Reads the codes of the RX baseband filter.
    fn read_filter_codes(&mut self) -> (r: Result<(u8, u8, u8), Fault>)
        ensures
            (Reply { e: final(self)@, r }) == old(self)@.read_filter_codes(),
    {
        reveal(EngineView::read_filter_codes);
        let c3_msb: u8 = self.read(RX_BBF_C3_MSB)?;
        let c3_lsb: u8 = self.read(RX_BBF_C3_LSB)?;
        let r2346: u8 = self.read(RX_BBF_R2346)?;
        Ok((c3_msb, c3_lsb, r2346))
    }

    /// Sets the RX TIA up off the baseband filter settings.
    pub fn rx_tia_calib(&mut self, rx_bb_bw: HertzU32) -> (r: Result<(), Fault>)
        ensures
            flow(final(self)@, r) == old(self)@.rx_tia_calib(rx_bb_bw),
    {
        reveal(EngineView::rx_tia_calib);
        let (c3_msb, c3_lsb, r2346) = self.read_filter_codes()?;
        let (c_lsb, c_msb) = tia_bytes(tia_capacitance(c3_msb, c3_lsb, r2346));
        self.run(&[
            put(
                RX_TIA_CONFIG,
                tia_config(clamped(rx_bb_bw.raw, 200_000, 20_000_000)),
            ),
            put(TIA1_C_LSB, c_lsb),
            put(TIA1_C_MSB, c_msb),
            put(TIA2_C_LSB, c_lsb),
            put(TIA2_C_MSB, c_msb),
        ])
    }

    /// Baseband DC offset calibration.
    pub fn bb_dc_offset_calib(&mut self) -> (r: Result<(), Fault>)
        ensures
            flow(final(self)@, r) == old(self)@.bb_dc_offset_calib(),
    {
        reveal(EngineView::bb_dc_offset_calib);
        self.run(&[
            put(BB_DC_OFFSET_COUNT, 0x3F),
            put(BB_DC_OFFSET_SHIFT, 0xF),
            put(BB_DC_OFFSET_ATTEN, 1),
        ])?;
        self.run_calibration(BBDC_CAL)
    }

    /// RF DC offset calibration, `rx_freq` in Hz.
    pub fn rf_dc_offset_calib(&mut self, rx_freq: u64) -> (r: Result<(), Fault>)
        ensures
            flow(final(self)@, r) == old(self)@.rf_dc_offset_calib(rx_freq),
    {
        reveal(EngineView::rf_dc_offset_calib);
        let dc: DcOffsetConfig = self.state.v.cal.dc_offset;
        let low = rx_freq <= 4_000_000_000;
        self.run(&[
            put(WAIT_COUNT, 0x20),
            put(
                RF_DC_OFFSET_COUNT,
                if low {
                    dc.count_low
                } else {
                    dc.count_high
                },
            ),
            put(
                RF_DC_OFFSET_CONFIG1,
                4 | (if low {
                    2u8
                } else {
                    3u8
                } << 4),
            ),
            put(
                RF_DC_OFFSET_ATTEN,
                (if low {
                    dc.attenuation_low
                } else {
                    dc.attenuation_high
                }) & 0x1F,
            ),
            put(DC_OFFSET_CONFIG2, USE_WAIT_COUNTER_FOR_RF_DC_INIT_CAL | 3),
            put(
                INVERT_BITS,
                INVERT_RX1_RF_DC_CGOUT_WORD | flag(
                    !self.state.v.cal.rx_phase_inversion,
                    INVERT_RX2_RF_DC_CGOUT_WORD,
                ),
            ),
        ])?;
        self.run_calibration(RFDC_CAL)
    }

    /// Switches the RX tracking calibrations on or off.
    pub fn tracking_control(&mut self, tracking: &TrackingConfig) -> (r: Result<(), Fault>)
        ensures
            flow(final(self)@, r) == old(self)@.tracking_control(*tracking),
    {
        reveal(EngineView::tracking_control);
        let mode: ModeState = self.state.v.mode;
        self.run(&[
            put(CALIBRATION_CONFIG2, CALIBRATION_CONFIG2_DFLT | 0x15),
            put(CALIBRATION_CONFIG3, PREVENT_POS_LOOP_GAIN | 0x15),
            put(
                DC_OFFSET_CONFIG2,
                USE_WAIT_COUNTER_FOR_RF_DC_INIT_CAL | (self.state.v.cal.dc_offset.update_events
                    & 0x7) | flag(tracking.bbdc, ENABLE_BB_DC_OFFSET_TRACKING) | flag(
                    tracking.rfdc,
                    ENABLE_RF_OFFSET_TRACKING,
                ),
            ),
            update(
                RX_QUAD_GAIN2,
                CORRECTION_WORD_DECIMATION_M,
                flag(tracking.qec_slow_mode, 0x80),
            ),
            put(
                CALIBRATION_CONFIG1,
                ENABLE_PHASE_CORR | ENABLE_GAIN_CORR | FREE_RUN_MODE
                    | ENABLE_CORR_WORD_DECIMATION | flag(
                    tracking.rx_quad && (mode.rx2tx2 || mode.rx1tx1_use_rx == Channel::Ch1),
                    ENABLE_TRACKING_MODE_CH1,
                ) | flag(
                    tracking.rx_quad && (mode.rx2tx2 || mode.rx1tx1_use_rx == Channel::Ch2),
                    ENABLE_TRACKING_MODE_CH2,
                ),
            ),
        ])
    }
}

/// What the RX ADC settings are worked out from.
#[derive(Debug, Clone, Copy, PartialEq, Eq, Structural)]
pub struct AdcInputs {
    /// capacitor and resistor codes of the RX baseband filter
    pub c3_msb: u8,
    pub c3_lsb: u8,
    pub r2346: u8,
    /// baseband bandwidth in Hz
    pub bb_bw: u32,
    /// ADC rate in Hz
    pub adc: u32,
}

impl AdcInputs {
    /// The baseband bandwidth is in the filter's range, and the ADC rate is one whole kilohertz
    /// counts can be made of.
    pub open spec fn wf(self) -> bool {
        &&& 200_000 <= self.bb_bw <= 28_000_000
        &&& self.adc >= 1000
        &&& div_round_closest(self.adc, 1000) > 0
    }

    /// Inverse RC time constant of the filter, in millionths. The products wrap.
    #[verifier::allow_in_spec]
    pub fn inv_rc(self) -> u64
        requires
            200_000 <= self.bb_bw <= 28_000_000,
        returns
            ({
                let base = 160_975u64.wrapping_mul(self.r2346 as u64).wrapping_mul(
                    (160 * self.c3_msb + 10 * self.c3_lsb + 140) as u64,
                ).wrapping_mul(self.bb_bw as u64);
                if self.bb_bw >= 18_000_000 {
                    base.wrapping_mul(
                        (1000 + 10 * (self.bb_bw - 18_000_000) / 1_000_000) as u64,
                    ) / 1000 / 1_000_000_000
                } else {
                    base / 1_000_000_000
                }
            }),
    {
        let filter_c: u64 = 160 * self.c3_msb as u64 + 10 * self.c3_lsb as u64 + 140;
        let base: u64 = 160_975u64.wrapping_mul(self.r2346 as u64).wrapping_mul(
            filter_c,
        ).wrapping_mul(self.bb_bw as u64);
        if self.bb_bw >= 18_000_000 {
            base.wrapping_mul(1000 + (10 * (self.bb_bw - 18_000_000) / 1_000_000) as u64) / 1000
                / 1_000_000_000
        } else {
            base / 1_000_000_000
        }
    }

    /// Scaling of the signal to noise ratio, 10^(dB/10) in thousandths.
    #[verifier::allow_in_spec]
    pub fn snr_scale(self) -> u64
        returns
            (if self.adc < 80_000_000 {
                1000u64
            } else {
                1585
            }),
    {
        if self.adc < 80_000_000 {
            1000
        } else {
            1585
        }
    }

    /// Square root of the inverse time constant, in thousandths.
    #[verifier::allow_in_spec]
    pub fn sqrt_inv_rc(self) -> u32
        requires
            200_000 <= self.bb_bw <= 28_000_000,
        returns
            isqrt(self.inv_rc() as u32),
    {
        isqrt(self.inv_rc() as u32)
    }

    /// ADC clock over 640 MHz, in millionths.
    #[verifier::allow_in_spec]
    pub fn scaled_adc(self) -> u32
        returns
            div_round_closest(self.adc, 640),
    {
        div_round_closest(self.adc, 640)
    }

    /// 640 MHz over the ADC clock, in thousandths.
    #[verifier::allow_in_spec]
    pub fn inv_scaled_adc(self) -> u32
        requires
            div_round_closest(self.adc, 1000) > 0,
        returns
            div_round_closest(640_000_000, div_round_closest(self.adc, 1000)),
    {
        div_round_closest(640_000_000, div_round_closest(self.adc, 1000))
    }

    /// Square root of the scaled ADC clock, in thousandths.
    #[verifier::allow_in_spec]
    pub fn sqrt_term(self) -> u32
        returns
            isqrt(self.scaled_adc()),
    {
        isqrt(self.scaled_adc())
    }

    /// Square root of the maximum SNR term, 1 at most, in thousandths.
    #[verifier::allow_in_spec]
    pub fn min_sqrt_term(self) -> u32
        returns
            least(1000, isqrt((4 * self.scaled_adc()) as u32)),
    {
        least(1000, isqrt(4 * self.scaled_adc()))
    }

    /// Product of the two roots.
    #[verifier::allow_in_spec]
    pub fn sqrt_min(self) -> u64
        requires
            200_000 <= self.bb_bw <= 28_000_000,
        returns
            (self.sqrt_inv_rc() * self.min_sqrt_term()) as u64,
    {
        let (a, b) = (self.sqrt_inv_rc() as u64, self.min_sqrt_term() as u64);
        proof {
            lemma_isqrt(self.inv_rc() as u32);
        }
        assert(a * b <= 0xFFFF * 1000) by (nonlinear_arith)
            requires
                0 <= a <= 0xFFFF,
                0 <= b <= 1000,
        ;
        a * b
    }

    /// Scale of the feedback capacitors, in thousandths.
    #[verifier::allow_in_spec]
    pub fn feedback_scale(self) -> u32
        requires
            div_round_closest(self.adc, 1000) > 0,
        returns
            div_round_closest(
                (980_000 + 20 * (if div_round_closest(self.inv_scaled_adc(), 4) < 1000 {
                    1000u32
                } else {
                    div_round_closest(self.inv_scaled_adc(), 4)
                })) as u32,
                1000,
            ),
    {
        let inv: u32 = self.inv_scaled_adc();
        proof {
            self.lemma_inv_scaled_adc();
        }
        let quarter: u32 = div_round_closest(inv, 4);
        let most: u32 = if quarter < 1000 {
            1000
        } else {
            quarter
        };
        div_round_closest(980_000 + 20 * most, 1000)
    }

    proof fn lemma_inv_scaled_adc(self)
        requires
            div_round_closest(self.adc, 1000) > 0,
        ensures
            self.inv_scaled_adc() <= 642_200_000,
    {
        let khz = div_round_closest(self.adc, 1000);
        assert(khz <= 4_300_000);
        let n = (640_000_000 + khz / 2) as int;
        assert(n / khz as int <= n) by (nonlinear_arith)
            requires
                n >= 0,
                khz >= 1,
        ;
    }

    #[verifier::allow_in_spec]
    pub fn byte7(self) -> u8
        requires
            200_000 <= self.bb_bw <= 28_000_000,
        returns
            least64(
                0u64.wrapping_sub(50_000_000).wrapping_add(
                    (8 * self.snr_scale() * self.sqrt_min()) as u64,
                ) / 100_000_000,
                124,
            ) as u8,
    {
        let (scale, sqrt_min) = (self.snr_scale(), self.sqrt_min());
        proof {
            self.lemma_sqrt_min();
            assert(8 * scale * sqrt_min <= 8 * 1585 * 65_535_000 && 8 * scale <= 8 * 1585)
                by (nonlinear_arith)
                requires
                    0 <= scale <= 1585,
                    0 <= sqrt_min <= 65_535_000,
            ;
        }
        least64(
            0u64.wrapping_sub(50_000_000).wrapping_add(8 * scale * sqrt_min) / 100_000_000,
            124,
        ) as u8
    }

    proof fn lemma_sqrt_min(self)
        requires
            200_000 <= self.bb_bw <= 28_000_000,
        ensures
            self.sqrt_min() <= 65_535_000,
    {
        let n = self.inv_rc() as u32;
        lemma_isqrt(n);
        let (a, b) = (self.sqrt_inv_rc(), self.min_sqrt_term());
        assert(a * b <= 65_535 * 1000) by (nonlinear_arith)
            requires
                0 <= a <= 65_535,
                0 <= b <= 1000,
        ;
    }

    #[verifier::allow_in_spec]
    pub fn byte8(self) -> u8
        requires
            self.wf(),
            self.inv_rc() > 0,
        returns
            least64(
                ((self.inv_rc() / 2 + (20u32.wrapping_mul(self.inv_scaled_adc()).wrapping_mul(
                    self.byte7() as u32,
                ) / 80) * 1000) / self.inv_rc() as int) as u64,
                255,
            ) as u8,
    {
        let inv_rc: u64 = self.inv_rc();
        proof {
            self.lemma_inv_rc();
        }
        let charge: u32 = 20u32.wrapping_mul(self.inv_scaled_adc()).wrapping_mul(
            self.byte7() as u32,
        ) / 80;
        least64((inv_rc / 2 + charge as u64 * 1000) / inv_rc, 255) as u8
    }

    proof fn lemma_inv_rc(self)
        requires
            200_000 <= self.bb_bw <= 28_000_000,
        ensures
            self.inv_rc() <= 18_446_744_074,
    {
    }

    #[verifier::allow_in_spec]
    pub fn byte10(self) -> u8
        requires
            200_000 <= self.bb_bw <= 28_000_000,
        returns
            least64(
                0u64.wrapping_sub(500_000).wrapping_add((77 * self.sqrt_min()) as u64) / 1_000_000,
                127,
            ) as u8,
    {
        let sqrt_min: u64 = self.sqrt_min();
        proof {
            self.lemma_sqrt_min();
        }
        least64(0u64.wrapping_sub(500_000).wrapping_add(77 * sqrt_min) / 1_000_000, 127) as u8
    }

    #[verifier::allow_in_spec]
    pub fn byte9(self) -> u8
        requires
            200_000 <= self.bb_bw <= 28_000_000,
        returns
            least(127, (800 * self.byte10() / 1000) as u32) as u8,
    {
        least(127, 800 * self.byte10() as u32 / 1000) as u8
    }

    #[verifier::allow_in_spec]
    pub fn byte11(self) -> u8
        requires
            self.wf(),
            self.inv_rc() > 0,
        returns
            least64(
                ((self.inv_rc() / 2 + 20u32.wrapping_mul(self.inv_scaled_adc()).wrapping_mul(
                    self.byte10() as u32,
                ) * 1000) / (self.inv_rc() * 77)) as u64,
                255,
            ) as u8,
    {
        let inv_rc: u64 = self.inv_rc();
        proof {
            self.lemma_inv_rc();
        }
        let charge: u32 = 20u32.wrapping_mul(self.inv_scaled_adc()).wrapping_mul(
            self.byte10() as u32,
        );
        least64((inv_rc / 2 + charge as u64 * 1000) / (inv_rc * 77), 255) as u8
    }

    #[verifier::allow_in_spec]
    pub fn byte12(self) -> u8
        requires
            200_000 <= self.bb_bw <= 28_000_000,
        returns
            least(
                127,
                0u32.wrapping_sub(500_000).wrapping_add(
                    80u32.wrapping_mul(self.sqrt_inv_rc()).wrapping_mul(self.min_sqrt_term()),
                ) / 1_000_000,
            ) as u8,
    {
        least(
            127,
            0u32.wrapping_sub(500_000).wrapping_add(
                80u32.wrapping_mul(self.sqrt_inv_rc()).wrapping_mul(self.min_sqrt_term()),
            ) / 1_000_000,
        ) as u8
    }

    #[verifier::allow_in_spec]
    pub fn byte13(self) -> u8
        requires
            self.wf(),
            self.inv_rc() > 0,
        returns
            least64(
                ((-3i32).wrapping_mul((self.inv_rc() / 2) as u32 as i32) as i64 as u64).wrapping_add(
                    (self.inv_scaled_adc().wrapping_mul(self.byte12() as u32) * 250) as u64,
                ) / self.inv_rc(),
                255,
            ) as u8,
    {
        let inv_rc: u64 = self.inv_rc();
        let negative: u64 = (-3i32).wrapping_mul((inv_rc / 2) as u32 as i32) as i64 as u64;
        let charge: u32 = self.inv_scaled_adc().wrapping_mul(self.byte12() as u32);
        least64(negative.wrapping_add(charge as u64 * 250) / inv_rc, 255) as u8
    }

    #[verifier::allow_in_spec]
    pub fn byte14(self) -> u8
        requires
            div_round_closest(self.adc, 1000) > 0,
        returns
            (21 * (self.inv_scaled_adc() / 10_000)) as u32 as u8,
    {
        (21 * (self.inv_scaled_adc() / 10_000)) as u8
    }

    /// A byte scaled by the feedback scale.
    #[verifier::allow_in_spec]
    pub fn feedback(self, byte: u8) -> u8
        requires
            div_round_closest(self.adc, 1000) > 0,
            byte <= 127,
        returns
            least(127, (byte * self.feedback_scale() / 1000) as u32) as u8,
    {
        let scale: u32 = self.feedback_scale();
        proof {
            self.lemma_inv_scaled_adc();
            assert(byte * scale <= 127 * 5_000_000) by (nonlinear_arith)
                requires
                    0 <= byte <= 127,
                    0 <= scale <= 5_000_000,
            ;
        }
        least(127, byte as u32 * scale / 1000) as u8
    }

    #[verifier::allow_in_spec]
    pub fn byte25(self) -> u8
        returns
            (128 + least(63_000, div_round_closest((63 * self.scaled_adc()) as u32, 1000))
                / 1000) as u8,
    {
        (128 + least(63_000, div_round_closest(63 * self.scaled_adc(), 1000)) / 1000) as u8
    }

    #[verifier::allow_in_spec]
    pub fn byte26(self) -> u8
        requires
            div_round_closest(self.adc, 1000) > 0,
        returns
            least(
                63,
                ((63 * self.scaled_adc()) as u32 / 1_000_000).wrapping_mul(
                    (920 + 80u32.wrapping_mul(self.inv_scaled_adc()) / 1000) as u32,
                ) / 1000,
            ) as u8,
    {
        least(
            63,
            (63 * self.scaled_adc() / 1_000_000).wrapping_mul(
                920 + 80u32.wrapping_mul(self.inv_scaled_adc()) / 1000,
            ) / 1000,
        ) as u8
    }

    /// A multiple of the root of the scaled ADC clock.
    #[verifier::allow_in_spec]
    pub fn root_times(self, factor: u32, max: u32) -> u8
        requires
            factor <= 64,
            max <= 127,
        returns
            least(max, (factor * self.sqrt_term()) as u32 / 1000) as u8,
    {
        let root: u32 = self.sqrt_term();
        proof {
            lemma_isqrt(self.scaled_adc());
        }
        assert(factor * root <= 64 * 0xFFFF) by (nonlinear_arith)
            requires
                0 <= factor <= 64,
                0 <= root <= 0xFFFF,
        ;
        least(max, factor * root / 1000) as u8
    }
}

/// The smaller of two numbers.
#[verifier::allow_in_spec]
pub fn least64(a: u64, b: u64) -> u64
    returns
        (if a < b {
            a
        } else {
            b
        }),
{
    if a < b {
        a
    } else {
        b
    }
}

/// A gain byte scaled by a few percent, rounded: `(500 + factor * byte) / 1000`.
#[verifier::allow_in_spec]
pub fn percent_scaled(byte: u8, factor: u32) -> u8
    requires
        factor <= 1025,
    returns
        least(127, (500 + factor * byte) as u32 / 1000) as u8,
{
    assert(factor * byte <= 1025 * 255) by (nonlinear_arith)
        requires
            0 <= factor <= 1025,
            0 <= byte <= 255,
    ;
    least(127, (500 + factor * byte as u32) / 1000) as u8
}

/// Baseband bandwidth the RX filter was tuned for: (BBPLL / RxTuneDiv) * ln(2) / (1.4 * 2PI).
#[verifier::allow_in_spec]
pub fn tuned_bandwidth(bbpll: u32, rxbbf_div: u32) -> u32
    requires
        rxbbf_div != 0,
    returns
        clamped(
            (bbpll * 10_000 / (126_906 * rxbbf_div)) as u64 as u32,
            200_000,
            28_000_000,
        ),
{
    clamped(
        (bbpll as u64 * 10_000 / (126_906 * rxbbf_div as u64)) as u32,
        200_000,
        28_000_000,
    )
}

impl EngineView {
    /// RX ADC setup, registers 0x200 to 0x227.
    #[verifier::opaque]
    pub open spec fn rx_adc_setup(self, bbpll: HertzU32, adc: HertzU32, rxbbf_div: u32) -> Flow {
        let filter = self.read_filter_codes();
        match filter.r {
            Err(error) => filter.done(),
            Ok((c3_msb, c3_lsb, r2346)) => {
                let i = AdcInputs {
                    c3_msb,
                    c3_lsb,
                    r2346,
                    bb_bw: tuned_bandwidth(bbpll.raw, rxbbf_div),
                    adc: adc.raw,
                };
                if adc.raw < 1000 {
                    filter.e.fail(Ad9361Error::InvalidRate)
                } else if i.inv_rc() == 0 {
                    filter.e.fail(Ad9361Error::CalibrationResult)
                } else if div_round_closest(adc.raw, 1000) == 0 {
                    filter.e.fail(Ad9361Error::InvalidRate)
                } else {
                    filter.e.write_adc(i)
                }
            },
        }
    }

    /// Writes the RX ADC registers.
    #[verifier::opaque]
    pub open spec fn write_adc(self, i: AdcInputs) -> Flow {
        let b15 = percent_scaled(i.byte7(), 1025);
        let b18 = percent_scaled(i.byte10(), 975);
        let b21 = percent_scaled(i.byte12(), 975);
        self.run(
            [
                put(RX_ADC_BASE, 0),
                put(0x201, 0),
                put(0x202, 0),
                put(0x203, 0x24),
                put(0x204, 0x24),
                put(0x205, 0),
                put(0x206, 0),
                put(0x207, i.byte7()),
                put(0x208, i.byte8()),
                put(0x209, i.byte9()),
                put(0x20A, i.byte10()),
                put(0x20B, i.byte11()),
                put(0x20C, i.byte12()),
                put(0x20D, i.byte13()),
                put(0x20E, i.byte14()),
                put(0x20F, b15),
                put(0x210, i.feedback(b15)),
                put(0x211, b15),
                put(0x212, b18),
                put(0x213, i.feedback(b18)),
                put(0x214, b18),
                put(0x215, b21),
                put(0x216, i.feedback(b21)),
                put(0x217, b21),
                put(0x218, 0x2E),
                put(0x219, i.byte25()),
                put(0x21A, i.byte26()),
                put(0x21B, i.root_times(32, 63)),
                put(0x21C, i.byte25()),
                put(0x21D, i.byte26()),
                put(0x21E, i.root_times(32, 63)),
                put(0x21F, i.byte25()),
                put(0x220, i.byte26()),
                put(0x221, i.root_times(63, 63)),
                put(0x222, i.root_times(64, 127)),
                put(0x223, 0x40),
                put(0x224, 0x40),
                put(0x225, 0x2C),
                put(0x226, 0),
                put(0x227, 0),
            ]@,
        )
    }

    /// Redoes the baseband filter and ADC calibrations for new RF bandwidths. The filters see half
    /// of them.
    #[verifier::opaque]
    pub open spec fn update_rf_bandwidth_filters(
        self,
        rf_rx_bw: HertzU32,
        rf_tx_bw: HertzU32,
    ) -> Flow {
        let rx = HertzU32 { raw: rf_rx_bw.raw / 2 };
        let tx = HertzU32 { raw: rf_tx_bw.raw / 2 };
        self.filter_calibs(rx, tx)
    }

    /// Baseband filter, TIA and ADC calibrations for baseband bandwidths.
    #[verifier::opaque]
    pub open spec fn filter_calibs(self, rx: HertzU32, tx: HertzU32) -> Flow {
        let bbpll = self.state.v.clk.rates.bbpll;
        let adc = self.state.v.clk.rates.adc;
        let div = self.rx_bb_analog_filter_calib(rx, bbpll);
        match div.r {
            Err(error) => div.done(),
            Ok(rxbbf_div) => div.e.tx_bb_analog_filter_calib(tx, bbpll).rx_tia_calib(
                rx,
            ).tx_bb_second_filter_calib(tx).rx_adc_setup(bbpll, adc, rxbbf_div),
        }
    }
}

impl<'a> Engine<'a> {
    /// Sets up the RX ADC. `rxbbf_div` comes from [`Self::rx_bb_analog_filter_calib`].
    pub fn rx_adc_setup(
        &mut self,
        bbpll: HertzU32,
        adc_sampl_freq: HertzU32,
        rxbbf_div: u32,
    ) -> (r: Result<(), Fault>)
        requires
            rxbbf_div != 0,
        ensures
            flow(final(self)@, r) == old(self)@.rx_adc_setup(bbpll, adc_sampl_freq, rxbbf_div),
    {
        reveal(EngineView::rx_adc_setup);
        let (c3_msb, c3_lsb, r2346) = self.read_filter_codes()?;
        let adc: u32 = adc_sampl_freq.raw;
        if adc < 1000 {
            return Err(Ad9361Error::InvalidRate);
        }
        let inputs = AdcInputs {
            c3_msb,
            c3_lsb,
            r2346,
            bb_bw: tuned_bandwidth(bbpll.raw, rxbbf_div),
            adc,
        };
        if inputs.inv_rc() == 0 {
            return Err(Ad9361Error::CalibrationResult);
        }
        if div_round_closest(adc, 1000) == 0 {
            return Err(Ad9361Error::InvalidRate);
        }
        self.write_adc(inputs)
    }

    fn write_adc(&mut self, i: AdcInputs) -> (r: Result<(), Fault>)
        requires
            i.wf(),
            i.inv_rc() > 0,
        ensures
            flow(final(self)@, r) == old(self)@.write_adc(i),
    {
        reveal(EngineView::write_adc);
        let b15: u8 = percent_scaled(i.byte7(), 1025);
        let b18: u8 = percent_scaled(i.byte10(), 975);
        let b21: u8 = percent_scaled(i.byte12(), 975);
        self.run(&[
            put(RX_ADC_BASE, 0),
            put(0x201, 0),
            put(0x202, 0),
            put(0x203, 0x24),
            put(0x204, 0x24),
            put(0x205, 0),
            put(0x206, 0),
            put(0x207, i.byte7()),
            put(0x208, i.byte8()),
            put(0x209, i.byte9()),
            put(0x20A, i.byte10()),
            put(0x20B, i.byte11()),
            put(0x20C, i.byte12()),
            put(0x20D, i.byte13()),
            put(0x20E, i.byte14()),
            put(0x20F, b15),
            put(0x210, i.feedback(b15)),
            put(0x211, b15),
            put(0x212, b18),
            put(0x213, i.feedback(b18)),
            put(0x214, b18),
            put(0x215, b21),
            put(0x216, i.feedback(b21)),
            put(0x217, b21),
            put(0x218, 0x2E),
            put(0x219, i.byte25()),
            put(0x21A, i.byte26()),
            put(0x21B, i.root_times(32, 63)),
            put(0x21C, i.byte25()),
            put(0x21D, i.byte26()),
            put(0x21E, i.root_times(32, 63)),
            put(0x21F, i.byte25()),
            put(0x220, i.byte26()),
            put(0x221, i.root_times(63, 63)),
            put(0x222, i.root_times(64, 127)),
            put(0x223, 0x40),
            put(0x224, 0x40),
            put(0x225, 0x2C),
            put(0x226, 0),
            put(0x227, 0),
        ])
    }

    /// Redoes the baseband filter and ADC calibrations for new bandwidths.
    pub fn update_rf_bandwidth_filters(&mut self, rf_rx_bw: HertzU32, rf_tx_bw: HertzU32) -> (r:
        Result<(), Fault>)
        ensures
            flow(final(self)@, r) == old(self)@.update_rf_bandwidth_filters(rf_rx_bw, rf_tx_bw),
    {
        reveal(EngineView::update_rf_bandwidth_filters);
        self.filter_calibs(
            HertzU32 { raw: rf_rx_bw.raw / 2 },
            HertzU32 { raw: rf_tx_bw.raw / 2 },
        )
    }

    /// Baseband filter, TIA and ADC calibrations for baseband bandwidths.
    pub fn filter_calibs(&mut self, rx: HertzU32, tx: HertzU32) -> (r: Result<(), Fault>)
        ensures
            flow(final(self)@, r) == old(self)@.filter_calibs(rx, tx),
    {
        reveal(EngineView::filter_calibs);
        let bbpll: HertzU32 = self.state.v.clk.rates.bbpll;
        let adc: HertzU32 = self.state.v.clk.rates.adc;
        let rxbbf_div: u32 = self.rx_bb_analog_filter_calib(rx, bbpll)?;
        self.tx_bb_analog_filter_calib(tx, bbpll)?;
        self.rx_tia_calib(rx)?;
        self.tx_bb_second_filter_calib(tx)?;
        self.rx_adc_setup(bbpll, adc, rxbbf_div)
    }
}

/// LO leakage and single sideband both converged.
pub const TX_QUAD_CONVERGED: u8 = 0b11;

/// NCO words and phase offset of a TX quadrature calibration.
#[derive(Debug, Clone, Copy, PartialEq, Eq, Structural)]
pub struct QuadPlan {
    pub txnco_word: u8,
    pub rxnco_word: u8,
    pub decim: u8,
    /// `None` where it depends on the TX filters
    pub phase: Option<u8>,
}

/// NCO word with which BW / 4 = NCO freq = Clk * (word + 1) / 32, as close as it gets.
#[verifier::allow_in_spec]
pub fn nco_word(bw_tx: u32, clktf: u32) -> u8
    requires
        clktf != 0,
    returns
        ({
            let steps = div_round_closest(bw_tx.wrapping_mul(8), clktf);
            if steps <= 1 || steps >= 0x8000_0000 {
                0u8
            } else if steps >= 4 {
                3
            } else {
                (steps - 1) as u8
            }
        }),
{
    let steps: u32 = div_round_closest(bw_tx.wrapping_mul(8), clktf);
    if steps <= 1 || steps >= 0x8000_0000 {
        0
    } else if steps >= 4 {
        3
    } else {
        (steps - 1) as u8
    }
}

/// Plan for the clock rates. Ratios of CLKRF and CLKTF other than 1 and 2 get a phase offset of
/// zero.
#[verifier::allow_in_spec]
pub fn quad_plan(clkrf: u32, clktf: u32, bw_tx: u32) -> QuadPlan
    requires
        clktf != 0,
    returns
        ({
            let word = nco_word(bw_tx, clktf);
            let decim = if clktf <= 4_000_000 {
                2u8
            } else {
                3u8
            };
            if clkrf == clktf.wrapping_mul(2) {
                match word {
                    0 => QuadPlan { txnco_word: 1, rxnco_word: 0, decim, phase: Some(0x0E) },
                    1 => QuadPlan { txnco_word: 1, rxnco_word: 0, decim, phase: Some(0x0E) },
                    2 => QuadPlan { txnco_word: 1, rxnco_word: 0, decim, phase: Some(0x0E) },
                    _ => QuadPlan { txnco_word: 3, rxnco_word: 1, decim, phase: Some(0x08) },
                }
            } else if clkrf == clktf {
                QuadPlan {
                    txnco_word: word,
                    rxnco_word: word,
                    decim,
                    phase: match word {
                        0 => Some(0x15u8),
                        1 => None,
                        2 => Some(0x1F),
                        _ => Some(0x15),
                    },
                }
            } else {
                QuadPlan { txnco_word: word, rxnco_word: word, decim, phase: Some(0) }
            }
        }),
{
    let word: u8 = nco_word(bw_tx, clktf);
    let decim: u8 = if clktf <= 4_000_000 {
        2
    } else {
        3
    };
    if clkrf == clktf.wrapping_mul(2) {
        match word {
            0 => QuadPlan { txnco_word: 1, rxnco_word: 0, decim, phase: Some(0x0E) },
            1 => QuadPlan { txnco_word: 1, rxnco_word: 0, decim, phase: Some(0x0E) },
            2 => QuadPlan { txnco_word: 1, rxnco_word: 0, decim, phase: Some(0x0E) },
            _ => QuadPlan { txnco_word: 3, rxnco_word: 1, decim, phase: Some(0x08) },
        }
    } else if clkrf == clktf {
        QuadPlan {
            txnco_word: word,
            rxnco_word: word,
            decim,
            phase: match word {
                0 => Some(0x15),
                1 => None,
                2 => Some(0x1F),
                _ => Some(0x15),
            },
        }
    } else {
        QuadPlan { txnco_word: word, rxnco_word: word, decim, phase: Some(0) }
    }
}

/// TX NCO frequency in Hz.
#[verifier::allow_in_spec]
pub fn txnco_freq(clktf: u32, txnco_word: u8) -> u32
    requires
        txnco_word <= 3,
    returns
        clktf.wrapping_mul((txnco_word + 1) as u32) / 32,
{
    clktf.wrapping_mul(txnco_word as u32 + 1) / 32
}

/// Whether the filters are too narrow for the calibration tone.
#[verifier::allow_in_spec]
pub fn too_narrow(freq: u32, bw_rx: u32, bw_tx: u32) -> bool
    returns
        freq > bw_rx / 4 || freq > bw_tx / 4,
{
    freq > bw_rx / 4 || freq > bw_tx / 4
}

/// The first status register to look at.
#[verifier::allow_in_spec]
pub fn quad_status_addr(tx: Channel) -> u16
    returns
        (match tx {
            Channel::Ch1 => QUAD_CAL_STATUS_TX1,
            Channel::Ch2 => QUAD_CAL_STATUS_TX2,
        }),
{
    match tx {
        Channel::Ch1 => QUAD_CAL_STATUS_TX1,
        Channel::Ch2 => QUAD_CAL_STATUS_TX2,
    }
}

/// Tracking off, but for the mode of the quadrature tracking.
#[verifier::allow_in_spec]
pub fn tracking_off(tracking: TrackingConfig) -> TrackingConfig
    returns
        (TrackingConfig { bbdc: false, rfdc: false, rx_quad: false, ..tracking }),
{
    TrackingConfig { bbdc: false, rfdc: false, rx_quad: false, ..tracking }
}

/// Middle of the longest run of phase offsets that converged. The 32 offsets are a circle, so the
/// run is looked for in two turns of it.
pub open spec fn best_phase(failed: Seq<u8>) -> u32 {
    let (count, start) = longest_run(failed + failed, 0);
    ((start + count / 2) % 32) as u32
}

impl EngineView {
    /// One TX quadrature calibration. Bit 1 = LO leakage converged, bit 0 = single sideband. In
    /// 2R2T both transmitters have to converge.
    #[verifier::opaque]
    pub open spec fn tx_quad_calib_once(self, phase: u8, rxnco_word: u8, decim: u8) -> Reply<u8> {
        let control = SETTLE_MAIN_ENABLE | DC_OFFSET_ENABLE | GAIN_ENABLE | PHASE_ENABLE | (decim
            & 0x3);
        let mode = self.state.v.mode;
        let status = self.run(
            [
                put(QUAD_CAL_NCO_FREQ_PHASE_OFFSET, ((rxnco_word & 0x3) << 5) | (phase & 0x1F)),
                put(QUAD_CAL_CONTROL, control | QUAD_CAL_SOFT_RESET),
                put(QUAD_CAL_CONTROL, control),
            ]@,
        ).run_calibration(TX_QUAD_CAL).read(quad_status_addr(mode.rx1tx1_use_tx));
        match status.r {
            Err(error) => Reply { e: status.e, r: Err(error) },
            Ok(byte) => if mode.rx2tx2 {
                let other = status.e.read(QUAD_CAL_STATUS_TX2);
                match other.r {
                    Err(error) => Reply { e: other.e, r: Err(error) },
                    Ok(byte2) => Reply { e: other.e, r: Ok(byte & byte2 & TX_QUAD_CONVERGED) },
                }
            } else {
                Reply { e: status.e, r: Ok(byte & TX_QUAD_CONVERGED) }
            },
        }
    }

    /// Tries the phase offsets from `i` on. `failed` has what came of those before.
    pub open spec fn quad_trials_from(
        self,
        i: int,
        failed: Seq<u8>,
        rxnco_word: u8,
        decim: u8,
    ) -> Reply<Seq<u8>>
        decreases 32 - i,
    {
        if i >= 32 {
            Reply { e: self, r: Ok(failed) }
        } else {
            let trial = self.tx_quad_calib_once(i as u8, rxnco_word, decim);
            match trial.r {
                Err(error) => Reply { e: trial.e, r: Err(error) },
                Ok(converged) => trial.e.quad_trials_from(
                    i + 1,
                    failed.push(
                        if converged == TX_QUAD_CONVERGED {
                            0
                        } else {
                            1
                        },
                    ),
                    rxnco_word,
                    decim,
                ),
            }
        }
    }

    /// Remembers a phase offset.
    pub open spec fn set_quad_phase(self, phase: u32) -> Flow {
        let st = self.state.v;
        self.set(
            EngineState {
                cal: CalibrationState { last_tx_quad_cal_phase: Some(phase), ..st.cal },
                ..st
            },
        )
    }

    /// Tries every phase offset and goes with the middle of the widest range that converges.
    #[verifier::opaque]
    pub open spec fn tx_quad_phase_search(self, rxnco_word: u8, decim: u8) -> Flow {
        let trials = self.quad_trials_from(0, Seq::empty(), rxnco_word, decim);
        match trials.r {
            Err(error) => trials.e.fail(error),
            Ok(failed) => {
                let phase = best_phase(failed);
                let last = trials.e.set_quad_phase(phase).tx_quad_calib_once(
                    phase as u8,
                    rxnco_word,
                    decim,
                );
                last.done()
            },
        }
    }

    /// The calibration: first with the given phase offset (but not if a search is forced), then
    /// with the last one that converged, then the search.
    #[verifier::opaque]
    pub open spec fn tx_quad_calibrate(
        self,
        phase: u8,
        rxnco_word: u8,
        decim: u8,
        rx_phase: RxPhase,
    ) -> Flow {
        if rx_phase == RxPhase::ForceSearch {
            self.tx_quad_phase_search(rxnco_word, decim)
        } else {
            let first = self.tx_quad_calib_once(phase, rxnco_word, decim);
            match first.r {
                Err(error) => first.done(),
                Ok(converged) => if converged == TX_QUAD_CONVERGED {
                    first.e.set_quad_phase(phase as u32)
                } else {
                    first.e.tx_quad_retry(rxnco_word, decim)
                },
            }
        }
    }

    /// Another try with the last phase offset that converged, then the search.
    #[verifier::opaque]
    pub open spec fn tx_quad_retry(self, rxnco_word: u8, decim: u8) -> Flow {
        let last_phase = match self.state.v.cal.last_tx_quad_cal_phase {
            Some(last) => if last < 31 {
                Some(last as u8)
            } else {
                None
            },
            None => None,
        };
        match last_phase {
            None => self.tx_quad_phase_search(rxnco_word, decim),
            Some(last) => {
                let again = self.tx_quad_calib_once(last, rxnco_word, decim);
                match again.r {
                    Err(error) => again.done(),
                    Ok(converged) => if converged == TX_QUAD_CONVERGED {
                        again.e.start()
                    } else {
                        again.e.tx_quad_phase_search(rxnco_word, decim)
                    },
                }
            },
        }
    }

    /// Phase offset to start with. One that depends on the TX filters is looked up in the chip,
    /// also where a fixed one is asked for.
    #[verifier::opaque]
    pub open spec fn quad_phase(self, plan: QuadPlan, rx_phase: RxPhase) -> Reply<u8> {
        let auto = match plan.phase {
            Some(phase) => Reply { e: self, r: Ok(phase) },
            None => {
                let filters = self.read(TX_ENABLE_FILTER_CONTROL);
                match filters.r {
                    Err(error) => Reply { e: filters.e, r: Err(error) },
                    Ok(byte) => Reply {
                        e: filters.e,
                        r: Ok(
                            if byte & 0x3F == 0x22 {
                                0x15u8
                            } else {
                                0x1A
                            },
                        ),
                    },
                }
            },
        };
        match auto.r {
            Err(error) => auto,
            Ok(phase) => Reply {
                e: auto.e,
                r: Ok(
                    match rx_phase {
                        RxPhase::Fixed(fixed) => fixed,
                        _ => phase,
                    },
                ),
            },
        }
    }

    /// Takes the RX2 inversion away for the calibration. Returns the inversion register to put
    /// back, zero if there is no inversion.
    #[verifier::opaque]
    pub open spec fn quad_uninvert(self) -> Reply<u8> {
        if self.state.v.cal.rx_phase_inversion {
            let saved = self.run([update(PARALLEL_PORT_CONF2, INVERT_RX2, 0)]@).read(INVERT_BITS);
            match saved.r {
                Err(error) => saved,
                Ok(byte) => saved.e.run(
                    [
                        put(
                            INVERT_BITS,
                            INVERT_RX1_RF_DC_CGOUT_WORD | INVERT_RX2_RF_DC_CGOUT_WORD,
                        ),
                    ]@,
                ).reply(byte),
            }
        } else {
            self.start().reply(0)
        }
    }

    /// Puts the RX2 inversion back.
    #[verifier::opaque]
    pub open spec fn quad_reinvert(self, inverted: bool, saved: u8) -> Flow {
        if inverted {
            self.run([update(PARALLEL_PORT_CONF2, INVERT_RX2, INVERT_RX2), put(INVERT_BITS, saved)]@)
        } else {
            self.start()
        }
    }

    /// Registers of the TX quadrature calibration.
    #[verifier::opaque]
    pub open spec fn quad_prepare(self, txnco_word: u8) -> Flow {
        let ready = self.run(
            [
                update(KEXP2, TX_NCO_FREQ, txnco_word << 6),
                put(QUAD_CAL_COUNT, 0xFF),
                put(KEXP1, 0x7F),
                put(MAG_FTEST_THRESH, 0x03),
                put(MAG_FTEST_THRESH2, 0x03),
            ]@,
        );
        let gain = match self.state.v.gain.tx_quad_lpf_tia_match {
            None => ready,
            Some(matched) => ready.run([put(TX_QUAD_FULL_LMT_GAIN, matched)]@),
        };
        gain.run([put(QUAD_SETTLE_COUNT, 0xF0), put(TX_QUAD_LPF_GAIN, 0)]@)
    }

    /// Filters wide enough for the calibration tone.
    #[verifier::opaque]
    pub open spec fn quad_widen(self, widen: bool, freq: u32) -> Flow {
        if widen {
            let bw = HertzU32 { raw: freq.wrapping_mul(8) };
            self.update_rf_bandwidth_filters(bw, bw)
        } else {
            self.start()
        }
    }

    /// Filters for the current bandwidths again.
    #[verifier::opaque]
    pub open spec fn quad_narrow(self, widen: bool) -> Flow {
        let cal = self.state.v.cal;
        if widen {
            self.update_rf_bandwidth_filters(cal.current_rx_bw, cal.current_tx_bw)
        } else {
            self.start()
        }
    }

    /// TX quadrature calibration, bandwidths in Hz. Inversion and bandwidth are put back also when
    /// it failed.
    #[verifier::opaque]
    pub open spec fn tx_quad_calib(self, bw_rx: u32, bw_tx: u32, rx_phase: RxPhase) -> Flow {
        let clkrf = self.state.v.clk.rates.clkrf.raw;
        let clktf = self.state.v.clk.rates.clktf.raw;
        let inverted = self.state.v.cal.rx_phase_inversion;
        if clktf == 0 {
            self.fail(Ad9361Error::InvalidRate)
        } else {
            let plan = quad_plan(clkrf, clktf, bw_tx);
            let freq = txnco_freq(clktf, plan.txnco_word);
            let widen = too_narrow(freq, bw_rx, bw_tx);
            let phase = self.quad_phase(plan, rx_phase);
            match phase.r {
                Err(error) => phase.done(),
                Ok(first_phase) => {
                    let saved = phase.e.quad_widen(widen, freq).quad_uninvert();
                    match saved.r {
                        Err(error) => saved.done(),
                        Ok(invert_bits) => {
                            let ready = saved.e.quad_prepare(plan.txnco_word);
                            if ready.err is Some {
                                ready
                            } else {
                                let result = ready.e.tx_quad_calibrate(
                                    first_phase,
                                    plan.rxnco_word,
                                    plan.decim,
                                    rx_phase,
                                );
                                result.e.quad_reinvert(inverted, invert_bits).quad_narrow(
                                    widen,
                                ).after(result.err)
                            }
                        },
                    }
                },
            }
        }
    }

    /// Runs with tracking paused and the chip in alert: what comes before.
    #[verifier::opaque]
    pub open spec fn pause_tracking(self) -> Reply<SavedEnsmState> {
        self.tracking_control(tracking_off(self.state.v.cal.tracking)).ensm_force_state(
            ForcedEnsmState::Alert,
        )
    }

    /// Runs with tracking paused and the chip in alert: what comes after.
    #[verifier::opaque]
    pub open spec fn resume_tracking(self, tracking: TrackingConfig, saved: SavedEnsmState) -> Flow {
        self.tracking_control(tracking).ensm_restore_state(saved)
    }

    /// TX quadrature calibration with tracking paused and the chip in alert. Both are put back
    /// whatever came of it.
    #[verifier::opaque]
    pub open spec fn tx_quad_calib_run(self) -> Flow {
        let cal = self.state.v.cal;
        let paused = self.pause_tracking();
        match paused.r {
            Err(error) => paused.done(),
            Ok(saved) => {
                let result = paused.e.tx_quad_calib(
                    cal.current_rx_bw.raw / 2,
                    cal.current_tx_bw.raw / 2,
                    RxPhase::Auto,
                );
                result.e.resume_tracking(cal.tracking, saved).after(result.err)
            },
        }
    }

    /// Remembers the RF bandwidths.
    pub open spec fn set_bandwidths(self, rf_rx_bw: HertzU32, rf_tx_bw: HertzU32) -> Flow {
        let st = self.state.v;
        self.set(
            EngineState {
                cal: CalibrationState {
                    current_rx_bw: rf_rx_bw,
                    current_tx_bw: rf_tx_bw,
                    ..st.cal
                },
                ..st
            },
        )
    }

    /// Filters and TX quadrature calibration for new RF bandwidths.
    #[verifier::opaque]
    pub open spec fn calibrate_bandwidths(self, rf_rx_bw: HertzU32, rf_tx_bw: HertzU32) -> Flow {
        self.update_rf_bandwidth_filters(rf_rx_bw, rf_tx_bw).set_bandwidths(
            rf_rx_bw,
            rf_tx_bw,
        ).tx_quad_calib(rf_rx_bw.raw / 2, rf_tx_bw.raw / 2, RxPhase::Auto)
    }

    /// New RF bandwidths, with tracking paused and the chip in alert. Both are put back whatever
    /// came of it.
    #[verifier::opaque]
    pub open spec fn update_rf_bandwidth(self, rf_rx_bw: HertzU32, rf_tx_bw: HertzU32) -> Flow {
        let tracking = self.state.v.cal.tracking;
        let paused = self.pause_tracking();
        match paused.r {
            Err(error) => paused.done(),
            Ok(saved) => {
                let result = paused.e.calibrate_bandwidths(rf_rx_bw, rf_tx_bw);
                result.e.resume_tracking(tracking, saved).after(result.err)
            },
        }
    }
}

/// The same steps, after others.
impl Flow {
    pub open spec fn run_calibration(self, mask: u8) -> Flow {
        if self.err is Some {
            self
        } else {
            self.e.run_calibration(mask)
        }
    }

    pub open spec fn rx_bb_analog_filter_calib(
        self,
        rx_bb_bw: HertzU32,
        bbpll: HertzU32,
    ) -> Reply<u32> {
        match self.err {
            Some(error) => Reply { e: self.e, r: Err(error) },
            None => self.e.rx_bb_analog_filter_calib(rx_bb_bw, bbpll),
        }
    }

    pub open spec fn tx_bb_analog_filter_calib(self, tx_bb_bw: HertzU32, bbpll: HertzU32) -> Flow {
        if self.err is Some {
            self
        } else {
            self.e.tx_bb_analog_filter_calib(tx_bb_bw, bbpll)
        }
    }

    pub open spec fn tx_bb_second_filter_calib(self, tx_bb_bw: HertzU32) -> Flow {
        if self.err is Some {
            self
        } else {
            self.e.tx_bb_second_filter_calib(tx_bb_bw)
        }
    }

    pub open spec fn rx_tia_calib(self, rx_bb_bw: HertzU32) -> Flow {
        if self.err is Some {
            self
        } else {
            self.e.rx_tia_calib(rx_bb_bw)
        }
    }

    pub open spec fn read_filter_codes(self) -> Reply<(u8, u8, u8)> {
        match self.err {
            Some(error) => Reply { e: self.e, r: Err(error) },
            None => self.e.read_filter_codes(),
        }
    }

    pub open spec fn bb_dc_offset_calib(self) -> Flow {
        if self.err is Some {
            self
        } else {
            self.e.bb_dc_offset_calib()
        }
    }

    pub open spec fn rf_dc_offset_calib(self, rx_freq: u64) -> Flow {
        if self.err is Some {
            self
        } else {
            self.e.rf_dc_offset_calib(rx_freq)
        }
    }

    pub open spec fn tracking_control(self, tracking: TrackingConfig) -> Flow {
        if self.err is Some {
            self
        } else {
            self.e.tracking_control(tracking)
        }
    }

    pub open spec fn rx_adc_setup(self, bbpll: HertzU32, adc: HertzU32, rxbbf_div: u32) -> Flow {
        if self.err is Some {
            self
        } else {
            self.e.rx_adc_setup(bbpll, adc, rxbbf_div)
        }
    }

    pub open spec fn write_adc(self, i: AdcInputs) -> Flow {
        if self.err is Some {
            self
        } else {
            self.e.write_adc(i)
        }
    }

    pub open spec fn update_rf_bandwidth_filters(
        self,
        rf_rx_bw: HertzU32,
        rf_tx_bw: HertzU32,
    ) -> Flow {
        if self.err is Some {
            self
        } else {
            self.e.update_rf_bandwidth_filters(rf_rx_bw, rf_tx_bw)
        }
    }

    pub open spec fn filter_calibs(self, rx: HertzU32, tx: HertzU32) -> Flow {
        if self.err is Some {
            self
        } else {
            self.e.filter_calibs(rx, tx)
        }
    }

    pub open spec fn tx_quad_calib_once(self, phase: u8, rxnco_word: u8, decim: u8) -> Reply<u8> {
        match self.err {
            Some(error) => Reply { e: self.e, r: Err(error) },
            None => self.e.tx_quad_calib_once(phase, rxnco_word, decim),
        }
    }

    pub open spec fn set_quad_phase(self, phase: u32) -> Flow {
        if self.err is Some {
            self
        } else {
            self.e.set_quad_phase(phase)
        }
    }

    pub open spec fn tx_quad_phase_search(self, rxnco_word: u8, decim: u8) -> Flow {
        if self.err is Some {
            self
        } else {
            self.e.tx_quad_phase_search(rxnco_word, decim)
        }
    }

    pub open spec fn tx_quad_calibrate(
        self,
        phase: u8,
        rxnco_word: u8,
        decim: u8,
        rx_phase: RxPhase,
    ) -> Flow {
        if self.err is Some {
            self
        } else {
            self.e.tx_quad_calibrate(phase, rxnco_word, decim, rx_phase)
        }
    }

    pub open spec fn tx_quad_retry(self, rxnco_word: u8, decim: u8) -> Flow {
        if self.err is Some {
            self
        } else {
            self.e.tx_quad_retry(rxnco_word, decim)
        }
    }

    pub open spec fn quad_phase(self, plan: QuadPlan, rx_phase: RxPhase) -> Reply<u8> {
        match self.err {
            Some(error) => Reply { e: self.e, r: Err(error) },
            None => self.e.quad_phase(plan, rx_phase),
        }
    }

    pub open spec fn quad_uninvert(self) -> Reply<u8> {
        match self.err {
            Some(error) => Reply { e: self.e, r: Err(error) },
            None => self.e.quad_uninvert(),
        }
    }

    pub open spec fn quad_reinvert(self, inverted: bool, saved: u8) -> Flow {
        if self.err is Some {
            self
        } else {
            self.e.quad_reinvert(inverted, saved)
        }
    }

    pub open spec fn quad_prepare(self, txnco_word: u8) -> Flow {
        if self.err is Some {
            self
        } else {
            self.e.quad_prepare(txnco_word)
        }
    }

    pub open spec fn quad_widen(self, widen: bool, freq: u32) -> Flow {
        if self.err is Some {
            self
        } else {
            self.e.quad_widen(widen, freq)
        }
    }

    pub open spec fn quad_narrow(self, widen: bool) -> Flow {
        if self.err is Some {
            self
        } else {
            self.e.quad_narrow(widen)
        }
    }

    pub open spec fn tx_quad_calib(self, bw_rx: u32, bw_tx: u32, rx_phase: RxPhase) -> Flow {
        if self.err is Some {
            self
        } else {
            self.e.tx_quad_calib(bw_rx, bw_tx, rx_phase)
        }
    }

    pub open spec fn pause_tracking(self) -> Reply<SavedEnsmState> {
        match self.err {
            Some(error) => Reply { e: self.e, r: Err(error) },
            None => self.e.pause_tracking(),
        }
    }

    pub open spec fn resume_tracking(
        self,
        tracking: TrackingConfig,
        saved: SavedEnsmState,
    ) -> Flow {
        if self.err is Some {
            self
        } else {
            self.e.resume_tracking(tracking, saved)
        }
    }

    pub open spec fn tx_quad_calib_run(self) -> Flow {
        if self.err is Some {
            self
        } else {
            self.e.tx_quad_calib_run()
        }
    }

    pub open spec fn set_bandwidths(self, rf_rx_bw: HertzU32, rf_tx_bw: HertzU32) -> Flow {
        if self.err is Some {
            self
        } else {
            self.e.set_bandwidths(rf_rx_bw, rf_tx_bw)
        }
    }

    pub open spec fn calibrate_bandwidths(self, rf_rx_bw: HertzU32, rf_tx_bw: HertzU32) -> Flow {
        if self.err is Some {
            self
        } else {
            self.e.calibrate_bandwidths(rf_rx_bw, rf_tx_bw)
        }
    }

    pub open spec fn update_rf_bandwidth(self, rf_rx_bw: HertzU32, rf_tx_bw: HertzU32) -> Flow {
        if self.err is Some {
            self
        } else {
            self.e.update_rf_bandwidth(rf_rx_bw, rf_tx_bw)
        }
    }
}

impl<'a> Engine<'a> {
    /// One TX quadrature calibration. Bit 1 = LO leakage converged, bit 0 = single sideband.
    fn tx_quad_calib_once(&mut self, phase: u8, rxnco_word: u8, decim: u8) -> (r: Result<u8, Fault>)
        ensures
            (Reply { e: final(self)@, r }) == old(self)@.tx_quad_calib_once(
                phase,
                rxnco_word,
                decim,
            ),
    {
        reveal(EngineView::tx_quad_calib_once);
        let mode: ModeState = self.state.v.mode;
        let control: u8 = SETTLE_MAIN_ENABLE | DC_OFFSET_ENABLE | GAIN_ENABLE | PHASE_ENABLE | (
        decim & 0x3);
        self.run(&[
            put(QUAD_CAL_NCO_FREQ_PHASE_OFFSET, ((rxnco_word & 0x3) << 5) | (phase & 0x1F)),
            put(QUAD_CAL_CONTROL, control | QUAD_CAL_SOFT_RESET),
            put(QUAD_CAL_CONTROL, control),
        ])?;
        self.run_calibration(TX_QUAD_CAL)?;
        let byte: u8 = self.read(quad_status_addr(mode.rx1tx1_use_tx))?;
        if mode.rx2tx2 {
            let byte2: u8 = self.read(QUAD_CAL_STATUS_TX2)?;
            Ok(byte & byte2 & TX_QUAD_CONVERGED)
        } else {
            Ok(byte & TX_QUAD_CONVERGED)
        }
    }

    /// Tries every phase offset when the calibration doesn't converge.
    fn tx_quad_phase_search(&mut self, rxnco_word: u8, decim: u8) -> (r: Result<(), Fault>)
        ensures
            flow(final(self)@, r) == old(self)@.tx_quad_phase_search(rxnco_word, decim),
    {
        reveal(EngineView::tx_quad_phase_search);
        let mut failed: Vec<u8> = Vec::new();
        let mut i: u8 = 0;
        assert(failed@ =~= Seq::empty());
        while i < 32
            invariant
                i <= 32,
                failed@.len() == i,
                old(self)@.quad_trials_from(0, Seq::empty(), rxnco_word, decim)
                    == self@.quad_trials_from(i as int, failed@, rxnco_word, decim),
                old(self)@.tx_quad_phase_search(rxnco_word, decim) == ({
                    let trials = old(self)@.quad_trials_from(0, Seq::empty(), rxnco_word, decim);
                    match trials.r {
                        Err(error) => trials.e.fail(error),
                        Ok(failed) => trials.e.set_quad_phase(
                            best_phase(failed),
                        ).tx_quad_calib_once(best_phase(failed) as u8, rxnco_word, decim).done(),
                    }
                }),
            decreases 32 - i,
        {
            let converged: u8 = self.tx_quad_calib_once(i, rxnco_word, decim)?;
            if converged == TX_QUAD_CONVERGED {
                failed.push(0);
            } else {
                failed.push(1);
            }
            i = i + 1;
        }
        // 360/0 wraps
        let mut circle: Vec<u8> = Vec::new();
        let mut k: usize = 0;
        while k < 64
            invariant
                k <= 64,
                failed@.len() == 32,
                circle@.len() == k,
                forall|j: int| 0 <= j < k ==> circle@[j] == (failed@ + failed@)[j],
            decreases 64 - k,
        {
            circle.push(failed[k % 32]);
            k = k + 1;
        }
        assert(circle@ =~= failed@ + failed@);
        let (count, start) = find_opt(circle.as_slice());
        let phase: u32 = ((start + count / 2) % 32) as u32;
        self.state.v.cal.last_tx_quad_cal_phase = Some(phase);
        self.tx_quad_calib_once(phase as u8, rxnco_word, decim)?;
        Ok(())
    }

    /// The calibration and phase search part of [`Self::tx_quad_calib`].
    fn tx_quad_calibrate(&mut self, phase: u8, rxnco_word: u8, decim: u8, rx_phase: RxPhase) -> (r:
        Result<(), Fault>)
        ensures
            flow(final(self)@, r) == old(self)@.tx_quad_calibrate(
                phase,
                rxnco_word,
                decim,
                rx_phase,
            ),
    {
        reveal(EngineView::tx_quad_calibrate);
        if rx_phase == RxPhase::ForceSearch {
            return self.tx_quad_phase_search(rxnco_word, decim);
        }
        let converged: u8 = self.tx_quad_calib_once(phase, rxnco_word, decim)?;
        if converged == TX_QUAD_CONVERGED {
            self.state.v.cal.last_tx_quad_cal_phase = Some(phase as u32);
            return Ok(());
        }
        self.tx_quad_retry(rxnco_word, decim)
    }

    /// Another try with the last phase offset, then the search.
    fn tx_quad_retry(&mut self, rxnco_word: u8, decim: u8) -> (r: Result<(), Fault>)
        ensures
            flow(final(self)@, r) == old(self)@.tx_quad_retry(rxnco_word, decim),
    {
        reveal(EngineView::tx_quad_retry);
        if let Some(last) = self.state.v.cal.last_tx_quad_cal_phase {
            if last < 31 {
                let converged: u8 = self.tx_quad_calib_once(last as u8, rxnco_word, decim)?;
                if converged == TX_QUAD_CONVERGED {
                    return Ok(());
                }
            }
        }
        // still failed, search all 32
        self.tx_quad_phase_search(rxnco_word, decim)
    }

    fn quad_phase(&mut self, plan: QuadPlan, rx_phase: RxPhase) -> (r: Result<u8, Fault>)
        ensures
            (Reply { e: final(self)@, r }) == old(self)@.quad_phase(plan, rx_phase),
    {
        reveal(EngineView::quad_phase);
        let phase: u8 = match plan.phase {
            Some(phase) => phase,
            None => {
                let filters: u8 = self.read(TX_ENABLE_FILTER_CONTROL)?;
                if filters & 0x3F == 0x22 {
                    0x15
                } else {
                    0x1A
                }
            },
        };
        match rx_phase {
            RxPhase::Fixed(fixed) => Ok(fixed),
            _ => Ok(phase),
        }
    }

    fn quad_uninvert(&mut self) -> (r: Result<u8, Fault>)
        ensures
            (Reply { e: final(self)@, r }) == old(self)@.quad_uninvert(),
    {
        reveal(EngineView::quad_uninvert);
        if !self.state.v.cal.rx_phase_inversion {
            return Ok(0);
        }
        self.run(&[update(PARALLEL_PORT_CONF2, INVERT_RX2, 0)])?;
        let saved: u8 = self.read(INVERT_BITS)?;
        self.run(&[
            put(
                INVERT_BITS,
                INVERT_RX1_RF_DC_CGOUT_WORD | INVERT_RX2_RF_DC_CGOUT_WORD,
            ),
        ])?;
        Ok(saved)
    }

    fn quad_reinvert(&mut self, inverted: bool, saved: u8) -> (r: Result<(), Fault>)
        ensures
            flow(final(self)@, r) == old(self)@.quad_reinvert(inverted, saved),
    {
        reveal(EngineView::quad_reinvert);
        if inverted {
            self.run(&[update(PARALLEL_PORT_CONF2, INVERT_RX2, INVERT_RX2), put(INVERT_BITS, saved)])?;
        }
        Ok(())
    }

    fn quad_prepare(&mut self, txnco_word: u8) -> (r: Result<(), Fault>)
        ensures
            flow(final(self)@, r) == old(self)@.quad_prepare(txnco_word),
    {
        reveal(EngineView::quad_prepare);
        let lpf_tia_match: Option<u8> = self.state.v.gain.tx_quad_lpf_tia_match;
        self.run(&[
            update(KEXP2, TX_NCO_FREQ, txnco_word << 6),
            put(QUAD_CAL_COUNT, 0xFF),
            put(KEXP1, 0x7F),
            put(MAG_FTEST_THRESH, 0x03),
            put(MAG_FTEST_THRESH2, 0x03),
        ])?;
        // no match is no error
        if let Some(matched) = lpf_tia_match {
            self.run(&[put(TX_QUAD_FULL_LMT_GAIN, matched)])?;
        }
        self.run(&[put(QUAD_SETTLE_COUNT, 0xF0), put(TX_QUAD_LPF_GAIN, 0)])
    }

    fn quad_widen(&mut self, widen: bool, freq: u32) -> (r: Result<(), Fault>)
        ensures
            flow(final(self)@, r) == old(self)@.quad_widen(widen, freq),
    {
        reveal(EngineView::quad_widen);
        if widen {
            let bw = HertzU32 { raw: freq.wrapping_mul(8) };
            self.update_rf_bandwidth_filters(bw, bw)?;
        }
        Ok(())
    }

    fn quad_narrow(&mut self, widen: bool) -> (r: Result<(), Fault>)
        ensures
            flow(final(self)@, r) == old(self)@.quad_narrow(widen),
    {
        reveal(EngineView::quad_narrow);
        if widen {
            let cal: CalibrationState = self.state.v.cal;
            self.update_rf_bandwidth_filters(cal.current_rx_bw, cal.current_tx_bw)?;
        }
        Ok(())
    }

    /// TX quadrature calibration, bandwidths in Hz.
    pub fn tx_quad_calib(&mut self, bw_rx: u32, bw_tx: u32, rx_phase: RxPhase) -> (r: Result<
        (),
        Fault,
    >)
        ensures
            flow(final(self)@, r) == old(self)@.tx_quad_calib(bw_rx, bw_tx, rx_phase),
    {
        reveal(EngineView::tx_quad_calib);
        let clkrf: u32 = self.state.v.clk.rates.clkrf.raw;
        let clktf: u32 = self.state.v.clk.rates.clktf.raw;
        let inverted = self.state.v.cal.rx_phase_inversion;
        if clktf == 0 {
            return Err(Ad9361Error::InvalidRate);
        }
        let plan: QuadPlan = quad_plan(clkrf, clktf, bw_tx);
        let freq: u32 = txnco_freq(clktf, plan.txnco_word);
        // bandwidth has to be wide enough during the cal
        let widen = too_narrow(freq, bw_rx, bw_tx);
        let phase: u8 = self.quad_phase(plan, rx_phase)?;
        self.quad_widen(widen, freq)?;
        let invert_bits: u8 = self.quad_uninvert()?;
        self.quad_prepare(plan.txnco_word)?;
        let result = self.tx_quad_calibrate(phase, plan.rxnco_word, plan.decim, rx_phase);
        // restore even if the cal failed
        self.quad_reinvert(inverted, invert_bits)?;
        self.quad_narrow(widen)?;
        result
    }

    fn pause_tracking(&mut self) -> (r: Result<SavedEnsmState, Fault>)
        ensures
            (Reply { e: final(self)@, r }) == old(self)@.pause_tracking(),
    {
        reveal(EngineView::pause_tracking);
        let off: TrackingConfig = tracking_off(self.state.v.cal.tracking);
        self.tracking_control(&off)?;
        self.ensm_force_state(ForcedEnsmState::Alert)
    }

    fn resume_tracking(&mut self, tracking: TrackingConfig, saved: SavedEnsmState) -> (r: Result<
        (),
        Fault,
    >)
        ensures
            flow(final(self)@, r) == old(self)@.resume_tracking(tracking, saved),
    {
        reveal(EngineView::resume_tracking);
        self.tracking_control(&tracking)?;
        self.ensm_restore_state(saved)
    }

    /// TX quadrature calibration with tracking paused and the chip in alert.
    pub fn tx_quad_calib_run(&mut self) -> (r: Result<(), Fault>)
        ensures
            flow(final(self)@, r) == old(self)@.tx_quad_calib_run(),
    {
        reveal(EngineView::tx_quad_calib_run);
        let cal: CalibrationState = self.state.v.cal;
        let saved: SavedEnsmState = self.pause_tracking()?;
        let result = self.tx_quad_calib(
            cal.current_rx_bw.raw / 2,
            cal.current_tx_bw.raw / 2,
            RxPhase::Auto,
        );
        self.resume_tracking(cal.tracking, saved)?;
        result
    }

    fn calibrate_bandwidths(&mut self, rf_rx_bw: HertzU32, rf_tx_bw: HertzU32) -> (r: Result<
        (),
        Fault,
    >)
        ensures
            flow(final(self)@, r) == old(self)@.calibrate_bandwidths(rf_rx_bw, rf_tx_bw),
    {
        reveal(EngineView::calibrate_bandwidths);
        self.update_rf_bandwidth_filters(rf_rx_bw, rf_tx_bw)?;
        self.state.v.cal.current_rx_bw = rf_rx_bw;
        self.state.v.cal.current_tx_bw = rf_tx_bw;
        self.tx_quad_calib(rf_rx_bw.raw / 2, rf_tx_bw.raw / 2, RxPhase::Auto)
    }

    /// New RF bandwidths: redoes the baseband filter calibrations and the TX quadrature
    /// calibration.
    pub fn update_rf_bandwidth(&mut self, rf_rx_bw: HertzU32, rf_tx_bw: HertzU32) -> (r: Result<
        (),
        Fault,
    >)
        ensures
            flow(final(self)@, r) == old(self)@.update_rf_bandwidth(rf_rx_bw, rf_tx_bw),
    {
        reveal(EngineView::update_rf_bandwidth);
        let tracking: TrackingConfig = self.state.v.cal.tracking;
        let saved: SavedEnsmState = self.pause_tracking()?;
        let result = self.calibrate_bandwidths(rf_rx_bw, rf_tx_bw);
        self.resume_tracking(tracking, saved)?;
        result
    }
}

} // verus!
