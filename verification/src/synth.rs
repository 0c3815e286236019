//! BBPLL and the RX and TX RF synths.
use vstd::prelude::*;

use crate::clocks::{
    Ad9361ClockRates, bbpll_scaler, PllScaler, rfpll_scaler, RfPllScaler, synth_word_addr,
};
use crate::control::synth_addr;
use crate::engine::{
    Engine, EngineView, flow, Flow, law_poll_keeps_state, law_read_keeps_state,
    law_run_keeps_state, MAX_POLLS, Reply,
};
use crate::error::Ad9361Error;
use crate::gain_control::GainTableDest;
use crate::link::{Fault, merged, Op, put, update};
use crate::math::clamped;
use crate::registers::{
    BBPLL_LOCK, BBPLL_RESET_BAR, CAL_CLOCK_DIV_4, CH1_OVERFLOW, CHARGE_PUMP_CURRENT, CP_CAL_ENABLE,
    CP_CAL_VALID, CP_CURRENT, CP_OFFSET_OFF, DUAL_SYNTH_MODE, ENSM_CONFIG1, ENSM_CONFIG2,
    ENSM_MODE, FDD_MODE, FORCE_ALERT_STATE, FRACT_BB_FREQ_WORD1, FRACT_BB_FREQ_WORD2,
    FRACT_BB_FREQ_WORD3, FREQ_CAL_COUNT_LENGTH, FREQ_CAL_ENABLE, HALF_DUPLEX_MODE, INIT_BB_FO_CAL,
    INTEGER_BB_FREQ_WORD, LOOP_FILTER3, PARALLEL_PORT_CONF3, PORB_VCO_LOGIC, RFPLL_DIVIDERS,
    RX_ALC_VARACTOR, RX_CAL_STATUS, RX_CP_CONFIG, RX_CP_CURRENT, RX_CP_LEVEL_DETECT,
    RX_CP_OVERRANGE_VCO_LOCK, RX_DSM_SETUP1, RX_FORCE_VCO_TUNE1, RX_INTEGER_BYTE1, RX_LOOP_FILTER1,
    RX_LOOP_FILTER2, RX_LOOP_FILTER3, RX_LO_GEN_POWER_MODE, RX_VCO_BIAS1, RX_VCO_CAL,
    RX_VCO_CAL_REF, RX_VCO_DIVIDER, RX_VCO_LDO, RX_VCO_OUTPUT, RX_VCO_PD_OVERRIDES,
    RX_VCO_VARACTOR_CONTROL0, RX_VCO_VARACTOR_CONTROL1, SDM_CONTROL, SDM_CONTROL1, TO_ALERT,
    TX_VCO_DIVIDER, VCO_CAL_EN, VCO_CONTROL, VCO_LOCK, VCO_PROGRAM1, VCO_PROGRAM2, VCO_VARACTOR,
    VCO_VARACTOR_REFERENCE_TCF,
};
use crate::spi::word_of;
use crate::state::{CalibrationState, ClockState, EngineState, LoSetting, ModeState};
use crate::tables::SynthEntry;
use crate::units::{
    HertzU32, HertzU64, MAX_CARRIER_FREQ_HZ, MIN_RX_CARRIER_FREQ_HZ, MIN_TX_CARRIER_FREQ_HZ,
};
use crate::{RFPLL_MODULUS, BBPLL_MODULUS, MIN_BBPLL_FREQ, MAX_BBPLL_FREQ, MIN_SYNTH_FREF};

verus! {

/// Lowest VCO frequency. The LO is the VCO divided by a power of two.
pub const MIN_VCO_FREQ_HZ: u64 = 6_000_000_000;

/// A carrier the synths can make, 46.875001 MHz to 6 GHz.
#[derive(Debug, Clone, Copy, PartialEq, Eq, Structural)]
pub struct Carrier {
    frequency: u64,
}

impl Carrier {
    #[verifier::type_invariant]
    spec fn in_range(self) -> bool {
        MIN_TX_CARRIER_FREQ_HZ <= self.frequency <= MAX_CARRIER_FREQ_HZ
    }

    /// The carrier with a frequency in Hz.
    pub closed spec fn at(frequency: u64) -> Carrier {
        Carrier { frequency }
    }

    /// The frequency in Hz.
    pub closed spec fn hz(self) -> u64 {
        self.frequency
    }

    /// The carrier with a frequency has that frequency.
    pub proof fn lemma_hz(frequency: u64)
        ensures
            Self::at(frequency).hz() == frequency,
    {
    }

    pub fn new(frequency: u64) -> (carrier: Self)
        requires
            MIN_TX_CARRIER_FREQ_HZ <= frequency <= MAX_CARRIER_FREQ_HZ,
        ensures
            carrier == Self::at(frequency),
            carrier.hz() == frequency,
    {
        Carrier { frequency }
    }

    pub fn frequency(self) -> (frequency: u64)
        ensures
            frequency == self.hz(),
            MIN_TX_CARRIER_FREQ_HZ <= frequency <= MAX_CARRIER_FREQ_HZ,
    {
        proof {
            use_type_invariant(self);
        }
        self.frequency
    }
}

/// Integer and fractional word of a fractional-N PLL that makes `rate` from `parent`, the fraction
/// rounded to the closest step.
pub open spec fn fractional_words(rate: int, parent: int, modulus: int) -> (int, int) {
    (rate / parent, ((rate % parent) * modulus + parent / 2) / parent)
}

/// The words reproduce the rate: what they make of the parent is off by half a step of the
/// fractional word at most.
pub proof fn law_words_reproduce_the_rate(rate: int, parent: int, modulus: int)
    requires
        rate >= 0,
        parent > 0,
        modulus > 0,
    ensures
        ({
            let (integer, fract) = fractional_words(rate, parent, modulus);
            let made = (integer * modulus + fract) * parent;
            &&& 2 * (made - rate * modulus) <= parent
            &&& 2 * (rate * modulus - made) <= parent
        }),
        0 <= fractional_words(rate, parent, modulus).0 <= rate,
        0 <= fractional_words(rate, parent, modulus).1 <= modulus,
{
    let (integer, fract) = fractional_words(rate, parent, modulus);
    let rest = rate % parent;
    let n = rest * modulus + parent / 2;
    let left = n % parent;
    vstd::arithmetic::div_mod::lemma_fundamental_div_mod(rate, parent);
    vstd::arithmetic::div_mod::lemma_fundamental_div_mod(n, parent);
    assert(0 <= n) by (nonlinear_arith)
        requires
            n == rest * modulus + parent / 2,
            0 <= rest,
            0 < modulus,
            0 < parent,
    ;
    assert((integer * modulus + fract) * parent == (parent * integer) * modulus + parent * fract)
        by (nonlinear_arith);
    assert(rate * modulus == (parent * integer) * modulus + rest * modulus) by (nonlinear_arith)
        requires
            rate == parent * integer + rest,
    ;
    assert(0 <= integer <= rate) by (nonlinear_arith)
        requires
            rate == parent * integer + rest,
            0 <= rest < parent,
            0 <= rate,
    ;
    assert(rest * modulus <= (parent - 1) * modulus) by (nonlinear_arith)
        requires
            0 <= rest <= parent - 1,
            0 < modulus,
    ;
    assert(0 <= fract <= modulus) by (nonlinear_arith)
        requires
            n == parent * fract + left,
            0 <= left < parent,
            0 <= n,
            n <= (parent - 1) * modulus + parent / 2,
            0 < parent,
            0 < modulus,
    ;
}

/// BBPLL integer and fractional words for `rate` off `parent`, both in Hz.
pub fn bbpll_words(rate: u64, parent: u64) -> (words: (u32, u32))
    requires
        0 < parent,
        (rate % parent) * BBPLL_MODULUS + parent / 2 <= u64::MAX,
    ensures
        ({
            let (integer, fract) = fractional_words(
                rate as int,
                parent as int,
                BBPLL_MODULUS as int,
            );
            words == (integer as u64 as u32, fract as u64 as u32)
        }),
{
    let integer: u64 = rate / parent;
    let rest: u64 = rate % parent;
    proof {
        law_words_reproduce_the_rate(rate as int, parent as int, BBPLL_MODULUS as int);
    }
    let fract: u64 = (rest * BBPLL_MODULUS as u64 + (parent / 2)) / parent;
    (integer as u32, fract as u32)
}

/// The rate that the BBPLL makes of its words is within half a step of the fractional word, and one
/// hertz that is cut off, of the rate they were made for.
pub proof fn law_bbpll_makes_the_rate(rate: u32, parent: u32)
    requires
        parent > 0,
    ensures
        ({
            let (integer, fract) = fractional_words(
                rate as int,
                parent as int,
                BBPLL_MODULUS as int,
            );
            let words = PllScaler { fract: fract as u32, integer: integer as u32 };
            let off = parent as int / (2 * BBPLL_MODULUS);
            rate - off - 1 <= words.exact_rate(parent) <= rate + off
        }),
{
    let modulus = BBPLL_MODULUS as int;
    law_words_reproduce_the_rate(rate as int, parent as int, modulus);
    let (integer, fract) = fractional_words(rate as int, parent as int, modulus);
    let part = parent * fract;
    let whole = parent * integer;
    let made = (integer * modulus + fract) * parent;
    assert(made == whole * modulus + part) by (nonlinear_arith)
        requires
            part == parent * fract,
            whole == parent * integer,
            made == (integer * modulus + fract) * parent,
    ;
    let words = PllScaler { fract: fract as u32, integer: integer as u32 };
    assert(words.exact_rate(parent) == part / 2_088_960 + whole);
    assert(made == whole * 2_088_960 + part);
    let exact = part / 2_088_960 + whole;
    assert(4_177_920 * (exact - rate) <= parent);
    assert(4_177_920 * (rate - exact - 1) <= parent);
    assert(2 * BBPLL_MODULUS == 4_177_920);
    assert(exact - rate <= parent as int / 4_177_920);
    assert(rate - exact - 1 <= parent as int / 4_177_920);
}

/// Programming of an RF synth.
#[derive(Debug, Clone, Copy, PartialEq, Eq, Structural)]
pub struct RfWords {
    pub integer: u32,
    pub fract: u32,
    /// VCO post-divider exponent, the VCO runs at `2^(vco_div + 1)` times the output
    pub vco_div: u8,
    /// VCO frequency in Hz
    pub vco: u64,
}

/// The frequency doubled until it is above the lowest VCO frequency, and the number of doublings.
pub open spec fn vco_for(lo: int) -> (int, int)
    decreases 2 * MIN_VCO_FREQ_HZ + 1 - lo,
{
    if lo > MIN_VCO_FREQ_HZ || lo <= 0 {
        (lo, 0)
    } else {
        let (vco, doublings) = vco_for(2 * lo);
        (vco, doublings + 1)
    }
}

/// Programming for an LO of `lo` Hz.
pub open spec fn rf_words(lo: u64, parent: u32) -> RfWords {
    let (vco, doublings) = vco_for(lo as int);
    let (integer, fract) = fractional_words(vco, parent as int, RFPLL_MODULUS as int);
    RfWords {
        integer: integer as u64 as u32,
        fract: fract as u64 as u32,
        vco_div: (doublings - 1) as u8,
        vco: vco as u64,
    }
}

/// The VCO of any carrier the synths can make runs above 6 GHz and at 12 GHz at most, at the
/// carrier times two to the number of doublings, of which there are one to seven.
pub proof fn law_vco_range(lo: u64)
    requires
        MIN_TX_CARRIER_FREQ_HZ <= lo <= MAX_CARRIER_FREQ_HZ,
    ensures
        ({
            let (vco, doublings) = vco_for(lo as int);
            &&& MIN_VCO_FREQ_HZ < vco <= 2 * MIN_VCO_FREQ_HZ
            &&& 1 <= doublings <= 7
            &&& vco == lo * vstd::arithmetic::power2::pow2(doublings as nat)
        }),
{
    reveal_with_fuel(vco_for, 8);
    vstd::arithmetic::power2::lemma2_to64();
    let (vco, doublings) = vco_for(lo as int);
    let scale = vstd::arithmetic::power2::pow2(doublings as nat);
    assert(vco == lo * scale) by {
        assert(scale == 2 ==> lo * scale == lo * 2) by (nonlinear_arith);
        assert(scale == 4 ==> lo * scale == lo * 4) by (nonlinear_arith);
        assert(scale == 8 ==> lo * scale == lo * 8) by (nonlinear_arith);
        assert(scale == 16 ==> lo * scale == lo * 16) by (nonlinear_arith);
        assert(scale == 32 ==> lo * scale == lo * 32) by (nonlinear_arith);
        assert(scale == 64 ==> lo * scale == lo * 64) by (nonlinear_arith);
        assert(scale == 128 ==> lo * scale == lo * 128) by (nonlinear_arith);
    }
}

/// Programming for a carrier.
pub fn words_for(carrier: Carrier, parent: u32) -> (words: RfWords)
    requires
        parent > 0,
    ensures
        words == rf_words(carrier.hz(), parent),
        words.vco_div <= 6,
{
    let lo: u64 = carrier.frequency();
    let mut vco: u64 = lo;
    let mut doublings: u8 = 0;
    proof {
        law_vco_range(lo);
    }
    while vco <= MIN_VCO_FREQ_HZ
        invariant
            0 < vco <= 2 * MIN_VCO_FREQ_HZ,
            doublings + vco_for(vco as int).1 == vco_for(lo as int).1,
            vco_for(vco as int).0 == vco_for(lo as int).0,
            vco_for(lo as int).1 <= 7,
            vco_for(vco as int).1 >= 0,
        decreases 2 * MIN_VCO_FREQ_HZ + 1 - vco,
    {
        proof {
            lemma_vco_doublings(2 * vco as int);
        }
        vco = vco * 2;
        doublings = doublings + 1;
    }
    let parent64: u64 = parent as u64;
    let integer: u64 = vco / parent64;
    let rest: u64 = vco % parent64;
    proof {
        law_words_reproduce_the_rate(vco as int, parent as int, RFPLL_MODULUS as int);
        assert(rest * RFPLL_MODULUS <= 0x1_0000_0000 * 8_388_593) by (nonlinear_arith)
            requires
                0 <= rest < 0x1_0000_0000,
                RFPLL_MODULUS == 8_388_593,
        ;
    }
    let fract: u64 = (rest * RFPLL_MODULUS as u64 + (parent64 / 2)) / parent64;
    RfWords { integer: integer as u32, fract: fract as u32, vco_div: doublings - 1, vco }
}

proof fn lemma_vco_doublings(lo: int)
    ensures
        vco_for(lo).1 >= 0,
    decreases 2 * MIN_VCO_FREQ_HZ + 1 - lo,
{
    if 0 < lo <= MIN_VCO_FREQ_HZ {
        lemma_vco_doublings(2 * lo);
    }
}

/// VCO calibration count. See "Example Calibration Times for RF VCO Cal" in the chip's manual.
#[verifier::allow_in_spec]
pub fn vco_cal_count(fdd: bool, ref_clk: HertzU32) -> u8
    returns
        (if fdd {
            3u8
        } else if ref_clk.raw > 40_000_000 {
            1
        } else {
            0
        }),
{
    if fdd {
        3
    } else if ref_clk.raw > 40_000_000 {
        1
    } else {
        0
    }
}

/// Range of reference clocks in the synth tables.
#[verifier::allow_in_spec]
pub fn reference_range(ref_clk: HertzU32) -> usize
    returns
        (if ref_clk.raw < 50_000_000 {
            0usize
        } else if ref_clk.raw <= 70_000_000 {
            1
        } else {
            2
        }),
{
    if ref_clk.raw < 50_000_000 {
        0
    } else if ref_clk.raw <= 70_000_000 {
        1
    } else {
        2
    }
}

/// Whether RX and TX are at the same LO.
#[verifier::allow_in_spec]
pub fn same_lo(clk: &ClockState) -> bool
    returns
        (match clk.current_rx_lo {
            None => match clk.current_tx_lo {
                None => true,
                Some(tx) => false,
            },
            Some(rx) => match clk.current_tx_lo {
                None => false,
                Some(tx) => rx.carrier == tx.carrier,
            },
        }),
{
    match clk.current_rx_lo {
        None => match clk.current_tx_lo {
            None => true,
            Some(tx) => false,
        },
        Some(rx) => match clk.current_tx_lo {
            None => false,
            Some(tx) => rx.carrier == tx.carrier,
        },
    }
}

/// Whether an LO is set up from the TDD table.
#[verifier::allow_in_spec]
pub fn uses_tdd_table(lo: Option<LoSetting>) -> bool
    returns
        (match lo {
            None => false,
            Some(lo) => lo.use_tdd_table,
        }),
{
    match lo {
        None => false,
        Some(lo) => lo.use_tdd_table,
    }
}

/// FDD without separate LOs: RX and TX synth influence each other.
#[verifier::allow_in_spec]
pub fn synths_coupled(mode: &ModeState) -> bool
    returns
        mode.fdd && !mode.fdd_independent_mode,
{
    mode.fdd && !mode.fdd_independent_mode
}

/// FDD with different RX and TX LOs uses the FDD tables.
#[verifier::allow_in_spec]
pub fn wants_fdd_table(mode: &ModeState, clk: &ClockState) -> bool
    returns
        synths_coupled(mode) && !same_lo(clk),
{
    synths_coupled(mode) && !same_lo(clk)
}

/// FDD with RX LO == TX LO uses the TDD tables (less VCO pulling), so the other synth has to be
/// programmed again where it doesn't match.
#[verifier::allow_in_spec]
pub fn needs_retune(mode: &ModeState, clk: &ClockState) -> bool
    returns
        synths_coupled(mode) && (if same_lo(clk) {
            uses_tdd_table(clk.current_tx_lo) != uses_tdd_table(clk.current_rx_lo)
        } else {
            uses_tdd_table(clk.current_tx_lo) || uses_tdd_table(clk.current_rx_lo)
        }),
{
    synths_coupled(mode) && (if same_lo(clk) {
        uses_tdd_table(clk.current_tx_lo) != uses_tdd_table(clk.current_rx_lo)
    } else {
        uses_tdd_table(clk.current_tx_lo) || uses_tdd_table(clk.current_rx_lo)
    })
}

/// The LO of the RX or TX synth.
#[verifier::allow_in_spec]
pub fn lo_of(clk: &ClockState, tx: bool) -> Option<LoSetting>
    returns
        (if tx {
            clk.current_tx_lo
        } else {
            clk.current_rx_lo
        }),
{
    if tx {
        clk.current_tx_lo
    } else {
        clk.current_rx_lo
    }
}

/// The same clocks but for the LO of the RX or TX synth.
#[verifier::allow_in_spec]
pub fn with_lo(clk: ClockState, tx: bool, lo: Option<LoSetting>) -> ClockState
    returns
        (if tx {
            ClockState { current_tx_lo: lo, ..clk }
        } else {
            ClockState { current_rx_lo: lo, ..clk }
        }),
{
    if tx {
        ClockState { current_tx_lo: lo, ..clk }
    } else {
        ClockState { current_rx_lo: lo, ..clk }
    }
}

/// Remembers which table an LO is set up from.
#[verifier::allow_in_spec]
pub fn with_table(clk: ClockState, tx: bool, use_tdd_table: bool) -> ClockState
    returns
        (match lo_of(&clk, tx) {
            None => clk,
            Some(lo) => with_lo(clk, tx, Some(LoSetting { use_tdd_table, ..lo })),
        }),
{
    match lo_of(&clk, tx) {
        None => clk,
        Some(lo) => with_lo(clk, tx, Some(LoSetting { use_tdd_table, ..lo })),
    }
}

/// The five bytes of a synth's words. The upper integer bits share their register with other
/// bits, which come from `current`.
#[verifier::allow_in_spec]
pub fn synth_word(words: RfWords, current: u8) -> u64
    returns
        ((words.fract % 0x80_0000) * 0x1_0000 + (current / 8 * 8 + words.integer / 0x100 % 8)
            * 0x100 + words.integer % 0x100) as u64,
{
    (words.fract % 0x80_0000) as u64 * 0x1_0000 + (current as u64 / 8 * 8 + words.integer as u64
        / 0x100 % 8) * 0x100 + words.integer as u64 % 0x100
}

/// VCO divider field of the RX or TX synth.
#[verifier::allow_in_spec]
pub fn vco_div_mask(tx: bool) -> u8
    returns
        (if tx {
            TX_VCO_DIVIDER
        } else {
            RX_VCO_DIVIDER
        }),
{
    if tx {
        TX_VCO_DIVIDER
    } else {
        RX_VCO_DIVIDER
    }
}

/// A VCO divider in that field.
#[verifier::allow_in_spec]
pub fn vco_div_field(tx: bool, vco_div: u8) -> u8
    returns
        (if tx {
            vco_div << 4
        } else {
            vco_div
        }),
{
    if tx {
        vco_div << 4
    } else {
        vco_div
    }
}

/// Charge pump current of the BBPLL: 150 uA at 1280 MHz BBPLL / 40 MHz REFCLK, 25 uA per step,
/// offset 25 uA.
pub open spec fn charge_pump(rate: u32, parent: u32) -> u8
    recommends
        parent >= 128,
{
    let microamps = (rate / 128) * 150 / ((parent / 128) * 32);
    let steps = (microamps + 12) / 25 - 1;
    if steps < 1 {
        1
    } else if steps > 63 {
        63
    } else {
        steps as u8
    }
}

fn charge_pump_current(rate: u32, parent: u32) -> (current: u8)
    requires
        parent >= 128,
    ensures
        current == charge_pump(rate, parent),
{
    let scaled: u64 = (rate / 128) as u64 * 150;
    let base: u64 = (parent / 128) as u64 * 32;
    let microamps: u64 = scaled / base;
    proof {
        assert(microamps <= scaled) by (nonlinear_arith)
            requires
                microamps == scaled as int / base as int,
                base >= 1,
                scaled >= 0,
        ;
    }
    let steps: u64 = (microamps + 12) / 25;
    if steps < 2 {
        1
    } else if steps > 64 {
        63
    } else {
        (steps - 1) as u8
    }
}

/// BBPLL words for a rate.
pub open spec fn bbpll_words_for(rate: u32, parent: u32) -> PllScaler {
    let (integer, fract) = fractional_words(rate as int, parent as int, BBPLL_MODULUS as int);
    PllScaler { fract: fract as u64 as u32, integer: integer as u64 as u32 }
}

/// The closest rate the BBPLL can make, as its words give it.
pub open spec fn rounded_bbpll(rate: u32, parent: u32) -> HertzU32 {
    HertzU32 { raw: bbpll_words_for(rate, parent).exact_rate(parent) as u64 as u32 }
}

/// The register program that sets the BBPLL up for a rate.
pub open spec fn bbpll_program(rate: HertzU32, parent: HertzU32) -> Seq<Op> {
    let words = bbpll_words_for(rate.raw, parent.raw);
    [
        put(CP_CURRENT, charge_pump(rate.raw, parent.raw)),
        // LOOP_FILTER_3, _2, _1 (burst counts down)
        Op::Burst { addr: LOOP_FILTER3, len: 3, data: 0x355BE8 },
        // allow cal, count 1024 for best accuracy
        put(VCO_CONTROL, FREQ_CAL_ENABLE | FREQ_CAL_COUNT_LENGTH),
        // cal clock REFCLK/4, more accurate
        put(SDM_CONTROL, CAL_CLOCK_DIV_4),
        put(INTEGER_BB_FREQ_WORD, words.integer as u8),
        put(FRACT_BB_FREQ_WORD3, words.fract as u8),
        put(FRACT_BB_FREQ_WORD2, (words.fract >> 8) as u8),
        put(FRACT_BB_FREQ_WORD1, (words.fract >> 16) as u8),
        // start cal, then clear the bit
        put(SDM_CONTROL1, INIT_BB_FO_CAL | BBPLL_RESET_BAR),
        put(SDM_CONTROL1, BBPLL_RESET_BAR),
        // more BBPLL KV and phase margin
        put(VCO_PROGRAM1, 0x86),
        put(VCO_PROGRAM2, 0x01),
        put(VCO_PROGRAM2, 0x05),
    ]@
}

proof fn lemma_bbpll_words_fit(rate: u32, parent: u32)
    requires
        parent > 0,
    ensures
        bbpll_words_for(rate, parent).exact_rate(parent) <= u64::MAX,
{
    law_words_reproduce_the_rate(rate as int, parent as int, BBPLL_MODULUS as int);
    let scaler = bbpll_words_for(rate, parent);
    assert(parent * scaler.fract <= 0xFFFF_FFFF * 2_088_960 && parent * scaler.integer
        <= 0xFFFF_FFFF * 0xFFFF_FFFF) by (nonlinear_arith)
        requires
            0 <= parent <= 0xFFFF_FFFF,
            0 <= scaler.fract <= 2_088_960,
            0 <= scaler.integer <= 0xFFFF_FFFF,
    ;
}

impl EngineView {
    /// Charge pump calibration of the RX or TX synth, which needs FDD.
    #[verifier::opaque]
    pub open spec fn txrx_synth_cp_calib(self, ref_clk: HertzU32, tx: bool) -> Flow {
        let fdd = self.state.v.mode.fdd;
        let ready = self.run(
            [
                put(synth_addr(RX_CP_LEVEL_DETECT, tx), 0x17),
                put(synth_addr(RX_DSM_SETUP1, tx), 0x00),
                put(synth_addr(RX_LO_GEN_POWER_MODE, tx), 0x00),
                put(synth_addr(RX_VCO_LDO, tx), 0x0B),
                put(synth_addr(RX_VCO_PD_OVERRIDES, tx), 0x02),
                put(synth_addr(RX_CP_CURRENT, tx), 0x80),
                put(synth_addr(RX_CP_CONFIG, tx), CP_OFFSET_OFF),
                put(
                    synth_addr(RX_VCO_CAL, tx),
                    VCO_CAL_EN | (vco_cal_count(fdd, ref_clk) << 2) | 2,
                ),
            ]@,
        );
        // the stored conf3 stays as is, so half duplex comes back later
        let full_duplex = if fdd {
            ready
        } else {
            ready.run([update(PARALLEL_PORT_CONF3, HALF_DUPLEX_MODE, 0)]@)
        };
        full_duplex.run(
            [
                put(ENSM_CONFIG2, DUAL_SYNTH_MODE),
                put(ENSM_CONFIG1, FORCE_ALERT_STATE | TO_ALERT),
                put(ENSM_MODE, FDD_MODE),
                put(synth_addr(RX_CP_CONFIG, tx), CP_OFFSET_OFF | CP_CAL_ENABLE),
            ]@,
        ).wait_until(synth_addr(RX_CAL_STATUS, tx), CP_CAL_VALID, CP_CAL_VALID, 120)
    }

    /// Changes the clock state.
    pub open spec fn set_clk(self, clk: ClockState) -> Flow {
        let st = self.state.v;
        self.set(EngineState { clk, ..st })
    }

    /// VCO and loop filter settings for a VCO frequency, from the tables.
    #[verifier::opaque]
    pub open spec fn rfpll_vco_init(self, tx: bool, vco_freq: u64, ref_clk: HertzU32) -> Flow {
        let st = self.state.v;
        let fdd_table = wants_fdd_table(&st.mode, &st.clk);
        let e = self.tables.synth_entry(
            fdd_table,
            reference_range(ref_clk) as int,
            vco_freq / 1_000_000,
        );
        self.set_clk(with_table(st.clk, tx, !fdd_table)).run(
            [
                put(synth_addr(RX_VCO_OUTPUT, tx), e.vco_output_level | PORB_VCO_LOGIC),
                update(synth_addr(RX_ALC_VARACTOR, tx), VCO_VARACTOR, e.vco_varactor),
                put(synth_addr(RX_VCO_BIAS1, tx), e.vco_bias_ref | (e.vco_bias_tcf << 3)),
                put(synth_addr(RX_FORCE_VCO_TUNE1, tx), e.vco_cal_offset << 3),
                put(synth_addr(RX_VCO_VARACTOR_CONTROL1, tx), e.vco_varactor_reference),
                put(synth_addr(RX_VCO_CAL_REF, tx), 0),
                put(synth_addr(RX_VCO_VARACTOR_CONTROL0, tx), VCO_VARACTOR_REFERENCE_TCF),
                update(synth_addr(RX_CP_CURRENT, tx), CHARGE_PUMP_CURRENT, e.charge_pump_current),
                put(synth_addr(RX_LOOP_FILTER1, tx), (e.lf_c2 << 4) | e.lf_c1),
                put(synth_addr(RX_LOOP_FILTER2, tx), (e.lf_r1 << 4) | e.lf_c3),
                put(synth_addr(RX_LOOP_FILTER3, tx), e.lf_r3),
            ]@,
        )
    }

    /// Programs one synth.
    #[verifier::opaque]
    pub open spec fn rfpll_pass(self, tx: bool, words: RfWords, parent: HertzU32) -> Flow {
        let upper = self.rfpll_vco_init(tx, words.vco, parent).read(
            synth_addr(RX_INTEGER_BYTE1, tx),
        );
        match upper.r {
            Err(error) => upper.done(),
            Ok(byte) => upper.e.run(
                [
                    Op::Burst { addr: synth_word_addr(tx), len: 5, data: synth_word(words, byte) },
                    update(RFPLL_DIVIDERS, vco_div_mask(tx), vco_div_field(tx, words.vco_div)),
                ]@,
            ),
        }
    }

    /// Waits until a synth locks. What came of it counts only in the end.
    pub open spec fn rfpll_lock(self, tx: bool) -> Flow {
        self.wait_until(synth_addr(RX_CP_OVERRANGE_VCO_LOCK, tx), VCO_LOCK, VCO_LOCK, 120)
    }

    /// Words for the other synth where it has to be programmed again: the same ones at the same
    /// LO, or else the ones for its own LO.
    pub open spec fn retune_words(
        self,
        other: bool,
        words: RfWords,
        parent: HertzU32,
    ) -> Option<RfWords> {
        let st = self.state.v;
        if !needs_retune(&st.mode, &st.clk) {
            None
        } else if same_lo(&st.clk) {
            Some(words)
        } else {
            match lo_of(&st.clk, other) {
                None => None,
                Some(lo) => Some(rf_words(lo.carrier.hz(), parent.raw)),
            }
        }
    }

    /// Programs a synth, then the other one where that has to follow. The outcome of the last lock
    /// is the one that counts.
    #[verifier::opaque]
    pub open spec fn rfpll_passes(
        self,
        tx: bool,
        words: RfWords,
        parent: HertzU32,
    ) -> Reply<Option<Fault>> {
        let first = self.rfpll_pass(tx, words, parent);
        match first.err {
            Some(error) => Reply { e: first.e, r: Err(error) },
            None => {
                let lock = first.e.rfpll_lock(tx);
                match lock.e.retune_words(!tx, words, parent) {
                    None => Reply { e: lock.e, r: Ok(lock.err) },
                    Some(other_words) => {
                        let second = lock.e.rfpll_pass(!tx, other_words, parent);
                        match second.err {
                            Some(error) => Reply { e: second.e, r: Err(error) },
                            None => {
                                let relock = second.e.rfpll_lock(!tx);
                                Reply { e: relock.e, r: Ok(relock.err) }
                            },
                        }
                    },
                }
            },
        }
    }

    /// Remembers the LO of the RX or TX synth.
    pub open spec fn note_lo(self, tx: bool, freq: u64) -> Flow {
        let clk = self.state.v.clk;
        self.set_clk(
            with_lo(
                clk,
                tx,
                Some(
                    LoSetting {
                        carrier: Carrier::at(freq),
                        use_tdd_table: uses_tdd_table(lo_of(&clk, tx)),
                    },
                ),
            ),
        )
    }

    /// Programs the RX or TX synth to a frequency. In TDD the VCO calibration can be skipped on
    /// the way from TX or RX to alert: the lock detector is on only while the synth is programmed.
    #[verifier::opaque]
    pub open spec fn program_rfpll(self, tx: bool, freq: u64, parent: HertzU32) -> Flow {
        let skip_vco_cal = self.state.v.mode.tdd_skip_vco_cal;
        let min = if tx {
            MIN_TX_CARRIER_FREQ_HZ
        } else {
            MIN_RX_CARRIER_FREQ_HZ
        };
        if freq < min || freq > MAX_CARRIER_FREQ_HZ || parent.raw == 0 {
            self.fail(Ad9361Error::InvalidRate)
        } else {
            let noted = self.note_lo(tx, freq);
            let ready = if skip_vco_cal {
                noted.trx_vco_cal_control(tx, true)
            } else {
                noted
            };
            let passes = ready.rfpll_passes(tx, rf_words(freq, parent.raw), parent);
            match passes.r {
                Err(error) => passes.done(),
                Ok(lock) => {
                    let off = if skip_vco_cal {
                        passes.e.trx_vco_cal_control(tx, false)
                    } else {
                        passes.e.start()
                    };
                    if off.err is Some {
                        off
                    } else {
                        Flow { e: off.e, err: lock }
                    }
                },
            }
        }
    }

    /// Programs the BBPLL and waits for lock. The integer word has eight bits.
    #[verifier::opaque]
    pub open spec fn program_bbpll(self, rate: HertzU32, parent: HertzU32) -> Flow {
        let words = bbpll_words_for(rate.raw, parent.raw);
        if parent.raw < 128 || words.integer > 255 {
            self.fail(Ad9361Error::InvalidRate)
        } else {
            self.run(bbpll_program(rate, parent)).wait_until(
                CH1_OVERFLOW,
                BBPLL_LOCK,
                BBPLL_LOCK,
                120,
            )
        }
    }

    /// Remembers the BBPLL rate.
    pub open spec fn set_cached_bbpll(self, rate: HertzU32) -> Flow {
        let clk = self.state.v.clk;
        self.set_clk(
            ClockState { rates: Ad9361ClockRates { bbpll: rate, ..clk.rates }, ..clk },
        )
    }

    /// Sets the BBPLL to the closest rate the cached BB reference allows, within its limits, and
    /// refreshes the cache from the chip. Nothing happens if the cache has the rate already.
    #[verifier::opaque]
    pub open spec fn set_bbpll_rate(self, rate: HertzU32) -> Flow {
        let parent = self.state.v.clk.rates.bb_ref;
        if self.state.v.clk.rates.bbpll == rate {
            self.start()
        } else if parent.raw == 0 {
            self.fail(Ad9361Error::InvalidRate)
        } else {
            let scaler = self.program_bbpll(
                rounded_bbpll(clamped(rate.raw, MIN_BBPLL_FREQ, MAX_BBPLL_FREQ), parent.raw),
                parent,
            ).read_bbpll_clock_scaler();
            match scaler.r {
                Err(error) => scaler.done(),
                Ok(pll) => scaler.e.set_cached_bbpll(
                    HertzU32 { raw: pll.exact_rate(parent.raw) as u64 as u32 },
                ),
            }
        }
    }
}

/// Programming a synth only changes which table its LO is set up from.
pub(crate) proof fn lemma_pass_state(e: EngineView, tx: bool, words: RfWords, parent: HertzU32)
    ensures
        ({
            let after = e.rfpll_pass(tx, words, parent).e.state.v;
            after == EngineState {
                clk: with_table(
                    e.state.v.clk,
                    tx,
                    !wants_fdd_table(&e.state.v.mode, &e.state.v.clk),
                ),
                ..e.state.v
            }
        }),
{
    reveal(EngineView::rfpll_pass);
    reveal(EngineView::rfpll_vco_init);
    assert forall|at: EngineView, ops: Seq<Op>| #[trigger] at.run(ops).e.state == at.state by {
        law_run_keeps_state(at, ops);
    }
    assert forall|at: EngineView, addr: u16| #[trigger] at.read(addr).e.state == at.state by {
        law_read_keeps_state(at, addr);
    }
}

/// One more pass is enough: where the other synth had to follow, both are set up from matching
/// tables afterwards and neither has to be programmed again.
pub proof fn law_two_passes_settle(e: EngineView, tx: bool, words: RfWords, parent: HertzU32)
    requires
        lo_of(&e.state.v.clk, tx) is Some,
    ensures
        ({
            let lock = e.rfpll_pass(tx, words, parent).e.rfpll_lock(tx).e;
            let st = lock.state.v;
            match lock.retune_words(!tx, words, parent) {
                None => !needs_retune(&st.mode, &st.clk),
                Some(other) => {
                    let second = lock.rfpll_pass(!tx, other, parent).e.rfpll_lock(!tx).e.state.v;
                    !needs_retune(&second.mode, &second.clk)
                },
            }
        }),
{
    lemma_pass_state(e, tx, words, parent);
    let first = e.rfpll_pass(tx, words, parent).e;
    law_poll_keeps_state(
        first,
        synth_addr(RX_CP_OVERRANGE_VCO_LOCK, tx),
        VCO_LOCK,
        VCO_LOCK,
        120,
        MAX_POLLS as nat,
    );
    let lock = first.rfpll_lock(tx).e;
    if let Some(other) = lock.retune_words(!tx, words, parent) {
        lemma_pass_state(lock, !tx, other, parent);
        law_poll_keeps_state(
            lock.rfpll_pass(!tx, other, parent).e,
            synth_addr(RX_CP_OVERRANGE_VCO_LOCK, !tx),
            VCO_LOCK,
            VCO_LOCK,
            120,
            MAX_POLLS as nat,
        );
    }
}

/// What is written for a carrier reads back as the same words, whatever else is in the registers,
/// and stands for a VCO that is off by half a step of the fractional word and one hertz at most.
pub proof fn law_lo_reads_back(lo: u64, parent: u32, current: u8, dividers: u8, tx: bool)
    requires
        MIN_TX_CARRIER_FREQ_HZ <= lo <= MAX_CARRIER_FREQ_HZ,
        2048 * parent > 12_000_000_000,
    ensures
        ({
            let words = rf_words(lo, parent);
            let scaler = rfpll_scaler(
                synth_word(words, current),
                merged(dividers, vco_div_mask(tx), vco_div_field(tx, words.vco_div)),
                tx,
            );
            let vco = vco_for(lo as int).0;
            &&& scaler.integer == words.integer
            &&& scaler.fract == words.fract
            &&& scaler.vco_div == words.vco_div
            &&& 2 * RFPLL_MODULUS * (scaler.vco(parent) - vco) <= parent
            &&& 2 * RFPLL_MODULUS * (vco - scaler.vco(parent)) < parent + 2 * RFPLL_MODULUS
        }),
{
    law_vco_range(lo);
    let (vco, doublings) = vco_for(lo as int);
    let modulus = RFPLL_MODULUS as int;
    law_words_reproduce_the_rate(vco, parent as int, modulus);
    let (integer, fract) = fractional_words(vco, parent as int, modulus);
    let words = rf_words(lo, parent);
    assert(integer < 0x800) by (nonlinear_arith)
        requires
            integer == vco / parent as int,
            0 <= vco <= 12_000_000_000,
            2048 * parent > 12_000_000_000,
    ;
    let div = words.vco_div;
    let field = merged(dividers, vco_div_mask(tx), vco_div_field(tx, div));
    assert(tx ==> ((dividers & !0xF0) | ((div << 4) & 0xF0)) / 16 == div) by (bit_vector)
        requires
            div <= 6,
    ;
    assert(!tx ==> ((dividers & !0x0F) | (div & 0x0F)) % 16 == div) by (bit_vector)
        requires
            div <= 6,
    ;
    let scaler = rfpll_scaler(synth_word(words, current), field, tx);
    lemma_synth_word(words, current);
    let p = parent as int;
    let q = (p * fract) / modulus;
    let made = (integer * modulus + fract) * p;
    assert(modulus * q <= p * fract < modulus * q + modulus) by (nonlinear_arith)
        requires
            q == (p * fract) / modulus,
            modulus > 0,
    ;
    assert(made == modulus * (p * integer) + p * fract) by (nonlinear_arith)
        requires
            made == (integer * modulus + fract) * p,
    ;
    assert(vco * modulus == modulus * vco) by (nonlinear_arith);
    assert(scaler.vco(parent) == q + p * integer);
}

proof fn lemma_synth_word(words: RfWords, current: u8)
    requires
        words.integer < 0x800,
        words.fract < 0x80_0000,
    ensures
        synth_word(words, current) / 0x1_0000 % 0x80_0000 == words.fract,
        synth_word(words, current) % 0x800 == words.integer,
{
}

/// The BBPLL words read back as they were written.
#[verifier::spinoff_prover]
pub proof fn law_bbpll_words_read_back(words: PllScaler)
    requires
        words.integer < 0x100,
        words.fract < 0x100_0000,
    ensures
        bbpll_scaler(
            word_of(
                seq![
                    words.integer as u8,
                    words.fract as u8,
                    (words.fract >> 8) as u8,
                    (words.fract >> 16) as u8,
                ],
            ) as u64,
        ) == words,
{
    let (integer, fract) = (words.integer, words.fract);
    assert(integer as u8 == integer) by (bit_vector)
        requires
            integer < 0x100,
    ;
    assert(fract as u8 == fract % 256 && (fract >> 8) as u8 == fract / 256 % 256 && (fract >> 16) as u8
        == fract / 65536) by (bit_vector)
        requires
            fract < 0x100_0000,
    ;
    let bytes = seq![
        integer as u8,
        fract as u8,
        (fract >> 8) as u8,
        (fract >> 16) as u8,
    ];
    reveal_with_fuel(word_of, 5);
    assert(bytes.drop_last() =~= seq![integer as u8, fract as u8, (fract >> 8) as u8]);
    assert(bytes.drop_last().drop_last() =~= seq![integer as u8, fract as u8]);
    assert(bytes.drop_last().drop_last().drop_last() =~= seq![integer as u8]);
    assert(bytes.drop_last().drop_last().drop_last().drop_last() =~= Seq::empty());
}

impl<'a> Engine<'a> {
    /// Charge pump calibration of the RX or TX synth.
    pub fn txrx_synth_cp_calib(&mut self, ref_clk: HertzU32, tx: bool) -> (r: Result<(), Fault>)
        ensures
            flow(final(self)@, r) == old(self)@.txrx_synth_cp_calib(ref_clk, tx),
    {
        reveal(EngineView::txrx_synth_cp_calib);
        let fdd = self.state.v.mode.fdd;
        self.run(&[
            put(synth_addr(RX_CP_LEVEL_DETECT, tx), 0x17),
            put(synth_addr(RX_DSM_SETUP1, tx), 0x00),
            put(synth_addr(RX_LO_GEN_POWER_MODE, tx), 0x00),
            put(synth_addr(RX_VCO_LDO, tx), 0x0B),
            put(synth_addr(RX_VCO_PD_OVERRIDES, tx), 0x02),
            put(synth_addr(RX_CP_CURRENT, tx), 0x80),
            put(synth_addr(RX_CP_CONFIG, tx), CP_OFFSET_OFF),
            put(
                synth_addr(RX_VCO_CAL, tx),
                VCO_CAL_EN | (vco_cal_count(fdd, ref_clk) << 2) | 2,
            ),
        ])?;
        if !fdd {
            self.run(&[update(PARALLEL_PORT_CONF3, HALF_DUPLEX_MODE, 0)])?;
        }
        self.run(&[
            put(ENSM_CONFIG2, DUAL_SYNTH_MODE),
            put(ENSM_CONFIG1, FORCE_ALERT_STATE | TO_ALERT),
            put(ENSM_MODE, FDD_MODE),
            put(synth_addr(RX_CP_CONFIG, tx), CP_OFFSET_OFF | CP_CAL_ENABLE),
        ])?;
        self.wait_until(synth_addr(RX_CAL_STATUS, tx), CP_CAL_VALID, CP_CAL_VALID, 120)
    }

    /// VCO and loop filter settings for `vco_freq` from the tables.
    pub fn rfpll_vco_init(&mut self, tx: bool, vco_freq: u64, ref_clk: HertzU32) -> (r: Result<
        (),
        Fault,
    >)
        ensures
            flow(final(self)@, r) == old(self)@.rfpll_vco_init(tx, vco_freq, ref_clk),
    {
        reveal(EngineView::rfpll_vco_init);
        let fdd_table = wants_fdd_table(&self.state.v.mode, &self.state.v.clk);
        let e: SynthEntry = self.tables.synth_entry_for(
            fdd_table,
            reference_range(ref_clk),
            vco_freq / 1_000_000,
        );
        self.state.v.clk = with_table(self.state.v.clk, tx, !fdd_table);
        self.run(&[
            put(synth_addr(RX_VCO_OUTPUT, tx), e.vco_output_level | PORB_VCO_LOGIC),
            update(synth_addr(RX_ALC_VARACTOR, tx), VCO_VARACTOR, e.vco_varactor),
            put(synth_addr(RX_VCO_BIAS1, tx), e.vco_bias_ref | (e.vco_bias_tcf << 3)),
            put(synth_addr(RX_FORCE_VCO_TUNE1, tx), e.vco_cal_offset << 3),
            put(synth_addr(RX_VCO_VARACTOR_CONTROL1, tx), e.vco_varactor_reference),
            put(synth_addr(RX_VCO_CAL_REF, tx), 0),
            put(synth_addr(RX_VCO_VARACTOR_CONTROL0, tx), VCO_VARACTOR_REFERENCE_TCF),
            update(synth_addr(RX_CP_CURRENT, tx), CHARGE_PUMP_CURRENT, e.charge_pump_current),
            put(synth_addr(RX_LOOP_FILTER1, tx), (e.lf_c2 << 4) | e.lf_c1),
            put(synth_addr(RX_LOOP_FILTER2, tx), (e.lf_r1 << 4) | e.lf_c3),
            put(synth_addr(RX_LOOP_FILTER3, tx), e.lf_r3),
        ])
    }

    /// Programs one synth.
    fn rfpll_pass(&mut self, tx: bool, words: RfWords, parent: HertzU32) -> (r: Result<(), Fault>)
        ensures
            flow(final(self)@, r) == old(self)@.rfpll_pass(tx, words, parent),
    {
        reveal(EngineView::rfpll_pass);
        self.rfpll_vco_init(tx, words.vco, parent)?;
        // upper integer bits share the register with other stuff
        let byte: u8 = self.read(synth_addr(RX_INTEGER_BYTE1, tx))?;
        self.run(&[
            Op::Burst { addr: synth_word_addr(tx), len: 5, data: synth_word(words, byte) },
            update(RFPLL_DIVIDERS, vco_div_mask(tx), vco_div_field(tx, words.vco_div)),
        ])
    }

    /// Waits until a synth locks. The error is returned as a value.
    fn rfpll_lock(&mut self, tx: bool) -> (lock: Option<Fault>)
        ensures
            (Flow { e: final(self)@, err: lock }) == old(self)@.rfpll_lock(tx),
    {
        match self.wait_until(synth_addr(RX_CP_OVERRANGE_VCO_LOCK, tx), VCO_LOCK, VCO_LOCK, 120) {
            Ok(()) => None,
            Err(error) => Some(error),
        }
    }

    /// Words for the other synth where it has to be programmed again.
    fn retune_words(&self, other: bool, words: RfWords, parent: HertzU32) -> (r: Option<RfWords>)
        requires
            parent.raw > 0,
        ensures
            r == self@.retune_words(other, words, parent),
    {
        if !needs_retune(&self.state.v.mode, &self.state.v.clk) {
            return None;
        }
        if same_lo(&self.state.v.clk) {
            return Some(words);
        }
        match lo_of(&self.state.v.clk, other) {
            None => None,
            Some(lo) => Some(words_for(lo.carrier, parent.raw)),
        }
    }

    /// Programs a synth, then the other one where that has to follow.
    fn rfpll_passes(&mut self, tx: bool, words: RfWords, parent: HertzU32) -> (r: Result<
        Option<Fault>,
        Fault,
    >)
        requires
            parent.raw > 0,
        ensures
            (Reply { e: final(self)@, r }) == old(self)@.rfpll_passes(tx, words, parent),
    {
        reveal(EngineView::rfpll_passes);
        self.rfpll_pass(tx, words, parent)?;
        let lock = self.rfpll_lock(tx);
        match self.retune_words(!tx, words, parent) {
            None => Ok(lock),
            Some(other_words) => {
                self.rfpll_pass(!tx, other_words, parent)?;
                Ok(self.rfpll_lock(!tx))
            },
        }
    }

    /// Programs the synth to `freq` off `parent` and waits for lock.
    pub fn program_rfpll(&mut self, tx: bool, freq: u64, parent: HertzU32) -> (r: Result<(), Fault>)
        ensures
            flow(final(self)@, r) == old(self)@.program_rfpll(tx, freq, parent),
    {
        reveal(EngineView::program_rfpll);
        let skip_vco_cal = self.state.v.mode.tdd_skip_vco_cal;
        let min: u64 = if tx {
            MIN_TX_CARRIER_FREQ_HZ
        } else {
            MIN_RX_CARRIER_FREQ_HZ
        };
        if freq < min || freq > MAX_CARRIER_FREQ_HZ || parent.raw == 0 {
            return Err(Ad9361Error::InvalidRate);
        }
        let carrier = Carrier::new(freq);
        let words: RfWords = words_for(carrier, parent.raw);
        let use_tdd_table = uses_tdd_table(lo_of(&self.state.v.clk, tx));
        self.state.v.clk = with_lo(
            self.state.v.clk,
            tx,
            Some(LoSetting { carrier, use_tdd_table }),
        );
        if skip_vco_cal {
            self.trx_vco_cal_control(tx, true)?;
        }
        let lock = self.rfpll_passes(tx, words, parent)?;
        if skip_vco_cal {
            self.trx_vco_cal_control(tx, false)?;
        }
        match lock {
            None => Ok(()),
            Some(error) => Err(error),
        }
    }

    /// Programs the BBPLL and waits for lock. `rate` has to be validated already.
    pub fn program_bbpll(&mut self, rate: HertzU32, parent: HertzU32) -> (r: Result<(), Fault>)
        ensures
            flow(final(self)@, r) == old(self)@.program_bbpll(rate, parent),
    {
        reveal(EngineView::program_bbpll);
        if parent.raw < 128 {
            return Err(Ad9361Error::InvalidRate);
        }
        let (integer, fract) = bbpll_words(rate.raw as u64, parent.raw as u64);
        if integer > 255 {
            return Err(Ad9361Error::InvalidRate);
        }
        let words = PllScaler { fract, integer };
        let current: u8 = charge_pump_current(rate.raw, parent.raw);
        self.run(&[
            put(CP_CURRENT, current),
            // LOOP_FILTER_3, _2, _1 (burst counts down)
            Op::Burst { addr: LOOP_FILTER3, len: 3, data: 0x355BE8 },
            // allow cal, count 1024 for best accuracy
            put(VCO_CONTROL, FREQ_CAL_ENABLE | FREQ_CAL_COUNT_LENGTH),
            // cal clock REFCLK/4, more accurate
            put(SDM_CONTROL, CAL_CLOCK_DIV_4),
            put(INTEGER_BB_FREQ_WORD, words.integer as u8),
            put(FRACT_BB_FREQ_WORD3, words.fract as u8),
            put(FRACT_BB_FREQ_WORD2, (words.fract >> 8) as u8),
            put(FRACT_BB_FREQ_WORD1, (words.fract >> 16) as u8),
            // start cal, then clear the bit
            put(SDM_CONTROL1, INIT_BB_FO_CAL | BBPLL_RESET_BAR),
            put(SDM_CONTROL1, BBPLL_RESET_BAR),
            // more BBPLL KV and phase margin
            put(VCO_PROGRAM1, 0x86),
            put(VCO_PROGRAM2, 0x01),
            put(VCO_PROGRAM2, 0x05),
        ])?;
        self.wait_until(CH1_OVERFLOW, BBPLL_LOCK, BBPLL_LOCK, 120)
    }

    /// Sets the BBPLL to the closest rate the cached BB reference allows, within
    /// `MIN_BBPLL_FREQ..=MAX_BBPLL_FREQ`. Updates the cache.
    pub fn set_bbpll_rate(&mut self, rate: HertzU32) -> (r: Result<(), Fault>)
        ensures
            flow(final(self)@, r) == old(self)@.set_bbpll_rate(rate),
    {
        reveal(EngineView::set_bbpll_rate);
        if self.state.v.clk.rates.bbpll == rate {
            return Ok(());
        }
        let parent: HertzU32 = self.state.v.clk.rates.bb_ref;
        if parent.raw == 0 {
            return Err(Ad9361Error::InvalidRate);
        }
        let rate: u32 = clamped(rate.raw, MIN_BBPLL_FREQ, MAX_BBPLL_FREQ);
        let (integer, fract) = bbpll_words(rate as u64, parent.raw as u64);
        proof {
            lemma_bbpll_words_fit(rate, parent.raw);
        }
        let rounded: HertzU32 = PllScaler { fract, integer }.rate_from_parent(parent);
        self.program_bbpll(rounded, parent)?;
        let pll: PllScaler = self.read_bbpll_clock_scaler()?;
        self.state.v.clk.rates.bbpll = pll.rate_from_parent(parent);
        Ok(())
    }
}

/// How far apart two frequencies are.
#[verifier::allow_in_spec]
pub fn frequency_distance(a: u64, b: u64) -> u64
    returns
        (if a >= b {
            (a - b) as u64
        } else {
            (b - a) as u64
        }),
{
    if a >= b {
        a - b
    } else {
        b - a
    }
}

impl EngineView {
    /// Remembers the rate of the RX or TX synth.
    pub open spec fn set_cached_rfpll(self, tx: bool, rate: HertzU64) -> Flow {
        let clk = self.state.v.clk;
        if tx {
            self.set_clk(
                ClockState { rates: Ad9361ClockRates { tx_rfpll: rate, ..clk.rates }, ..clk },
            )
        } else {
            self.set_clk(
                ClockState { rates: Ad9361ClockRates { rx_rfpll: rate, ..clk.rates }, ..clk },
            )
        }
    }

    /// Remembers the TX LO of the last TX quadrature calibration.
    pub open spec fn set_quad_freq(self, freq: u64) -> Flow {
        let st = self.state.v;
        self.set(
            EngineState {
                cal: CalibrationState { last_tx_quad_cal_freq: freq, ..st.cal },
                ..st
            },
        )
    }

    /// Programs the RX or TX synth and refreshes its rate in the cache. RX also gets the gain
    /// table for the new band.
    #[verifier::opaque]
    pub open spec fn retune_rfpll(self, tx: bool, freq: HertzU64, parent: HertzU32) -> Flow {
        let programmed = self.program_rfpll(tx, freq.raw, parent);
        let loaded = if tx {
            programmed
        } else {
            programmed.load_gain_table(freq.raw, GainTableDest::Both)
        };
        let scaler = loaded.read_rfpll_scaler(tx);
        match scaler.r {
            Err(error) => scaler.done(),
            Ok(pll) => scaler.e.set_cached_rfpll(tx, HertzU64 { raw: pll.rate(parent.raw) }),
        }
    }

    /// Redoes the TX quadrature calibration if that is on and the TX LO moved by more than the
    /// threshold since the last one.
    #[verifier::opaque]
    pub open spec fn recalibrate_tx(self, freq: u64) -> Flow {
        let cal = self.state.v.cal;
        if cal.auto_cal_en && frequency_distance(cal.last_tx_quad_cal_freq, freq)
            > cal.cal_threshold_freq {
            let result = self.tx_quad_calib_run();
            result.e.set_quad_freq(freq).after(result.err)
        } else {
            self.start()
        }
    }

    /// Sets the RX or TX LO. Nothing happens if the cache has the frequency already.
    #[verifier::opaque]
    pub open spec fn set_rfpll_rate(self, tx: bool, freq: HertzU64) -> Flow {
        let rates = self.state.v.clk.rates;
        let cached = if tx {
            rates.tx_rfpll
        } else {
            rates.rx_rfpll
        };
        let parent = if tx {
            rates.tx_ref
        } else {
            rates.rx_ref
        };
        if cached == freq {
            self.start()
        } else if tx {
            self.retune_rfpll(tx, freq, parent).recalibrate_tx(freq.raw)
        } else {
            self.retune_rfpll(tx, freq, parent)
        }
    }
}

/// The same steps, after others.
impl Flow {
    pub open spec fn txrx_synth_cp_calib(self, ref_clk: HertzU32, tx: bool) -> Flow {
        if self.err is Some {
            self
        } else {
            self.e.txrx_synth_cp_calib(ref_clk, tx)
        }
    }

    pub open spec fn set_clk(self, clk: ClockState) -> Flow {
        if self.err is Some {
            self
        } else {
            self.e.set_clk(clk)
        }
    }

    pub open spec fn rfpll_vco_init(self, tx: bool, vco_freq: u64, ref_clk: HertzU32) -> Flow {
        if self.err is Some {
            self
        } else {
            self.e.rfpll_vco_init(tx, vco_freq, ref_clk)
        }
    }

    pub open spec fn rfpll_pass(self, tx: bool, words: RfWords, parent: HertzU32) -> Flow {
        if self.err is Some {
            self
        } else {
            self.e.rfpll_pass(tx, words, parent)
        }
    }

    pub open spec fn rfpll_lock(self, tx: bool) -> Flow {
        if self.err is Some {
            self
        } else {
            self.e.rfpll_lock(tx)
        }
    }

    pub open spec fn rfpll_passes(
        self,
        tx: bool,
        words: RfWords,
        parent: HertzU32,
    ) -> Reply<Option<Fault>> {
        match self.err {
            Some(error) => Reply { e: self.e, r: Err(error) },
            None => self.e.rfpll_passes(tx, words, parent),
        }
    }

    pub open spec fn note_lo(self, tx: bool, freq: u64) -> Flow {
        if self.err is Some {
            self
        } else {
            self.e.note_lo(tx, freq)
        }
    }

    pub open spec fn program_rfpll(self, tx: bool, freq: u64, parent: HertzU32) -> Flow {
        if self.err is Some {
            self
        } else {
            self.e.program_rfpll(tx, freq, parent)
        }
    }

    pub open spec fn program_bbpll(self, rate: HertzU32, parent: HertzU32) -> Flow {
        if self.err is Some {
            self
        } else {
            self.e.program_bbpll(rate, parent)
        }
    }

    pub open spec fn set_cached_bbpll(self, rate: HertzU32) -> Flow {
        if self.err is Some {
            self
        } else {
            self.e.set_cached_bbpll(rate)
        }
    }

    pub open spec fn set_bbpll_rate(self, rate: HertzU32) -> Flow {
        if self.err is Some {
            self
        } else {
            self.e.set_bbpll_rate(rate)
        }
    }

    pub open spec fn set_cached_rfpll(self, tx: bool, rate: HertzU64) -> Flow {
        if self.err is Some {
            self
        } else {
            self.e.set_cached_rfpll(tx, rate)
        }
    }

    pub open spec fn set_quad_freq(self, freq: u64) -> Flow {
        if self.err is Some {
            self
        } else {
            self.e.set_quad_freq(freq)
        }
    }

    pub open spec fn retune_rfpll(self, tx: bool, freq: HertzU64, parent: HertzU32) -> Flow {
        if self.err is Some {
            self
        } else {
            self.e.retune_rfpll(tx, freq, parent)
        }
    }

    pub open spec fn recalibrate_tx(self, freq: u64) -> Flow {
        if self.err is Some {
            self
        } else {
            self.e.recalibrate_tx(freq)
        }
    }

    pub open spec fn set_rfpll_rate(self, tx: bool, freq: HertzU64) -> Flow {
        if self.err is Some {
            self
        } else {
            self.e.set_rfpll_rate(tx, freq)
        }
    }
}

impl<'a> Engine<'a> {
    fn retune_rfpll(&mut self, tx: bool, freq: HertzU64, parent: HertzU32) -> (r: Result<(), Fault>)
        ensures
            flow(final(self)@, r) == old(self)@.retune_rfpll(tx, freq, parent),
    {
        reveal(EngineView::retune_rfpll);
        self.program_rfpll(tx, freq.raw, parent)?;
        if !tx {
            self.load_gain_table(freq.raw, GainTableDest::Both)?;
        }
        let pll: RfPllScaler = self.read_rfpll_scaler(tx)?;
        proof {
            pll.lemma_vco_fits(parent.raw);
        }
        let rate: HertzU64 = pll.rate_from_parent(parent);
        if tx {
            self.state.v.clk.rates.tx_rfpll = rate;
        } else {
            self.state.v.clk.rates.rx_rfpll = rate;
        }
        Ok(())
    }

    fn recalibrate_tx(&mut self, freq: u64) -> (r: Result<(), Fault>)
        ensures
            flow(final(self)@, r) == old(self)@.recalibrate_tx(freq),
    {
        reveal(EngineView::recalibrate_tx);
        let cal: CalibrationState = self.state.v.cal;
        if cal.auto_cal_en && frequency_distance(cal.last_tx_quad_cal_freq, freq)
            > cal.cal_threshold_freq {
            let result = self.tx_quad_calib_run();
            self.state.v.cal.last_tx_quad_cal_freq = freq;
            return result;
        }
        Ok(())
    }

    /// Sets the RX or TX LO and updates the cached rate.
    ///
    /// RX: also loads the gain table for the new band. TX: runs the TX quadrature calibration if
    /// the LO moved more than the threshold. RX LO changes are covered by the tracking
    /// calibrations.
    pub fn set_rfpll_rate(&mut self, tx: bool, freq: HertzU64) -> (r: Result<(), Fault>)
        ensures
            flow(final(self)@, r) == old(self)@.set_rfpll_rate(tx, freq),
    {
        reveal(EngineView::set_rfpll_rate);
        let rates: Ad9361ClockRates = self.state.v.clk.rates;
        let cached: HertzU64 = if tx {
            rates.tx_rfpll
        } else {
            rates.rx_rfpll
        };
        let parent: HertzU32 = if tx {
            rates.tx_ref
        } else {
            rates.rx_ref
        };
        if cached == freq {
            return Ok(());
        }
        self.retune_rfpll(tx, freq, parent)?;
        if tx {
            self.recalibrate_tx(freq.raw)?;
        }
        Ok(())
    }
}

} // verus!
