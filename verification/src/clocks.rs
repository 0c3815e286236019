//! Clock tree: cached rates and the divider and multiplier scalers.
use vstd::prelude::*;

use crate::engine::{
    flow, law_exchange_keeps_state, law_read_keeps_state, Engine, EngineView, Flow, Reply,
};
use crate::error::Ad9361Error;
use crate::link::{put, update, Fault, Request};
use crate::math::flag;
use crate::narrow::low_5_bits;
use crate::ports::Dac;
use crate::registers::{
    BBPLL, BBPLL_DIVIDER, CLOCK_CONTROL, DAC_CLK_DIV2, DCXO_COARSE_TUNE, DCXO_FINE_TUNE_HIGH,
    DCXO_FINE_TUNE_LOW, DEC3_ENABLE_DECIMATION, INTEGER_BB_FREQ_WORD, REF_DIVIDE_CONFIG1,
    REF_DIVIDE_CONFIG2, REF_FREQ_SCALER, RFPLL_DIVIDERS, RHB1_EN, RHB2_EN,
    RX_ENABLE_FILTER_CONTROL, RX_FIR_ENABLE_DECIMATION, RX_FRACT_BYTE2, RX_REF_DIVIDER_LSB,
    RX_REF_DIVIDER_MSB, THB1_EN, THB2_EN, THB3_ENABLE_INTERP, TX_ENABLE_FILTER_CONTROL,
    TX_FIR_ENABLE_INTERPOLATION, TX_FRACT_BYTE2, TX_REF_DIVIDER,
};
use crate::state::{ClockState, EngineState, FirState};
use crate::units::{HertzU32, HertzU64, U13, U6};
use crate::{RFPLL_MODULUS, BBPLL_MODULUS};

verus! {

/// A reference scaled by 2, 1, 1/2 or 1/4: the first of them that is at most `max`. Zero if none
/// is.
pub open spec fn scaled_reference(ref_in: u32, max: u32) -> int {
    if 2 * ref_in <= max {
        2 * ref_in
    } else if ref_in <= max {
        ref_in as int
    } else if ref_in <= 2 * max {
        ref_in as int / 2
    } else if ref_in <= 4 * max {
        ref_in as int / 4
    } else {
        0
    }
}

/// Scales a reference clock into the range up to `max`.
pub fn ref_div_sel(ref_in: HertzU32, max: HertzU32) -> (scaled: HertzU32)
    requires
        max.raw <= u32::MAX / 4,
    ensures
        scaled.raw == scaled_reference(ref_in.raw, max.raw),
{
    if ref_in.raw <= max.raw / 2 {
        return HertzU32 { raw: 2 * ref_in.raw };
    }
    if ref_in.raw <= max.raw {
        return ref_in;
    }
    if ref_in.raw <= max.raw * 2 {
        return HertzU32 { raw: ref_in.raw / 2 };
    }
    if ref_in.raw <= max.raw * 4 {
        return HertzU32 { raw: ref_in.raw / 4 };
    }
    HertzU32 { raw: 0 }
}

/// A scaled reference is in the window. Up to four times the window there is one, and it is in the
/// upper half unless the doubler is in use.
pub proof fn law_scaled_reference_window(ref_in: u32, max: u32)
    ensures
        0 <= scaled_reference(ref_in, max) <= max,
        max >= 4 && 0 < ref_in <= 4 * max ==> scaled_reference(ref_in, max) > 0,
        ref_in <= 4 * max && scaled_reference(ref_in, max) != 2 * ref_in ==> 2 * (scaled_reference(
            ref_in,
            max,
        ) + 1) > max,
        scaled_reference(ref_in, max) < ref_in ==> ref_in > max,
{
}

/// Fractional-N scaler of the baseband PLL.
#[derive(Debug, Clone, Copy, PartialEq, Eq, Structural)]
pub struct PllScaler {
    /// fractional part
    pub fract: u32,
    /// integer part
    pub integer: u32,
}

impl PllScaler {
    /// Rate in Hz before it is cut to 32 bits: the parent times integer plus fraction, the
    /// fraction rounded down.
    pub open spec fn exact_rate(self, parent: u32) -> int {
        (parent * self.fract) / BBPLL_MODULUS as int + parent * self.integer
    }

    pub fn rate_from_parent(&self, parent: HertzU32) -> (rate: HertzU32)
        requires
            self.exact_rate(parent.raw) <= u64::MAX,
        ensures
            rate.raw == self.exact_rate(parent.raw) as u64 as u32,
            self.exact_rate(parent.raw) <= u32::MAX ==> rate.raw == self.exact_rate(parent.raw),
    {
        let parent: u64 = parent.raw as u64;
        proof {
            assert(parent * self.fract <= 0xFFFF_FFFF * 0xFFFF_FFFF && parent * self.integer
                <= 0xFFFF_FFFF * 0xFFFF_FFFF) by (nonlinear_arith)
                requires
                    parent <= 0xFFFF_FFFF,
                    self.fract <= 0xFFFF_FFFF,
                    self.integer <= 0xFFFF_FFFF,
            ;
        }
        let fraction: u64 = (parent * self.fract as u64) / BBPLL_MODULUS as u64;
        let rate: u64 = fraction + parent * self.integer as u64;
        HertzU32 { raw: rate as u32 }
    }
}

/// RX or TX RF synth: fractional-N PLL plus VCO post-divider. The VCO runs at several GHz, way
/// past 32 bits, so everything is 64 bits wide until `vco_div` brings it back down.
#[derive(Debug, Clone, Copy, PartialEq, Eq, Structural)]
pub struct RfPllScaler {
    /// fractional part, 23 bits
    pub fract: u32,
    /// integer part, 11 bits
    pub integer: u32,
    /// VCO post-divider exponent, the VCO runs at `2^(vco_div + 1)` times the output
    pub vco_div: u32,
}

impl RfPllScaler {
    /// The widths of the register fields.
    pub open spec fn wf(self) -> bool {
        self.fract < 0x80_0000 && self.integer < 0x800 && self.vco_div < 16
    }

    /// VCO frequency in Hz: the parent times integer plus fraction, the fraction rounded down.
    pub open spec fn vco(self, parent: u32) -> int {
        (parent * self.fract) / RFPLL_MODULUS as int + parent * self.integer
    }

    /// Output in Hz.
    pub open spec fn rate(self, parent: u32) -> u64 {
        (self.vco(parent) as u64) >> (self.vco_div + 1)
    }

    /// The VCO frequency of words that fit their fields fits 64 bits.
    pub proof fn lemma_vco_fits(self, parent: u32)
        requires
            self.wf(),
        ensures
            0 <= self.vco(parent) <= u64::MAX,
    {
        assert(0 <= parent * self.fract <= 0xFFFF_FFFF * 0x80_0000 && 0 <= parent * self.integer
            <= 0xFFFF_FFFF * 0x800) by (nonlinear_arith)
            requires
                parent <= 0xFFFF_FFFF,
                self.fract <= 0x80_0000,
                self.integer <= 0x800,
        ;
    }

    pub fn rate_from_parent(&self, parent: HertzU32) -> (rate: HertzU64)
        requires
            self.vco(parent.raw) <= u64::MAX,
            self.vco_div < 63,
        ensures
            rate.raw == self.rate(parent.raw),
    {
        let parent: u64 = parent.raw as u64;
        proof {
            assert(0 <= parent * self.fract <= 0xFFFF_FFFF * 0xFFFF_FFFF && 0 <= parent
                * self.integer <= 0xFFFF_FFFF * 0xFFFF_FFFF) by (nonlinear_arith)
                requires
                    parent <= 0xFFFF_FFFF,
                    self.fract <= 0xFFFF_FFFF,
                    self.integer <= 0xFFFF_FFFF,
            ;
        }
        let fraction: u64 = (parent * self.fract as u64) / RFPLL_MODULUS as u64;
        let vco: u64 = fraction + parent * self.integer as u64;
        HertzU64 { raw: vco >> (self.vco_div + 1) }
    }
}

/// Multiplier and divider for a clock.
#[derive(Debug, Clone, Copy, PartialEq, Eq, Structural)]
pub struct ClockMulDiv {
    pub mult: u32,
    pub div: u32,
}

/// How far apart two rates are.
pub open spec fn distance(a: int, b: int) -> int {
    if a >= b {
        a - b
    } else {
        b - a
    }
}

impl ClockMulDiv {
    /// Multiplier that brings `parent` closest to `rate`, which is not the smaller one. The larger
    /// of two that are equally close, if the rate fits 32 bits.
    pub open spec fn closest_mult(rate: u32, parent: u32) -> int {
        let low = rate as int / parent as int;
        if (low + 1) * parent <= u32::MAX && distance((low + 1) * parent, rate as int) <= distance(
            low * parent,
            rate as int,
        ) {
            low + 1
        } else {
            low
        }
    }

    /// Divider that brings `parent` closest to `rate`, which is the smaller one. The smaller of two
    /// that are equally close.
    pub open spec fn closest_div(rate: u32, parent: u32) -> int {
        let low = parent as int / rate as int;
        if distance(parent as int / (low + 1), rate as int) < distance(
            parent as int / low,
            rate as int,
        ) {
            low + 1
        } else {
            low
        }
    }

    /// Closest multiplier or divider (one of them is 1) to get `rate` from `parent`. `None` if
    /// either rate is zero.
    pub open spec fn closest_ratio(rate: u32, parent: u32) -> Option<ClockMulDiv> {
        if rate == 0 || parent == 0 {
            None
        } else if rate >= parent {
            Some(ClockMulDiv { mult: Self::closest_mult(rate, parent) as u32, div: 1 })
        } else {
            Some(ClockMulDiv { mult: 1, div: Self::closest_div(rate, parent) as u32 })
        }
    }

    /// Whether it multiplies or divides, not both.
    pub open spec fn is_simple(self) -> bool {
        &&& self.mult >= 1
        &&& self.div >= 1
        &&& self.mult == 1 || self.div == 1
    }

    pub fn closest(rate: HertzU32, parent: HertzU32) -> (ratio: Option<Self>)
        ensures
            ratio == Self::closest_ratio(rate.raw, parent.raw),
            ratio is None <==> rate.raw == 0 || parent.raw == 0,
            ratio matches Some(found) ==> {
                &&& found.is_simple()
                &&& found.exact_rate(parent.raw) <= u32::MAX
                &&& forall|other: ClockMulDiv|
                    other.is_simple() && #[trigger] other.exact_rate(parent.raw) <= u32::MAX
                        ==> distance(found.exact_rate(parent.raw), rate.raw as int) <= distance(
                        other.exact_rate(parent.raw),
                        rate.raw as int,
                    )
            },
    {
        let ghost (goal, from) = (rate.raw, parent.raw);
        let rate: u64 = rate.raw as u64;
        let parent: u64 = parent.raw as u64;
        if rate == 0 || parent == 0 {
            return None;
        }
        proof {
            lemma_closest_bounds(goal, from);
            law_closest_ratio(goal, from, ClockMulDiv { mult: 1, div: 1 });
            lemma_simple_rate(ClockMulDiv { mult: 1, div: 1 }, from);
            assert forall|other: ClockMulDiv|
                other.is_simple() && #[trigger] other.exact_rate(from) <= u32::MAX implies distance(
                Self::closest_ratio(goal, from)->0.exact_rate(from),
                goal as int,
            ) <= distance(other.exact_rate(from), goal as int) by {
                law_closest_ratio(goal, from, other);
            }
        }
        if rate >= parent {
            let low: u64 = rate / parent;
            let below: u64 = low * parent;
            let above: u64 = below + parent;
            assert(above == (low + 1) * parent) by (nonlinear_arith)
                requires
                    above == low * parent + parent,
            ;
            let mult: u64 = if above <= u32::MAX as u64 && above - rate <= rate - below {
                low + 1
            } else {
                low
            };
            Some(ClockMulDiv { mult: mult as u32, div: 1 })
        } else {
            let low: u64 = parent / rate;
            let above: u64 = parent / low;
            let below: u64 = parent / (low + 1);
            let div: u64 = if rate - below < above - rate {
                low + 1
            } else {
                low
            };
            Some(ClockMulDiv { mult: 1, div: div as u32 })
        }
    }

    /// Rate in Hz before it is cut to 32 bits.
    pub open spec fn exact_rate(self, parent: u32) -> int {
        (parent * self.mult) / self.div as int
    }

    /// `parent * mult / div`
    pub open spec fn rate(self, parent: HertzU32) -> HertzU32 {
        HertzU32 { raw: self.exact_rate(parent.raw) as u64 as u32 }
    }

    pub fn rate_from_parent(&self, parent: HertzU32) -> (rate: HertzU32)
        requires
            self.div != 0,
        ensures
            rate == self.rate(parent),
            self.exact_rate(parent.raw) <= u32::MAX ==> rate.raw == self.exact_rate(parent.raw),
    {
        let parent: u64 = parent.raw as u64;
        let mult: u64 = self.mult as u64;
        proof {
            assert(parent * mult <= 0xFFFF_FFFF * 0xFFFF_FFFF) by (nonlinear_arith)
                requires
                    parent <= 0xFFFF_FFFF,
                    mult <= 0xFFFF_FFFF,
            ;
        }
        HertzU32 { raw: (parent * mult / self.div as u64) as u32 }
    }
}

/// Where the candidates for the closest ratio lie.
proof fn lemma_closest_bounds(rate: u32, parent: u32)
    requires
        rate > 0,
        parent > 0,
    ensures
        rate >= parent ==> {
            let low = rate as int / parent as int;
            &&& 1 <= low <= rate
            &&& low * parent <= rate < (low + 1) * parent
            &&& (low + 1) * parent <= u32::MAX ==> low + 1 <= u32::MAX
        },
        rate < parent ==> {
            let low = parent as int / rate as int;
            &&& 1 <= low <= u32::MAX
            &&& parent as int / low >= rate
            &&& low == u32::MAX ==> parent as int / low == rate
            &&& 0 <= parent as int / (low + 1) < rate
        },
{
    let (r, p) = (rate as int, parent as int);
    if rate >= parent {
        let low = r / p;
        vstd::arithmetic::div_mod::lemma_fundamental_div_mod(r, p);
        assert(1 <= low <= r && low * p <= r < (low + 1) * p && ((low + 1) * p <= u32::MAX ==> low
            + 1 <= u32::MAX)) by (nonlinear_arith)
            requires
                r == p * low + r % p,
                0 <= r % p < p,
                0 < p <= r,
        ;
    } else {
        let low = p / r;
        vstd::arithmetic::div_mod::lemma_fundamental_div_mod(p, r);
        assert(1 <= low <= p && low * r <= p < (low + 1) * r) by (nonlinear_arith)
            requires
                p == r * low + p % r,
                0 <= p % r < r,
                0 < r < p,
        ;
        let above = p / low;
        let below = p / (low + 1);
        vstd::arithmetic::div_mod::lemma_fundamental_div_mod(p, low);
        vstd::arithmetic::div_mod::lemma_fundamental_div_mod(p, low + 1);
        assert(above >= r) by (nonlinear_arith)
            requires
                p == low * above + p % low,
                0 <= p % low < low,
                low * r <= p,
                low >= 1,
        ;
        assert(0 <= below < r) by (nonlinear_arith)
            requires
                p == (low + 1) * below + p % (low + 1),
                0 <= p % (low + 1) < low + 1,
                0 <= p < (low + 1) * r,
                low >= 1,
        ;
        if low == u32::MAX as int {
            assert(r == 1 && p == low) by (nonlinear_arith)
                requires
                    low * r <= p <= u32::MAX,
                    low == u32::MAX,
                    r >= 1,
            ;
        }
    }
}

/// A ratio of which one part is 1 only multiplies or divides.
proof fn lemma_simple_rate(ratio: ClockMulDiv, parent: u32)
    requires
        ratio.is_simple(),
    ensures
        ratio.div == 1 ==> ratio.exact_rate(parent) == parent * ratio.mult,
        ratio.mult == 1 ==> ratio.exact_rate(parent) == parent as int / ratio.div as int,
{
    let product = parent * ratio.mult;
    let div = ratio.div as int;
    assert(div == 1 ==> product / div == product) by (nonlinear_arith);
    assert(ratio.mult == 1 ==> product == parent) by (nonlinear_arith)
        requires
            product == parent * ratio.mult,
    ;
}

/// The ratio found for two rates is the closest there is: no multiplier or divider makes a rate of
/// the parent that is nearer to the one asked for.
pub proof fn law_closest_ratio(rate: u32, parent: u32, other: ClockMulDiv)
    requires
        rate > 0,
        parent > 0,
        other.is_simple(),
        other.exact_rate(parent) <= u32::MAX,
    ensures
        ({
            let found = ClockMulDiv::closest_ratio(rate, parent)->0;
            &&& found.is_simple()
            &&& found.exact_rate(parent) <= u32::MAX
            &&& distance(found.exact_rate(parent), rate as int) <= distance(
                other.exact_rate(parent),
                rate as int,
            )
        }),
{
    lemma_closest_bounds(rate, parent);
    let (r, p) = (rate as int, parent as int);
    let found = ClockMulDiv::closest_ratio(rate, parent)->0;
    let (mult, div) = (other.mult as int, other.div as int);
    lemma_simple_rate(other, parent);
    lemma_simple_rate(found, parent);
    if rate >= parent {
        let low = r / p;
        assert(p * found.mult == found.mult * p) by (nonlinear_arith);
        if div == 1 {
            assert(mult <= low ==> p * mult <= low * p) by (nonlinear_arith)
                requires
                    p > 0,
            ;
            assert(mult >= low + 1 ==> p * mult >= (low + 1) * p) by (nonlinear_arith)
                requires
                    p > 0,
            ;
        } else {
            vstd::arithmetic::div_mod::lemma_div_is_ordered_by_denominator(p, 1, div);
            assert(p <= low * p) by (nonlinear_arith)
                requires
                    p > 0,
                    low >= 1,
            ;
        }
    } else {
        let low = p / r;
        vstd::arithmetic::div_mod::lemma_div_is_ordered_by_denominator(p, 1, low);
        if div == 1 {
            assert(p * mult >= p) by (nonlinear_arith)
                requires
                    p > 0,
                    mult >= 1,
            ;
        } else if div <= low {
            vstd::arithmetic::div_mod::lemma_div_is_ordered_by_denominator(p, div, low);
        } else {
            vstd::arithmetic::div_mod::lemma_div_is_ordered_by_denominator(p, low + 1, div);
        }
    }
}

/// The clocks that have a scaler of their own.
#[derive(Debug, Clone, Copy, PartialEq, Eq, Structural)]
pub enum Ad9361Clock {
    BbRef,
    RxRef,
    TxRef,
    Adc,
    R2,
    R1,
    ClkRf,
    RxSampl,
    Dac,
    T2,
    T1,
    ClkTf,
    TxSampl,
}

/// All clock rates of the chip in Hz.
///
/// A reference goes through the BB reference into the BBPLL, which feeds the ADC. The ADC feeds
/// the RX decimators (R2, R1, CLKRF) down to the RX sample rate. On the TX side the DAC feeds T2,
/// T1, CLKTF and the TX sample rate. The RF synths run from `rx_ref` and `tx_ref`.
///
/// `rx_rfpll` and `tx_rfpll` are the internal synths.
#[derive(Debug, Clone, Copy, PartialEq, Eq, Structural)]
pub struct Ad9361ClockRates {
    pub ext_ref: HertzU32,
    pub tx_ref: HertzU32,
    pub rx_ref: HertzU32,
    pub bb_ref: HertzU32,
    /// baseband PLL
    pub bbpll: HertzU32,
    pub adc: HertzU32,
    pub r2: HertzU32,
    pub r1: HertzU32,
    pub clkrf: HertzU32,
    pub rx_sampl: HertzU32,
    pub dac: HertzU32,
    pub t2: HertzU32,
    pub t1: HertzU32,
    pub clktf: HertzU32,
    pub tx_sampl: HertzU32,
    // 64 bit, the LO goes up to 6 GHz
    pub rx_rfpll: HertzU64,
    pub tx_rfpll: HertzU64,
}

impl Ad9361ClockRates {
    /// Only the reference is known, the rest gets read from the chip.
    pub open spec fn unread(ext_ref: HertzU32) -> Self {
        let zero = HertzU32 { raw: 0 };
        Ad9361ClockRates {
            ext_ref,
            tx_ref: zero,
            rx_ref: zero,
            bb_ref: zero,
            bbpll: zero,
            adc: zero,
            r2: zero,
            r1: zero,
            clkrf: zero,
            rx_sampl: zero,
            dac: zero,
            t2: zero,
            t1: zero,
            clktf: zero,
            tx_sampl: zero,
            rx_rfpll: HertzU64 { raw: 0 },
            tx_rfpll: HertzU64 { raw: 0 },
        }
    }

    pub fn uninitialized(ext_ref: HertzU32) -> (rates: Self)
        ensures
            rates == Self::unread(ext_ref),
    {
        let zero = HertzU32 { raw: 0 };
        Ad9361ClockRates {
            ext_ref,
            tx_ref: zero,
            rx_ref: zero,
            bb_ref: zero,
            bbpll: zero,
            adc: zero,
            r2: zero,
            r1: zero,
            clkrf: zero,
            rx_sampl: zero,
            dac: zero,
            t2: zero,
            t1: zero,
            clktf: zero,
            tx_sampl: zero,
            rx_rfpll: HertzU64 { raw: 0 },
            tx_rfpll: HertzU64 { raw: 0 },
        }
    }
}

/// Reference scaler field as a ratio: x1, /2, /4, x2.
#[verifier::allow_in_spec]
pub fn reference_ratio(scaler: u8) -> ClockMulDiv
    returns
        (match scaler {
            0 => ClockMulDiv { mult: 1, div: 1 },
            1 => ClockMulDiv { mult: 1, div: 2 },
            2 => ClockMulDiv { mult: 1, div: 4 },
            _ => ClockMulDiv { mult: 2, div: 1 },
        }),
{
    match scaler {
        0 => ClockMulDiv { mult: 1, div: 1 },
        1 => ClockMulDiv { mult: 1, div: 2 },
        2 => ClockMulDiv { mult: 1, div: 4 },
        _ => ClockMulDiv { mult: 2, div: 1 },
    }
}

/// Reference scaler field for a ratio, if the chip has it.
#[verifier::allow_in_spec]
pub fn reference_scaler(ratio: ClockMulDiv) -> Option<u8>
    returns
        (if ratio.mult == 1 && ratio.div == 1 {
            Some(0u8)
        } else if ratio.mult == 1 && ratio.div == 2 {
            Some(1u8)
        } else if ratio.mult == 1 && ratio.div == 4 {
            Some(2u8)
        } else if ratio.mult == 2 && ratio.div == 1 {
            Some(3u8)
        } else {
            None::<u8>
        }),
{
    if ratio.mult == 1 && ratio.div == 1 {
        Some(0)
    } else if ratio.mult == 1 && ratio.div == 2 {
        Some(1)
    } else if ratio.mult == 1 && ratio.div == 4 {
        Some(2)
    } else if ratio.mult == 2 && ratio.div == 1 {
        Some(3)
    } else {
        None
    }
}

/// Register with the scaler of a clock. RX_REF has its scaler in two registers, this is the second
/// one.
#[verifier::allow_in_spec]
pub fn scaler_addr(clock: Ad9361Clock) -> u16
    returns
        (match clock {
            Ad9361Clock::BbRef => CLOCK_CONTROL,
            Ad9361Clock::RxRef => REF_DIVIDE_CONFIG2,
            Ad9361Clock::TxRef => REF_DIVIDE_CONFIG2,
            Ad9361Clock::Adc => BBPLL,
            Ad9361Clock::R2 => RX_ENABLE_FILTER_CONTROL,
            Ad9361Clock::R1 => RX_ENABLE_FILTER_CONTROL,
            Ad9361Clock::ClkRf => RX_ENABLE_FILTER_CONTROL,
            Ad9361Clock::RxSampl => RX_ENABLE_FILTER_CONTROL,
            Ad9361Clock::Dac => BBPLL,
            Ad9361Clock::T2 => TX_ENABLE_FILTER_CONTROL,
            Ad9361Clock::T1 => TX_ENABLE_FILTER_CONTROL,
            Ad9361Clock::ClkTf => TX_ENABLE_FILTER_CONTROL,
            Ad9361Clock::TxSampl => TX_ENABLE_FILTER_CONTROL,
        }),
{
    match clock {
        Ad9361Clock::BbRef => CLOCK_CONTROL,
        Ad9361Clock::RxRef => REF_DIVIDE_CONFIG2,
        Ad9361Clock::TxRef => REF_DIVIDE_CONFIG2,
        Ad9361Clock::Adc => BBPLL,
        Ad9361Clock::R2 => RX_ENABLE_FILTER_CONTROL,
        Ad9361Clock::R1 => RX_ENABLE_FILTER_CONTROL,
        Ad9361Clock::ClkRf => RX_ENABLE_FILTER_CONTROL,
        Ad9361Clock::RxSampl => RX_ENABLE_FILTER_CONTROL,
        Ad9361Clock::Dac => BBPLL,
        Ad9361Clock::T2 => TX_ENABLE_FILTER_CONTROL,
        Ad9361Clock::T1 => TX_ENABLE_FILTER_CONTROL,
        Ad9361Clock::ClkTf => TX_ENABLE_FILTER_CONTROL,
        Ad9361Clock::TxSampl => TX_ENABLE_FILTER_CONTROL,
    }
}

/// Field with the scaler of a clock.
#[verifier::allow_in_spec]
pub fn scaler_mask(clock: Ad9361Clock) -> u8
    returns
        (match clock {
            Ad9361Clock::BbRef => REF_FREQ_SCALER,
            Ad9361Clock::RxRef => RX_REF_DIVIDER_LSB,
            Ad9361Clock::TxRef => TX_REF_DIVIDER,
            Ad9361Clock::Adc => BBPLL_DIVIDER,
            Ad9361Clock::R2 => DEC3_ENABLE_DECIMATION,
            Ad9361Clock::R1 => RHB2_EN,
            Ad9361Clock::ClkRf => RHB1_EN,
            Ad9361Clock::RxSampl => RX_FIR_ENABLE_DECIMATION,
            Ad9361Clock::Dac => DAC_CLK_DIV2,
            Ad9361Clock::T2 => THB3_ENABLE_INTERP,
            Ad9361Clock::T1 => THB2_EN,
            Ad9361Clock::ClkTf => THB1_EN,
            Ad9361Clock::TxSampl => TX_FIR_ENABLE_INTERPOLATION,
        }),
{
    match clock {
        Ad9361Clock::BbRef => REF_FREQ_SCALER,
        Ad9361Clock::RxRef => RX_REF_DIVIDER_LSB,
        Ad9361Clock::TxRef => TX_REF_DIVIDER,
        Ad9361Clock::Adc => BBPLL_DIVIDER,
        Ad9361Clock::R2 => DEC3_ENABLE_DECIMATION,
        Ad9361Clock::R1 => RHB2_EN,
        Ad9361Clock::ClkRf => RHB1_EN,
        Ad9361Clock::RxSampl => RX_FIR_ENABLE_DECIMATION,
        Ad9361Clock::Dac => DAC_CLK_DIV2,
        Ad9361Clock::T2 => THB3_ENABLE_INTERP,
        Ad9361Clock::T1 => THB2_EN,
        Ad9361Clock::ClkTf => THB1_EN,
        Ad9361Clock::TxSampl => TX_FIR_ENABLE_INTERPOLATION,
    }
}

/// Two bit divider field with bits 4 and 5: divide by one to four.
#[verifier::allow_in_spec]
pub fn middle_divider(field: u8) -> u32
    returns
        (match field {
            0x00 => 1u32,
            0x10 => 2,
            0x20 => 3,
            _ => 4,
        }),
{
    match field {
        0x00 => 1,
        0x10 => 2,
        0x20 => 3,
        _ => 4,
    }
}

/// One bit divider field: divide by one or two.
#[verifier::allow_in_spec]
pub fn flag_divider(field: u8) -> u32
    returns
        (if field == 0 {
            1u32
        } else {
            2
        }),
{
    if field == 0 {
        1
    } else {
        2
    }
}

/// FIR rate field: bypassed, 1, 2, 4.
#[verifier::allow_in_spec]
pub fn fir_divider(field: u8) -> u32
    returns
        (match field {
            0 => 1u32,
            1 => 1,
            2 => 2,
            _ => 4,
        }),
{
    match field {
        0 => 1,
        1 => 1,
        2 => 2,
        _ => 4,
    }
}

/// ADC divider field: a power of two.
#[verifier::allow_in_spec]
pub fn adc_divider(field: u8) -> u32
    returns
        (match field {
            0 => 1u32,
            1 => 2,
            2 => 4,
            3 => 8,
            4 => 16,
            5 => 32,
            6 => 64,
            _ => 128,
        }),
{
    match field {
        0 => 1,
        1 => 2,
        2 => 4,
        3 => 8,
        4 => 16,
        5 => 32,
        6 => 64,
        _ => 128,
    }
}

/// What the scaler field of a clock stands for. For all clocks but RX_REF.
#[verifier::allow_in_spec]
pub fn scaler_ratio(clock: Ad9361Clock, field: u8) -> ClockMulDiv
    returns
        (match clock {
            Ad9361Clock::BbRef => reference_ratio(field),
            Ad9361Clock::RxRef => reference_ratio(field),
            Ad9361Clock::TxRef => match field {
                0x00 => reference_ratio(0),
                0x04 => reference_ratio(1),
                0x08 => reference_ratio(2),
                _ => reference_ratio(3),
            },
            Ad9361Clock::Adc => ClockMulDiv { mult: 1, div: adc_divider(field) },
            Ad9361Clock::R2 => ClockMulDiv { mult: 1, div: middle_divider(field) },
            Ad9361Clock::R1 => ClockMulDiv { mult: 1, div: flag_divider(field) },
            Ad9361Clock::ClkRf => ClockMulDiv { mult: 1, div: flag_divider(field) },
            Ad9361Clock::RxSampl => ClockMulDiv { mult: 1, div: fir_divider(field) },
            Ad9361Clock::Dac => ClockMulDiv { mult: 1, div: flag_divider(field) },
            Ad9361Clock::T2 => ClockMulDiv { mult: 1, div: middle_divider(field) },
            Ad9361Clock::T1 => ClockMulDiv { mult: 1, div: flag_divider(field) },
            Ad9361Clock::ClkTf => ClockMulDiv { mult: 1, div: flag_divider(field) },
            Ad9361Clock::TxSampl => ClockMulDiv { mult: 1, div: fir_divider(field) },
        }),
{
    match clock {
        Ad9361Clock::BbRef => reference_ratio(field),
        Ad9361Clock::RxRef => reference_ratio(field),
        Ad9361Clock::TxRef => match field {
            0x00 => reference_ratio(0),
            0x04 => reference_ratio(1),
            0x08 => reference_ratio(2),
            _ => reference_ratio(3),
        },
        Ad9361Clock::Adc => ClockMulDiv { mult: 1, div: adc_divider(field) },
        Ad9361Clock::R2 => ClockMulDiv { mult: 1, div: middle_divider(field) },
        Ad9361Clock::R1 => ClockMulDiv { mult: 1, div: flag_divider(field) },
        Ad9361Clock::ClkRf => ClockMulDiv { mult: 1, div: flag_divider(field) },
        Ad9361Clock::RxSampl => ClockMulDiv { mult: 1, div: fir_divider(field) },
        Ad9361Clock::Dac => ClockMulDiv { mult: 1, div: flag_divider(field) },
        Ad9361Clock::T2 => ClockMulDiv { mult: 1, div: middle_divider(field) },
        Ad9361Clock::T1 => ClockMulDiv { mult: 1, div: flag_divider(field) },
        Ad9361Clock::ClkTf => ClockMulDiv { mult: 1, div: flag_divider(field) },
        Ad9361Clock::TxSampl => ClockMulDiv { mult: 1, div: fir_divider(field) },
    }
}

/// RX_REF scaler from its two registers.
#[verifier::allow_in_spec]
pub fn rx_ref_ratio(config1: u8, config2: u8) -> ClockMulDiv
    returns
        reference_ratio(
            flag(config1 & RX_REF_DIVIDER_MSB != 0, 2) | flag(
                config2 & RX_REF_DIVIDER_LSB != 0,
                1,
            ),
        ),
{
    reference_ratio(
        flag(config1 & RX_REF_DIVIDER_MSB != 0, 2) | flag(config2 & RX_REF_DIVIDER_LSB != 0, 1),
    )
}

/// Middle divider field for a divider of one to three.
#[verifier::allow_in_spec]
pub fn middle_field(div: u32) -> Option<u8>
    returns
        (match div {
            1 => Some(0x00u8),
            2 => Some(0x10u8),
            3 => Some(0x20u8),
            _ => None::<u8>,
        }),
{
    match div {
        1 => Some(0x00),
        2 => Some(0x10),
        3 => Some(0x20),
        _ => None,
    }
}

/// One bit divider field for a divider of one or two.
#[verifier::allow_in_spec]
pub fn flag_field(div: u32, mask: u8) -> Option<u8>
    returns
        (match div {
            1 => Some(0u8),
            2 => Some(mask),
            _ => None::<u8>,
        }),
{
    match div {
        1 => Some(0),
        2 => Some(mask),
        _ => None,
    }
}

/// FIR rate field for a divider of 1, 2 or 4.
#[verifier::allow_in_spec]
pub fn fir_field(div: u32, bypassed: bool) -> Option<u8>
    returns
        (match div {
            1 => Some(
                if bypassed {
                    0u8
                } else {
                    1
                },
            ),
            2 => Some(
                if bypassed {
                    0u8
                } else {
                    2
                },
            ),
            4 => Some(
                if bypassed {
                    0u8
                } else {
                    3
                },
            ),
            _ => None::<u8>,
        }),
{
    match div {
        1 => Some(
            if bypassed {
                0
            } else {
                1
            },
        ),
        2 => Some(
            if bypassed {
                0
            } else {
                2
            },
        ),
        4 => Some(
            if bypassed {
                0
            } else {
                3
            },
        ),
        _ => None,
    }
}

/// ADC divider field for a power of two from 2 to 64.
#[verifier::allow_in_spec]
pub fn adc_field(div: u32) -> Option<u8>
    returns
        (match div {
            2 => Some(1u8),
            4 => Some(2u8),
            8 => Some(3u8),
            16 => Some(4u8),
            32 => Some(5u8),
            64 => Some(6u8),
            _ => None::<u8>,
        }),
{
    match div {
        2 => Some(1),
        4 => Some(2),
        8 => Some(3),
        16 => Some(4),
        32 => Some(5),
        64 => Some(6),
        _ => None,
    }
}

/// Scaler field of a clock for a ratio, if the chip can do it. For all clocks but RX_REF. A
/// bypassed FIR makes any of its ratios the field for bypassed.
#[verifier::allow_in_spec]
pub fn scaler_field(clock: Ad9361Clock, ratio: ClockMulDiv, fir: &FirState) -> Option<u8>
    returns
        (match clock {
            Ad9361Clock::BbRef => reference_scaler(ratio),
            Ad9361Clock::RxRef => None::<u8>,
            Ad9361Clock::TxRef => match reference_scaler(ratio) {
                Some(scaler) => Some(scaler << 2),
                None => None::<u8>,
            },
            _ => if ratio.mult != 1 {
                None::<u8>
            } else {
                match clock {
                    Ad9361Clock::Adc => adc_field(ratio.div),
                    Ad9361Clock::R2 => middle_field(ratio.div),
                    Ad9361Clock::R1 => flag_field(ratio.div, RHB2_EN),
                    Ad9361Clock::ClkRf => flag_field(ratio.div, RHB1_EN),
                    Ad9361Clock::RxSampl => fir_field(ratio.div, fir.rx_bypassed()),
                    Ad9361Clock::Dac => flag_field(ratio.div, DAC_CLK_DIV2),
                    Ad9361Clock::T2 => middle_field(ratio.div),
                    Ad9361Clock::T1 => flag_field(ratio.div, THB2_EN),
                    Ad9361Clock::ClkTf => flag_field(ratio.div, THB1_EN),
                    _ => fir_field(ratio.div, fir.tx_bypassed()),
                }
            },
        }),
{
    match clock {
        Ad9361Clock::BbRef => reference_scaler(ratio),
        Ad9361Clock::RxRef => None,
        Ad9361Clock::TxRef => match reference_scaler(ratio) {
            Some(scaler) => Some(scaler << 2),
            None => None,
        },
        _ => if ratio.mult != 1 {
            None
        } else {
            match clock {
                Ad9361Clock::Adc => adc_field(ratio.div),
                Ad9361Clock::R2 => middle_field(ratio.div),
                Ad9361Clock::R1 => flag_field(ratio.div, RHB2_EN),
                Ad9361Clock::ClkRf => flag_field(ratio.div, RHB1_EN),
                Ad9361Clock::RxSampl => fir_field(ratio.div, fir.rx_bypassed()),
                Ad9361Clock::Dac => flag_field(ratio.div, DAC_CLK_DIV2),
                Ad9361Clock::T2 => middle_field(ratio.div),
                Ad9361Clock::T1 => flag_field(ratio.div, THB2_EN),
                Ad9361Clock::ClkTf => flag_field(ratio.div, THB1_EN),
                _ => fir_field(ratio.div, fir.tx_bypassed()),
            }
        },
    }
}

/// Rate of a clock.
#[verifier::allow_in_spec]
pub fn rate_of(r: &Ad9361ClockRates, clock: Ad9361Clock) -> HertzU32
    returns
        (match clock {
            Ad9361Clock::BbRef => r.bb_ref,
            Ad9361Clock::RxRef => r.rx_ref,
            Ad9361Clock::TxRef => r.tx_ref,
            Ad9361Clock::Adc => r.adc,
            Ad9361Clock::R2 => r.r2,
            Ad9361Clock::R1 => r.r1,
            Ad9361Clock::ClkRf => r.clkrf,
            Ad9361Clock::RxSampl => r.rx_sampl,
            Ad9361Clock::Dac => r.dac,
            Ad9361Clock::T2 => r.t2,
            Ad9361Clock::T1 => r.t1,
            Ad9361Clock::ClkTf => r.clktf,
            Ad9361Clock::TxSampl => r.tx_sampl,
        }),
{
    match clock {
        Ad9361Clock::BbRef => r.bb_ref,
        Ad9361Clock::RxRef => r.rx_ref,
        Ad9361Clock::TxRef => r.tx_ref,
        Ad9361Clock::Adc => r.adc,
        Ad9361Clock::R2 => r.r2,
        Ad9361Clock::R1 => r.r1,
        Ad9361Clock::ClkRf => r.clkrf,
        Ad9361Clock::RxSampl => r.rx_sampl,
        Ad9361Clock::Dac => r.dac,
        Ad9361Clock::T2 => r.t2,
        Ad9361Clock::T1 => r.t1,
        Ad9361Clock::ClkTf => r.clktf,
        Ad9361Clock::TxSampl => r.tx_sampl,
    }
}

/// The same rates but for the one of a clock.
#[verifier::allow_in_spec]
pub fn with_rate(r: Ad9361ClockRates, clock: Ad9361Clock, rate: HertzU32) -> Ad9361ClockRates
    returns
        (match clock {
            Ad9361Clock::BbRef => Ad9361ClockRates { bb_ref: rate, ..r },
            Ad9361Clock::RxRef => Ad9361ClockRates { rx_ref: rate, ..r },
            Ad9361Clock::TxRef => Ad9361ClockRates { tx_ref: rate, ..r },
            Ad9361Clock::Adc => Ad9361ClockRates { adc: rate, ..r },
            Ad9361Clock::R2 => Ad9361ClockRates { r2: rate, ..r },
            Ad9361Clock::R1 => Ad9361ClockRates { r1: rate, ..r },
            Ad9361Clock::ClkRf => Ad9361ClockRates { clkrf: rate, ..r },
            Ad9361Clock::RxSampl => Ad9361ClockRates { rx_sampl: rate, ..r },
            Ad9361Clock::Dac => Ad9361ClockRates { dac: rate, ..r },
            Ad9361Clock::T2 => Ad9361ClockRates { t2: rate, ..r },
            Ad9361Clock::T1 => Ad9361ClockRates { t1: rate, ..r },
            Ad9361Clock::ClkTf => Ad9361ClockRates { clktf: rate, ..r },
            Ad9361Clock::TxSampl => Ad9361ClockRates { tx_sampl: rate, ..r },
        }),
{
    match clock {
        Ad9361Clock::BbRef => Ad9361ClockRates { bb_ref: rate, ..r },
        Ad9361Clock::RxRef => Ad9361ClockRates { rx_ref: rate, ..r },
        Ad9361Clock::TxRef => Ad9361ClockRates { tx_ref: rate, ..r },
        Ad9361Clock::Adc => Ad9361ClockRates { adc: rate, ..r },
        Ad9361Clock::R2 => Ad9361ClockRates { r2: rate, ..r },
        Ad9361Clock::R1 => Ad9361ClockRates { r1: rate, ..r },
        Ad9361Clock::ClkRf => Ad9361ClockRates { clkrf: rate, ..r },
        Ad9361Clock::RxSampl => Ad9361ClockRates { rx_sampl: rate, ..r },
        Ad9361Clock::Dac => Ad9361ClockRates { dac: rate, ..r },
        Ad9361Clock::T2 => Ad9361ClockRates { t2: rate, ..r },
        Ad9361Clock::T1 => Ad9361ClockRates { t1: rate, ..r },
        Ad9361Clock::ClkTf => Ad9361ClockRates { clktf: rate, ..r },
        Ad9361Clock::TxSampl => Ad9361ClockRates { tx_sampl: rate, ..r },
    }
}

/// Rate of the parent of a clock. Reference -> BBPLL -> ADC -> RX decimators, ADC -> DAC -> TX
/// interpolators.
#[verifier::allow_in_spec]
pub fn parent_of(ref_clk_in: HertzU32, r: &Ad9361ClockRates, clock: Ad9361Clock) -> HertzU32
    returns
        (match clock {
            Ad9361Clock::BbRef => ref_clk_in,
            Ad9361Clock::RxRef => ref_clk_in,
            Ad9361Clock::TxRef => ref_clk_in,
            Ad9361Clock::Adc => r.bbpll,
            Ad9361Clock::R2 => r.adc,
            Ad9361Clock::R1 => r.r2,
            Ad9361Clock::ClkRf => r.r1,
            Ad9361Clock::RxSampl => r.clkrf,
            Ad9361Clock::Dac => r.adc,
            Ad9361Clock::T2 => r.dac,
            Ad9361Clock::T1 => r.t2,
            Ad9361Clock::ClkTf => r.t1,
            Ad9361Clock::TxSampl => r.clktf,
        }),
{
    match clock {
        Ad9361Clock::BbRef => ref_clk_in,
        Ad9361Clock::RxRef => ref_clk_in,
        Ad9361Clock::TxRef => ref_clk_in,
        Ad9361Clock::Adc => r.bbpll,
        Ad9361Clock::R2 => r.adc,
        Ad9361Clock::R1 => r.r2,
        Ad9361Clock::ClkRf => r.r1,
        Ad9361Clock::RxSampl => r.clkrf,
        Ad9361Clock::Dac => r.adc,
        Ad9361Clock::T2 => r.dac,
        Ad9361Clock::T1 => r.t2,
        Ad9361Clock::ClkTf => r.t1,
        Ad9361Clock::TxSampl => r.clktf,
    }
}

/// BBPLL words as they are read back: the integer word, then the fractional word with its low byte
/// first.
#[verifier::allow_in_spec]
pub fn bbpll_scaler(word: u64) -> PllScaler
    returns
        (PllScaler {
            fract: ((word % 0x100) * 0x1_0000 + (word / 0x100 % 0x100) * 0x100 + word / 0x1_0000
                % 0x100) as u32,
            integer: (word / 0x100_0000 % 0x100) as u32,
        }),
{
    PllScaler {
        fract: ((word % 0x100) * 0x1_0000 + (word / 0x100 % 0x100) * 0x100 + word / 0x1_0000
            % 0x100) as u32,
        integer: (word / 0x100_0000 % 0x100) as u32,
    }
}

/// RF synth words as they are read back, 23 and 11 bits with the high byte first, and the VCO
/// divider.
#[verifier::allow_in_spec]
pub fn rfpll_scaler(word: u64, dividers: u8, is_tx: bool) -> RfPllScaler
    returns
        (RfPllScaler {
            fract: (word / 0x1_0000 % 0x80_0000) as u32,
            integer: (word % 0x800) as u32,
            vco_div: (if is_tx {
                dividers / 16
            } else {
                dividers % 16
            }) as u32,
        }),
{
    RfPllScaler {
        fract: (word / 0x1_0000 % 0x80_0000) as u32,
        integer: (word % 0x800) as u32,
        vco_div: (if is_tx {
            dividers / 16
        } else {
            dividers % 16
        }) as u32,
    }
}

/// First register of an RF synth's words. They are read and written from here down.
#[verifier::allow_in_spec]
pub fn synth_word_addr(is_tx: bool) -> u16
    returns
        (if is_tx {
            TX_FRACT_BYTE2
        } else {
            RX_FRACT_BYTE2
        }),
{
    if is_tx {
        TX_FRACT_BYTE2
    } else {
        RX_FRACT_BYTE2
    }
}

proof fn lemma_bbpll_scaler_fits(word: u64, parent: u32)
    ensures
        bbpll_scaler(word).exact_rate(parent) <= u64::MAX,
{
    let scaler = bbpll_scaler(word);
    assert(scaler.fract < 0x100_0000 && scaler.integer < 0x100);
    assert(parent * scaler.fract <= 0xFFFF_FFFF * 0x100_0000 && parent * scaler.integer
        <= 0xFFFF_FFFF * 0x100) by (nonlinear_arith)
        requires
            0 <= parent <= 0xFFFF_FFFF,
            0 <= scaler.fract < 0x100_0000,
            0 <= scaler.integer < 0x100,
    ;
}

impl EngineView {
    /// Scaler of a clock, from the chip.
    #[verifier::opaque]
    pub open spec fn read_clock_scaler(self, clock: Ad9361Clock) -> Reply<ClockMulDiv> {
        if clock == Ad9361Clock::RxRef {
            let config1 = self.read(REF_DIVIDE_CONFIG1);
            match config1.r {
                Err(error) => Reply { e: config1.e, r: Err(error) },
                Ok(byte1) => {
                    let config2 = config1.e.read(REF_DIVIDE_CONFIG2);
                    match config2.r {
                        Err(error) => Reply { e: config2.e, r: Err(error) },
                        Ok(byte2) => Reply { e: config2.e, r: Ok(rx_ref_ratio(byte1, byte2)) },
                    }
                },
            }
        } else {
            let reply = self.read(scaler_addr(clock));
            match reply.r {
                Err(error) => Reply { e: reply.e, r: Err(error) },
                Ok(byte) => Reply {
                    e: reply.e,
                    r: Ok(scaler_ratio(clock, byte & scaler_mask(clock))),
                },
            }
        }
    }

    /// Integer and fractional words of the BBPLL, from the chip.
    #[verifier::opaque]
    pub open spec fn read_bbpll_clock_scaler(self) -> Reply<PllScaler> {
        let reply = self.read_word(INTEGER_BB_FREQ_WORD, 4);
        match reply.r {
            Err(error) => Reply { e: reply.e, r: Err(error) },
            Ok(word) => Reply { e: reply.e, r: Ok(bbpll_scaler(word)) },
        }
    }

    /// Integer and fractional words and VCO divider of the RX or TX synth, from the chip.
    #[verifier::opaque]
    pub open spec fn read_rfpll_scaler(self, is_tx: bool) -> Reply<RfPllScaler> {
        let words = self.read_word(synth_word_addr(is_tx), 5);
        match words.r {
            Err(error) => Reply { e: words.e, r: Err(error) },
            Ok(word) => {
                let dividers = words.e.read(RFPLL_DIVIDERS);
                match dividers.r {
                    Err(error) => Reply { e: dividers.e, r: Err(error) },
                    Ok(byte) => Reply { e: dividers.e, r: Ok(rfpll_scaler(word, byte, is_tx)) },
                }
            },
        }
    }

    /// Adds the rate of a clock, from its scaler in the chip and the rate of its parent.
    #[verifier::opaque]
    pub open spec fn note_rate(
        self,
        rates: Ad9361ClockRates,
        clock: Ad9361Clock,
    ) -> Reply<Ad9361ClockRates> {
        let scaler = self.read_clock_scaler(clock);
        match scaler.r {
            Err(error) => Reply { e: scaler.e, r: Err(error) },
            Ok(ratio) => Reply {
                e: scaler.e,
                r: Ok(
                    with_rate(
                        rates,
                        clock,
                        ratio.rate(parent_of(self.state.v.ref_clk_in, &rates, clock)),
                    ),
                ),
            },
        }
    }

    /// Adds the BBPLL rate.
    #[verifier::opaque]
    pub open spec fn note_bbpll(self, rates: Ad9361ClockRates) -> Reply<Ad9361ClockRates> {
        let scaler = self.read_bbpll_clock_scaler();
        match scaler.r {
            Err(error) => Reply { e: scaler.e, r: Err(error) },
            Ok(pll) => Reply {
                e: scaler.e,
                r: Ok(
                    Ad9361ClockRates {
                        bbpll: HertzU32 {
                            raw: pll.exact_rate(rates.bb_ref.raw) as u64 as u32,
                        },
                        ..rates
                    },
                ),
            },
        }
    }

    /// Adds the rate of the RX or TX synth, which hang off RX_REFCLK and TX_REFCLK.
    #[verifier::opaque]
    pub open spec fn note_rfpll(
        self,
        rates: Ad9361ClockRates,
        is_tx: bool,
    ) -> Reply<Ad9361ClockRates> {
        let scaler = self.read_rfpll_scaler(is_tx);
        match scaler.r {
            Err(error) => Reply { e: scaler.e, r: Err(error) },
            Ok(pll) => Reply {
                e: scaler.e,
                r: Ok(
                    if is_tx {
                        Ad9361ClockRates {
                            tx_rfpll: HertzU64 { raw: pll.rate(rates.tx_ref.raw) },
                            ..rates
                        }
                    } else {
                        Ad9361ClockRates {
                            rx_rfpll: HertzU64 { raw: pll.rate(rates.rx_ref.raw) },
                            ..rates
                        }
                    },
                ),
            },
        }
    }

    /// Every clock rate, from the chip: parents before their children.
    #[verifier::opaque]
    pub open spec fn read_clock_rates(self) -> Reply<Ad9361ClockRates> {
        self.start().reply(Ad9361ClockRates::unread(self.state.v.ref_clk_in)).rate(
            Ad9361Clock::TxRef,
        ).rate(Ad9361Clock::RxRef).rate(Ad9361Clock::BbRef).bbpll().rate(Ad9361Clock::Adc).rate(
            Ad9361Clock::R2,
        ).rate(Ad9361Clock::R1).rate(Ad9361Clock::ClkRf).rate(Ad9361Clock::RxSampl).rate(
            Ad9361Clock::Dac,
        ).rate(Ad9361Clock::T2).rate(Ad9361Clock::T1).rate(Ad9361Clock::ClkTf).rate(
            Ad9361Clock::TxSampl,
        ).rfpll(false).rfpll(true)
    }

    /// Remembers all rates.
    pub open spec fn set_rates(self, rates: Ad9361ClockRates) -> Flow {
        let st = self.state.v;
        self.set(EngineState { clk: ClockState { rates, ..st.clk }, ..st })
    }

    /// DCXO tuning, the fine value in two parts.
    #[verifier::opaque]
    pub open spec fn set_dcxo_tune(self, coarse: U6, fine: U13) -> Flow {
        self.run(
            [
                put(DCXO_COARSE_TUNE, coarse.bits()),
                put(DCXO_FINE_TUNE_LOW, (fine.bits() % 32) as u8),
                put(DCXO_FINE_TUNE_HIGH, (fine.bits() / 32) as u8),
            ]@,
        )
    }

    /// Reads every clock rate into the cache.
    #[verifier::opaque]
    pub open spec fn init_clocks(self) -> Flow {
        let rates = self.read_clock_rates();
        match rates.r {
            Err(error) => rates.done(),
            Ok(all) => rates.e.set_rates(all),
        }
    }

    /// Sets the scaler of a clock, if the chip can do the ratio.
    #[verifier::opaque]
    pub open spec fn set_clock_scaler(self, clock: Ad9361Clock, ratio: ClockMulDiv) -> Flow {
        if clock == Ad9361Clock::RxRef {
            match reference_scaler(ratio) {
                None => self.fail(Ad9361Error::InvalidRate),
                Some(scaler) => self.run(
                    [
                        update(
                            REF_DIVIDE_CONFIG1,
                            RX_REF_DIVIDER_MSB,
                            flag(scaler >= 2, RX_REF_DIVIDER_MSB),
                        ),
                        update(
                            REF_DIVIDE_CONFIG2,
                            RX_REF_DIVIDER_LSB,
                            flag(scaler % 2 == 1, RX_REF_DIVIDER_LSB),
                        ),
                    ]@,
                ),
            }
        } else {
            match scaler_field(clock, ratio, &self.state.v.fir) {
                None => self.fail(Ad9361Error::InvalidRate),
                Some(field) => self.run(
                    [update(scaler_addr(clock), scaler_mask(clock), field)]@,
                ),
            }
        }
    }

    /// Sets a clock to the closest rate its scaler can make from the cached parent rate, and
    /// refreshes that clock in the cache from the chip. Nothing happens if the cache has the rate
    /// already.
    #[verifier::opaque]
    pub open spec fn set_clock_rate(self, clock: Ad9361Clock, rate: HertzU32) -> Flow {
        let rates = self.state.v.clk.rates;
        let parent = parent_of(self.state.v.ref_clk_in, &rates, clock);
        if rate_of(&rates, clock) == rate {
            self.start()
        } else {
            match ClockMulDiv::closest_ratio(rate.raw, parent.raw) {
                None => self.fail(Ad9361Error::InvalidRate),
                Some(ratio) => {
                    let scaler = self.set_clock_scaler(clock, ratio).read_clock_scaler(clock);
                    match scaler.r {
                        Err(error) => scaler.done(),
                        Ok(made) => scaler.e.set_rates(
                            with_rate(scaler.e.state.v.clk.rates, clock, made.rate(parent)),
                        ),
                    }
                },
            }
        }
    }
}

/// The same steps, after others.
impl Flow {
    pub open spec fn read_clock_scaler(self, clock: Ad9361Clock) -> Reply<ClockMulDiv> {
        match self.err {
            Some(error) => Reply { e: self.e, r: Err(error) },
            None => self.e.read_clock_scaler(clock),
        }
    }

    pub open spec fn read_bbpll_clock_scaler(self) -> Reply<PllScaler> {
        match self.err {
            Some(error) => Reply { e: self.e, r: Err(error) },
            None => self.e.read_bbpll_clock_scaler(),
        }
    }

    pub open spec fn read_rfpll_scaler(self, is_tx: bool) -> Reply<RfPllScaler> {
        match self.err {
            Some(error) => Reply { e: self.e, r: Err(error) },
            None => self.e.read_rfpll_scaler(is_tx),
        }
    }

    pub open spec fn note_rate(
        self,
        rates: Ad9361ClockRates,
        clock: Ad9361Clock,
    ) -> Reply<Ad9361ClockRates> {
        match self.err {
            Some(error) => Reply { e: self.e, r: Err(error) },
            None => self.e.note_rate(rates, clock),
        }
    }

    pub open spec fn note_bbpll(self, rates: Ad9361ClockRates) -> Reply<Ad9361ClockRates> {
        match self.err {
            Some(error) => Reply { e: self.e, r: Err(error) },
            None => self.e.note_bbpll(rates),
        }
    }

    pub open spec fn note_rfpll(
        self,
        rates: Ad9361ClockRates,
        is_tx: bool,
    ) -> Reply<Ad9361ClockRates> {
        match self.err {
            Some(error) => Reply { e: self.e, r: Err(error) },
            None => self.e.note_rfpll(rates, is_tx),
        }
    }

    pub open spec fn read_clock_rates(self) -> Reply<Ad9361ClockRates> {
        match self.err {
            Some(error) => Reply { e: self.e, r: Err(error) },
            None => self.e.read_clock_rates(),
        }
    }

    pub open spec fn set_rates(self, rates: Ad9361ClockRates) -> Flow {
        if self.err is Some {
            self
        } else {
            self.e.set_rates(rates)
        }
    }

    pub open spec fn set_dcxo_tune(self, coarse: U6, fine: U13) -> Flow {
        if self.err is Some {
            self
        } else {
            self.e.set_dcxo_tune(coarse, fine)
        }
    }

    pub open spec fn init_clocks(self) -> Flow {
        if self.err is Some {
            self
        } else {
            self.e.init_clocks()
        }
    }

    pub open spec fn set_clock_scaler(self, clock: Ad9361Clock, ratio: ClockMulDiv) -> Flow {
        if self.err is Some {
            self
        } else {
            self.e.set_clock_scaler(clock, ratio)
        }
    }

    pub open spec fn set_clock_rate(self, clock: Ad9361Clock, rate: HertzU32) -> Flow {
        if self.err is Some {
            self
        } else {
            self.e.set_clock_rate(clock, rate)
        }
    }
}

impl Reply<Ad9361ClockRates> {
    /// Adds the rate of a clock.
    pub open spec fn rate(self, clock: Ad9361Clock) -> Reply<Ad9361ClockRates> {
        match self.r {
            Err(error) => self,
            Ok(rates) => self.e.note_rate(rates, clock),
        }
    }

    /// Adds the BBPLL rate.
    pub open spec fn bbpll(self) -> Reply<Ad9361ClockRates> {
        match self.r {
            Err(error) => self,
            Ok(rates) => self.e.note_bbpll(rates),
        }
    }

    /// Adds the rate of the RX or TX synth.
    pub open spec fn rfpll(self, is_tx: bool) -> Reply<Ad9361ClockRates> {
        match self.r {
            Err(error) => self,
            Ok(rates) => self.e.note_rfpll(rates, is_tx),
        }
    }
}

/// Whether a rate is what a reference scaler makes of the external reference.
pub open spec fn is_scaled(rate: HertzU32, ext_ref: HertzU32) -> bool {
    ||| rate.raw == 2 * ext_ref.raw
    ||| rate.raw == ext_ref.raw
    ||| rate.raw == ext_ref.raw / 2
    ||| rate.raw == ext_ref.raw / 4
}

/// Whether a clock is one of the references.
pub open spec fn is_reference(clock: Ad9361Clock) -> bool {
    clock == Ad9361Clock::BbRef || clock == Ad9361Clock::RxRef || clock == Ad9361Clock::TxRef
}

proof fn lemma_note_rate(e: EngineView, rates: Ad9361ClockRates, clock: Ad9361Clock)
    requires
        2 * e.state.v.ref_clk_in.raw <= u32::MAX,
    ensures
        e.note_rate(rates, clock).e.state == e.state,
        e.note_rate(rates, clock).r matches Ok(now) ==> {
            &&& now == with_rate(rates, clock, rate_of(&now, clock))
            &&& if is_reference(clock) {
                is_scaled(rate_of(&now, clock), e.state.v.ref_clk_in)
            } else {
                rate_of(&now, clock).raw <= parent_of(e.state.v.ref_clk_in, &rates, clock).raw
            }
        },
{
    reveal(EngineView::note_rate);
    reveal(EngineView::read_clock_scaler);
    law_read_keeps_state(e, REF_DIVIDE_CONFIG1);
    law_read_keeps_state(e.read(REF_DIVIDE_CONFIG1).e, REF_DIVIDE_CONFIG2);
    law_read_keeps_state(e, scaler_addr(clock));
    if let Ok(ratio) = e.read_clock_scaler(clock).r {
        let parent = parent_of(e.state.v.ref_clk_in, &rates, clock);
        assert(ratio.is_simple());
        lemma_simple_rate(ratio, parent.raw);
        let (p, d) = (parent.raw as int, ratio.div as int);
        assert(0 <= p / d <= p) by (nonlinear_arith)
            requires
                p >= 0,
                d >= 1,
        ;
        let product = parent.raw * ratio.mult;
        assert(ratio.mult == 2 ==> product == 2 * p) by (nonlinear_arith)
            requires
                product == p * ratio.mult,
        ;
        if is_reference(clock) {
            assert(ratio.mult == 2 && d == 1 || ratio.mult == 1 && (d == 1 || d == 2 || d == 4));
            assert(d == 2 ==> p / d == p / 2);
            assert(d == 4 ==> p / d == p / 4);
            assert(d == 1 ==> p / d == p) by (nonlinear_arith);
        } else {
            assert(ratio.mult == 1);
        }
        assert(ratio.exact_rate(parent.raw) <= u32::MAX);
    }
}

proof fn lemma_note_plls(e: EngineView, rates: Ad9361ClockRates, is_tx: bool)
    ensures
        e.note_bbpll(rates).e.state == e.state,
        e.note_bbpll(rates).r matches Ok(now) ==> now == (Ad9361ClockRates {
            bbpll: now.bbpll,
            ..rates
        }),
        e.note_rfpll(rates, is_tx).e.state == e.state,
        e.note_rfpll(rates, is_tx).r matches Ok(now) ==> now == (Ad9361ClockRates {
            rx_rfpll: now.rx_rfpll,
            tx_rfpll: now.tx_rfpll,
            ..rates
        }),
{
    reveal(EngineView::note_bbpll);
    reveal(EngineView::note_rfpll);
    reveal(EngineView::read_bbpll_clock_scaler);
    reveal(EngineView::read_rfpll_scaler);
    law_exchange_keeps_state(e, Request::Read { addr: INTEGER_BB_FREQ_WORD, len: 4 });
    let word = Request::Read { addr: synth_word_addr(is_tx), len: 5 };
    law_exchange_keeps_state(e, word);
    law_read_keeps_state(e.exchange(word).e, RFPLL_DIVIDERS);
}

/// The datapaths only divide: each rate that is read from the chip is at most the one before it,
/// whatever the registers hold. Each reference is twice, one, half or a quarter of the external
/// one.
pub proof fn law_datapath_only_divides(e: EngineView)
    requires
        2 * e.state.v.ref_clk_in.raw <= u32::MAX,
    ensures
        e.read_clock_rates().r matches Ok(r) ==> {
            &&& r.ext_ref == e.state.v.ref_clk_in
            &&& is_scaled(r.tx_ref, r.ext_ref)
            &&& is_scaled(r.rx_ref, r.ext_ref)
            &&& is_scaled(r.bb_ref, r.ext_ref)
            &&& r.bbpll.raw >= r.adc.raw >= r.r2.raw >= r.r1.raw >= r.clkrf.raw >= r.rx_sampl.raw
            &&& r.adc.raw >= r.dac.raw >= r.t2.raw >= r.t1.raw >= r.clktf.raw >= r.tx_sampl.raw
        },
{
    reveal(EngineView::read_clock_rates);
    assert forall|at: EngineView, rates: Ad9361ClockRates, clock: Ad9361Clock|
        at.state == e.state implies {
        let noted = #[trigger] at.note_rate(rates, clock);
        &&& noted.e.state == e.state
        &&& noted.r matches Ok(now) ==> {
            &&& now == with_rate(rates, clock, rate_of(&now, clock))
            &&& if is_reference(clock) {
                is_scaled(rate_of(&now, clock), e.state.v.ref_clk_in)
            } else {
                rate_of(&now, clock).raw <= parent_of(e.state.v.ref_clk_in, &rates, clock).raw
            }
        }
    } by {
        lemma_note_rate(at, rates, clock);
    }
    assert forall|at: EngineView, rates: Ad9361ClockRates| at.state == e.state implies {
        let noted = #[trigger] at.note_bbpll(rates);
        &&& noted.e.state == e.state
        &&& noted.r matches Ok(now) ==> now == (Ad9361ClockRates { bbpll: now.bbpll, ..rates })
    } by {
        lemma_note_plls(at, rates, false);
    }
    assert forall|at: EngineView, rates: Ad9361ClockRates, is_tx: bool|
        at.state == e.state implies {
        let noted = #[trigger] at.note_rfpll(rates, is_tx);
        &&& noted.e.state == e.state
        &&& noted.r matches Ok(now) ==> now == (Ad9361ClockRates {
            rx_rfpll: now.rx_rfpll,
            tx_rfpll: now.tx_rfpll,
            ..rates
        })
    } by {
        lemma_note_plls(at, rates, is_tx);
    }
}

/// A scaler field that was written reads back as the ratio it was written for, whatever else is in
/// the register. (The field of a bypassed FIR always reads as 1.)
pub proof fn law_scaler_reads_back(
    clock: Ad9361Clock,
    ratio: ClockMulDiv,
    fir: FirState,
    current: u8,
)
    requires
        clock != Ad9361Clock::RxRef,
        clock == Ad9361Clock::RxSampl ==> !fir.rx_bypassed(),
        clock == Ad9361Clock::TxSampl ==> !fir.tx_bypassed(),
    ensures
        scaler_field(clock, ratio, &fir) matches Some(field) ==> scaler_ratio(
            clock,
            crate::link::merged(current, scaler_mask(clock), field) & scaler_mask(clock),
        ) == ratio,
{
    if let Some(field) = scaler_field(clock, ratio, &fir) {
        let mask = scaler_mask(clock);
        crate::link::law_merge_keeps_other_bits(current, mask, field);
        assert(0u8 & mask == 0 && 1u8 & 3 == 1 && 2u8 & 3 == 2 && 3u8 & 3 == 3 && 1u8 & 7 == 1
            && 2u8 & 7 == 2 && 3u8 & 7 == 3 && 4u8 & 7 == 4 && 5u8 & 7 == 5 && 6u8 & 7 == 6
            && 0x10u8 & 0x30 == 0x10 && 0x20u8 & 0x30 == 0x20 && 8u8 & 8 == 8 && 4u8 & 4 == 4)
            by (bit_vector);
        assert((0u8 << 2) & 0x0C == 0 && (1u8 << 2) & 0x0C == 4 && (2u8 << 2) & 0x0C == 8 && (3u8
            << 2) & 0x0C == 12) by (bit_vector);
    }
}

/// The two bits of an RX_REF scaler that were written read back as the ratio they were written
/// for, whatever else is in the registers.
pub proof fn law_rx_ref_reads_back(ratio: ClockMulDiv, current1: u8, current2: u8)
    ensures
        reference_scaler(ratio) matches Some(scaler) ==> rx_ref_ratio(
            crate::link::merged(
                current1,
                RX_REF_DIVIDER_MSB,
                flag(scaler >= 2, RX_REF_DIVIDER_MSB),
            ),
            crate::link::merged(
                current2,
                RX_REF_DIVIDER_LSB,
                flag(scaler % 2 == 1, RX_REF_DIVIDER_LSB),
            ),
        ) == ratio,
{
    if let Some(scaler) = reference_scaler(ratio) {
        crate::link::law_merge_keeps_other_bits(
            current1,
            RX_REF_DIVIDER_MSB,
            flag(scaler >= 2, RX_REF_DIVIDER_MSB),
        );
        crate::link::law_merge_keeps_other_bits(
            current2,
            RX_REF_DIVIDER_LSB,
            flag(scaler % 2 == 1, RX_REF_DIVIDER_LSB),
        );
        assert(0u8 & 0x80 == 0 && 0x80u8 & 0x80 == 0x80 && 0u8 & 1 == 0 && 1u8 & 1 == 1 && 2u8 | 1
            == 3 && 2u8 | 0 == 2 && 0u8 | 1 == 1 && 0u8 | 0 == 0) by (bit_vector);
    }
}

impl<'a> Engine<'a> {
    /// Reads the scaler of a clock.
    pub fn read_clock_scaler(&mut self, clock: Ad9361Clock) -> (r: Result<ClockMulDiv, Fault>)
        ensures
            (Reply { e: final(self)@, r }) == old(self)@.read_clock_scaler(clock),
            r matches Ok(ratio) ==> ratio.div != 0,
    {
        reveal(EngineView::read_clock_scaler);
        if clock == Ad9361Clock::RxRef {
            let byte1: u8 = self.read(REF_DIVIDE_CONFIG1)?;
            let byte2: u8 = self.read(REF_DIVIDE_CONFIG2)?;
            return Ok(rx_ref_ratio(byte1, byte2));
        }
        let byte: u8 = self.read(scaler_addr(clock))?;
        Ok(scaler_ratio(clock, byte & scaler_mask(clock)))
    }

    /// Reads the integer and fractional words of the BBPLL.
    pub fn read_bbpll_clock_scaler(&mut self) -> (r: Result<PllScaler, Fault>)
        ensures
            (Reply { e: final(self)@, r }) == old(self)@.read_bbpll_clock_scaler(),
            r matches Ok(scaler) ==> forall|parent: u32|
                #![trigger scaler.exact_rate(parent)]
                scaler.exact_rate(parent) <= u64::MAX,
    {
        reveal(EngineView::read_bbpll_clock_scaler);
        let word: u64 = self.read_word(INTEGER_BB_FREQ_WORD, 4)?;
        proof {
            assert forall|parent: u32|
                #![trigger bbpll_scaler(word).exact_rate(parent)]
                bbpll_scaler(word).exact_rate(parent) <= u64::MAX by {
                lemma_bbpll_scaler_fits(word, parent);
            }
        }
        Ok(bbpll_scaler(word))
    }

    /// Reads the fractional word, integer word and VCO post-divider of the RX or TX synth.
    pub fn read_rfpll_scaler(&mut self, is_tx: bool) -> (r: Result<RfPllScaler, Fault>)
        ensures
            (Reply { e: final(self)@, r }) == old(self)@.read_rfpll_scaler(is_tx),
            r matches Ok(scaler) ==> scaler.wf(),
    {
        reveal(EngineView::read_rfpll_scaler);
        let word: u64 = self.read_word(synth_word_addr(is_tx), 5)?;
        let dividers: u8 = self.read(RFPLL_DIVIDERS)?;
        Ok(rfpll_scaler(word, dividers, is_tx))
    }

    fn note_rate(&mut self, rates: Ad9361ClockRates, clock: Ad9361Clock) -> (r: Result<
        Ad9361ClockRates,
        Fault,
    >)
        ensures
            (Reply { e: final(self)@, r }) == old(self)@.note_rate(rates, clock),
    {
        reveal(EngineView::note_rate);
        let parent: HertzU32 = parent_of(self.state.v.ref_clk_in, &rates, clock);
        let ratio: ClockMulDiv = self.read_clock_scaler(clock)?;
        Ok(with_rate(rates, clock, ratio.rate_from_parent(parent)))
    }

    fn note_bbpll(&mut self, rates: Ad9361ClockRates) -> (r: Result<Ad9361ClockRates, Fault>)
        ensures
            (Reply { e: final(self)@, r }) == old(self)@.note_bbpll(rates),
    {
        reveal(EngineView::note_bbpll);
        let scaler: PllScaler = self.read_bbpll_clock_scaler()?;
        Ok(Ad9361ClockRates { bbpll: scaler.rate_from_parent(rates.bb_ref), ..rates })
    }

    fn note_rfpll(&mut self, rates: Ad9361ClockRates, is_tx: bool) -> (r: Result<
        Ad9361ClockRates,
        Fault,
    >)
        ensures
            (Reply { e: final(self)@, r }) == old(self)@.note_rfpll(rates, is_tx),
    {
        reveal(EngineView::note_rfpll);
        let scaler: RfPllScaler = self.read_rfpll_scaler(is_tx)?;
        proof {
            scaler.lemma_vco_fits(rates.tx_ref.raw);
            scaler.lemma_vco_fits(rates.rx_ref.raw);
        }
        if is_tx {
            Ok(Ad9361ClockRates { tx_rfpll: scaler.rate_from_parent(rates.tx_ref), ..rates })
        } else {
            Ok(Ad9361ClockRates { rx_rfpll: scaler.rate_from_parent(rates.rx_ref), ..rates })
        }
    }

    /// Reads every clock rate from the chip.
    pub fn read_clock_rates(&mut self) -> (r: Result<Ad9361ClockRates, Fault>)
        ensures
            (Reply { e: final(self)@, r }) == old(self)@.read_clock_rates(),
    {
        reveal(EngineView::read_clock_rates);
        let rates = Ad9361ClockRates::uninitialized(self.state.v.ref_clk_in);
        let rates = self.note_rate(rates, Ad9361Clock::TxRef)?;
        let rates = self.note_rate(rates, Ad9361Clock::RxRef)?;
        let rates = self.note_rate(rates, Ad9361Clock::BbRef)?;
        let rates = self.note_bbpll(rates)?;
        let rates = self.note_rate(rates, Ad9361Clock::Adc)?;
        let rates = self.note_rate(rates, Ad9361Clock::R2)?;
        let rates = self.note_rate(rates, Ad9361Clock::R1)?;
        let rates = self.note_rate(rates, Ad9361Clock::ClkRf)?;
        let rates = self.note_rate(rates, Ad9361Clock::RxSampl)?;
        let rates = self.note_rate(rates, Ad9361Clock::Dac)?;
        let rates = self.note_rate(rates, Ad9361Clock::T2)?;
        let rates = self.note_rate(rates, Ad9361Clock::T1)?;
        let rates = self.note_rate(rates, Ad9361Clock::ClkTf)?;
        let rates = self.note_rate(rates, Ad9361Clock::TxSampl)?;
        let rates = self.note_rfpll(rates, false)?;
        self.note_rfpll(rates, true)
    }

    /// Tunes the crystal oscillator.
    pub fn set_dcxo_tune(&mut self, coarse: U6, fine: U13) -> (r: Result<(), Fault>)
        ensures
            flow(final(self)@, r) == old(self)@.set_dcxo_tune(coarse, fine),
    {
        reveal(EngineView::set_dcxo_tune);
        let fine: u16 = fine.value();
        self.run(
            &[
                put(DCXO_COARSE_TUNE, coarse.value()),
                put(DCXO_FINE_TUNE_LOW, low_5_bits(fine)),
                put(DCXO_FINE_TUNE_HIGH, (fine / 32) as u8),
            ],
        )
    }

    /// Reads every clock rate from the chip into the cache. Needs to run before
    /// [`Self::set_clock_rate`], which works off the cached parent rate.
    pub fn init_clocks(&mut self) -> (r: Result<(), Fault>)
        ensures
            flow(final(self)@, r) == old(self)@.init_clocks(),
    {
        reveal(EngineView::init_clocks);
        self.state.v.clk.rates = self.read_clock_rates()?;
        Ok(())
    }

    /// All cached rates.
    pub fn clock_rates(&self) -> (rates: &Ad9361ClockRates)
        ensures
            *rates == self@.state.v.clk.rates,
    {
        &self.state.v.clk.rates
    }

    /// Cached rate, no SPI.
    pub fn clock_rate(&self, clock: Ad9361Clock) -> (rate: HertzU32)
        ensures
            rate == rate_of(&self@.state.v.clk.rates, clock),
    {
        rate_of(&self.state.v.clk.rates, clock)
    }

    /// Cached rate of the parent.
    pub fn parent_rate(&self, clock: Ad9361Clock) -> (rate: HertzU32)
        ensures
            rate == parent_of(self@.state.v.ref_clk_in, &self@.state.v.clk.rates, clock),
    {
        parent_of(self.state.v.ref_clk_in, &self.state.v.clk.rates, clock)
    }

    /// Sets the scaler of a clock. `InvalidRate` if the chip can't do `ratio`. The ADC divider has
    /// to be an exact power of two (2..=64), there's no silent rounding down.
    pub fn set_clock_scaler(&mut self, clock: Ad9361Clock, ratio: &ClockMulDiv) -> (r: Result<
        (),
        Fault,
    >)
        ensures
            flow(final(self)@, r) == old(self)@.set_clock_scaler(clock, *ratio),
    {
        reveal(EngineView::set_clock_scaler);
        if clock == Ad9361Clock::RxRef {
            return match reference_scaler(*ratio) {
                None => Err(Ad9361Error::InvalidRate),
                Some(scaler) => self.run(&[
                    update(
                        REF_DIVIDE_CONFIG1,
                        RX_REF_DIVIDER_MSB,
                        flag(scaler >= 2, RX_REF_DIVIDER_MSB),
                    ),
                    update(
                        REF_DIVIDE_CONFIG2,
                        RX_REF_DIVIDER_LSB,
                        flag(scaler % 2 == 1, RX_REF_DIVIDER_LSB),
                    ),
                ]),
            };
        }
        match scaler_field(clock, *ratio, &self.state.v.fir) {
            None => Err(Ad9361Error::InvalidRate),
            Some(field) => self.run(&[update(scaler_addr(clock), scaler_mask(clock), field)]),
        }
    }

    /// Sets `clock` to the closest rate its multiplier/divider can make from the cached parent
    /// rate, then refreshes that clock's cache from the chip.
    ///
    /// Children aren't updated. Go parent first, or call [`Self::init_clocks`] afterwards.
    ///
    /// Reference, ADC/DAC and the decimators/interpolators only. BBPLL and the RF synths have
    /// their own frequency words and live elsewhere.
    pub fn set_clock_rate(&mut self, clock: Ad9361Clock, rate: HertzU32) -> (r: Result<(), Fault>)
        ensures
            flow(final(self)@, r) == old(self)@.set_clock_rate(clock, rate),
    {
        reveal(EngineView::set_clock_rate);
        if self.clock_rate(clock) == rate {
            return Ok(());
        }
        let parent: HertzU32 = self.parent_rate(clock);
        let ratio: ClockMulDiv = match ClockMulDiv::closest(rate, parent) {
            Some(ratio) => ratio,
            None => return Err(Ad9361Error::InvalidRate),
        };
        self.set_clock_scaler(clock, &ratio)?;
        let made: ClockMulDiv = self.read_clock_scaler(clock)?;
        self.state.v.clk.rates = with_rate(
            self.state.v.clk.rates,
            clock,
            made.rate_from_parent(parent),
        );
        Ok(())
    }
}

} // verus!
