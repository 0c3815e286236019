//! Integer arithmetic shared by the rest of the driver.
use vstd::arithmetic::power2::{lemma_pow2_strictly_increases, lemma_pow2_unfold, pow2};
use vstd::prelude::*;

verus! {

/// `mask` where `on` is set, no bits otherwise.
#[verifier::allow_in_spec]
pub fn flag(on: bool, mask: u8) -> u8
    returns
        (if on {
            mask
        } else {
            0u8
        }),
{
    if on {
        mask
    } else {
        0
    }
}

/// The smaller of two numbers.
#[verifier::allow_in_spec]
pub fn least(a: u32, b: u32) -> u32
    returns
        (if a < b {
            a
        } else {
            b
        }),
{
    if a < b {
        a
    } else {
        b
    }
}

/// `value` moved into `low..=high`.
#[verifier::allow_in_spec]
pub fn clamped(value: u32, low: u32, high: u32) -> u32
    returns
        (if value < low {
            low
        } else if value > high {
            high
        } else {
            value
        }),
{
    if value < low {
        low
    } else if value > high {
        high
    } else {
        value
    }
}

/// Division, rounded to the closest whole number. The sum wraps.
#[verifier::allow_in_spec]
pub fn div_round_closest(n: u32, d: u32) -> u32
    requires
        d != 0,
    returns
        n.wrapping_add(d / 2) / d,
{
    n.wrapping_add(d / 2) / d
}

/// Division, rounded up.
#[verifier::allow_in_spec]
pub fn div_round_up(n: u32, d: u32) -> u32
    requires
        d != 0,
    returns
        (n / d + (if n % d == 0 {
            0int
        } else {
            1
        })) as u32,
{
    proof {
        if d == 1 {
            assert(n % 1 == 0);
        } else {
            assert(n as int / d as int <= n as int / 2) by (nonlinear_arith)
                requires
                    d >= 2,
                    n >= 0,
            ;
        }
    }
    if n % d == 0 {
        n / d
    } else {
        n / d + 1
    }
}

/// Base 2 logarithm, rounded down. Zero for zero.
pub open spec fn log2(value: nat) -> nat
    decreases value,
{
    if value <= 1 {
        0
    } else {
        1 + log2(value / 2)
    }
}

/// Base 2 logarithm, rounded down. Zero for zero.
#[verifier::when_used_as_spec(spec_ilog2)]
pub fn ilog2(value: u32) -> (log: u32)
    ensures
        log == spec_ilog2(value),
        log == log2(value as nat),
        log < 32,
{
    let mut rest: u32 = value;
    let mut log: u32 = 0;
    proof {
        vstd::arithmetic::power2::lemma2_to64();
        lemma_log2_bound(value as nat, 32);
    }
    while rest > 1
        invariant
            log + log2(rest as nat) == log2(value as nat),
            log2(value as nat) < 32,
        decreases rest,
    {
        rest = rest / 2;
        log = log + 1;
    }
    log
}

pub open spec fn spec_ilog2(value: u32) -> u32 {
    log2(value as nat) as u32
}

/// A number below `2^bits` has a logarithm below `bits`.
pub proof fn lemma_log2_bound(value: nat, bits: nat)
    requires
        bits >= 1,
        value < pow2(bits),
    ensures
        log2(value) < bits,
    decreases bits,
{
    lemma_pow2_unfold(bits);
    if value > 1 {
        if bits == 1 {
            vstd::arithmetic::power2::lemma2_to64();
        } else {
            lemma_log2_bound(value / 2, (bits - 1) as nat);
        }
    }
}

/// The logarithm is the exponent of the largest power of two in a number.
pub proof fn lemma_log2_pow2(value: nat)
    requires
        value > 0,
    ensures
        pow2(log2(value)) <= value < pow2(log2(value) + 1),
    decreases value,
{
    lemma_pow2_unfold(log2(value) + 1);
    if value == 1 {
        vstd::arithmetic::power2::lemma2_to64();
    } else {
        lemma_log2_pow2(value / 2);
        lemma_pow2_unfold(log2(value));
    }
}

/// Whole square root, rounded down.
pub open spec fn is_isqrt(n: u32, root: u32) -> bool {
    root * root <= n < (root + 1) * (root + 1)
}

pub open spec fn spec_isqrt(n: u32) -> u32 {
    choose|root: u32| is_isqrt(n, root)
}

/// There is only one whole square root.
proof fn lemma_isqrt_unique(n: u32, a: u32, b: u32)
    requires
        is_isqrt(n, a),
        is_isqrt(n, b),
    ensures
        a == b,
{
    if a < b {
        assert((a + 1) * (a + 1) <= b * b) by (nonlinear_arith)
            requires
                0 <= a + 1 <= b,
        ;
    }
    if b < a {
        assert((b + 1) * (b + 1) <= a * a) by (nonlinear_arith)
            requires
                0 <= b + 1 <= a,
        ;
    }
}

/// There is a whole square root, and it fits 16 bits.
pub proof fn lemma_isqrt(n: u32)
    ensures
        is_isqrt(n, spec_isqrt(n)),
        spec_isqrt(n) <= 0xFFFF,
{
    let root = lemma_isqrt_below(n, 0x1_0000);
    lemma_isqrt_unique(n, root, spec_isqrt(n));
}

proof fn lemma_isqrt_below(n: u32, above: u32) -> (root: u32)
    requires
        above > 0,
        n < above * above,
    ensures
        is_isqrt(n, root),
        root < above,
    decreases above,
{
    let root = (above - 1) as u32;
    if root * root <= n {
        root
    } else {
        lemma_isqrt_below(n, root)
    }
}

/// Whole square root, rounded down.
#[verifier::when_used_as_spec(spec_isqrt)]
pub fn isqrt(n: u32) -> (root: u32)
    ensures
        root == spec_isqrt(n),
        is_isqrt(n, root),
        root <= 0xFFFF,
{
    let mut low: u32 = 0;
    let mut high: u32 = 0x1_0000;
    assert(low * low == 0 && high * high == 0x1_0000_0000) by (nonlinear_arith)
        requires
            low == 0,
            high == 0x1_0000,
    ;
    while high - low > 1
        invariant
            low < high <= 0x1_0000,
            low * low <= n < high * high,
        decreases high - low,
    {
        let middle: u32 = low + (high - low) / 2;
        assert(middle * middle <= 0xFFFF * 0xFFFF) by (nonlinear_arith)
            requires
                0 <= middle <= 0xFFFF,
        ;
        if middle * middle <= n {
            low = middle;
        } else {
            high = middle;
        }
    }
    proof {
        assert(high == low + 1);
        assert(is_isqrt(n, low));
        lemma_isqrt_unique(n, low, spec_isqrt(n));
    }
    low
}

/// Powers of two keep the order of their exponents.
pub proof fn lemma_pow2_monotone(low: nat, high: nat)
    requires
        low <= high,
    ensures
        pow2(low) <= pow2(high),
{
    if low < high {
        lemma_pow2_strictly_increases(low, high);
    }
}

} // verus!
