//! What setting an LO sets in the chip.
use vstd::arithmetic::power2::pow2;
use vstd::prelude::*;

use crate::chip_settings::{
    claim, lemma_claim, lemma_claimed, lemma_low_nibble, lemma_read_now, lemma_run_now,
    lemma_short_programs,
};
use crate::clocks::{distance, synth_word_addr, Ad9361ClockRates, RfPllScaler};
use crate::engine::{law_poll_keeps_state, EngineView, MAX_POLLS};
use crate::gain_control::GainTableDest;
use crate::kept::{
    are_lasting, is_lasting, keeps, leaves, lemma_exchange_keeps, lemma_keeps_prefix, none, now,
    ok, part_mask, Claim, Part, Parts,
};
use crate::link::{law_exchange_extends, merged, update, Op, Request, Trace};
use crate::on_chip::lemma_written;
use crate::regfile::{lemma_flow_extends, op_effect, written};
use crate::registers::{RFPLL_DIVIDERS, RX_CP_OVERRANGE_VCO_LOCK, RX_INTEGER_BYTE1, VCO_LOCK};
use crate::spi::{bytes_of, word_of};
use crate::synth::{
    law_lo_reads_back, law_vco_range, law_words_reproduce_the_rate, lemma_pass_state, lo_of,
    rf_words, synth_word, vco_div_field, vco_div_mask, vco_for, Carrier, RfWords,
};
use crate::units::{HertzU32, HertzU64, MAX_CARRIER_FREQ_HZ, MIN_TX_CARRIER_FREQ_HZ};
use crate::RFPLL_MODULUS;

verus! {

/// The part of the chip with the words of a synth.
pub open spec fn lo_part(tx: bool) -> Part {
    if tx {
        Part::TxLo
    } else {
        Part::RxLo
    }
}

/// Distance of a synth's registers from those of the RX synth.
pub open spec fn synth_offset(tx: bool) -> int {
    if tx {
        0x40
    } else {
        0
    }
}

/// The integer word of a synth, 11 bits.
pub open spec fn integer_word(regs: Map<u16, u8>, tx: bool) -> int {
    let at = synth_offset(tx);
    regs[(0x231 + at) as u16] + 256 * (regs[(0x232 + at) as u16] as int % 8)
}

/// The fractional word of a synth, 23 bits.
pub open spec fn fractional_word(regs: Map<u16, u8>, tx: bool) -> int {
    let at = synth_offset(tx);
    regs[(0x233 + at) as u16] + 256 * regs[(0x234 + at) as u16] + 65536 * (regs[(0x235
        + at) as u16] as int % 128)
}

/// How often the VCO of a synth is divided by two.
pub open spec fn halvings(regs: Map<u16, u8>, tx: bool) -> nat {
    if tx {
        (regs[0x005] as int / 16 + 1) as nat
    } else {
        (regs[0x005] as int % 16 + 1) as nat
    }
}

/// The words of a synth stand for a frequency off a reference: the VCO is between 6 and 12 GHz at
/// the frequency times two to the number of halvings, and the words make that of the reference up
/// to half a step of the fractional word, which counts in 8388593ths.
pub open spec fn tuned(regs: Map<u16, u8>, tx: bool, freq: int, reference: int) -> bool {
    let vco = freq * pow2(halvings(regs, tx));
    let made = reference * (integer_word(regs, tx) * 8_388_593 + fractional_word(regs, tx));
    &&& 6_000_000_000 < vco <= 12_000_000_000
    &&& 2 * (made - vco * 8_388_593) <= reference
    &&& 2 * (vco * 8_388_593 - made) <= reference
}

/// A cached frequency is the one that was set, up to the step of the fractional word and a hertz
/// that is cut off.
pub open spec fn near(cached: HertzU64, freq: int, reference: int) -> bool {
    distance(cached.raw as int, freq) <= reference / 33_554_372 + 1
}

/// What is claimed of one register of a synth.
pub open spec fn lo_claim(regs: Map<u16, u8>, from: int, tx: bool, addr: int, bits: int) -> Claim {
    claim(regs, from, lo_part(tx), addr as u16, bits as u8)
}

/// The words of a synth are claimed to be in its registers.
pub open spec fn words_claimed(
    regs: Map<u16, u8>,
    from: int,
    t: Trace,
    tx: bool,
    words: RfWords,
    current: u8,
) -> bool {
    let at = synth_offset(tx);
    let field = if tx {
        words.vco_div * 16
    } else {
        words.vco_div as int
    };
    &&& ok(lo_claim(regs, from, tx, 0x231 + at, words.integer as int % 256), t)
    &&& ok(
        lo_claim(
            regs,
            from,
            tx,
            0x232 + at,
            current as int / 8 * 8 + words.integer as int / 256 % 8,
        ),
        t,
    )
    &&& ok(lo_claim(regs, from, tx, 0x233 + at, words.fract as int % 256), t)
    &&& ok(lo_claim(regs, from, tx, 0x234 + at, words.fract as int / 256 % 256), t)
    &&& ok(lo_claim(regs, from, tx, 0x235 + at, words.fract as int / 65536 % 128), t)
    &&& ok(lo_claim(regs, from, tx, 0x005, field), t)
}

/// A synth is claimed to be set to a frequency.
pub open spec fn set_at(
    regs: Map<u16, u8>,
    from: int,
    t: Trace,
    tx: bool,
    freq: u64,
    parent: u32,
) -> bool {
    exists|current: u8| #[trigger]
        words_claimed(regs, from, t, tx, rf_words(freq, parent), current)
}

/// A synth that is left alone stays where it is.
pub(crate) proof fn lemma_stays_set(
    regs: Map<u16, u8>,
    from: int,
    t: Trace,
    u: Trace,
    but: Parts,
    tx: bool,
    freq: u64,
    parent: u32,
)
    requires
        set_at(regs, from, t, tx, freq, parent),
        leaves(t, u, but),
        !but.has(lo_part(tx)),
    ensures
        set_at(regs, from, u, tx, freq, parent),
{
    let current = choose|current: u8| #[trigger]
        words_claimed(regs, from, t, tx, rf_words(freq, parent), current);
    assert(words_claimed(regs, from, u, tx, rf_words(freq, parent), current));
}

proof fn lemma_five_bytes(data: nat, a: int, b: int, c: int, d: int, e: int)
    requires
        0 <= a < 256,
        0 <= b < 256,
        0 <= c < 256,
        0 <= d < 256,
        0 <= e < 256,
        data == (((a * 256 + b) * 256 + c) * 256 + d) * 256 + e,
    ensures
        bytes_of(data, 5) == seq![a as u8, b as u8, c as u8, d as u8, e as u8],
{
    let d4 = data / 256;
    let d3 = d4 / 256;
    let d2 = d3 / 256;
    let d1 = d2 / 256;
    assert(d4 == ((a * 256 + b) * 256 + c) * 256 + d && data % 256 == e);
    assert(d3 == (a * 256 + b) * 256 + c && d4 % 256 == d);
    assert(d2 == a * 256 + b && d3 % 256 == c);
    assert(d1 == a && d2 % 256 == b);
    assert(d1 % 256 == a);
    assert(bytes_of(d1 / 256, 0) =~= Seq::empty());
    assert(bytes_of(d1, 1) =~= seq![a as u8]);
    assert(bytes_of(d2, 2) =~= seq![a as u8, b as u8]);
    assert(bytes_of(d3, 3) =~= seq![a as u8, b as u8, c as u8]);
    assert(bytes_of(d4, 4) =~= seq![a as u8, b as u8, c as u8, d as u8]);
    assert(bytes_of(data, 5) =~= seq![a as u8, b as u8, c as u8, d as u8, e as u8]);
}

proof fn lemma_fract_bytes(fract: int)
    requires
        0 <= fract,
    ensures
        fract % 0x80_0000 == (fract / 65536 % 128 * 256 + fract / 256 % 256) * 256 + fract % 256,
{
}

/// The five bytes of the words.
proof fn lemma_word_bytes(words: RfWords, current: u8)
    ensures
        bytes_of(synth_word(words, current) as nat, 5) == seq![
            (words.fract as int / 65536 % 128) as u8,
            (words.fract as int / 256 % 256) as u8,
            (words.fract as int % 256) as u8,
            (current as int / 8 * 8 + words.integer as int / 256 % 8) as u8,
            (words.integer as int % 256) as u8,
        ],
{
    lemma_fract_bytes(words.fract as int);
    lemma_five_bytes(
        synth_word(words, current) as nat,
        words.fract as int / 65536 % 128,
        words.fract as int / 256 % 256,
        words.fract as int % 256,
        current as int / 8 * 8 + words.integer as int / 256 % 8,
        words.integer as int % 256,
    );
}

proof fn lemma_divider_field(old: u8, div: u8)
    ensures
        div <= 6 ==> merged(old, 0xF0, div << 4) & 0xF0 == div * 16,
        div <= 6 ==> merged(old, 0x0F, div) & 0x0F == div,
{
    assert(div <= 6 ==> ((old & !0xF0u8) | ((div << 4) & 0xF0)) & 0xF0 == div * 16)
        by (bit_vector);
    assert(div <= 6 ==> ((old & !0x0Fu8) | (div & 0x0F)) & 0x0F == div) by (bit_vector);
}

/// Programming a synth puts its words into its registers.
proof fn lemma_pass_sets(
    regs: Map<u16, u8>,
    from: int,
    e: EngineView,
    tx: bool,
    freq: u64,
    parent: HertzU32,
)
    requires
        0 <= from <= e.link.sent.len(),
        MIN_TX_CARRIER_FREQ_HZ <= freq <= MAX_CARRIER_FREQ_HZ,
        e.rfpll_pass(tx, rf_words(freq, parent.raw), parent).err is None,
    ensures
        set_at(
            regs,
            from,
            e.rfpll_pass(tx, rf_words(freq, parent.raw), parent).e.link,
            tx,
            freq,
            parent.raw,
        ),
{
    broadcast use {crate::kept::synth::leaves_rfpll_vco_init, crate::kept::leaves_read};

    law_vco_range(freq);
    reveal(EngineView::rfpll_pass);
    let words = rf_words(freq, parent.raw);
    let upper = e.rfpll_vco_init(tx, words.vco, parent).read(
        crate::control::synth_addr(RX_INTEGER_BYTE1, tx),
    );
    let current = upper.r->Ok_0;
    let any = claim(
        regs,
        from,
        Part::Modes,
        0x0FA,
        now(regs, from, e.link)[0x0FA] & 0x0F,
    );
    lemma_claim(any, e.link);
    assert(ok(any, upper.e.link));
    assert(from <= upper.e.link.sent.len()) by {
        reveal(ok);
    }
    let burst = Op::Burst {
        addr: synth_word_addr(tx),
        len: 5,
        data: synth_word(words, current),
    };
    let div = update(RFPLL_DIVIDERS, vco_div_mask(tx), vco_div_field(tx, words.vco_div));
    let end = upper.e.run([burst, div]@).e.link;
    lemma_flow_extends(upper.e.start(), [burst, div]@);
    let at = synth_offset(tx);
    let old = now(regs, from, upper.e.link);
    let bytes = bytes_of(synth_word(words, current) as nat, 5);
    lemma_word_bytes(words, current);
    lemma_written(old, synth_word_addr(tx), bytes);
    lemma_divider_field(old[0x005], words.vco_div);
    if keeps(regs, end, from) {
        lemma_run_now(regs, upper.e, from, [burst, div]@);
        lemma_short_programs(old, burst, div);
        let mid = written(old, synth_word_addr(tx), bytes);
        assert(op_effect(old, burst) == mid);
        let then = now(regs, from, end);
        assert(is_lasting(0x005) && is_lasting((0x231 + at) as u16) && is_lasting(
            (0x232 + at) as u16,
        ) && is_lasting((0x233 + at) as u16) && is_lasting((0x234 + at) as u16) && is_lasting(
            (0x235 + at) as u16,
        ));
        assert(mid[(synth_word_addr(tx) - 0) as u16] == bytes[0]);
        assert(mid[(synth_word_addr(tx) - 1) as u16] == bytes[1]);
        assert(mid[(synth_word_addr(tx) - 2) as u16] == bytes[2]);
        assert(mid[(synth_word_addr(tx) - 3) as u16] == bytes[3]);
        assert(mid[(synth_word_addr(tx) - 4) as u16] == bytes[4]);
        lemma_low_nibble(then[(0x231 + at) as u16]);
        lemma_low_nibble(then[(0x232 + at) as u16]);
        lemma_low_nibble(then[(0x233 + at) as u16]);
        lemma_low_nibble(then[(0x234 + at) as u16]);
        lemma_low_nibble(then[(0x235 + at) as u16]);
    }
    let field = if tx {
        words.vco_div * 16
    } else {
        words.vco_div as int
    };
    lemma_claim(lo_claim(regs, from, tx, 0x231 + at, words.integer as int % 256), end);
    lemma_claim(
        lo_claim(
            regs,
            from,
            tx,
            0x232 + at,
            current as int / 8 * 8 + words.integer as int / 256 % 8,
        ),
        end,
    );
    lemma_claim(lo_claim(regs, from, tx, 0x233 + at, words.fract as int % 256), end);
    lemma_claim(lo_claim(regs, from, tx, 0x234 + at, words.fract as int / 256 % 256), end);
    lemma_claim(lo_claim(regs, from, tx, 0x235 + at, words.fract as int / 65536 % 128), end);
    lemma_claim(lo_claim(regs, from, tx, 0x005, field), end);
    assert(words_claimed(regs, from, end, tx, words, current));
}

/// The words are in the registers.
proof fn lemma_words_held(
    regs: Map<u16, u8>,
    from: int,
    t: Trace,
    tx: bool,
    words: RfWords,
    current: u8,
)
    requires
        words_claimed(regs, from, t, tx, words, current),
        keeps(regs, t, from),
        words.integer < 0x800,
        words.fract < 0x80_0000,
        words.vco_div <= 6,
    ensures
        integer_word(now(regs, from, t), tx) == words.integer,
        fractional_word(now(regs, from, t), tx) == words.fract,
        halvings(now(regs, from, t), tx) == words.vco_div + 1,
{
    let at = synth_offset(tx);
    let then = now(regs, from, t);
    let field = if tx {
        words.vco_div * 16
    } else {
        words.vco_div as int
    };
    let high = current as int / 8 * 8 + words.integer as int / 256 % 8;
    lemma_claimed(lo_claim(regs, from, tx, 0x231 + at, words.integer as int % 256), t);
    lemma_claimed(lo_claim(regs, from, tx, 0x232 + at, high), t);
    lemma_claimed(lo_claim(regs, from, tx, 0x233 + at, words.fract as int % 256), t);
    lemma_claimed(lo_claim(regs, from, tx, 0x234 + at, words.fract as int / 256 % 256), t);
    lemma_claimed(lo_claim(regs, from, tx, 0x235 + at, words.fract as int / 65536 % 128), t);
    lemma_claimed(lo_claim(regs, from, tx, 0x005, field), t);
    lemma_whole_byte(then[(0x231 + at) as u16]);
    lemma_whole_byte(then[(0x232 + at) as u16]);
    lemma_whole_byte(then[(0x233 + at) as u16]);
    lemma_whole_byte(then[(0x234 + at) as u16]);
    lemma_whole_byte(then[(0x235 + at) as u16]);
    lemma_nibbles(then[0x005]);
    lemma_bytes_say(
        words.integer as int,
        words.fract as int,
        current as int,
    );
}

proof fn lemma_whole_byte(byte: u8)
    ensures
        byte & 0xFF == byte,
{
    assert(byte & 0xFF == byte) by (bit_vector);
}

proof fn lemma_nibbles(byte: u8)
    ensures
        byte & 0x0F == byte % 16,
        byte & 0xF0 == byte / 16 * 16,
{
    assert(byte & 0x0F == byte % 16 && (byte & 0xF0) == byte / 16 * 16) by (bit_vector);
}

proof fn lemma_bytes_say(integer: int, fract: int, current: int)
    requires
        0 <= integer < 0x800,
        0 <= fract < 0x80_0000,
        0 <= current < 256,
    ensures
        0 <= integer % 256 < 256,
        0 <= current / 8 * 8 + integer / 256 % 8 < 256,
        integer % 256 + 256 * ((current / 8 * 8 + integer / 256 % 8) % 8) == integer,
        fract % 256 + 256 * (fract / 256 % 256) + 65536 * (fract / 65536 % 128 % 128) == fract,
{
    assert((current / 8 * 8 + integer / 256 % 8) % 8 == integer / 256 % 8);
    assert(integer / 256 % 8 == integer / 256);
}

/// The words of a carrier fit their fields and stand for it.
proof fn lemma_words_stand(freq: u64, parent: u32)
    requires
        MIN_TX_CARRIER_FREQ_HZ <= freq <= MAX_CARRIER_FREQ_HZ,
        2048 * parent > 12_000_000_000,
    ensures
        ({
            let words = rf_words(freq, parent);
            let vco = freq * pow2((words.vco_div + 1) as nat);
            let made = parent * (words.integer * 8_388_593 + words.fract);
            &&& words.integer < 0x800 && words.fract < 0x80_0000 && words.vco_div <= 6
            &&& words.vco == vco
            &&& 6_000_000_000 < vco <= 12_000_000_000
            &&& 2 * (made - vco * 8_388_593) <= parent
            &&& 2 * (vco * 8_388_593 - made) <= parent
        }),
{
    law_vco_range(freq);
    let (vco, doublings) = vco_for(freq as int);
    let modulus = RFPLL_MODULUS as int;
    law_words_reproduce_the_rate(vco, parent as int, modulus);
    let (integer, fract) = crate::synth::fractional_words(vco, parent as int, modulus);
    assert(integer < 0x800) by (nonlinear_arith)
        requires
            integer == vco / parent as int,
            0 <= vco <= 12_000_000_000,
            2048 * parent > 12_000_000_000,
    ;
    let total = integer * modulus + fract;
    assert(parent * total == total * parent) by (nonlinear_arith);
}

/// What the words say.
pub(crate) proof fn lemma_words_say(
    regs: Map<u16, u8>,
    from: int,
    t: Trace,
    tx: bool,
    freq: u64,
    parent: u32,
)
    requires
        set_at(regs, from, t, tx, freq, parent),
        keeps(regs, t, from),
        MIN_TX_CARRIER_FREQ_HZ <= freq <= MAX_CARRIER_FREQ_HZ,
        2048 * parent > 12_000_000_000,
    ensures
        tuned(now(regs, from, t), tx, freq as int, parent as int),
{
    let words = rf_words(freq, parent);
    let current = choose|current: u8| #[trigger]
        words_claimed(regs, from, t, tx, words, current);
    lemma_words_stand(freq, parent);
    lemma_words_held(regs, from, t, tx, words, current);
}

/// The LO that is remembered for a synth.
pub open spec fn is_at(e: EngineView, tx: bool, freq: u64) -> bool {
    lo_of(&e.state.v.clk, tx) matches Some(lo) && lo.carrier == Carrier::at(freq)
}

/// Programming a synth sets it, and remembers its frequency. If the other one was set at the
/// frequency remembered for it, it is afterwards too.
proof fn lemma_program_sets(
    regs: Map<u16, u8>,
    from: int,
    e: EngineView,
    tx: bool,
    freq: u64,
    parent: HertzU32,
    other: u64,
)
    requires
        0 <= from <= e.link.sent.len(),
        MIN_TX_CARRIER_FREQ_HZ <= other <= MAX_CARRIER_FREQ_HZ,
        e.program_rfpll(tx, freq, parent).err is None,
    ensures
        ({
            let end = e.program_rfpll(tx, freq, parent).e;
            &&& MIN_TX_CARRIER_FREQ_HZ <= freq <= MAX_CARRIER_FREQ_HZ
            &&& set_at(regs, from, end.link, tx, freq, parent.raw)
            &&& is_at(e, !tx, other) && set_at(regs, from, e.link, !tx, other, parent.raw)
                ==> set_at(regs, from, end.link, !tx, other, parent.raw)
            &&& is_at(end, tx, freq)
            &&& end.state.v.clk.rates == e.state.v.clk.rates
        }),
{
    broadcast use {
        crate::kept::control::leaves_trx_vco_cal_control,
        crate::kept::synth::leaves_rfpll_pass,
        crate::kept::engine::leaves_poll,
    };

    reveal(EngineView::program_rfpll);
    reveal(EngineView::rfpll_passes);
    Carrier::lemma_hz(freq);
    Carrier::lemma_hz(other);
    let skip = e.state.v.mode.tdd_skip_vco_cal;
    let noted = e.note_lo(tx, freq);
    let ready = if skip {
        noted.trx_vco_cal_control(tx, true)
    } else {
        noted
    };
    assert(ready.e.state == noted.e.state) by {
        reveal(EngineView::trx_vco_cal_control);
        crate::gain_rows::lemma_runs_keep_state();
    }
    let any = claim(regs, from, Part::Modes, 0x0FA, now(regs, from, e.link)[0x0FA] & 0x0F);
    lemma_claim(any, e.link);
    let words = rf_words(freq, parent.raw);
    let first = ready.e.rfpll_pass(tx, words, parent);
    lemma_pass_state(ready.e, tx, words, parent);
    let lock = first.e.rfpll_lock(tx);
    law_poll_keeps_state(
        first.e,
        crate::control::synth_addr(RX_CP_OVERRANGE_VCO_LOCK, tx),
        VCO_LOCK,
        VCO_LOCK,
        120,
        MAX_POLLS as nat,
    );
    assert(ok(any, ready.e.link));
    assert(from <= ready.e.link.sent.len()) by {
        reveal(ok);
    }
    let passes = ready.e.rfpll_passes(tx, words, parent);
    let mine = Parts { rx_lo: !tx, tx_lo: tx, ..none() };
    assert(passes.r is Ok && first.err is None);
    lemma_pass_sets(regs, from, ready.e, tx, freq, parent);
    lemma_stays_set(regs, from, first.e.link, lock.e.link, none(), tx, freq, parent.raw);
    let had = set_at(regs, from, e.link, !tx, other, parent.raw);
    if had {
        assert(leaves(e.link, ready.e.link, none()));
        lemma_stays_set(regs, from, e.link, ready.e.link, none(), !tx, other, parent.raw);
        lemma_stays_set(regs, from, ready.e.link, first.e.link, mine, !tx, other, parent.raw);
        lemma_stays_set(regs, from, first.e.link, lock.e.link, none(), !tx, other, parent.raw);
    }
    assert(ok(any, lock.e.link));
    assert(from <= lock.e.link.sent.len()) by {
        reveal(ok);
    }
    if let Some(other_words) = lock.e.retune_words(!tx, words, parent) {
        let second = lock.e.rfpll_pass(!tx, other_words, parent);
        lemma_pass_state(lock.e, !tx, other_words, parent);
        law_poll_keeps_state(
            second.e,
            crate::control::synth_addr(RX_CP_OVERRANGE_VCO_LOCK, !tx),
            VCO_LOCK,
            VCO_LOCK,
            120,
            MAX_POLLS as nat,
        );
        let yours = Parts { rx_lo: tx, tx_lo: !tx, ..none() };
        let relock = second.e.rfpll_lock(!tx);
        lemma_stays_set(regs, from, lock.e.link, second.e.link, yours, tx, freq, parent.raw);
        lemma_stays_set(regs, from, second.e.link, relock.e.link, none(), tx, freq, parent.raw);
        if is_at(e, !tx, other) {
            assert(other_words == rf_words(other, parent.raw));
            lemma_pass_sets(regs, from, lock.e, !tx, other, parent);
            lemma_stays_set(
                regs,
                from,
                second.e.link,
                relock.e.link,
                none(),
                !tx,
                other,
                parent.raw,
            );
        }
    }
    let off = if skip {
        passes.e.trx_vco_cal_control(tx, false)
    } else {
        passes.e.start()
    };
    assert(off.e.state == passes.e.state) by {
        reveal(EngineView::trx_vco_cal_control);
        crate::gain_rows::lemma_runs_keep_state();
    }
    lemma_stays_set(regs, from, passes.e.link, off.e.link, none(), tx, freq, parent.raw);
    if had && is_at(e, !tx, other) {
        lemma_stays_set(regs, from, passes.e.link, off.e.link, none(), !tx, other, parent.raw);
    }
}

/// What the words make of the reference is near the carrier.
proof fn lemma_rate_near(freq: u64, parent: u32)
    requires
        MIN_TX_CARRIER_FREQ_HZ <= freq <= MAX_CARRIER_FREQ_HZ,
        2048 * parent > 12_000_000_000,
    ensures
        ({
            let words = rf_words(freq, parent);
            let pll = RfPllScaler {
                fract: words.fract,
                integer: words.integer,
                vco_div: words.vco_div as u32,
            };
            near(HertzU64 { raw: pll.rate(parent) }, freq as int, parent as int)
        }),
{
    let words = rf_words(freq, parent);
    let pll = RfPllScaler {
        fract: words.fract,
        integer: words.integer,
        vco_div: words.vco_div as u32,
    };
    law_lo_reads_back(freq, parent, 0, 0, false);
    law_vco_range(freq);
    lemma_words_stand(freq, parent);
    pll.lemma_vco_fits(parent);
    let (vco, doublings) = vco_for(freq as int);
    let v = pll.vco(parent);
    let shift = (pll.vco_div + 1) as u64;
    vstd::arithmetic::power2::lemma2_to64();
    vstd::bits::lemma_u64_shr_is_div(v as u64, shift);
    let p = pow2(shift as nat) as int;
    assert(pll.rate(parent) == v / p);
    let r = parent as int;
    assert(16_777_186 * (v - vco) <= r);
    assert(16_777_186 * (vco - v) < r + 16_777_186);
    lemma_halved(v, vco, freq as int, p, r);
}

proof fn lemma_halved(v: int, vco: int, freq: int, p: int, r: int)
    requires
        p == 2 || p == 4 || p == 8 || p == 16 || p == 32 || p == 64 || p == 128,
        vco == freq * p,
        0 <= v,
        0 <= r,
        16_777_186 * (v - vco) <= r,
        16_777_186 * (vco - v) < r + 16_777_186,
    ensures
        distance(v / p, freq) <= r / 33_554_372 + 1,
{
    let q = v / p;
    assert(q * p <= v < q * p + p) by (nonlinear_arith)
        requires
            q == v / p,
            p > 0,
    ;
    let d = freq - q;
    assert(d * p == freq * p - q * p) by (nonlinear_arith)
        requires
            d == freq - q,
    ;
    assert(d > 1 ==> (d - 1) * 2 <= (d - 1) * p) by (nonlinear_arith)
        requires
            p >= 2,
    ;
    assert((d - 1) * p == d * p - p) by (nonlinear_arith);
    assert(d < 0 ==> (-d) * 2 <= (-d) * p) by (nonlinear_arith)
        requires
            p >= 2,
    ;
    assert((-d) * p == -(d * p)) by (nonlinear_arith);
}

/// Reading the words of a synth back gives what is in its registers.
proof fn lemma_scaler_read(regs: Map<u16, u8>, from: int, e: EngineView, tx: bool)
    requires
        0 <= from <= e.link.sent.len(),
        e.read_rfpll_scaler(tx).r is Ok,
        keeps(regs, e.read_rfpll_scaler(tx).e.link, from),
    ensures
        ({
            let then = now(regs, from, e.link);
            let pll = e.read_rfpll_scaler(tx).r->Ok_0;
            &&& keeps(regs, e.link, from)
            &&& now(regs, from, e.read_rfpll_scaler(tx).e.link) == then
            &&& pll.integer == integer_word(then, tx)
            &&& pll.fract == fractional_word(then, tx)
            &&& pll.vco_div + 1 == halvings(then, tx)
        }),
{
    reveal(EngineView::read_rfpll_scaler);
    reveal(EngineView::exchange);
    let read = Request::Read { addr: synth_word_addr(tx), len: 5 };
    let words = e.read_word(synth_word_addr(tx), 5);
    law_exchange_extends(e.link, read);
    lemma_read_now(regs, words.e, from, RFPLL_DIVIDERS);
    lemma_exchange_keeps(regs, e.link, from, read);
    assert(are_lasting(synth_word_addr(tx), 5));
    assert(is_lasting(RFPLL_DIVIDERS));
    let then = now(regs, from, e.link);
    let addr = synth_word_addr(tx);
    let bytes = Seq::new(5, |i: int| then[(addr - i) as u16]);
    lemma_word_of_five(bytes);
    let at = synth_offset(tx);
    lemma_word_fields(
        bytes[0] as int,
        bytes[1] as int,
        bytes[2] as int,
        bytes[3] as int,
        bytes[4] as int,
    );
    assert(bytes[4] == then[(0x231 + at) as u16] && bytes[3] == then[(0x232 + at) as u16]
        && bytes[2] == then[(0x233 + at) as u16] && bytes[1] == then[(0x234 + at) as u16]
        && bytes[0] == then[(0x235 + at) as u16]);
}

proof fn lemma_word_of_five(bytes: Seq<u8>)
    requires
        bytes.len() == 5,
    ensures
        word_of(bytes) == (((bytes[0] * 256 + bytes[1]) * 256 + bytes[2]) * 256 + bytes[3]) * 256
            + bytes[4],
{
    let b4 = bytes.drop_last();
    let b3 = b4.drop_last();
    let b2 = b3.drop_last();
    let b1 = b2.drop_last();
    assert(word_of(b1.drop_last()) == 0);
    assert(word_of(b1) == bytes[0]);
    assert(word_of(b2) == bytes[0] * 256 + bytes[1]);
    assert(word_of(b3) == (bytes[0] * 256 + bytes[1]) * 256 + bytes[2]);
    assert(word_of(b4) == ((bytes[0] * 256 + bytes[1]) * 256 + bytes[2]) * 256 + bytes[3]);
}

proof fn lemma_word_fields(a: int, b: int, c: int, d: int, e: int)
    requires
        0 <= a < 256,
        0 <= b < 256,
        0 <= c < 256,
        0 <= d < 256,
        0 <= e < 256,
    ensures
        ({
            let word = (((a * 256 + b) * 256 + c) * 256 + d) * 256 + e;
            &&& word / 0x1_0000 % 0x80_0000 == c + 256 * b + 65536 * (a % 128)
            &&& word % 0x800 == e + 256 * (d % 8)
        }),
{
    let word = (((a * 256 + b) * 256 + c) * 256 + d) * 256 + e;
    let high = (a * 256 + b) * 256 + c;
    assert(word == high * 65536 + (d * 256 + e));
    assert(word / 0x1_0000 == high);
}

/// Setting a synth to a new frequency sets it and refreshes its cached rate. If the other one was at
/// the frequency remembered for it, it is afterwards too.
pub(crate) proof fn lemma_retune_sets(
    regs: Map<u16, u8>,
    from: int,
    e: EngineView,
    tx: bool,
    freq: HertzU64,
    parent: HertzU32,
    other: u64,
)
    requires
        0 <= from <= e.link.sent.len(),
        MIN_TX_CARRIER_FREQ_HZ <= other <= MAX_CARRIER_FREQ_HZ,
        2048 * parent.raw > 12_000_000_000,
        e.retune_rfpll(tx, freq, parent).err is None,
    ensures
        ({
            let end = e.retune_rfpll(tx, freq, parent).e;
            let rates = end.state.v.clk.rates;
            let cached = if tx {
                rates.tx_rfpll
            } else {
                rates.rx_rfpll
            };
            &&& from <= end.link.sent.len()
            &&& MIN_TX_CARRIER_FREQ_HZ <= freq.raw <= MAX_CARRIER_FREQ_HZ
            &&& set_at(regs, from, end.link, tx, freq.raw, parent.raw)
            &&& is_at(e, !tx, other) && set_at(regs, from, e.link, !tx, other, parent.raw)
                ==> set_at(regs, from, end.link, !tx, other, parent.raw)
            &&& is_at(end, tx, freq.raw)
            &&& keeps(regs, end.link, from) ==> near(cached, freq.raw as int, parent.raw as int)
            &&& rates == (if tx {
                Ad9361ClockRates { tx_rfpll: rates.tx_rfpll, ..e.state.v.clk.rates }
            } else {
                Ad9361ClockRates { rx_rfpll: rates.rx_rfpll, ..e.state.v.clk.rates }
            })
        }),
{
    broadcast use {
        crate::kept::gain_control::leaves_load_gain_table,
        crate::kept::clocks::leaves_read_rfpll_scaler,
        crate::kept::synth::leaves_program_rfpll,
    };

    reveal(EngineView::retune_rfpll);
    lemma_program_sets(regs, from, e, tx, freq.raw, parent, other);
    let programmed = e.program_rfpll(tx, freq.raw, parent);
    let loaded = if tx {
        programmed
    } else {
        programmed.load_gain_table(freq.raw, GainTableDest::Both)
    };
    let scaler = loaded.read_rfpll_scaler(tx);
    assert(loaded.e.state.v.clk == programmed.e.state.v.clk) by {
        reveal(EngineView::load_gain_table);
        crate::gain_rows::lemma_written_lna_stays(
            programmed.e,
            programmed.e.tables.table_index(
                programmed.e.state.v.gain.split_gt,
                freq.raw,
            ) as usize,
        );
    }
    lemma_scaler_state(loaded.e, tx);
    let any = claim(regs, from, Part::Modes, 0x0FA, now(regs, from, e.link)[0x0FA] & 0x0F);
    lemma_claim(any, e.link);
    assert(ok(any, loaded.e.link));
    assert(ok(any, scaler.e.link));
    assert(from <= loaded.e.link.sent.len() && from <= scaler.e.link.sent.len()) by {
        reveal(ok);
    }
    let but = Parts { table_size: true, ..none() };
    let had = is_at(e, !tx, other) && set_at(regs, from, e.link, !tx, other, parent.raw);
    lemma_stays_set(
        regs,
        from,
        programmed.e.link,
        loaded.e.link,
        but,
        tx,
        freq.raw,
        parent.raw,
    );
    lemma_stays_set(
        regs,
        from,
        loaded.e.link,
        scaler.e.link,
        none(),
        tx,
        freq.raw,
        parent.raw,
    );
    if had {
        lemma_stays_set(
            regs,
            from,
            programmed.e.link,
            loaded.e.link,
            but,
            !tx,
            other,
            parent.raw,
        );
        lemma_stays_set(
            regs,
            from,
            loaded.e.link,
            scaler.e.link,
            none(),
            !tx,
            other,
            parent.raw,
        );
    }
    if keeps(regs, scaler.e.link, from) {
        lemma_scaler_read(regs, from, loaded.e, tx);
        let words = rf_words(freq.raw, parent.raw);
        let current = choose|current: u8| #[trigger]
            words_claimed(regs, from, loaded.e.link, tx, words, current);
        lemma_words_stand(freq.raw, parent.raw);
        lemma_words_held(regs, from, loaded.e.link, tx, words, current);
        lemma_rate_near(freq.raw, parent.raw);
    }
}

proof fn lemma_scaler_state(e: EngineView, tx: bool)
    ensures
        e.read_rfpll_scaler(tx).e.state == e.state,
{
    broadcast use crate::gain_rows::gain_of_read;

    reveal(EngineView::read_rfpll_scaler);
    reveal(EngineView::exchange);
}

/// Setting an LO to a new frequency: the words in the registers of that synth stand for it, and so
/// does the cached rate. The cached rate of the other one stays.
pub proof fn law_lo_is_set(regs: Map<u16, u8>, e: EngineView, tx: bool, freq: HertzU64)
    requires
        ({
            let rates = e.state.v.clk.rates;
            let (cached, reference) = if tx {
                (rates.tx_rfpll, rates.tx_ref)
            } else {
                (rates.rx_rfpll, rates.rx_ref)
            };
            cached != freq && 2048 * reference.raw > 12_000_000_000
        }),
        e.set_rfpll_rate(tx, freq).err is None,
        keeps(regs, e.set_rfpll_rate(tx, freq).e.link, e.link.sent.len() as int),
    ensures
        ({
            let end = e.set_rfpll_rate(tx, freq).e;
            let then = now(regs, e.link.sent.len() as int, end.link);
            let (old, new) = (e.state.v.clk.rates, end.state.v.clk.rates);
            if tx {
                &&& tuned(then, true, freq.raw as int, old.tx_ref.raw as int)
                &&& near(new.tx_rfpll, freq.raw as int, old.tx_ref.raw as int)
                &&& new.rx_rfpll == old.rx_rfpll
            } else {
                &&& tuned(then, false, freq.raw as int, old.rx_ref.raw as int)
                &&& near(new.rx_rfpll, freq.raw as int, old.rx_ref.raw as int)
                &&& new.tx_rfpll == old.tx_rfpll
            }
        }),
{
    broadcast use crate::kept::synth::leaves_recalibrate_tx;

    reveal(EngineView::set_rfpll_rate);
    let from = e.link.sent.len() as int;
    let rates = e.state.v.clk.rates;
    let parent = if tx {
        rates.tx_ref
    } else {
        rates.rx_ref
    };
    lemma_retune_sets(regs, from, e, tx, freq, parent, MAX_CARRIER_FREQ_HZ);
    let tuned_to = e.retune_rfpll(tx, freq, parent).e;
    let end = e.set_rfpll_rate(tx, freq).e;
    if tx {
        let but = Parts { rx_filter: true, tx_filter: true, tracking: true, ..none() };
        lemma_stays_set(regs, from, tuned_to.link, end.link, but, tx, freq.raw, parent.raw);
        lemma_before(regs, from, tuned_to.link, end.link, but);
    }
    lemma_words_say(regs, from, end.link, tx, freq.raw, parent.raw);
}

/// The chip kept what was written to it before, if it did to the end.
pub(crate) proof fn lemma_before(regs: Map<u16, u8>, from: int, t: Trace, u: Trace, but: Parts)
    requires
        0 <= from <= t.sent.len(),
        leaves(t, u, but),
        !but.dcxo || !but.modes,
    ensures
        from <= u.sent.len(),
        keeps(regs, u, from) ==> keeps(regs, t, from),
{
    let (part, addr) = if but.dcxo {
        (Part::Modes, 0x0FAu16)
    } else {
        (Part::Dcxo, 0x292u16)
    };
    let bits = now(regs, from, t)[addr] & part_mask(part, addr);
    let past = Claim { past: Some(t), ..claim(regs, from, part, addr, bits) };
    lemma_claim(past, t);
    assert(ok(past, u));
    reveal(ok);
    if keeps(regs, u, from) {
        lemma_keeps_prefix(regs, t, u, from);
    }
}

} // verus!
