//! What operations leave in a chip that answers like a plain register file, and read back from it.
use vstd::prelude::*;

use crate::clocks::{
    distance, law_closest_ratio, law_rx_ref_reads_back, law_scaler_reads_back,
    parent_of, rate_of, reference_scaler, scaler_addr, scaler_field, scaler_mask, with_rate,
    Ad9361Clock, ClockMulDiv,
};
use crate::engine::{law_read_keeps_state, law_run_keeps_state, EngineView, Flow};
use crate::gain_control::{lmt_field, pulled_high_action, state5_field, GainControl};
use crate::link::{
    exchange, extends, law_exchange_extends, law_merge_keeps_other_bits, put, update, Fault, Op,
    Request, Trace,
};
use crate::math::flag;
use crate::regfile::{
    after, effect, held, holds_attenuation, law_attenuation_on_registers, law_program_puts,
    lemma_atten_extends, lemma_exchange_plain, lemma_extends_on, lemma_flow_extends, lemma_one_op,
    lemma_plain_prefix, lemma_program_spares, lemma_read_extends, lemma_read_plain,
    lemma_run_plain, plain, program_effect, touches, written,
};
use crate::registers::{
    ADC_LARGE_OVERLOAD_THRESH, ADC_SMALL_OVERLOAD_THRESH, LARGE_LMT_OVERLOAD_THRESH,
    POWER_MEAS_IN_STATE_5, POWER_MEAS_IN_STATE_5_MSB, REF_DIVIDE_CONFIG1, REF_DIVIDE_CONFIG2,
    RX1_MANUAL_LMT_FULL_GAIN, RX1_MANUAL_LPF_GAIN, RX_REF_DIVIDER_LSB, RX_REF_DIVIDER_MSB,
    SMALL_LMT_OVERLOAD_THRESH, SMALL_LMT_THRESH, TX1_ATTEN1, TX2_ATTEN1,
};
use crate::spi::{
    bytes_of, law_bytes_read_back, lemma_pow256, lemma_word_bound, word_of, MAX_BYTES,
};
use crate::state::{EngineState, FirState};
use crate::units::{law_attenuation_reads_back, saturated, HertzU32, TxAttenuation, MAX_QUARTER_DB};

verus! {

/// Bytes that were written are in the registers, and no other register changed.
pub(crate) proof fn lemma_written(regs: Map<u16, u8>, addr: u16, bytes: Seq<u8>)
    requires
        bytes.len() <= addr + 1,
    ensures
        forall|i: int|
            0 <= i < bytes.len() ==> written(regs, addr, bytes)[(addr - i) as u16]
                == #[trigger] bytes[i],
        forall|a: u16|
            a > addr || a <= addr - bytes.len() ==> #[trigger] written(regs, addr, bytes)[a]
                == regs[a],
    decreases bytes.len(),
{
    if bytes.len() > 0 {
        let rest = bytes.drop_last();
        lemma_written(regs, addr, rest);
        assert forall|i: int| 0 <= i < bytes.len() implies written(
            regs,
            addr,
            bytes,
        )[(addr - i) as u16] == #[trigger] bytes[i] by {
            if i < rest.len() {
                assert(rest[i] == bytes[i]);
            }
        }
        let last = (addr - (bytes.len() - 1)) as u16;
        assert forall|a: u16| a > addr || a <= addr - bytes.len() implies #[trigger] written(
            regs,
            addr,
            bytes,
        )[a] == regs[a] by {
            assert(a != last);
            assert(written(regs, addr, rest)[a] == regs[a]);
            assert(written(regs, addr, bytes)[a] == written(regs, addr, rest)[a]);
        }
    }
}

proof fn lemma_word_fits(bytes: Seq<u8>)
    requires
        bytes.len() <= MAX_BYTES,
    ensures
        word_of(bytes) <= u64::MAX,
{
    if bytes.len() > 0 {
        lemma_word_bound(bytes.drop_last());
        lemma_pow256(bytes.drop_last().len());
    }
}

/// The program that writes bytes.
pub open spec fn write_of(addr: u16, bytes: Seq<u8>) -> Seq<Op> {
    [Op::Burst { addr, len: bytes.len() as u8, data: word_of(bytes) as u64 }]@
}

/// Bytes that were written to a plain register file are the ones that are read back. No other
/// register changes, and reading changes none.
pub proof fn law_bytes_are_read_back(
    regs: Map<u16, u8>,
    e: EngineView,
    addr: u16,
    bytes: Seq<u8>,
)
    requires
        1 <= bytes.len() <= MAX_BYTES,
        bytes.len() <= addr + 1,
        plain(
            regs,
            e.run(write_of(addr, bytes)).e.read_word(addr, bytes.len() as u8).e.link,
            e.link.sent.len() as int,
        ),
    ensures
        ({
            let from = e.link.sent.len() as int;
            let set = e.run(write_of(addr, bytes));
            let read = set.e.read_word(addr, bytes.len() as u8);
            let now = after(regs, from, set.e);
            &&& set.err is None
            &&& read.r matches Ok(word) && bytes_of(word as nat, bytes.len()) == bytes
            &&& forall|a: u16|
                a > addr || a <= addr - bytes.len() ==> #[trigger] now[a] == regs[a]
            &&& after(regs, from, read.e) == now
        }),
{
    let from = e.link.sent.len() as int;
    let len = bytes.len() as u8;
    let ops = write_of(addr, bytes);
    let op = Op::Burst { addr, len, data: word_of(bytes) as u64 };
    let request = Request::Read { addr, len };
    let set = e.run(ops);
    let end = set.e.read_word(addr, len).e.link;
    assert(e.link.sent.subrange(from, from) =~= Seq::empty());
    reveal(EngineView::exchange);
    law_exchange_extends(set.e.link, request);
    lemma_flow_extends(e.start(), ops);
    lemma_run_plain(regs, e, from, ops, end);
    lemma_one_op(regs, op);
    lemma_exchange_plain(regs, set.e.link, from, request);
    lemma_word_fits(bytes);
    law_bytes_read_back(bytes);
    lemma_written(regs, addr, bytes);
    let now = written(regs, addr, bytes);
    let found = Seq::new(len as nat, |i: int| now[(addr - i) as u16]);
    assert forall|i: int| 0 <= i < bytes.len() implies found[i] == #[trigger] bytes[i] by {}
    assert(found =~= bytes);
}

/// The ratios that a clock's scaler can be set to.
pub open spec fn accepts(clock: Ad9361Clock, ratio: ClockMulDiv, fir: FirState) -> bool {
    if clock == Ad9361Clock::RxRef {
        reference_scaler(ratio) is Some
    } else {
        scaler_field(clock, ratio, &fir) is Some
    }
}

/// Whether a clock is the sample clock behind a FIR that is bypassed.
pub open spec fn is_bypassed(clock: Ad9361Clock, fir: FirState) -> bool {
    ||| clock == Ad9361Clock::RxSampl && fir.rx_bypassed()
    ||| clock == Ad9361Clock::TxSampl && fir.tx_bypassed()
}

pub(crate) proof fn lemma_scaler_extends(e: EngineView, clock: Ad9361Clock, ratio: ClockMulDiv)
    ensures
        ({
            let set = e.set_clock_scaler(clock, ratio);
            let read = set.e.read_clock_scaler(clock);
            &&& extends(e.link, set.e.link)
            &&& extends(set.e.link, read.e.link)
            &&& set.e.state == e.state
            &&& read.e.state == e.state
        }),
{
    reveal(EngineView::set_clock_scaler);
    reveal(EngineView::read_clock_scaler);
    let set = e.set_clock_scaler(clock, ratio);
    assert forall|ops: Seq<Op>| #![trigger e.run(ops)] extends(e.link, e.run(ops).e.link) && e.run(
        ops,
    ).e.state == e.state by {
        lemma_flow_extends(e.start(), ops);
        law_run_keeps_state(e, ops);
    }
    assert(extends(e.link, e.link));
    lemma_read_extends(set.e.start(), scaler_addr(clock));
    law_read_keeps_state(set.e, scaler_addr(clock));
    lemma_read_extends(set.e.start(), REF_DIVIDE_CONFIG1);
    law_read_keeps_state(set.e, REF_DIVIDE_CONFIG1);
    let first = set.e.read(REF_DIVIDE_CONFIG1);
    lemma_read_extends(first.e.start(), REF_DIVIDE_CONFIG2);
    law_read_keeps_state(first.e, REF_DIVIDE_CONFIG2);
    lemma_extends_on(set.e.link, first.e.link, first.e.read(REF_DIVIDE_CONFIG2).e.link);
}

/// A ratio that a clock doesn't accept is refused, and nothing is sent.
pub proof fn law_other_ratios_are_refused(e: EngineView, clock: Ad9361Clock, ratio: ClockMulDiv)
    requires
        !accepts(clock, ratio, e.state.v.fir),
    ensures
        e.set_clock_scaler(clock, ratio) == e.fail(Fault::InvalidRate),
{
    reveal(EngineView::set_clock_scaler);
}

/// A scaler that was set on a plain register file is the one that is read back. Behind a bypassed
/// FIR it is 1.
pub proof fn law_scaler_is_read_back(
    regs: Map<u16, u8>,
    e: EngineView,
    clock: Ad9361Clock,
    ratio: ClockMulDiv,
)
    requires
        accepts(clock, ratio, e.state.v.fir),
        plain(
            regs,
            e.set_clock_scaler(clock, ratio).e.read_clock_scaler(clock).e.link,
            e.link.sent.len() as int,
        ),
    ensures
        e.set_clock_scaler(clock, ratio).err is None,
        e.set_clock_scaler(clock, ratio).e.read_clock_scaler(clock).r == Ok::<ClockMulDiv, Fault>(
            if is_bypassed(clock, e.state.v.fir) {
                ClockMulDiv { mult: 1, div: 1 }
            } else {
                ratio
            },
        ),
{
    let from = e.link.sent.len() as int;
    let fir = e.state.v.fir;
    let set = e.set_clock_scaler(clock, ratio);
    let end = set.e.read_clock_scaler(clock).e.link;
    assert(e.link.sent.subrange(from, from) =~= Seq::empty());
    lemma_scaler_extends(e, clock, ratio);
    reveal(EngineView::set_clock_scaler);
    reveal(EngineView::read_clock_scaler);
    if clock == Ad9361Clock::RxRef {
        let scaler = reference_scaler(ratio)->0;
        let msb = update(
            REF_DIVIDE_CONFIG1,
            RX_REF_DIVIDER_MSB,
            flag(scaler >= 2, RX_REF_DIVIDER_MSB),
        );
        let lsb = update(
            REF_DIVIDE_CONFIG2,
            RX_REF_DIVIDER_LSB,
            flag(scaler % 2 == 1, RX_REF_DIVIDER_LSB),
        );
        let ops = [msb, lsb]@;
        lemma_run_plain(regs, e, from, ops, end);
        reveal_with_fuel(program_effect, 3);
        assert(ops.drop_last() =~= seq![msb]);
        assert(ops.drop_last().drop_last() =~= Seq::empty());
        let first = set.e.read(REF_DIVIDE_CONFIG1);
        let second = first.e.read(REF_DIVIDE_CONFIG2);
        lemma_read_extends(set.e.start(), REF_DIVIDE_CONFIG1);
        lemma_read_extends(first.e.start(), REF_DIVIDE_CONFIG2);
        assert(extends(first.e.link, end));
        lemma_read_plain(regs, set.e, from, REF_DIVIDE_CONFIG1, end);
        assert(extends(second.e.link, end));
        lemma_read_plain(regs, first.e, from, REF_DIVIDE_CONFIG2, end);
        law_rx_ref_reads_back(ratio, regs[REF_DIVIDE_CONFIG1], regs[REF_DIVIDE_CONFIG2]);
    } else {
        let field = scaler_field(clock, ratio, &fir)->0;
        let addr = scaler_addr(clock);
        let mask = scaler_mask(clock);
        let op = update(addr, mask, field);
        lemma_run_plain(regs, e, from, [op]@, end);
        lemma_one_op(regs, op);
        assert(extends(end, end));
        lemma_read_plain(regs, set.e, from, addr, end);
        if is_bypassed(clock, fir) {
            law_merge_keeps_other_bits(regs[addr], mask, field);
            assert(0u8 & mask == 0) by (bit_vector);
        } else {
            law_scaler_reads_back(clock, ratio, fir, regs[addr]);
        }
    }
}

/// Setting a clock on a plain register file sets it to the closest rate there is: no other ratio
/// that the clock accepts makes a rate nearer to the one asked for. Every other cached rate stays.
pub proof fn law_clock_rate_is_closest(
    regs: Map<u16, u8>,
    e: EngineView,
    clock: Ad9361Clock,
    rate: HertzU32,
    other: ClockMulDiv,
)
    requires
        rate_of(&e.state.v.clk.rates, clock) != rate,
        !is_bypassed(clock, e.state.v.fir),
        e.set_clock_rate(clock, rate).err is None,
        plain(regs, e.set_clock_rate(clock, rate).e.link, e.link.sent.len() as int),
        accepts(clock, other, e.state.v.fir),
        other.exact_rate(
            parent_of(e.state.v.ref_clk_in, &e.state.v.clk.rates, clock).raw,
        ) <= u32::MAX,
    ensures
        ({
            let before = e.state.v.clk.rates;
            let parent = parent_of(e.state.v.ref_clk_in, &before, clock);
            let now = e.set_clock_rate(clock, rate).e.state.v.clk.rates;
            &&& now == with_rate(before, clock, rate_of(&now, clock))
            &&& distance(rate_of(&now, clock).raw as int, rate.raw as int) <= distance(
                other.exact_rate(parent.raw),
                rate.raw as int,
            )
        }),
{
    reveal(EngineView::set_clock_rate);
    let parent = parent_of(e.state.v.ref_clk_in, &e.state.v.clk.rates, clock);
    let ratio = ClockMulDiv::closest_ratio(rate.raw, parent.raw)->0;
    lemma_scaler_extends(e, clock, ratio);
    let set = e.set_clock_scaler(clock, ratio);
    assert(accepts(clock, ratio, e.state.v.fir)) by {
        reveal(EngineView::set_clock_scaler);
    }
    law_scaler_is_read_back(regs, e, clock, ratio);
    assert(other.is_simple());
    law_closest_ratio(rate.raw, parent.raw, other);
}

proof fn lemma_effects_join(regs: Map<u16, u8>, first: Seq<Request>, then: Seq<Request>)
    ensures
        effect(effect(regs, first), then) == effect(regs, first + then),
    decreases then.len(),
{
    if then.len() > 0 {
        lemma_effects_join(regs, first, then.drop_last());
        assert((first + then).drop_last() =~= first + then.drop_last());
        assert((first + then).last() == then.last());
    } else {
        assert(first + then =~= first);
    }
}

/// What a plain register file answered from some request on, it answered from any later one on.
pub(crate) proof fn lemma_plain_from(regs: Map<u16, u8>, t: Trace, from: int, mid: int)
    requires
        plain(regs, t, from),
        from <= mid <= t.sent.len(),
    ensures
        plain(effect(regs, t.sent.subrange(from, mid)), t, mid),
{
    let now = effect(regs, t.sent.subrange(from, mid));
    assert forall|i: int| mid <= i < t.sent.len() implies #[trigger] crate::regfile::answered_plainly(
        now,
        t,
        mid,
        i,
    ) by {
        assert(crate::regfile::answered_plainly(regs, t, from, i));
        lemma_effects_join(regs, t.sent.subrange(from, mid), t.sent.subrange(mid, i));
        assert(t.sent.subrange(from, mid) + t.sent.subrange(mid, i) =~= t.sent.subrange(from, i));
    }
}

/// Setting an attenuation in the middle of a conversation with a plain register file.
proof fn lemma_atten_midway(
    regs: Map<u16, u8>,
    e: EngineView,
    from: int,
    atten: TxAttenuation,
    tx1: bool,
    tx2: bool,
    end: Trace,
)
    requires
        from <= e.link.sent.len(),
        0 <= from,
        extends(e.set_tx_atten(atten, tx1, tx2, true).e.link, end),
        plain(regs, end, from),
    ensures
        ({
            let set = e.set_tx_atten(atten, tx1, tx2, true);
            let before = after(regs, from, e);
            let now = after(regs, from, set.e);
            &&& set.err is None
            &&& set.e.link.sent.len() >= e.link.sent.len()
            &&& holds_attenuation(now, TX1_ATTEN1, atten) || !tx1
            &&& holds_attenuation(now, TX2_ATTEN1, atten) || !tx2
            &&& !tx1 ==> forall|a: TxAttenuation|
                holds_attenuation(before, TX1_ATTEN1, a) ==> holds_attenuation(now, TX1_ATTEN1, a)
            &&& !tx2 ==> forall|a: TxAttenuation|
                holds_attenuation(before, TX2_ATTEN1, a) ==> holds_attenuation(now, TX2_ATTEN1, a)
        }),
{
    let set = e.set_tx_atten(atten, tx1, tx2, true);
    let mid = e.link.sent.len() as int;
    let n = set.e.link.sent.len() as int;
    lemma_atten_extends(e, atten, tx1, tx2, true);
    lemma_plain_prefix(regs, set.e.link, end, from);
    lemma_plain_from(regs, set.e.link, from, mid);
    let sent = set.e.link.sent;
    assert(sent.subrange(from, mid) =~= e.link.sent.subrange(from, mid));
    let before = after(regs, from, e);
    law_attenuation_on_registers(before, e, atten, tx1, tx2, true);
    lemma_effects_join(regs, sent.subrange(from, mid), sent.subrange(mid, n));
    assert(sent.subrange(from, mid) + sent.subrange(mid, n) =~= sent.subrange(from, n));
    let now = after(regs, from, set.e);
    assert(now == after(before, mid, set.e));
    if !tx1 {
        assert(now[TX1_ATTEN1] == before[TX1_ATTEN1]);
        assert(now[(TX1_ATTEN1 - 1) as u16] == before[(TX1_ATTEN1 - 1) as u16]);
    }
    if !tx2 {
        assert(now[TX2_ATTEN1] == before[TX2_ATTEN1]);
        assert(now[(TX2_ATTEN1 - 1) as u16] == before[(TX2_ATTEN1 - 1) as u16]);
    }
}

/// Reading an attenuation from a plain register file that holds it.
proof fn lemma_atten_read(
    regs: Map<u16, u8>,
    e: EngineView,
    from: int,
    which: bool,
    atten: TxAttenuation,
    end: Trace,
)
    requires
        0 <= from <= e.link.sent.len(),
        atten.steps() <= MAX_QUARTER_DB,
        holds_attenuation(
            after(regs, from, e),
            if which {
                TX2_ATTEN1
            } else {
                TX1_ATTEN1
            },
            atten,
        ),
        extends(e.tx_atten(which).e.link, end),
        plain(regs, end, from),
    ensures
        e.tx_atten(which).r == Ok::<TxAttenuation, Fault>(atten),
        e.tx_atten(which).e.link.sent.len() >= e.link.sent.len(),
        e.tx_atten(which).e.state == e.state,
        after(regs, from, e.tx_atten(which).e) == after(regs, from, e),
{
    let addr = if which {
        TX2_ATTEN1
    } else {
        TX1_ATTEN1
    };
    let request = Request::Read { addr, len: 2 };
    reveal(EngineView::tx_atten);
    reveal(EngineView::exchange);
    law_exchange_extends(e.link, request);
    lemma_plain_prefix(regs, exchange(e.link, request).0, end, from);
    lemma_exchange_plain(regs, e.link, from, request);
    let now = after(regs, from, e);
    let bytes = Seq::new(2, |i: int| now[(addr - i) as u16]);
    reveal_with_fuel(word_of, 3);
    assert(bytes.drop_last().drop_last() =~= Seq::empty());
    assert(bytes.drop_last().last() == now[addr]);
    assert(bytes.last() == now[(addr - 1) as u16]);
    assert(held(now, addr, 2) == atten.steps());
    law_attenuation_reads_back(atten);
}

proof fn lemma_atten_read_extends(e: EngineView, which: bool)
    ensures
        extends(e.link, e.tx_atten(which).e.link),
{
    reveal(EngineView::tx_atten);
    reveal(EngineView::exchange);
    let addr = if which {
        TX2_ATTEN1
    } else {
        TX1_ATTEN1
    };
    law_exchange_extends(e.link, Request::Read { addr, len: 2 });
}

/// Muting a chip whose registers are plain sets both attenuations to the maximum, and unmuting it
/// sets each to what it was before.
pub proof fn law_mute_and_unmute(
    regs: Map<u16, u8>,
    e: EngineView,
    atten1: TxAttenuation,
    atten2: TxAttenuation,
)
    requires
        atten1.steps() <= MAX_QUARTER_DB,
        atten2.steps() <= MAX_QUARTER_DB,
        holds_attenuation(regs, TX1_ATTEN1, atten1),
        holds_attenuation(regs, TX2_ATTEN1, atten2),
        plain(regs, e.tx_mute(true).e.tx_mute(false).e.link, e.link.sent.len() as int),
    ensures
        ({
            let from = e.link.sent.len() as int;
            let muted = e.tx_mute(true);
            let unmuted = muted.e.tx_mute(false);
            let quiet = after(regs, from, muted.e);
            let now = after(regs, from, unmuted.e);
            &&& muted.err is None
            &&& holds_attenuation(quiet, TX1_ATTEN1, saturated(MAX_QUARTER_DB))
            &&& holds_attenuation(quiet, TX2_ATTEN1, saturated(MAX_QUARTER_DB))
            &&& unmuted.err is None
            &&& holds_attenuation(now, TX1_ATTEN1, atten1)
            &&& holds_attenuation(now, TX2_ATTEN1, atten2)
        }),
{
    reveal(EngineView::tx_mute);
    let from = e.link.sent.len() as int;
    assert(e.link.sent.subrange(from, from) =~= Seq::empty());
    let most = saturated(MAX_QUARTER_DB);
    let muted = e.tx_mute(true);
    let unmuted = muted.e.tx_mute(false);
    let end = unmuted.e.link;
    let tx1 = e.tx_atten(false);
    lemma_atten_read_extends(e, false);
    let noted1 = EngineView {
        state: crate::engine::Held {
            v: EngineState { tx1_atten_cached: tx1.r->Ok_0, ..tx1.e.state.v },
        },
        ..tx1.e
    };
    let tx2 = noted1.tx_atten(true);
    lemma_atten_read_extends(noted1, true);
    let noted2 = EngineView {
        state: crate::engine::Held {
            v: EngineState { tx2_atten_cached: tx2.r->Ok_0, ..tx2.e.state.v },
        },
        ..tx2.e
    };
    lemma_atten_extends(noted2, most, true, true, true);
    let saved1 = muted.e.state.v.tx1_atten_cached;
    let saved2 = muted.e.state.v.tx2_atten_cached;
    lemma_atten_extends(muted.e, saved1, true, true, true);
    lemma_atten_extends(muted.e, saved1, true, false, true);
    let half = muted.e.set_tx_atten(saved1, true, false, true);
    lemma_atten_extends(half.e, saved2, false, true, true);
    lemma_extends_on(
        muted.e.link,
        half.e.link,
        half.e.set_tx_atten(saved2, false, true, true).e.link,
    );
    assert(extends(muted.e.link, end));
    if tx1.r is Ok {
        if tx2.r is Ok {
            lemma_extends_on(noted2.link, muted.e.link, end);
        }
        lemma_extends_on(noted1.link, tx2.e.link, end);
    }
    lemma_atten_read(regs, e, from, false, atten1, end);
    lemma_atten_read(regs, noted1, from, true, atten2, end);
    lemma_atten_midway(regs, noted2, from, most, true, true, end);
    lemma_atten_state(noted2, most);
    if atten1 == atten2 {
        lemma_atten_midway(regs, muted.e, from, atten1, true, true, end);
    } else {
        lemma_atten_midway(regs, muted.e, from, atten1, true, false, end);
        lemma_atten_midway(regs, half.e, from, atten2, false, true, end);
    }
}

proof fn lemma_atten_state(e: EngineView, atten: TxAttenuation)
    ensures
        e.set_tx_atten(atten, true, true, true).e.state == e.state,
{
    reveal(EngineView::set_tx_atten);
    assert forall|at: EngineView, ops: Seq<Op>| #[trigger] at.run(ops).e.state == at.state by {
        law_run_keeps_state(at, ops);
    }
}

/// The smaller of the two ADC overload thresholds.
pub open spec fn small_overload(ctrl: GainControl) -> u8 {
    if ctrl.adc_small_overload_thresh <= ctrl.adc_large_overload_thresh {
        ctrl.adc_small_overload_thresh
    } else {
        ctrl.adc_large_overload_thresh
    }
}

/// The larger of the two ADC overload thresholds.
pub open spec fn large_overload(ctrl: GainControl) -> u8 {
    if ctrl.adc_small_overload_thresh <= ctrl.adc_large_overload_thresh {
        ctrl.adc_large_overload_thresh
    } else {
        ctrl.adc_small_overload_thresh
    }
}

/// Both overload thresholds are in their registers.
pub open spec fn holds_overloads(regs: Map<u16, u8>, ctrl: GainControl) -> bool {
    &&& regs[ADC_SMALL_OVERLOAD_THRESH] == small_overload(ctrl)
    &&& regs[ADC_LARGE_OVERLOAD_THRESH] == large_overload(ctrl)
}

/// Neither register of an overload threshold is written.
spec fn spares_overloads(ops: Seq<Op>) -> bool {
    forall|i: int|
        0 <= i < ops.len() ==> !touches(#[trigger] ops[i], ADC_SMALL_OVERLOAD_THRESH) && !touches(
            ops[i],
            ADC_LARGE_OVERLOAD_THRESH,
        )
}

/// An operation goes on from where it was, and leaves both thresholds in their registers.
spec fn spares(
    regs: Map<u16, u8>,
    from: int,
    e: EngineView,
    next: Flow,
    ctrl: GainControl,
) -> bool {
    &&& extends(e.link, next.e.link)
    &&& holds_overloads(after(regs, from, e), ctrl) ==> holds_overloads(
        after(regs, from, next.e),
        ctrl,
    )
}

/// What is known of every program: it only fails for the bus, and one that writes neither threshold
/// leaves both as they were.
proof fn lemma_runs(regs: Map<u16, u8>, from: int, ctrl: GainControl)
    ensures
        forall|at: EngineView, ops: Seq<Op>|
            #![trigger at.run(ops)]
            0 <= from <= at.link.sent.len() ==> {
                let next = at.run(ops);
                &&& extends(at.link, next.e.link)
                &&& from <= next.e.link.sent.len()
                &&& next.err matches Some(error) ==> error is Spi
                &&& spares_overloads(ops) ==> spares(regs, from, at, next, ctrl)
            },
        forall|t: Trace, u: Trace, v: Trace|
            #![trigger extends(t, u), extends(u, v)]
            extends(t, u) && extends(u, v) ==> extends(t, v),
        forall|t: Trace| #[trigger] extends(t, t),
{
    assert forall|t: Trace, u: Trace, v: Trace|
        #![trigger extends(t, u), extends(u, v)]
        extends(t, u) && extends(u, v) implies extends(t, v) by {
        lemma_extends_on(t, u, v);
    }
    assert forall|at: EngineView, ops: Seq<Op>|
        #![trigger at.run(ops)]
        0 <= from <= at.link.sent.len() implies {
        let next = at.run(ops);
        &&& extends(at.link, next.e.link)
        &&& from <= next.e.link.sent.len()
        &&& next.err matches Some(error) ==> error is Spi
        &&& spares_overloads(ops) ==> spares(regs, from, at, next, ctrl)
    } by {
        reveal(EngineView::run);
        lemma_flow_extends(at.start(), ops);
        if spares_overloads(ops) {
            lemma_program_spares(regs, at.link, from, ops, ADC_SMALL_OVERLOAD_THRESH);
            lemma_program_spares(regs, at.link, from, ops, ADC_LARGE_OVERLOAD_THRESH);
        }
    }
}

proof fn lemma_gc_modes_extends(regs: Map<u16, u8>, e: EngineView, from: int, ctrl: GainControl)
    requires
        0 <= from <= e.link.sent.len(),
    ensures
        extends(e.link, e.gc_modes(ctrl).e.link),
        e.gc_modes(ctrl).err matches Some(error) ==> error is Spi,
{
    reveal(EngineView::gc_modes);
    lemma_runs(regs, from, ctrl);
}

proof fn lemma_gc_slow_attack_spares(
    regs: Map<u16, u8>,
    e: EngineView,
    from: int,
    ctrl: GainControl,
)
    requires
        0 <= from <= e.link.sent.len(),
    ensures
        spares(regs, from, e, e.gc_slow_attack(ctrl), ctrl),
{
    reveal(EngineView::gc_slow_attack);
    lemma_runs(regs, from, ctrl);
}

proof fn lemma_gc_fast_attack_spares(
    regs: Map<u16, u8>,
    e: EngineView,
    from: int,
    ctrl: GainControl,
)
    requires
        0 <= from <= e.link.sent.len(),
    ensures
        spares(regs, from, e, e.gc_fast_attack(ctrl), ctrl),
{
    reveal(EngineView::gc_fast_attack);
    lemma_runs(regs, from, ctrl);
}

proof fn lemma_gc_unlock_spares(regs: Map<u16, u8>, e: EngineView, from: int, ctrl: GainControl)
    requires
        0 <= from <= e.link.sent.len(),
    ensures
        spares(regs, from, e, e.gc_unlock(ctrl), ctrl),
{
    reveal(EngineView::gc_unlock);
    lemma_runs(regs, from, ctrl);
}

proof fn lemma_set_agc_pulled_high_spares(
    regs: Map<u16, u8>,
    e: EngineView,
    from: int,
    ctrl: GainControl,
    goto_max_or_opt: bool,
    goto_set: bool,
    goto_opt: Option<bool>,
)
    requires
        0 <= from <= e.link.sent.len(),
    ensures
        spares(
            regs,
            from,
            e,
            e.set_agc_pulled_high(goto_max_or_opt, goto_set, goto_opt),
            ctrl,
        ),
{
    reveal(EngineView::set_agc_pulled_high);
    lemma_runs(regs, from, ctrl);
}

proof fn lemma_gc_update_spares(regs: Map<u16, u8>, e: EngineView, from: int, ctrl: GainControl)
    requires
        0 <= from <= e.link.sent.len(),
    ensures
        spares(regs, from, e, e.gc_update(), ctrl),
{
    reveal(EngineView::gc_update);
    lemma_runs(regs, from, ctrl);
}

/// The thresholds are in their registers once they were written without a fault of the bus.
proof fn lemma_gc_thresholds_set(regs: Map<u16, u8>, e: EngineView, from: int, ctrl: GainControl)
    requires
        0 <= from <= e.link.sent.len(),
    ensures
        ({
            let next = e.gc_thresholds(ctrl);
            &&& extends(e.link, next.e.link)
            &&& next.err matches Some(error) ==> error is Spi
            &&& next.err is None ==> holds_overloads(after(regs, from, next.e), ctrl)
        }),
{
    reveal(EngineView::gc_thresholds);
    lemma_runs(regs, from, ctrl);
    let ops = [
        put(ADC_SMALL_OVERLOAD_THRESH, small_overload(ctrl)),
        put(ADC_LARGE_OVERLOAD_THRESH, large_overload(ctrl)),
        put(LARGE_LMT_OVERLOAD_THRESH, lmt_field(ctrl.lmt_overload_high_thresh)),
        update(
            SMALL_LMT_OVERLOAD_THRESH,
            SMALL_LMT_THRESH,
            lmt_field(ctrl.lmt_overload_low_thresh),
        ),
    ]@;
    let overload = e.run(ops);
    if overload.err is None {
        reveal(EngineView::run);
        law_program_puts(
            regs,
            e.link,
            from,
            ops,
            0,
            ADC_SMALL_OVERLOAD_THRESH,
            small_overload(ctrl),
        );
        law_program_puts(
            regs,
            e.link,
            from,
            ops,
            1,
            ADC_LARGE_OVERLOAD_THRESH,
            large_overload(ctrl),
        );
        assert(holds_overloads(after(regs, from, overload.e), ctrl));
    }
}

/// Setting the gain control up leaves the smaller of the two ADC overload thresholds in the
/// register of the small one and the larger one in the other, whichever way round they were given
/// and whatever the chip answered, unless the bus failed. Swapping them changes neither byte.
pub proof fn law_overloads_are_ordered(regs: Map<u16, u8>, e: EngineView, ctrl: GainControl)
    requires
        !(e.gc_setup(ctrl).err matches Some(error) && error is Spi),
    ensures
        holds_overloads(after(regs, e.link.sent.len() as int, e.gc_setup(ctrl).e), ctrl),
        forall|swapped: GainControl|
            #![trigger small_overload(swapped)]
            #![trigger large_overload(swapped)]
            swapped.adc_small_overload_thresh == ctrl.adc_large_overload_thresh
                && swapped.adc_large_overload_thresh == ctrl.adc_small_overload_thresh ==> {
                &&& small_overload(swapped) == small_overload(ctrl)
                &&& large_overload(swapped) == large_overload(ctrl)
            },
{
    reveal(EngineView::gc_setup);
    let from = e.link.sent.len() as int;
    let (max_or_opt, set, opt) = pulled_high_action(&ctrl);
    let noted = e.set_gain_control(ctrl);
    let modes = noted.gc_modes(ctrl);
    let thresholds = modes.gc_thresholds(ctrl);
    let slow = thresholds.gc_slow_attack(ctrl);
    let fast = slow.gc_fast_attack(ctrl);
    let unlock = fast.gc_unlock(ctrl);
    let pulled = unlock.set_agc_pulled_high(max_or_opt, set, opt);
    let ops = [
        update(
            RX1_MANUAL_LPF_GAIN,
            POWER_MEAS_IN_STATE_5,
            (state5_field(&ctrl) & 0x7) << 5,
        ),
        update(
            RX1_MANUAL_LMT_FULL_GAIN,
            POWER_MEAS_IN_STATE_5_MSB,
            flag(state5_field(&ctrl) >= 8, POWER_MEAS_IN_STATE_5_MSB),
        ),
    ]@;
    let measured = pulled.run(ops);
    lemma_runs(regs, from, ctrl);
    lemma_gc_modes_extends(regs, noted.e, from, ctrl);
    lemma_gc_thresholds_set(regs, modes.e, from, ctrl);
    lemma_gc_slow_attack_spares(regs, thresholds.e, from, ctrl);
    lemma_gc_fast_attack_spares(regs, slow.e, from, ctrl);
    lemma_gc_unlock_spares(regs, fast.e, from, ctrl);
    lemma_set_agc_pulled_high_spares(regs, unlock.e, from, ctrl, max_or_opt, set, opt);
    lemma_gc_update_spares(regs, measured.e, from, ctrl);
}

} // verus!
