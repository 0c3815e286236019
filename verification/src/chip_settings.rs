//! What the operations set in the chip, in terms of what they were asked for.
//!
//! The registers and their fields are the ones of the chip, by number. The chip has to keep what is
//! written to the registers of its settings, see [`crate::kept`]; the answers of its other
//! registers don't matter.
use vstd::prelude::*;

use crate::calibration::{
    bandwidth_fraction, quad_plan, rx_tune_divider, too_narrow, tx_tune_divider, txnco_freq,
    RxPhase,
};
use crate::engine::EngineView;
use crate::gain_control::{gain_setup_field, gain_setup_mask, rx_enable_bit, GainMode};
use crate::kept::{
    agree, are_lasting, is_lasting, keeps, law_program_on_lasting, lemma_exchange_keeps,
    lemma_one_byte, now, ok, part_mask, Claim, Part,
};
use crate::link::{extends, merged, put, update, Fault, Op, Request, Trace};
use crate::math::{clamped, div_round_up, flag, least};
use crate::ports::Channel;
use crate::regfile::{
    lemma_flow_extends, lemma_read_extends, lemma_untouched, program_effect, touches,
};
use crate::registers::{
    AGC_CONFIG1, RX1_TUNE_CONTROL, RX2_TUNE_CONTROL, RX_BBBW_KHZ, RX_BBBW_MHZ, RX_BBF_TUNE_CONFIG,
    RX_BBF_TUNE_DIVIDE, RX_BBF_TUNE_DIVIDE_MSB, RX_CHANNEL_ENABLE, RX_ENABLE_FILTER_CONTROL,
    RX_MIX_GM_CONFIG, RX_MIX_LO_CM, SLOW_ATTACK_HYBRID_MODE, TUNER_RESAMPLE, TUNE_RESAMPLE,
    TX_BBF_TUNE_DIVIDER, TX_BBF_TUNE_DIVIDER_MSB, TX_BBF_TUNE_MODE, TX_TUNE_CONTROL,
};
use crate::units::HertzU32;

verus! {

/// What is claimed of a register.
pub open spec fn claim(regs: Map<u16, u8>, from: int, part: Part, addr: u16, bits: u8) -> Claim {
    Claim { regs, from, part, addr, bits, past: None }
}

/// A claim that is true.
pub(crate) proof fn lemma_claim(c: Claim, t: Trace)
    requires
        0 <= c.from <= t.sent.len(),
        part_mask(c.part, c.addr) != 0,
        c.past matches Some(past) ==> extends(past, t),
        keeps(c.regs, t, c.from) ==> now(c.regs, c.from, t)[c.addr] & part_mask(c.part, c.addr)
            == c.bits,
    ensures
        ok(c, t),
{
    reveal(ok);
}

/// What a claim says.
pub(crate) proof fn lemma_claimed(c: Claim, t: Trace)
    requires
        ok(c, t),
        keeps(c.regs, t, c.from),
    ensures
        now(c.regs, c.from, t)[c.addr] & part_mask(c.part, c.addr) == c.bits,
        c.past matches Some(past) ==> extends(past, t),
{
    reveal(ok);
}

/// A program went through, and the lasting registers are as it says.
pub(crate) proof fn lemma_run_now(regs: Map<u16, u8>, e: EngineView, from: int, ops: Seq<Op>)
    requires
        keeps(regs, e.run(ops).e.link, from),
        from <= e.link.sent.len(),
    ensures
        e.run(ops).err is None,
        keeps(regs, e.link, from),
        agree(now(regs, from, e.run(ops).e.link), program_effect(now(regs, from, e.link), ops)),
{
    reveal(EngineView::run);
    law_program_on_lasting(regs, e.link, from, ops);
}

/// A read went through, and changed nothing.
pub(crate) proof fn lemma_read_now(regs: Map<u16, u8>, e: EngineView, from: int, addr: u16)
    requires
        keeps(regs, e.read(addr).e.link, from),
        from <= e.link.sent.len(),
    ensures
        e.read(addr).r is Ok,
        keeps(regs, e.link, from),
        now(regs, from, e.read(addr).e.link) == now(regs, from, e.link),
        is_lasting(addr) ==> e.read(addr).r == Ok::<u8, Fault>(now(regs, from, e.link)[addr]),
{
    reveal(EngineView::read);
    reveal(EngineView::exchange);
    lemma_exchange_keeps(regs, e.link, from, Request::Read { addr, len: 1 });
    lemma_one_byte(now(regs, from, e.link), addr, 0);
    if is_lasting(addr) {
        assert(are_lasting(addr, 1));
    }
}

/// Nothing has happened at the start.
pub(crate) proof fn lemma_start(regs: Map<u16, u8>, t: Trace)
    ensures
        now(regs, t.sent.len() as int, t) == regs,
{
    assert(t.sent.subrange(t.sent.len() as int, t.sent.len() as int) =~= Seq::empty());
}

/// What programs of one and two steps do.
pub(crate) proof fn lemma_short_programs(regs: Map<u16, u8>, a: Op, b: Op)
    ensures
        program_effect(regs, [a]@) == crate::regfile::op_effect(regs, a),
        program_effect(regs, [a, b]@) == crate::regfile::op_effect(
            crate::regfile::op_effect(regs, a),
            b,
        ),
{
    reveal_with_fuel(program_effect, 3);
    assert([a]@.drop_last() =~= Seq::empty());
    assert([a, b]@.drop_last() =~= seq![a]);
    assert(seq![a].drop_last() =~= Seq::empty());
}

/// The number of a gain mode in the chip.
pub open spec fn mode_number(mode: GainMode) -> int {
    match mode {
        GainMode::Manual => 0,
        GainMode::FastAttackAgc => 1,
        GainMode::SlowAttackAgc => 2,
        GainMode::HybridAgc => 3,
    }
}

/// The gain mode field of a channel.
pub open spec fn mode_field(regs: Map<u16, u8>, channel: Channel) -> int {
    match channel {
        Channel::Ch1 => regs[0x0FA] as int % 4,
        Channel::Ch2 => regs[0x0FA] as int / 4 % 4,
    }
}

proof fn lemma_mode_bits(old: u8, code: u8, hybrid: u8)
    requires
        code <= 3,
        hybrid == 0 || hybrid == 0x10,
    ensures
        ({
            let one = merged(old, 0x03u8 | 0x10u8, code | hybrid) & 0x0F;
            let two = merged(old, 0x0Cu8 | 0x10u8, (code << 2) | hybrid) & 0x0F;
            &&& one % 4 == code && one / 4 == old / 4 % 4
            &&& two / 4 == code && two % 4 == old % 4
        }),
{
    assert({
        let one = ((old & !(0x03u8 | 0x10)) | ((code | hybrid) & (0x03u8 | 0x10u8))) & 0x0F;
        let two = ((old & !(0x0Cu8 | 0x10)) | (((code << 2) | hybrid) & (0x0Cu8 | 0x10u8))) & 0x0F;
        &&& one % 4 == code && one / 4 == old / 4 % 4
        &&& two / 4 == code && two % 4 == old % 4
    }) by (bit_vector)
        requires
            code <= 3,
            hybrid == 0 || hybrid == 0x10,
    ;
}

pub(crate) proof fn lemma_low_nibble(byte: u8)
    ensures
        (byte & 0x0F) % 4 == byte % 4,
        (byte & 0x0F) / 4 == byte / 4 % 4,
        (byte & 0xC0) / 64 == byte / 64,
        (byte & 0x03) == byte % 4,
        (byte & 0x01) == byte % 2,
        (byte & 0xFF) == byte,
        (byte & 0xF0) / 16 == byte / 16,
{
    assert((byte & 0x0F) % 4 == byte % 4 && (byte & 0x0F) / 4 == byte / 4 % 4 && (byte & 0xC0) / 64
        == byte / 64 && (byte & 0x03) == byte % 4 && (byte & 0x01) == byte % 2 && (byte & 0xFF)
        == byte && (byte & 0xF0) / 16 == byte / 16) by (bit_vector);
}

/// Setting the gain mode of a channel puts the number of the mode in the field of that channel. The
/// field of the other channel is what it was, and so is which channels are on.
pub proof fn law_gain_mode_is_set(
    regs: Map<u16, u8>,
    e: EngineView,
    channel: Channel,
    mode: GainMode,
)
    requires
        e.set_gain_mode(channel, mode).err is None,
        keeps(regs, e.set_gain_mode(channel, mode).e.link, e.link.sent.len() as int),
    ensures
        ({
            let then = now(
                regs,
                e.link.sent.len() as int,
                e.set_gain_mode(channel, mode).e.link,
            );
            let other = match channel {
                Channel::Ch1 => Channel::Ch2,
                Channel::Ch2 => Channel::Ch1,
            };
            &&& mode_field(then, channel) == mode_number(mode)
            &&& mode_field(then, other) == mode_field(regs, other)
            &&& then[0x003] / 64 == regs[0x003] / 64
        }),
{
    broadcast use crate::kept::gain_control::leaves_gc_update;

    reveal(EngineView::set_gain_mode);
    let from = e.link.sent.len() as int;
    let enables = e.read(RX_ENABLE_FILTER_CONTROL);
    let byte = enables.r->Ok_0;
    let hybrid = flag(mode == GainMode::HybridAgc, SLOW_ATTACK_HYBRID_MODE);
    let off = update(
        RX_ENABLE_FILTER_CONTROL,
        RX_CHANNEL_ENABLE,
        byte & !rx_enable_bit(channel),
    );
    let set = update(
        AGC_CONFIG1,
        gain_setup_mask(channel) | SLOW_ATTACK_HYBRID_MODE,
        gain_setup_field(channel, mode) | hybrid,
    );
    let on = update(RX_ENABLE_FILTER_CONTROL, RX_CHANNEL_ENABLE, byte);
    let one = enables.e.run([off, set]@);
    let noted = one.remember_gain_mode(channel, mode);
    let two = noted.run([on]@);
    lemma_read_extends(e.start(), RX_ENABLE_FILTER_CONTROL);
    lemma_flow_extends(enables.e.start(), [off, set]@);
    lemma_flow_extends(noted, [on]@);
    let then = merged(
        regs[0x0FA],
        gain_setup_mask(channel) | SLOW_ATTACK_HYBRID_MODE,
        gain_setup_field(channel, mode) | hybrid,
    );
    lemma_start(regs, e.link);
    let old = regs[0x003];
    assert(merged(merged(old, 0xC0, byte & !rx_enable_bit(channel)), 0xC0, old) & 0xC0 == old
        & 0xC0) by {
        let value = byte & !rx_enable_bit(channel);
        assert(((((old & !0xC0u8) | (value & 0xC0)) & !0xC0u8) | (old & 0xC0)) & 0xC0 == old
            & 0xC0) by (bit_vector);
    }
    if keeps(regs, two.e.link, from) {
        lemma_run_now(regs, noted.e, from, [on]@);
        lemma_run_now(regs, enables.e, from, [off, set]@);
        lemma_read_now(regs, e, from, RX_ENABLE_FILTER_CONTROL);
        lemma_short_programs(now(regs, from, enables.e.link), off, set);
        lemma_short_programs(now(regs, from, noted.e.link), on, on);
        assert(is_lasting(0x0FA) && is_lasting(0x003));
    }
    let modes = claim(regs, from, Part::Modes, 0x0FA, then & 0x0F);
    let channels = claim(regs, from, Part::Channels, 0x003, old & 0xC0);
    lemma_claim(modes, two.e.link);
    lemma_claim(channels, two.e.link);
    let end = e.set_gain_mode(channel, mode).e.link;
    lemma_claimed(modes, end);
    lemma_claimed(channels, end);
    lemma_mode_bits(regs[0x0FA], mode.code(), hybrid);
    lemma_low_nibble(regs[0x0FA]);
    lemma_low_nibble(now(regs, from, end)[0x0FA]);
    lemma_low_nibble(now(regs, from, end)[0x003]);
    lemma_low_nibble(old);
}

/// What a program leaves in a register that only one of its steps writes.
pub(crate) proof fn lemma_effect_at(regs: Map<u16, u8>, ops: Seq<Op>, k: int, a: u16)
    requires
        0 <= k < ops.len(),
        forall|i: int| 0 <= i < ops.len() && i != k ==> !touches(#[trigger] ops[i], a),
    ensures
        ops[k] matches Op::Write { addr, value } ==> addr == a ==> program_effect(regs, ops)[a]
            == value,
        ops[k] matches Op::Update { addr, mask, value } ==> addr == a ==> program_effect(
            regs,
            ops,
        )[a] == merged(regs[a], mask, value),
    decreases ops.len(),
{
    let rest = ops.drop_last();
    if k < rest.len() {
        assert forall|i: int| 0 <= i < rest.len() && i != k implies !touches(
            #[trigger] rest[i],
            a,
        ) by {
            assert(rest[i] == ops[i]);
        }
        assert(rest[k] == ops[k]);
        assert(!touches(ops[ops.len() - 1], a));
        lemma_effect_at(regs, rest, k, a);
    } else {
        assert forall|i: int| 0 <= i < rest.len() implies !touches(#[trigger] rest[i], a) by {
            assert(rest[i] == ops[i]);
        }
        lemma_untouched(regs, rest, a);
    }
}

/// The RX baseband filter is set for a baseband bandwidth off a BBPLL rate: the bandwidth within
/// its limits in megahertz and, to the closest step, 1/128 MHz, and a tune divider that divides
/// the BBPLL rate down to 1.4 * 2PI / ln(2) times the bandwidth or just below, as far as it goes.
pub open spec fn rx_filter_is(regs: Map<u16, u8>, half: int, bbpll: int) -> bool {
    let bw = if half < 200_000 {
        200_000
    } else if half > 28_000_000 {
        28_000_000
    } else {
        half
    };
    let corner = 126_906 * (bw / 10_000);
    let divider = regs[0x1F8] + 256 * (regs[0x1F9] as int % 2);
    let steps = bw % 1_000_000 * 128;
    &&& regs[0x1FB] == bw / 1_000_000
    &&& regs[0x1FC] <= 127
    &&& 2 * (regs[0x1FC] * 1_000_000 - steps) <= 1_000_000
    &&& 2 * (steps - regs[0x1FC] * 1_000_000) <= 1_000_000 || regs[0x1FC] == 127
    &&& 1 <= divider <= 511
    &&& (divider - 1) * corner < bbpll
    &&& bbpll <= divider * corner || divider == 511
}

/// The TX baseband filter is set for a baseband bandwidth off a BBPLL rate: the tune divider
/// divides the BBPLL rate down to 1.6 * 2PI / ln(2) times the bandwidth within its limits or just
/// below, as far as it goes.
pub open spec fn tx_filter_is(regs: Map<u16, u8>, half: int, bbpll: int) -> bool {
    let bw = if half < 625_000 {
        625_000
    } else if half > 20_000_000 {
        20_000_000
    } else {
        half
    };
    let corner = 145_036 * (bw / 10_000);
    let divider = regs[0x0D6] + 256 * (regs[0x0D7] as int % 2);
    &&& 0 <= divider <= 511
    &&& (divider - 1) * corner < bbpll
    &&& bbpll <= divider * corner || divider == 511
}

/// Both filters are claimed to be set.
pub open spec fn filters_claimed(
    regs: Map<u16, u8>,
    from: int,
    t: Trace,
    rx: u32,
    tx: u32,
    bbpll: u32,
) -> bool {
    &&& rx_filter_claimed(regs, from, t, rx, bbpll)
    &&& tx_filter_claimed(regs, from, t, tx, bbpll)
}

pub open spec fn rx_filter_claimed(
    regs: Map<u16, u8>,
    from: int,
    t: Trace,
    rx: u32,
    bbpll: u32,
) -> bool {
    let bw = clamped(rx, 200_000, 28_000_000);
    let div = rx_tune_divider(bw, bbpll);
    &&& div != 0
    &&& ok(claim(regs, from, Part::RxFilter, 0x1F8, div as u8), t)
    &&& ok(claim(regs, from, Part::RxFilter, 0x1F9, flag(div >= 256, 0x01)), t)
    &&& ok(claim(regs, from, Part::RxFilter, 0x1FB, (bw / 1_000_000) as u8), t)
    &&& ok(claim(regs, from, Part::RxFilter, 0x1FC, bandwidth_fraction(bw)), t)
}

pub open spec fn tx_filter_claimed(
    regs: Map<u16, u8>,
    from: int,
    t: Trace,
    tx: u32,
    bbpll: u32,
) -> bool {
    let div = tx_tune_divider(clamped(tx, 625_000, 20_000_000), bbpll);
    &&& ok(claim(regs, from, Part::TxFilter, 0x0D6, div as u8), t)
    &&& ok(claim(regs, from, Part::TxFilter, 0x0D7, flag(div >= 256, 0x01)), t)
}

proof fn lemma_low_bit(old: u8, value: u8)
    ensures
        value == 0 || value == 1 ==> merged(old, 0x01, value) & 0x01 == value,
{
    assert(value == 0 || value == 1 ==> ((old & !0x01u8) | (value & 0x01)) & 0x01 == value)
        by (bit_vector);
}

proof fn lemma_rx_filter_set(
    regs: Map<u16, u8>,
    from: int,
    e: EngineView,
    rx: HertzU32,
    bbpll: HertzU32,
)
    requires
        0 <= from <= e.link.sent.len(),
        e.rx_bb_analog_filter_calib(rx, bbpll).r is Ok,
    ensures
        rx_filter_claimed(
            regs,
            from,
            e.rx_bb_analog_filter_calib(rx, bbpll).e.link,
            rx.raw,
            bbpll.raw,
        ),
{
    broadcast use {
        crate::kept::leaves_run,
        crate::kept::calibration::leaves_run_calibration,
    };

    reveal(EngineView::rx_bb_analog_filter_calib);
    let bw = clamped(rx.raw, 200_000, 28_000_000);
    let div = rx_tune_divider(bw, bbpll.raw);
    let ops = [
        put(RX_BBF_TUNE_DIVIDE, div as u8),
        update(
            RX_BBF_TUNE_CONFIG,
            RX_BBF_TUNE_DIVIDE_MSB,
            flag(div >= 256, RX_BBF_TUNE_DIVIDE_MSB),
        ),
        put(RX_BBBW_MHZ, (bw / 1_000_000) as u8),
        put(RX_BBBW_KHZ, bandwidth_fraction(bw)),
        put(RX_MIX_LO_CM, 0x3F),
        put(RX_MIX_GM_CONFIG, 3),
        put(RX1_TUNE_CONTROL, TUNE_RESAMPLE),
        put(RX2_TUNE_CONTROL, TUNE_RESAMPLE),
    ]@;
    let ready = e.run(ops);
    lemma_flow_extends(e.start(), ops);
    if keeps(regs, ready.e.link, from) {
        lemma_run_now(regs, e, from, ops);
        let at = now(regs, from, e.link);
        lemma_effect_at(at, ops, 0, 0x1F8);
        lemma_effect_at(at, ops, 1, 0x1F9);
        lemma_effect_at(at, ops, 2, 0x1FB);
        lemma_effect_at(at, ops, 3, 0x1FC);
        lemma_low_bit(at[0x1F9], flag(div >= 256, 0x01));
        assert(is_lasting(0x1F8) && is_lasting(0x1F9) && is_lasting(0x1FB) && is_lasting(0x1FC));
        let then = now(regs, from, ready.e.link);
        lemma_low_nibble(then[0x1F8]);
        lemma_low_nibble(then[0x1FB]);
        lemma_low_nibble(then[0x1FC]);
    }
    lemma_claim(claim(regs, from, Part::RxFilter, 0x1F8, div as u8), ready.e.link);
    lemma_claim(claim(regs, from, Part::RxFilter, 0x1F9, flag(div >= 256, 0x01)), ready.e.link);
    lemma_claim(claim(regs, from, Part::RxFilter, 0x1FB, (bw / 1_000_000) as u8), ready.e.link);
    lemma_claim(claim(regs, from, Part::RxFilter, 0x1FC, bandwidth_fraction(bw)), ready.e.link);
}

proof fn lemma_tx_filter_set(
    regs: Map<u16, u8>,
    from: int,
    e: EngineView,
    tx: HertzU32,
    bbpll: HertzU32,
)
    requires
        0 <= from <= e.link.sent.len(),
        e.tx_bb_analog_filter_calib(tx, bbpll).err is None,
    ensures
        tx_filter_claimed(
            regs,
            from,
            e.tx_bb_analog_filter_calib(tx, bbpll).e.link,
            tx.raw,
            bbpll.raw,
        ),
{
    broadcast use {
        crate::kept::leaves_run,
        crate::kept::calibration::leaves_run_calibration,
    };

    reveal(EngineView::tx_bb_analog_filter_calib);
    let div = tx_tune_divider(clamped(tx.raw, 625_000, 20_000_000), bbpll.raw);
    let ops = [
        put(TX_BBF_TUNE_DIVIDER, div as u8),
        update(
            TX_BBF_TUNE_MODE,
            TX_BBF_TUNE_DIVIDER_MSB,
            flag(div >= 256, TX_BBF_TUNE_DIVIDER_MSB),
        ),
        put(TX_TUNE_CONTROL, TUNER_RESAMPLE | 1),
    ]@;
    let ready = e.run(ops);
    lemma_flow_extends(e.start(), ops);
    if keeps(regs, ready.e.link, from) {
        lemma_run_now(regs, e, from, ops);
        let at = now(regs, from, e.link);
        lemma_effect_at(at, ops, 0, 0x0D6);
        lemma_effect_at(at, ops, 1, 0x0D7);
        lemma_low_bit(at[0x0D7], flag(div >= 256, 0x01));
        assert(is_lasting(0x0D6) && is_lasting(0x0D7));
        lemma_low_nibble(now(regs, from, ready.e.link)[0x0D6]);
    }
    lemma_claim(claim(regs, from, Part::TxFilter, 0x0D6, div as u8), ready.e.link);
    lemma_claim(claim(regs, from, Part::TxFilter, 0x0D7, flag(div >= 256, 0x01)), ready.e.link);
}

pub(crate) proof fn lemma_filters_set(
    regs: Map<u16, u8>,
    from: int,
    e: EngineView,
    rx: HertzU32,
    tx: HertzU32,
)
    requires
        0 <= from <= e.link.sent.len(),
        e.filter_calibs(rx, tx).err is None,
    ensures
        filters_claimed(
            regs,
            from,
            e.filter_calibs(rx, tx).e.link,
            rx.raw,
            tx.raw,
            e.state.v.clk.rates.bbpll.raw,
        ),
{
    broadcast use {
        crate::kept::calibration::leaves_tx_bb_analog_filter_calib,
        crate::kept::calibration::leaves_rx_tia_calib,
        crate::kept::calibration::leaves_tx_bb_second_filter_calib,
        crate::kept::calibration::leaves_rx_adc_setup,
    };

    reveal(EngineView::filter_calibs);
    let bbpll = e.state.v.clk.rates.bbpll;
    let first = e.rx_bb_analog_filter_calib(rx, bbpll);
    lemma_rx_filter_set(regs, from, e, rx, bbpll);
    assert(from <= first.e.link.sent.len()) by {
        reveal(ok);
    }
    lemma_tx_filter_set(regs, from, first.e, tx, bbpll);
}

/// What the bytes of a filter stand for.
pub(crate) proof fn lemma_filters_are(
    regs: Map<u16, u8>,
    from: int,
    t: Trace,
    rx: u32,
    tx: u32,
    bbpll: u32,
)
    requires
        filters_claimed(regs, from, t, rx, tx, bbpll),
        keeps(regs, t, from),
    ensures
        rx_filter_is(now(regs, from, t), rx as int, bbpll as int),
        tx_filter_is(now(regs, from, t), tx as int, bbpll as int),
{
    let then = now(regs, from, t);
    let bw = clamped(rx, 200_000, 28_000_000);
    let div = rx_tune_divider(bw, bbpll);
    lemma_claimed(claim(regs, from, Part::RxFilter, 0x1F8, div as u8), t);
    lemma_claimed(claim(regs, from, Part::RxFilter, 0x1F9, flag(div >= 256, 0x01)), t);
    lemma_claimed(claim(regs, from, Part::RxFilter, 0x1FB, (bw / 1_000_000) as u8), t);
    lemma_claimed(claim(regs, from, Part::RxFilter, 0x1FC, bandwidth_fraction(bw)), t);
    lemma_low_nibble(then[0x1F8]);
    lemma_low_nibble(then[0x1F9]);
    lemma_low_nibble(then[0x1FB]);
    lemma_low_nibble(then[0x1FC]);
    lemma_divider(div, then[0x1F8], then[0x1F9], bbpll, (126_906 * (bw / 10_000)) as u32);
    let tx_bw = clamped(tx, 625_000, 20_000_000);
    let tx_div = tx_tune_divider(tx_bw, bbpll);
    lemma_claimed(claim(regs, from, Part::TxFilter, 0x0D6, tx_div as u8), t);
    lemma_claimed(claim(regs, from, Part::TxFilter, 0x0D7, flag(tx_div >= 256, 0x01)), t);
    lemma_low_nibble(then[0x0D6]);
    lemma_low_nibble(then[0x0D7]);
    lemma_divider(
        tx_div,
        then[0x0D6],
        then[0x0D7],
        bbpll,
        (145_036 * (tx_bw / 10_000)) as u32,
    );
}

proof fn lemma_divider(div: u32, low: u8, high: u8, bbpll: u32, corner: u32)
    requires
        corner > 0,
        div == least(511, div_round_up(bbpll, corner)),
        low == div as u8,
        high as int % 2 == (if div >= 256 {
            1int
        } else {
            0
        }),
    ensures
        low + 256 * (high as int % 2) == div,
        (div - 1) * corner < bbpll,
        bbpll <= div * corner || div == 511,
{
    assert(div as u8 == div % 256) by (bit_vector);
    let q = bbpll as int / corner as int;
    let r = bbpll as int % corner as int;
    vstd::arithmetic::div_mod::lemma_fundamental_div_mod(bbpll as int, corner as int);
    assert(q <= bbpll && (r != 0 ==> q < bbpll)) by (nonlinear_arith)
        requires
            bbpll == corner * q + r,
            0 <= r,
            corner > 0,
            q >= 0,
    ;
    let up = div_round_up(bbpll, corner);
    assert((div - 1) * corner < bbpll && (bbpll <= div * corner || div == 511)) by (nonlinear_arith)
        requires
            bbpll == corner * q + r,
            0 <= r < corner,
            up == q + (if r == 0 {
                0int
            } else {
                1
            }),
            div == (if 511 < up {
                511
            } else {
                up as int
            }),
            q >= 0,
    ;
}

/// The TX quadrature calibration widens the filters for its tone where it has to. It leaves them
/// as they were set for the remembered bandwidths.
pub(crate) proof fn lemma_filters_after_quad(
    regs: Map<u16, u8>,
    from: int,
    e: EngineView,
    bw_rx: u32,
    bw_tx: u32,
    rx_phase: RxPhase,
)
    requires
        0 <= from <= e.link.sent.len(),
        e.tx_quad_calib(bw_rx, bw_tx, rx_phase).err is None,
        filters_claimed(
            regs,
            from,
            e.link,
            e.state.v.cal.current_rx_bw.raw / 2,
            e.state.v.cal.current_tx_bw.raw / 2,
            e.state.v.clk.rates.bbpll.raw,
        ),
    ensures
        filters_claimed(
            regs,
            from,
            e.tx_quad_calib(bw_rx, bw_tx, rx_phase).e.link,
            e.state.v.cal.current_rx_bw.raw / 2,
            e.state.v.cal.current_tx_bw.raw / 2,
            e.state.v.clk.rates.bbpll.raw,
        ),
{
    broadcast use {
        crate::kept::calibration::leaves_quad_phase,
        crate::kept::calibration::leaves_quad_widen,
        crate::kept::calibration::leaves_quad_uninvert,
        crate::kept::calibration::leaves_quad_prepare,
        crate::kept::calibration::leaves_tx_quad_calibrate,
        crate::kept::calibration::leaves_quad_reinvert,
        crate::frame::spares_quad_phase,
        crate::frame::spares_quad_widen,
        crate::frame::spares_quad_uninvert,
        crate::frame::spares_quad_prepare,
        crate::frame::spares_tx_quad_calibrate,
        crate::frame::spares_quad_reinvert,
    };

    reveal(EngineView::tx_quad_calib);
    let clkrf = e.state.v.clk.rates.clkrf.raw;
    let clktf = e.state.v.clk.rates.clktf.raw;
    let plan = quad_plan(clkrf, clktf, bw_tx);
    let freq = txnco_freq(clktf, plan.txnco_word);
    let widen = too_narrow(freq, bw_rx, bw_tx);
    let phase = e.quad_phase(plan, rx_phase);
    let saved = phase.e.quad_widen(widen, freq).quad_uninvert();
    let ready = saved.e.quad_prepare(plan.txnco_word);
    let result = ready.e.tx_quad_calibrate(phase.r->Ok_0, plan.rxnco_word, plan.decim, rx_phase);
    let back = result.e.quad_reinvert(e.state.v.cal.rx_phase_inversion, saved.r->Ok_0);
    reveal(EngineView::quad_widen);
    reveal(EngineView::quad_narrow);
    if widen {
        reveal(EngineView::update_rf_bandwidth_filters);
        let any = claim(regs, from, Part::Modes, 0x0FA, now(regs, from, e.link)[0x0FA] & 0x0F);
        lemma_claim(any, e.link);
        assert(ok(any, back.e.link));
        assert(from <= back.e.link.sent.len()) by {
            reveal(ok);
        }
        let cal = back.e.state.v.cal;
        lemma_filters_set(
            regs,
            from,
            back.e,
            HertzU32 { raw: cal.current_rx_bw.raw / 2 },
            HertzU32 { raw: cal.current_tx_bw.raw / 2 },
        );
    }
}

/// Setting the RF bandwidths sets the baseband filters for half of each, off the BBPLL rate.
pub proof fn law_bandwidths_are_set(
    regs: Map<u16, u8>,
    e: EngineView,
    rf_rx_bw: HertzU32,
    rf_tx_bw: HertzU32,
)
    requires
        e.update_rf_bandwidth(rf_rx_bw, rf_tx_bw).err is None,
        keeps(regs, e.update_rf_bandwidth(rf_rx_bw, rf_tx_bw).e.link, e.link.sent.len() as int),
    ensures
        ({
            let set = e.update_rf_bandwidth(rf_rx_bw, rf_tx_bw).e;
            let then = now(regs, e.link.sent.len() as int, set.link);
            let bbpll = e.state.v.clk.rates.bbpll.raw as int;
            &&& rx_filter_is(then, rf_rx_bw.raw as int / 2, bbpll)
            &&& tx_filter_is(then, rf_tx_bw.raw as int / 2, bbpll)
            &&& set.state.v.cal.current_rx_bw == rf_rx_bw
            &&& set.state.v.cal.current_tx_bw == rf_tx_bw
        }),
{
    broadcast use {
        crate::kept::calibration::leaves_pause_tracking,
        crate::kept::calibration::leaves_resume_tracking,
        crate::kept::calibration::leaves_tx_quad_calib,
        crate::frame::spares_pause_tracking,
        crate::frame::spares_update_rf_bandwidth_filters,
    };

    reveal(EngineView::update_rf_bandwidth);
    reveal(EngineView::calibrate_bandwidths);
    let from = e.link.sent.len() as int;
    let tracking = e.state.v.cal.tracking;
    let paused = e.pause_tracking();
    let any = claim(regs, from, Part::Modes, 0x0FA, regs[0x0FA] & 0x0F);
    lemma_start(regs, e.link);
    lemma_claim(any, e.link);
    assert(ok(any, paused.e.link));
    assert(from <= paused.e.link.sent.len()) by {
        reveal(ok);
    }
    let filters = paused.e.update_rf_bandwidth_filters(rf_rx_bw, rf_tx_bw);
    reveal(EngineView::update_rf_bandwidth_filters);
    lemma_filters_set(
        regs,
        from,
        paused.e,
        HertzU32 { raw: rf_rx_bw.raw / 2 },
        HertzU32 { raw: rf_tx_bw.raw / 2 },
    );
    assert(from <= filters.e.link.sent.len()) by {
        reveal(ok);
    }
    let noted = filters.set_bandwidths(rf_rx_bw, rf_tx_bw);
    lemma_filters_after_quad(
        regs,
        from,
        noted.e,
        rf_rx_bw.raw / 2,
        rf_tx_bw.raw / 2,
        RxPhase::Auto,
    );
    lemma_filters_are(
        regs,
        from,
        e.update_rf_bandwidth(rf_rx_bw, rf_tx_bw).e.link,
        rf_rx_bw.raw / 2,
        rf_tx_bw.raw / 2,
        e.state.v.clk.rates.bbpll.raw,
    );
}

} // verus!
