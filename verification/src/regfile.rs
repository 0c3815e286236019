//! What register programs do to a chip that answers like a plain register file: a read returns
//! what was written last. Status registers don't behave like that, so this is for the registers
//! that only hold settings.
use vstd::prelude::*;

use crate::engine::{EngineView, Flow};
use crate::fir::{fir_addr, fir_conf, tap_high, tap_low, FirChannels, FirFactor, FirGain};
use crate::gain_control::{closest_entry, lemma_first_reach, manual_gain_addr};
use crate::link::{
    exchange, extends, law_exchange_extends, law_merge_keeps_other_bits, law_run_extends,
    law_step_extends, merged, put, run, step, update, Answer, Fault, Op, Request, Trace,
};
use crate::ports::Channel;
use crate::registers::{
    FIR_START_CLK, FIR_WRITE, IMMEDIATELY_UPDATE_TPC_ATTEN, MANUAL_GAIN_INDEX,
    RX_ENABLE_FILTER_CONTROL, RX_FILTER_GAIN, RX_FIR_ENABLE_DECIMATION, TX1_ATTEN1, TX2_ATTEN1,
    TX2_DIG_ATTEN, TX_ENABLE_FILTER_CONTROL, TX_FILTER_COEF_ADDR, TX_FILTER_COEF_READ_DATA2,
    TX_FILTER_COEF_WRITE_DATA1, TX_FILTER_COEF_WRITE_DATA2, TX_FILTER_CONF,
    TX_FIR_ENABLE_INTERPOLATION,
};
use crate::spi::{bytes_of, word_of};
use crate::units::{law_attenuation_reads_back, TxAttenuation, MAX_QUARTER_DB};

verus! {

/// The registers after bytes were written, addresses counting down from `addr`.
pub open spec fn written(regs: Map<u16, u8>, addr: u16, bytes: Seq<u8>) -> Map<u16, u8>
    decreases bytes.len(),
{
    if bytes.len() == 0 {
        regs
    } else {
        written(regs, addr, bytes.drop_last()).insert(
            (addr - (bytes.len() - 1)) as u16,
            bytes.last(),
        )
    }
}

/// The number that registers hold, addresses counting down from `addr`.
pub open spec fn held(regs: Map<u16, u8>, addr: u16, len: u8) -> nat {
    word_of(Seq::new(len as nat, |i: int| regs[(addr - i) as u16]))
}

/// The registers after a request.
pub open spec fn request_effect(regs: Map<u16, u8>, request: Request) -> Map<u16, u8> {
    match request {
        Request::Write { addr, len, data } => written(
            regs,
            addr,
            bytes_of(data as nat, len as nat),
        ),
        _ => regs,
    }
}

/// The registers after some requests.
pub open spec fn effect(regs: Map<u16, u8>, sent: Seq<Request>) -> Map<u16, u8>
    decreases sent.len(),
{
    if sent.len() == 0 {
        regs
    } else {
        request_effect(effect(regs, sent.drop_last()), sent.last())
    }
}

/// The registers after a step of a program.
pub open spec fn op_effect(regs: Map<u16, u8>, op: Op) -> Map<u16, u8> {
    match op {
        Op::Write { addr, value } => regs.insert(addr, value),
        Op::Update { addr, mask, value } => regs.insert(addr, merged(regs[addr], mask, value)),
        Op::Burst { addr, len, data } => written(regs, addr, bytes_of(data as nat, len as nat)),
        _ => regs,
    }
}

/// The registers after a program.
pub open spec fn program_effect(regs: Map<u16, u8>, ops: Seq<Op>) -> Map<u16, u8>
    decreases ops.len(),
{
    if ops.len() == 0 {
        regs
    } else {
        op_effect(program_effect(regs, ops.drop_last()), ops.last())
    }
}

/// Request `i` was answered the way a register file does, whose contents were `regs` at request
/// `from`.
pub open spec fn answered_plainly(regs: Map<u16, u8>, t: Trace, from: int, i: int) -> bool {
    &&& i < t.done.len()
    &&& t.done[i].answer matches Answer::Value(value)
    &&& t.done[i].request == t.sent[i]
    &&& t.sent[i] matches Request::Read { addr, len } ==> value == held(
        effect(regs, t.sent.subrange(from, i)),
        addr,
        len,
    )
}

/// All requests since `from` were answered the way a register file does.
pub open spec fn plain(regs: Map<u16, u8>, t: Trace, from: int) -> bool {
    &&& !t.stalled
    &&& 0 <= from <= t.sent.len()
    &&& forall|i: int| from <= i < t.sent.len() ==> #[trigger] answered_plainly(regs, t, from, i)
}

pub(crate) proof fn lemma_plain_prefix(regs: Map<u16, u8>, t: Trace, u: Trace, from: int)
    requires
        extends(t, u),
        plain(regs, u, from),
        from <= t.sent.len(),
    ensures
        plain(regs, t, from),
{
    assert forall|i: int| from <= i < t.sent.len() implies #[trigger] answered_plainly(
        regs,
        t,
        from,
        i,
    ) by {
        assert(answered_plainly(regs, u, from, i));
        assert(t.sent[i] == u.sent[i]);
        assert(t.sent.subrange(from, i) =~= u.sent.subrange(from, i));
    }
}

/// One request to a plain register file goes through.
pub(crate) proof fn lemma_exchange_plain(regs: Map<u16, u8>, t: Trace, from: int, request: Request)
    requires
        plain(regs, exchange(t, request).0, from),
        from <= t.sent.len(),
    ensures
        ({
            let (u, r) = exchange(t, request);
            &&& u.sent == t.sent.push(request)
            &&& r is Ok
            &&& effect(regs, u.sent.subrange(from, u.sent.len() as int)) == request_effect(
                effect(regs, t.sent.subrange(from, t.sent.len() as int)),
                request,
            )
            &&& request matches Request::Read { addr, len } ==> r->Ok_0 == held(
                effect(regs, t.sent.subrange(from, t.sent.len() as int)),
                addr,
                len,
            )
        }),
{
    reveal(exchange);
    let n = t.sent.len() as int;
    let u = exchange(t, request).0;
    assert(answered_plainly(regs, u, from, n));
    assert(u.sent.subrange(from, n + 1).drop_last() =~= t.sent.subrange(from, n));
    assert(u.sent.subrange(from, n) =~= t.sent.subrange(from, n));
    assert(u.sent.subrange(from, n + 1).last() == request);
}

proof fn lemma_one_byte(regs: Map<u16, u8>, addr: u16, value: u8)
    ensures
        written(regs, addr, bytes_of(value as nat, 1)) == regs.insert(addr, value),
        held(regs, addr, 1) == regs[addr],
{
    reveal_with_fuel(bytes_of, 2);
    let bytes = bytes_of(value as nat, 1);
    assert(bytes =~= seq![value]);
    reveal_with_fuel(written, 2);
    assert(bytes.drop_last() =~= Seq::empty());
    let one = Seq::new(1, |i: int| regs[(addr - i) as u16]);
    reveal_with_fuel(word_of, 2);
    assert(one.drop_last() =~= Seq::empty());
    assert(one.last() == regs[addr]);
}

/// One step of a program on a plain register file goes through.
proof fn lemma_step_plain(regs: Map<u16, u8>, t: Trace, from: int, op: Op)
    requires
        plain(regs, step(t, op).0, from),
        from <= t.sent.len(),
    ensures
        ({
            let (u, r) = step(t, op);
            &&& r is None
            &&& extends(t, u)
            &&& effect(regs, u.sent.subrange(from, u.sent.len() as int)) == op_effect(
                effect(regs, t.sent.subrange(from, t.sent.len() as int)),
                op,
            )
        }),
{
    reveal(step);
    let before = effect(regs, t.sent.subrange(from, t.sent.len() as int));
    match op {
        Op::Write { addr, value } => {
            let write = Request::Write { addr, len: 1, data: value as u64 };
            law_exchange_extends(t, write);
            lemma_exchange_plain(regs, t, from, write);
            lemma_one_byte(before, addr, value);
        },
        Op::Update { addr, mask, value } => {
            let read = Request::Read { addr, len: 1 };
            law_exchange_extends(t, read);
            let (t1, r1) = exchange(t, read);
            if let Ok(current) = r1 {
                let byte = merged(current as u8, mask, value);
                let write = Request::Write { addr, len: 1, data: byte as u64 };
                law_exchange_extends(t1, write);
                let t2 = exchange(t1, write).0;
                lemma_plain_prefix(regs, t1, t2, from);
                lemma_exchange_plain(regs, t, from, read);
                lemma_exchange_plain(regs, t1, from, write);
                lemma_one_byte(before, addr, byte);
                assert forall|i: int| 0 <= i < t.sent.len() implies t.sent[i] == t2.sent[i] by {
                    assert(t.sent[i] == t1.sent[i]);
                }
            } else {
                lemma_exchange_plain(regs, t, from, read);
            }
        },
        Op::Burst { addr, len, data } => {
            let write = Request::Write { addr, len, data };
            law_exchange_extends(t, write);
            lemma_exchange_plain(regs, t, from, write);
        },
        Op::Wait { micros } => {
            law_exchange_extends(t, Request::Wait { micros });
            lemma_exchange_plain(regs, t, from, Request::Wait { micros });
        },
        Op::Axi { request } => {
            law_exchange_extends(t, Request::Axi { request });
            lemma_exchange_plain(regs, t, from, Request::Axi { request });
        },
    }
}

/// A program on a plain register file goes through, and leaves the registers as its steps say.
pub proof fn law_program_on_registers(regs: Map<u16, u8>, t: Trace, from: int, ops: Seq<Op>)
    requires
        plain(regs, run(t, ops).0, from),
        from <= t.sent.len(),
    ensures
        ({
            let (u, r) = run(t, ops);
            &&& r is None
            &&& effect(regs, u.sent.subrange(from, u.sent.len() as int)) == program_effect(
                effect(regs, t.sent.subrange(from, t.sent.len() as int)),
                ops,
            )
        }),
    decreases ops.len(),
{
    reveal(run);
    if ops.len() > 0 {
        let rest = ops.drop_last();
        let (t1, r1) = run(t, rest);
        law_run_extends(t, rest);
        law_step_extends(t1, ops.last());
        let u = run(t, ops).0;
        assert(extends(t1, u));
        lemma_plain_prefix(regs, t1, u, from);
        law_program_on_registers(regs, t, from, rest);
        lemma_step_plain(regs, t1, from, ops.last());
    }
}

/// A program of an operation, on a conversation that a plain register file answered to its end.
pub(crate) proof fn lemma_run_plain(
    regs: Map<u16, u8>,
    e: EngineView,
    from: int,
    ops: Seq<Op>,
    end: Trace,
)
    requires
        extends(e.run(ops).e.link, end),
        plain(regs, end, from),
        from <= e.link.sent.len(),
    ensures
        e.run(ops).err is None,
        extends(e.link, e.run(ops).e.link),
        after(regs, from, e.run(ops).e) == program_effect(after(regs, from, e), ops),
{
    reveal(EngineView::run);
    law_run_extends(e.link, ops);
    lemma_plain_prefix(regs, run(e.link, ops).0, end, from);
    law_program_on_registers(regs, e.link, from, ops);
}

/// The registers where an operation is, if they were `regs` at request `from`.
pub open spec fn after(regs: Map<u16, u8>, from: int, e: EngineView) -> Map<u16, u8> {
    effect(regs, e.link.sent.subrange(from, e.link.sent.len() as int))
}

pub(crate) proof fn lemma_one_op(regs: Map<u16, u8>, op: Op)
    ensures
        program_effect(regs, [op]@) == op_effect(regs, op),
{
    reveal_with_fuel(program_effect, 2);
    assert([op]@.drop_last() =~= Seq::empty());
}

proof fn lemma_two_bytes(regs: Map<u16, u8>, addr: u16, word: u16)
    requires
        addr >= 1,
    ensures
        written(regs, addr, bytes_of(word as nat, 2)) == regs.insert(
            addr,
            (word / 256) as u8,
        ).insert((addr - 1) as u16, (word % 256) as u8),
{
    reveal_with_fuel(bytes_of, 3);
    let bytes = bytes_of(word as nat, 2);
    assert(bytes =~= seq![(word / 256) as u8, (word % 256) as u8]);
    reveal_with_fuel(written, 3);
    assert(bytes.drop_last() =~= seq![(word / 256) as u8]);
    assert(bytes.drop_last().drop_last() =~= Seq::empty());
}

pub(crate) proof fn lemma_extends_on(t: Trace, u: Trace, v: Trace)
    requires
        extends(t, u),
        extends(u, v),
    ensures
        extends(t, v),
{
    assert forall|i: int| 0 <= i < t.sent.len() implies t.sent[i] == v.sent[i] by {
        assert(t.sent[i] == u.sent[i]);
        assert(u.sent[i] == v.sent[i]);
    }
}

/// Whether two registers hold an attenuation, most significant byte first.
pub open spec fn holds_attenuation(regs: Map<u16, u8>, addr: u16, atten: TxAttenuation) -> bool {
    regs[addr] * 256 + regs[(addr - 1) as u16] == atten.steps()
}

proof fn lemma_atten_burst(regs: Map<u16, u8>, addr: u16, atten: TxAttenuation)
    requires
        addr >= 1,
    ensures
        ({
            let now = op_effect(
                regs,
                Op::Burst { addr, len: 2, data: atten.steps() as u64 },
            );
            &&& holds_attenuation(now, addr, atten)
            &&& forall|a: u16| a != addr && a != addr - 1 ==> now[a] == regs[a]
        }),
{
    lemma_two_bytes(regs, addr, atten.steps());
}

/// Setting an attenuation on a plain register file goes through. The registers of the chosen
/// channels hold it then, most significant byte first. The other channel and every other register
/// but the one with the update bit are left alone.
pub proof fn law_attenuation_on_registers(
    regs: Map<u16, u8>,
    e: EngineView,
    atten: TxAttenuation,
    tx1: bool,
    tx2: bool,
    immed: bool,
)
    requires
        plain(regs, e.set_tx_atten(atten, tx1, tx2, immed).e.link, e.link.sent.len() as int),
    ensures
        ({
            let set = e.set_tx_atten(atten, tx1, tx2, immed);
            let now = after(regs, e.link.sent.len() as int, set.e);
            &&& set.err is None
            &&& tx1 ==> holds_attenuation(now, TX1_ATTEN1, atten)
            &&& tx2 ==> holds_attenuation(now, TX2_ATTEN1, atten)
            &&& forall|a: u16|
                a != TX2_DIG_ATTEN && !(tx1 && (a == TX1_ATTEN1 || a == TX1_ATTEN1 - 1)) && !(tx2
                    && (a == TX2_ATTEN1 || a == TX2_ATTEN1 - 1)) ==> #[trigger] now[a] == regs[a]
        }),
{
    reveal(EngineView::set_tx_atten);
    let from = e.link.sent.len() as int;
    assert(e.link.sent.subrange(from, from) =~= Seq::empty());
    let steps = atten.steps() as u64;
    let end = e.set_tx_atten(atten, tx1, tx2, immed).e.link;
    let clear = update(TX2_DIG_ATTEN, IMMEDIATELY_UPDATE_TPC_ATTEN, 0);
    let burst1 = Op::Burst { addr: TX1_ATTEN1, len: 2, data: steps };
    let burst2 = Op::Burst { addr: TX2_ATTEN1, len: 2, data: steps };
    let apply = update(
        TX2_DIG_ATTEN,
        IMMEDIATELY_UPDATE_TPC_ATTEN,
        IMMEDIATELY_UPDATE_TPC_ATTEN,
    );

    let held = e.run([clear]@);
    let first = if tx1 {
        held.run([burst1]@)
    } else {
        held
    };
    let second = if tx2 {
        first.run([burst2]@)
    } else {
        first
    };
    let last = if immed {
        second.run([apply]@)
    } else {
        second
    };
    assert(last.e.link == end);
    lemma_flow_extends(second, [apply]@);
    lemma_flow_extends(first, [burst2]@);
    lemma_flow_extends(held, [burst1]@);
    assert(extends(end, end));
    lemma_extends_on(first.e.link, second.e.link, end);
    lemma_extends_on(held.e.link, first.e.link, end);

    lemma_run_plain(regs, e, from, [clear]@, end);
    let regs1 = after(regs, from, held.e);
    lemma_one_op(regs, clear);
    if tx1 {
        lemma_run_plain(regs, held.e, from, [burst1]@, end);
        lemma_one_op(regs1, burst1);
    }
    let regs2 = after(regs, from, first.e);
    lemma_atten_burst(regs1, TX1_ATTEN1, atten);
    if tx2 {
        lemma_run_plain(regs, first.e, from, [burst2]@, end);
        lemma_one_op(regs2, burst2);
    }
    let regs3 = after(regs, from, second.e);
    lemma_atten_burst(regs2, TX2_ATTEN1, atten);
    if immed {
        lemma_run_plain(regs, second.e, from, [apply]@, end);
        lemma_one_op(regs3, apply);
    }
}

pub(crate) proof fn lemma_flow_extends(flow: Flow, ops: Seq<Op>)
    ensures
        extends(flow.e.link, flow.run(ops).e.link),
{
    reveal(EngineView::run);
    law_run_extends(flow.e.link, ops);
}

/// An attenuation that was set on a plain register file is the one that is read back.
pub proof fn law_attenuation_is_read_back(
    regs: Map<u16, u8>,
    e: EngineView,
    atten: TxAttenuation,
    tx1: bool,
    tx2: bool,
    which: bool,
)
    requires
        atten.steps() <= MAX_QUARTER_DB,
        if which {
            tx2
        } else {
            tx1
        },
        plain(
            regs,
            e.set_tx_atten(atten, tx1, tx2, true).e.tx_atten(which).e.link,
            e.link.sent.len() as int,
        ),
    ensures
        e.set_tx_atten(atten, tx1, tx2, true).e.tx_atten(which).r == Ok::<TxAttenuation, Fault>(
            atten,
        ),
{
    let from = e.link.sent.len() as int;
    let set = e.set_tx_atten(atten, tx1, tx2, true).e;
    let addr = if which {
        TX2_ATTEN1
    } else {
        TX1_ATTEN1
    };
    let request = Request::Read { addr, len: 2 };
    reveal(EngineView::tx_atten);
    reveal(EngineView::exchange);
    law_exchange_extends(set.link, request);
    let next = exchange(set.link, request).0;
    lemma_atten_extends(e, atten, tx1, tx2, true);
    lemma_plain_prefix(regs, set.link, next, from);
    law_attenuation_on_registers(regs, e, atten, tx1, tx2, true);
    lemma_exchange_plain(regs, set.link, from, request);
    let now = after(regs, from, set);
    assert(holds_attenuation(now, addr, atten));
    let bytes = Seq::new(2, |i: int| now[(addr - i) as u16]);
    reveal_with_fuel(word_of, 3);
    assert(bytes.drop_last().drop_last() =~= Seq::empty());
    assert(bytes.drop_last().last() == now[addr]);
    assert(bytes.last() == now[(addr - 1) as u16]);
    assert(held(now, addr, 2) == atten.steps());
    law_attenuation_reads_back(atten);
}

pub(crate) proof fn lemma_atten_extends(
    e: EngineView,
    atten: TxAttenuation,
    tx1: bool,
    tx2: bool,
    immed: bool,
)
    ensures
        extends(e.link, e.set_tx_atten(atten, tx1, tx2, immed).e.link),
{
    reveal(EngineView::set_tx_atten);
    let steps = atten.steps() as u64;
    let held = e.run([update(TX2_DIG_ATTEN, IMMEDIATELY_UPDATE_TPC_ATTEN, 0)]@);
    lemma_flow_extends(e.start(), [update(TX2_DIG_ATTEN, IMMEDIATELY_UPDATE_TPC_ATTEN, 0)]@);
    let first = if tx1 {
        held.run([Op::Burst { addr: TX1_ATTEN1, len: 2, data: steps }]@)
    } else {
        held
    };
    lemma_flow_extends(held, [Op::Burst { addr: TX1_ATTEN1, len: 2, data: steps }]@);
    let second = if tx2 {
        first.run([Op::Burst { addr: TX2_ATTEN1, len: 2, data: steps }]@)
    } else {
        first
    };
    lemma_flow_extends(first, [Op::Burst { addr: TX2_ATTEN1, len: 2, data: steps }]@);
    let apply = [
        update(TX2_DIG_ATTEN, IMMEDIATELY_UPDATE_TPC_ATTEN, IMMEDIATELY_UPDATE_TPC_ATTEN),
    ]@;
    lemma_flow_extends(second, apply);
    lemma_extends_on(e.link, held.e.link, first.e.link);
    lemma_extends_on(e.link, first.e.link, second.e.link);
    lemma_extends_on(e.link, second.e.link, e.set_tx_atten(atten, tx1, tx2, immed).e.link);
}

/// Whether a step may change a register.
pub open spec fn touches(op: Op, a: u16) -> bool {
    match op {
        Op::Write { addr, .. } => addr == a,
        Op::Update { addr, .. } => addr == a,
        Op::Burst { .. } => true,
        Op::Wait { .. } => false,
        Op::Axi { .. } => false,
    }
}

pub(crate) proof fn lemma_untouched(regs: Map<u16, u8>, ops: Seq<Op>, a: u16)
    requires
        forall|i: int| 0 <= i < ops.len() ==> !touches(#[trigger] ops[i], a),
    ensures
        program_effect(regs, ops)[a] == regs[a],
    decreases ops.len(),
{
    if ops.len() > 0 {
        assert(!touches(ops[ops.len() - 1], a));
        let rest = ops.drop_last();
        assert forall|i: int| 0 <= i < rest.len() implies !touches(#[trigger] rest[i], a) by {
            assert(rest[i] == ops[i]);
        }
        lemma_untouched(regs, rest, a);
    }
}

/// One more request leaves a register that it doesn't write.
proof fn lemma_exchange_spares(regs: Map<u16, u8>, t: Trace, from: int, request: Request, a: u16)
    requires
        0 <= from <= t.sent.len(),
        request_effect(effect(regs, t.sent.subrange(from, t.sent.len() as int)), request)[a]
            == effect(regs, t.sent.subrange(from, t.sent.len() as int))[a],
    ensures
        ({
            let u = exchange(t, request).0;
            effect(regs, u.sent.subrange(from, u.sent.len() as int))[a] == effect(
                regs,
                t.sent.subrange(from, t.sent.len() as int),
            )[a]
        }),
{
    reveal(exchange);
    let n = t.sent.len() as int;
    let more = t.sent.push(request);
    assert(more.subrange(from, n + 1).drop_last() =~= t.sent.subrange(from, n));
    assert(more.subrange(from, n + 1).last() == request);
}

/// A step leaves a register that it doesn't touch, whatever came back.
proof fn lemma_step_spares(regs: Map<u16, u8>, t: Trace, from: int, op: Op, a: u16)
    requires
        0 <= from <= t.sent.len(),
        !touches(op, a),
    ensures
        ({
            let u = step(t, op).0;
            effect(regs, u.sent.subrange(from, u.sent.len() as int))[a] == effect(
                regs,
                t.sent.subrange(from, t.sent.len() as int),
            )[a]
        }),
{
    reveal(step);
    let before = effect(regs, t.sent.subrange(from, t.sent.len() as int));
    match op {
        Op::Write { addr, value } => {
            lemma_one_byte(before, addr, value);
            lemma_exchange_spares(
                regs,
                t,
                from,
                Request::Write { addr, len: 1, data: value as u64 },
                a,
            );
        },
        Op::Update { addr, mask, value } => {
            let read = Request::Read { addr, len: 1 };
            let (t1, r1) = exchange(t, read);
            law_exchange_extends(t, read);
            lemma_exchange_spares(regs, t, from, read, a);
            if let Ok(current) = r1 {
                let byte = merged(current as u8, mask, value);
                let now = effect(regs, t1.sent.subrange(from, t1.sent.len() as int));
                lemma_one_byte(now, addr, byte);
                lemma_exchange_spares(
                    regs,
                    t1,
                    from,
                    Request::Write { addr, len: 1, data: byte as u64 },
                    a,
                );
            }
        },
        Op::Burst { .. } => {},
        Op::Wait { micros } => {
            lemma_exchange_spares(regs, t, from, Request::Wait { micros }, a);
        },
        Op::Axi { request } => {
            lemma_exchange_spares(regs, t, from, Request::Axi { request }, a);
        },
    }
}

/// A program leaves a register that none of its steps touches, whatever came back.
pub(crate) proof fn lemma_program_spares(
    regs: Map<u16, u8>,
    t: Trace,
    from: int,
    ops: Seq<Op>,
    a: u16,
)
    requires
        0 <= from <= t.sent.len(),
        forall|i: int| 0 <= i < ops.len() ==> !touches(#[trigger] ops[i], a),
    ensures
        ({
            let u = run(t, ops).0;
            effect(regs, u.sent.subrange(from, u.sent.len() as int))[a] == effect(
                regs,
                t.sent.subrange(from, t.sent.len() as int),
            )[a]
        }),
    decreases ops.len(),
{
    reveal(run);
    if ops.len() > 0 {
        let rest = ops.drop_last();
        assert forall|i: int| 0 <= i < rest.len() implies !touches(#[trigger] rest[i], a) by {
            assert(rest[i] == ops[i]);
        }
        assert(!touches(ops[ops.len() - 1], a));
        lemma_program_spares(regs, t, from, rest, a);
        law_run_extends(t, rest);
        lemma_step_spares(regs, run(t, rest).0, from, ops.last(), a);
    }
}

/// A program that went through leaves the byte in a register that it put there last, whatever the
/// chip answered.
pub proof fn law_program_puts(
    regs: Map<u16, u8>,
    t: Trace,
    from: int,
    ops: Seq<Op>,
    k: int,
    a: u16,
    value: u8,
)
    requires
        0 <= from <= t.sent.len(),
        run(t, ops).1 is None,
        0 <= k < ops.len(),
        ops[k] == put(a, value),
        forall|i: int| k < i < ops.len() ==> !touches(#[trigger] ops[i], a),
    ensures
        ({
            let u = run(t, ops).0;
            effect(regs, u.sent.subrange(from, u.sent.len() as int))[a] == value
        }),
    decreases ops.len(),
{
    reveal(run);
    let rest = ops.drop_last();
    let t1 = run(t, rest).0;
    law_run_extends(t, rest);
    if k < rest.len() {
        assert forall|i: int| k < i < rest.len() implies !touches(#[trigger] rest[i], a) by {
            assert(rest[i] == ops[i]);
        }
        assert(!touches(ops[ops.len() - 1], a));
        law_program_puts(regs, t, from, rest, k, a, value);
        lemma_step_spares(regs, t1, from, ops.last(), a);
    } else {
        reveal(step);
        reveal(exchange);
        let request = Request::Write { addr: a, len: 1, data: value as u64 };
        let n = t1.sent.len() as int;
        let more = t1.sent.push(request);
        assert(more.subrange(from, n + 1).drop_last() =~= t1.sent.subrange(from, n));
        assert(more.subrange(from, n + 1).last() == request);
        lemma_one_byte(effect(regs, t1.sent.subrange(from, n)), a, value);
    }
}

/// Reading a plain register file returns the register and changes nothing.
pub(crate) proof fn lemma_read_plain(
    regs: Map<u16, u8>,
    e: EngineView,
    from: int,
    addr: u16,
    end: Trace,
)
    requires
        extends(e.read(addr).e.link, end),
        plain(regs, end, from),
        from <= e.link.sent.len(),
    ensures
        e.read(addr).r == Ok::<u8, Fault>(after(regs, from, e)[addr]),
        extends(e.link, e.read(addr).e.link),
        after(regs, from, e.read(addr).e) == after(regs, from, e),
{
    reveal(EngineView::read);
    reveal(EngineView::exchange);
    let request = Request::Read { addr, len: 1 };
    law_exchange_extends(e.link, request);
    let next = exchange(e.link, request).0;
    lemma_plain_prefix(regs, next, end, from);
    lemma_exchange_plain(regs, e.link, from, request);
    lemma_one_byte(after(regs, from, e), addr, 0);
}

/// The registers that enable the filters are the same in both.
pub open spec fn same_enables(regs: Map<u16, u8>, now: Map<u16, u8>) -> bool {
    &&& now[RX_ENABLE_FILTER_CONTROL] == regs[RX_ENABLE_FILTER_CONTROL]
    &&& now[TX_ENABLE_FILTER_CONTROL] == regs[TX_ENABLE_FILTER_CONTROL]
}

proof fn lemma_taps_extend(e: EngineView, rx: bool, conf: u8, taps: Seq<i16>, i: int)
    ensures
        extends(e.link, e.taps_from(rx, conf, taps, i).e.link),
    decreases taps.len() - i,
{
    if i < taps.len() {
        let ops = tap_ops(rx, conf, taps, i);
        lemma_flow_extends(e.start(), ops);
        let written = e.run(ops);
        lemma_taps_extend(written.e, rx, conf, taps, i + 1);
        lemma_extends_on(e.link, written.e.link, written.e.taps_from(rx, conf, taps, i + 1).e.link);
    }
}

/// The writes of one tap.
spec fn tap_ops(rx: bool, conf: u8, taps: Seq<i16>, i: int) -> Seq<Op> {
    [
        put(fir_addr(rx, TX_FILTER_COEF_ADDR), i as u8),
        put(fir_addr(rx, TX_FILTER_COEF_WRITE_DATA1), tap_low(taps[i])),
        put(fir_addr(rx, TX_FILTER_COEF_WRITE_DATA2), tap_high(taps[i])),
        put(fir_addr(rx, TX_FILTER_CONF), conf | FIR_WRITE),
        put(fir_addr(rx, TX_FILTER_COEF_READ_DATA2), 0),
        put(fir_addr(rx, TX_FILTER_COEF_READ_DATA2), 0),
    ]@
}

proof fn lemma_taps_plain(
    regs: Map<u16, u8>,
    e: EngineView,
    from: int,
    rx: bool,
    conf: u8,
    taps: Seq<i16>,
    i: int,
    end: Trace,
)
    requires
        extends(e.taps_from(rx, conf, taps, i).e.link, end),
        plain(regs, end, from),
        from <= e.link.sent.len(),
    ensures
        e.taps_from(rx, conf, taps, i).err is None,
        same_enables(after(regs, from, e), after(regs, from, e.taps_from(rx, conf, taps, i).e)),
    decreases taps.len() - i,
{
    if i < taps.len() {
        let ops = tap_ops(rx, conf, taps, i);
        let written = e.run(ops);
        lemma_flow_extends(e.start(), ops);
        lemma_taps_extend(written.e, rx, conf, taps, i + 1);
        if written.err is None {
            lemma_extends_on(
                written.e.link,
                written.e.taps_from(rx, conf, taps, i + 1).e.link,
                end,
            );
        }
        lemma_run_plain(regs, e, from, ops, end);
        lemma_untouched(after(regs, from, e), ops, RX_ENABLE_FILTER_CONTROL);
        lemma_untouched(after(regs, from, e), ops, TX_ENABLE_FILTER_CONTROL);
        lemma_taps_plain(regs, written.e, from, rx, conf, taps, i + 1, end);
    }
}

/// What follows once the clock of a FIR runs.
spec fn load_rest(flow: Flow, rx: bool, conf: u8, taps: Seq<i16>, byte: u8) -> Flow {
    flow.run([put(fir_addr(rx, TX_FILTER_CONF), conf | FIR_START_CLK)]@).write_taps(
        rx,
        conf | FIR_START_CLK,
        taps,
    ).run(
        [
            put(fir_addr(rx, TX_FILTER_CONF), conf | FIR_START_CLK),
            put(fir_addr(rx, TX_FILTER_CONF), conf),
        ]@,
    ).restore_fir_enable(rx, byte)
}

proof fn lemma_rest_extends(flow: Flow, rx: bool, conf: u8, taps: Seq<i16>, byte: u8)
    ensures
        ({
            let started = flow.run([put(fir_addr(rx, TX_FILTER_CONF), conf | FIR_START_CLK)]@);
            let loaded = started.write_taps(rx, conf | FIR_START_CLK, taps);
            let stopped = loaded.run(
                [
                    put(fir_addr(rx, TX_FILTER_CONF), conf | FIR_START_CLK),
                    put(fir_addr(rx, TX_FILTER_CONF), conf),
                ]@,
            );
            let end = load_rest(flow, rx, conf, taps, byte).e.link;
            &&& extends(flow.e.link, end)
            &&& extends(started.e.link, end)
            &&& extends(loaded.e.link, end)
            &&& extends(stopped.e.link, end)
        }),
{
    reveal(EngineView::write_taps);
    reveal(EngineView::restore_fir_enable);
    let conf_ops = [put(fir_addr(rx, TX_FILTER_CONF), conf | FIR_START_CLK)]@;
    let stop_ops = [
        put(fir_addr(rx, TX_FILTER_CONF), conf | FIR_START_CLK),
        put(fir_addr(rx, TX_FILTER_CONF), conf),
    ]@;
    let started = flow.run(conf_ops);
    let loaded = started.write_taps(rx, conf | FIR_START_CLK, taps);
    let stopped = loaded.run(stop_ops);
    let end = load_rest(flow, rx, conf, taps, byte).e.link;
    lemma_flow_extends(flow, conf_ops);
    lemma_taps_extend(started.e, rx, conf | FIR_START_CLK, taps, 0);
    lemma_flow_extends(loaded, stop_ops);
    lemma_flow_extends(
        stopped,
        [update(RX_ENABLE_FILTER_CONTROL, RX_FIR_ENABLE_DECIMATION, byte)]@,
    );
    lemma_flow_extends(
        stopped,
        [update(TX_ENABLE_FILTER_CONTROL, TX_FIR_ENABLE_INTERPOLATION, byte)]@,
    );
    lemma_extends_on(loaded.e.link, stopped.e.link, end);
    lemma_extends_on(started.e.link, loaded.e.link, end);
    lemma_extends_on(flow.e.link, started.e.link, end);
}

proof fn lemma_rest_plain(
    regs: Map<u16, u8>,
    e: EngineView,
    from: int,
    rx: bool,
    conf: u8,
    taps: Seq<i16>,
    byte: u8,
)
    requires
        plain(regs, load_rest(e.start(), rx, conf, taps, byte).e.link, from),
        from <= e.link.sent.len(),
    ensures
        ({
            let rest = load_rest(e.start(), rx, conf, taps, byte);
            let addr = enable_addr(rx);
            let before = after(regs, from, e);
            let now = after(regs, from, rest.e);
            &&& rest.err is None
            &&& now[addr] == merged(before[addr], enable_mask(rx), byte)
            &&& now[enable_addr(!rx)] == before[enable_addr(!rx)]
        }),
{
    reveal(EngineView::write_taps);
    reveal(EngineView::restore_fir_enable);
    let flow = e.start();
    let conf_ops = [put(fir_addr(rx, TX_FILTER_CONF), conf | FIR_START_CLK)]@;
    let stop_ops = [
        put(fir_addr(rx, TX_FILTER_CONF), conf | FIR_START_CLK),
        put(fir_addr(rx, TX_FILTER_CONF), conf),
    ]@;
    let started = flow.run(conf_ops);
    let loaded = started.write_taps(rx, conf | FIR_START_CLK, taps);
    let stopped = loaded.run(stop_ops);
    let rest = load_rest(flow, rx, conf, taps, byte);
    let end = rest.e.link;
    lemma_rest_extends(flow, rx, conf, taps, byte);
    lemma_run_plain(regs, e, from, conf_ops, end);
    lemma_untouched(after(regs, from, e), conf_ops, RX_ENABLE_FILTER_CONTROL);
    lemma_untouched(after(regs, from, e), conf_ops, TX_ENABLE_FILTER_CONTROL);
    lemma_taps_plain(regs, started.e, from, rx, conf | FIR_START_CLK, taps, 0, end);
    lemma_taps_extend(started.e, rx, conf | FIR_START_CLK, taps, 0);
    lemma_run_plain(regs, loaded.e, from, stop_ops, end);
    lemma_untouched(after(regs, from, loaded.e), stop_ops, RX_ENABLE_FILTER_CONTROL);
    lemma_untouched(after(regs, from, loaded.e), stop_ops, TX_ENABLE_FILTER_CONTROL);
    assert(extends(end, end));
    if rx {
        let op = update(RX_ENABLE_FILTER_CONTROL, RX_FIR_ENABLE_DECIMATION, byte);
        lemma_run_plain(regs, stopped.e, from, [op]@, end);
        lemma_one_op(after(regs, from, stopped.e), op);
    } else {
        let op = update(TX_ENABLE_FILTER_CONTROL, TX_FIR_ENABLE_INTERPOLATION, byte);
        lemma_run_plain(regs, stopped.e, from, [op]@, end);
        lemma_one_op(after(regs, from, stopped.e), op);
    }
}

/// Register that enables the RX or TX filters.
pub open spec fn enable_addr(rx: bool) -> u16 {
    if rx {
        RX_ENABLE_FILTER_CONTROL
    } else {
        TX_ENABLE_FILTER_CONTROL
    }
}

/// Its field for the FIR.
pub open spec fn enable_mask(rx: bool) -> u8 {
    if rx {
        RX_FIR_ENABLE_DECIMATION
    } else {
        TX_FIR_ENABLE_INTERPOLATION
    }
}

/// Loading a FIR into a plain register file goes through, and leaves the registers that enable the
/// filters as they were, though the filter's clock ran meanwhile.
pub proof fn law_fir_load_on_registers(
    regs: Map<u16, u8>,
    e: EngineView,
    channels: FirChannels,
    gain: FirGain,
    factor: FirFactor,
    taps: Seq<i16>,
)
    requires
        plain(
            regs,
            e.write_fir_coefficients(channels, gain, factor, taps).e.link,
            e.link.sent.len() as int,
        ),
    ensures
        ({
            let loaded = e.write_fir_coefficients(channels, gain, factor, taps);
            &&& loaded.err is None
            &&& same_enables(regs, after(regs, e.link.sent.len() as int, loaded.e))
        }),
{
    reveal(EngineView::write_fir_coefficients);
    reveal(EngineView::start_fir_clock);
    let rx = gain.is_rx();
    let from = e.link.sent.len() as int;
    assert(e.link.sent.subrange(from, from) =~= Seq::empty());
    let conf = fir_conf(channels, gain, taps.len() as usize);
    let end = e.write_fir_coefficients(channels, gain, factor, taps).e.link;
    let addr = enable_addr(rx);
    let clock = update(addr, enable_mask(rx), factor.clock_field());
    let gain_ops = match gain {
        FirGain::Rx(rx_gain) => [put(RX_FILTER_GAIN, rx_gain.field())]@,
        FirGain::Tx(_) => Seq::empty(),
    };
    let set = match gain {
        FirGain::Rx(rx_gain) => e.run(gain_ops),
        FirGain::Tx(_) => e.start(),
    };
    lemma_flow_extends(e.start(), gain_ops);
    let read = set.read(addr);
    lemma_read_extends(set, addr);
    if let Ok(byte) = read.r {
        let running = read.e.run([clock]@);
        lemma_flow_extends(read.e.start(), [clock]@);
        lemma_rest_extends(running, rx, conf, taps, byte);
        assert(running.err is None ==> end == load_rest(running, rx, conf, taps, byte).e.link);
        lemma_extends_on(read.e.link, running.e.link, end);
        lemma_extends_on(set.e.link, read.e.link, end);
        if gain is Rx {
            lemma_run_plain(regs, e, from, gain_ops, end);
            lemma_untouched(regs, gain_ops, RX_ENABLE_FILTER_CONTROL);
            lemma_untouched(regs, gain_ops, TX_ENABLE_FILTER_CONTROL);
        }
        lemma_read_plain(regs, set.e, from, addr, end);
        lemma_run_plain(regs, read.e, from, [clock]@, end);
        lemma_one_op(after(regs, from, read.e), clock);
        lemma_rest_plain(regs, running.e, from, rx, conf, taps, byte);
        lemma_restored(regs[addr], enable_mask(rx), factor.clock_field());
    } else {
        if gain is Rx {
            lemma_extends_on(set.e.link, read.e.link, end);
            lemma_run_plain(regs, e, from, gain_ops, end);
        }
        lemma_read_plain(regs, set.e, from, addr, end);
    }
}

proof fn lemma_restored(current: u8, mask: u8, value: u8)
    ensures
        merged(merged(current, mask, value), mask, current) == current,
{
    assert(((((current & !mask) | (value & mask)) & !mask) | (current & mask)) == current)
        by (bit_vector);
}

pub(crate) proof fn lemma_read_extends(flow: Flow, addr: u16)
    ensures
        extends(flow.e.link, flow.read(addr).e.link),
{
    reveal(EngineView::read);
    reveal(EngineView::exchange);
    law_exchange_extends(flow.e.link, Request::Read { addr, len: 1 });
}

proof fn lemma_entry_in_table(abs_gain: Seq<i8>, gain: i8)
    requires
        abs_gain.len() > 0,
    ensures
        0 <= closest_entry(abs_gain, gain) < abs_gain.len(),
{
    lemma_first_reach(abs_gain, gain, 0);
}

/// Setting a manual gain on a plain register file goes through, returns the gain of the closest
/// table entry and selects that entry. The rest of the register and all others are left alone.
pub proof fn law_manual_gain_on_registers(
    regs: Map<u16, u8>,
    e: EngineView,
    channel: Channel,
    gain_db: i8,
)
    requires
        plain(regs, e.set_manual_rx_gain(channel, gain_db).e.link, e.link.sent.len() as int),
        e.tables.gain_table(e.state.v.gain.current_table).wf(),
    ensures
        ({
            let abs_gain = e.tables.gain_table(e.state.v.gain.current_table).abs_gain@;
            let index = closest_entry(abs_gain, gain_db);
            let set = e.set_manual_rx_gain(channel, gain_db);
            let now = after(regs, e.link.sent.len() as int, set.e);
            let addr = manual_gain_addr(channel);
            &&& set.r == Ok::<i8, Fault>(abs_gain[index])
            &&& now[addr] & MANUAL_GAIN_INDEX == index
            &&& now[addr] & !MANUAL_GAIN_INDEX == regs[addr] & !MANUAL_GAIN_INDEX
            &&& forall|a: u16| a != addr ==> #[trigger] now[a] == regs[a]
        }),
{
    reveal(EngineView::set_manual_rx_gain);
    let abs_gain = e.tables.gain_table(e.state.v.gain.current_table).abs_gain@;
    lemma_entry_in_table(abs_gain, gain_db);
    let index = closest_entry(abs_gain, gain_db) as u8;
    let from = e.link.sent.len() as int;
    let addr = manual_gain_addr(channel);
    let op = update(addr, MANUAL_GAIN_INDEX, index);
    assert(e.link.sent.subrange(from, from) =~= Seq::empty());
    lemma_run_plain(regs, e, from, [op]@, e.run([op]@).e.link);
    lemma_one_op(regs, op);
    law_merge_keeps_other_bits(regs[addr], MANUAL_GAIN_INDEX, index);
    assert(index & 0x7F == index) by (bit_vector)
        requires
            index < 128,
    ;
}

} // verus!
