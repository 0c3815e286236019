//! Settings that stay in the chip.
//!
//! A setting is spread over fields of several registers, a [`Part`] of the chip. It lasts as long
//! as no operation writes one of them. Which operations leave which part alone is shown here of
//! every operation, each from the ones it is made of. It takes a chip that keeps what is written to
//! the registers of the parts. What its other registers answer doesn't matter.
use vstd::prelude::*;

use crate::engine::EngineView;
use crate::link::{
    exchange, extends, law_exchange_extends, law_run_extends, law_step_extends, merged, run, step,
    Answer, Op, Request, Trace,
};
use crate::regfile::{
    effect, held, lemma_extends_on, op_effect, program_effect, request_effect, written,
};
use crate::spi::{bytes_of, word_of};
use crate::state::EngineState;








pub mod api;
pub mod axi_init;
pub mod calibration;
pub mod clock_chain;
pub mod clocks;
pub mod control;
pub mod dig_tune;
pub mod engine;
pub mod fir;
pub mod gain_control;
pub mod monitor;
pub mod ports;
pub mod setup;
pub mod synth;

verus! {

/// Part of the chip that holds a setting.
pub enum Part {
    /// frequency of the RX synthesizer
    RxLo,
    /// frequency of the TX synthesizer
    TxLo,
    /// decimation and enable of the RX FIR
    RxFir,
    /// interpolation and enable of the TX FIR
    TxFir,
    /// bandwidth of the RX baseband filter
    RxFilter,
    /// bandwidth of the TX baseband filter
    TxFilter,
    /// gain modes of the RX channels
    Modes,
    /// TX attenuation
    Attenuation,
    /// which RX and TX channels are on
    Channels,
    /// tracking of quadrature and DC offset
    Tracking,
    /// RF input and output
    Input,
    /// clock output
    Clkout,
    /// crystal trimming
    Dcxo,
    /// highest index of the gain table
    TableSize,
}

/// The bits of a register that belong to a part. No bit of a register that doesn't.
pub open spec fn part_mask(part: Part, addr: u16) -> u8 {
    match part {
        Part::RxLo => if 0x231 <= addr <= 0x235 {
            0xFF
        } else if addr == 0x005 {
            0x0F
        } else {
            0
        },
        Part::TxLo => if 0x271 <= addr <= 0x275 {
            0xFF
        } else if addr == 0x005 {
            0xF0
        } else {
            0
        },
        Part::RxFir => if addr == 0x003 {
            0x03
        } else {
            0
        },
        Part::TxFir => if addr == 0x002 {
            0x03
        } else {
            0
        },
        Part::RxFilter => if addr == 0x1F8 || addr == 0x1FB || addr == 0x1FC {
            0xFF
        } else if addr == 0x1F9 {
            0x01
        } else {
            0
        },
        Part::TxFilter => if addr == 0x0D6 {
            0xFF
        } else if addr == 0x0D7 {
            0x01
        } else {
            0
        },
        Part::Modes => if addr == 0x0FA {
            0x0F
        } else {
            0
        },
        Part::Attenuation => if 0x073 <= addr <= 0x076 {
            0xFF
        } else {
            0
        },
        Part::Channels => if addr == 0x002 || addr == 0x003 {
            0xC0
        } else {
            0
        },
        Part::Tracking => if addr == 0x169 || addr == 0x18B {
            0xFF
        } else {
            0
        },
        Part::Input => if addr == 0x004 {
            0xFF
        } else {
            0
        },
        Part::Clkout => if addr == 0x00A {
            0xF0
        } else {
            0
        },
        Part::Dcxo => if 0x292 <= addr <= 0x294 {
            0xFF
        } else {
            0
        },
        Part::TableSize => if addr == 0x0FD {
            0xFF
        } else {
            0
        },
    }
}

/// The registers that have to keep what is written to them: those of the parts, and those of the
/// synthesizers' references.
pub open spec fn is_lasting(addr: u16) -> bool {
    ||| 0x002 <= addr <= 0x005 || addr == 0x00A
    ||| 0x073 <= addr <= 0x076
    ||| addr == 0x0D6 || addr == 0x0D7 || addr == 0x0FA || addr == 0x0FD
    ||| addr == 0x1F8 || addr == 0x1F9 || addr == 0x1FB || addr == 0x1FC
    ||| 0x231 <= addr <= 0x235
    ||| 0x271 <= addr <= 0x275
    ||| addr == 0x169 || addr == 0x18B
    ||| 0x292 <= addr <= 0x294
    ||| addr == 0x2AB || addr == 0x2AC
}

/// All of `len` registers, counting down from `addr`, are lasting.
pub open spec fn are_lasting(addr: u16, len: u8) -> bool {
    &&& len <= addr
    &&& forall|a: u16| addr - len < a <= addr ==> #[trigger] is_lasting(a)
}

/// Request `i` went through, and if it read lasting registers it got what was written to them. They
/// held `regs` at request `from`.
pub open spec fn answered_truly(regs: Map<u16, u8>, t: Trace, from: int, i: int) -> bool {
    &&& i < t.done.len()
    &&& t.done[i].answer matches Answer::Value(value)
    &&& t.done[i].request == t.sent[i]
    &&& t.sent[i] matches Request::Read { addr, len } ==> (are_lasting(addr, len) ==> value == held(
        effect(regs, t.sent.subrange(from, i)),
        addr,
        len,
    ))
}

/// All requests since `from` went to a chip that keeps what is written to its lasting registers.
pub open spec fn keeps(regs: Map<u16, u8>, t: Trace, from: int) -> bool {
    &&& !t.stalled
    &&& 0 <= from <= t.sent.len()
    &&& forall|i: int| from <= i < t.sent.len() ==> #[trigger] answered_truly(regs, t, from, i)
}

/// The registers at the end of a conversation, if they were `regs` at request `from`.
pub open spec fn now(regs: Map<u16, u8>, from: int, t: Trace) -> Map<u16, u8> {
    effect(regs, t.sent.subrange(from, t.sent.len() as int))
}

/// What is claimed of a register of a part, and perhaps of where the conversation has been.
pub struct Claim {
    pub regs: Map<u16, u8>,
    pub from: int,
    pub part: Part,
    pub addr: u16,
    pub bits: u8,
    pub past: Option<Trace>,
}

/// A claim that holds, as far as the chip keeps what is written to it.
#[verifier::opaque]
pub open spec fn ok(c: Claim, t: Trace) -> bool {
    &&& 0 <= c.from <= t.sent.len()
    &&& c.past matches Some(past) ==> extends(past, t)
    &&& part_mask(c.part, c.addr) != 0
    &&& keeps(c.regs, t, c.from) ==> now(c.regs, c.from, t)[c.addr] & part_mask(c.part, c.addr)
        == c.bits
}

/// Some of the parts.
pub struct Parts {
    pub rx_lo: bool,
    pub tx_lo: bool,
    pub rx_fir: bool,
    pub tx_fir: bool,
    pub rx_filter: bool,
    pub tx_filter: bool,
    pub modes: bool,
    pub attenuation: bool,
    pub channels: bool,
    pub tracking: bool,
    pub input: bool,
    pub clkout: bool,
    pub dcxo: bool,
    pub table_size: bool,
}

/// None of the parts.
pub open spec fn none() -> Parts {
    Parts {
        rx_lo: false,
        tx_lo: false,
        rx_fir: false,
        tx_fir: false,
        rx_filter: false,
        tx_filter: false,
        modes: false,
        attenuation: false,
        channels: false,
        tracking: false,
        input: false,
        clkout: false,
        dcxo: false,
        table_size: false,
    }
}

impl Parts {
    pub open spec fn has(self, part: Part) -> bool {
        match part {
            Part::RxLo => self.rx_lo,
            Part::TxLo => self.tx_lo,
            Part::RxFir => self.rx_fir,
            Part::TxFir => self.tx_fir,
            Part::RxFilter => self.rx_filter,
            Part::TxFilter => self.tx_filter,
            Part::Modes => self.modes,
            Part::Attenuation => self.attenuation,
            Part::Channels => self.channels,
            Part::Tracking => self.tracking,
            Part::Input => self.input,
            Part::Clkout => self.clkout,
            Part::Dcxo => self.dcxo,
            Part::TableSize => self.table_size,
        }
    }
}

/// Every part but some is left alone on the way from one place in a conversation to another.
pub open spec fn leaves(t: Trace, u: Trace, but: Parts) -> bool {
    forall|c: Claim| #[trigger] ok(c, t) && !but.has(c.part) ==> ok(c, u)
}

/// The gain tables are left alone on the way.
pub open spec fn calms(t: Trace, u: Trace) -> bool {
    forall|past: Seq<Request>| #[trigger] calm(past, t) ==> calm(past, u)
}

/// Whether a step leaves a part alone.
pub open spec fn clear(op: Op, part: Part) -> bool {
    match op {
        Op::Write { addr, .. } => part_mask(part, addr) == 0,
        Op::Update { addr, mask, .. } => part_mask(part, addr) == 0 || mask & part_mask(part, addr)
            == 0,
        Op::Burst { addr, len, .. } => len <= addr && forall|a: u16|
            addr - len < a <= addr ==> #[trigger] part_mask(part, a) == 0,
        _ => true,
    }
}

/// Whether a program leaves a part alone.
pub open spec fn all_clear(ops: Seq<Op>, part: Part) -> bool {
    forall|i: int| 0 <= i < ops.len() ==> clear(#[trigger] ops[i], part)
}

/// Every part that a program doesn't write is left alone on the way.
pub open spec fn leaves_by(t: Trace, u: Trace, ops: Seq<Op>) -> bool {
    forall|c: Claim| #[trigger] ok(c, t) && all_clear(ops, c.part) ==> ok(c, u)
}

/// Whether a register belongs to the port that the gain tables are written through, or is the
/// highest index of the table.
pub open spec fn is_table_port(addr: u16) -> bool {
    addr == 0x0FD || 0x130 <= addr <= 0x137
}

/// Whether a request may write to a gain table.
pub open spec fn writes_table(request: Request) -> bool {
    request matches Request::Write { addr, len, .. } && (len > addr || exists|a: u16|
        addr - len < a <= addr && #[trigger] is_table_port(a))
}

/// A conversation that began with some requests, and none since then wrote to a gain table.
#[verifier::opaque]
pub open spec fn calm(past: Seq<Request>, t: Trace) -> bool {
    &&& past.is_prefix_of(t.sent)
    &&& forall|i: int| past.len() <= i < t.sent.len() ==> !writes_table(#[trigger] t.sent[i])
}

/// Whether a step leaves the gain tables alone.
pub open spec fn table_clear(op: Op) -> bool {
    match op {
        Op::Write { addr, .. } => !is_table_port(addr) && addr >= 1,
        Op::Update { addr, .. } => !is_table_port(addr) && addr >= 1,
        Op::Burst { addr, len, .. } => len <= addr && forall|a: u16|
            addr - len < a <= addr ==> !#[trigger] is_table_port(a),
        _ => true,
    }
}

/// Whether a program leaves the gain tables alone.
pub open spec fn all_table_clear(ops: Seq<Op>) -> bool {
    forall|i: int| 0 <= i < ops.len() ==> table_clear(#[trigger] ops[i])
}

/// The same LO frequencies are cached.
pub open spec fn same_los(a: EngineState, b: EngineState) -> bool {
    &&& b.clk.rates.rx_rfpll == a.clk.rates.rx_rfpll
    &&& b.clk.rates.tx_rfpll == a.clk.rates.tx_rfpll
}

/// The same gain table is remembered.
pub open spec fn same_table(a: EngineState, b: EngineState) -> bool {
    &&& b.gain.current_table == a.gain.current_table
    &&& b.gain.split_gt == a.gain.split_gt
    &&& b.gain.elna_in_gaintable_all_index_en == a.gain.elna_in_gaintable_all_index_en
}

/// The same tables and the same external reference.
pub open spec fn same_chip(a: EngineView, b: EngineView) -> bool {
    &&& b.tables == a.tables
    &&& b.state.v.ref_clk_in == a.state.v.ref_clk_in
}

/// The same bandwidths are remembered.
pub open spec fn same_bandwidths(a: EngineState, b: EngineState) -> bool {
    &&& b.cal.current_rx_bw == a.cal.current_rx_bw
    &&& b.cal.current_tx_bw == a.cal.current_tx_bw
}

proof fn lemma_bytes_len(data: nat, len: nat)
    ensures
        bytes_of(data, len).len() == len,
    decreases len,
{
    if len > 0 {
        lemma_bytes_len(data / 256, (len - 1) as nat);
    }
}

/// Writing bytes leaves the other registers.
proof fn lemma_written_elsewhere(regs: Map<u16, u8>, addr: u16, bytes: Seq<u8>, a: u16)
    requires
        bytes.len() <= addr,
        a > addr || a <= addr - bytes.len(),
    ensures
        written(regs, addr, bytes)[a] == regs[a],
    decreases bytes.len(),
{
    if bytes.len() > 0 {
        lemma_written_elsewhere(regs, addr, bytes.drop_last(), a);
    }
}

pub(crate) proof fn lemma_one_byte(regs: Map<u16, u8>, addr: u16, value: u8)
    ensures
        written(regs, addr, bytes_of(value as nat, 1)) == regs.insert(addr, value),
        held(regs, addr, 1) == regs[addr],
{
    reveal_with_fuel(bytes_of, 2);
    let bytes = bytes_of(value as nat, 1);
    assert(bytes =~= seq![value]);
    reveal_with_fuel(written, 2);
    assert(bytes.drop_last() =~= Seq::empty());
    let one = Seq::new(1, |i: int| regs[(addr - i) as u16]);
    reveal_with_fuel(word_of, 2);
    assert(one.drop_last() =~= Seq::empty());
    assert(one.last() == regs[addr]);
}

/// A conversation with such a chip was one with it all along.
pub(crate) proof fn lemma_keeps_prefix(regs: Map<u16, u8>, t: Trace, u: Trace, from: int)
    requires
        extends(t, u),
        keeps(regs, u, from),
        from <= t.sent.len(),
    ensures
        keeps(regs, t, from),
{
    assert forall|i: int| from <= i < t.sent.len() implies #[trigger] answered_truly(
        regs,
        t,
        from,
        i,
    ) by {
        assert(answered_truly(regs, u, from, i));
        assert(t.sent[i] == u.sent[i]);
        assert(t.sent.subrange(from, i) =~= u.sent.subrange(from, i));
    }
}

/// One request to such a chip goes through.
pub(crate) proof fn lemma_exchange_keeps(regs: Map<u16, u8>, t: Trace, from: int, request: Request)
    requires
        keeps(regs, exchange(t, request).0, from),
        from <= t.sent.len(),
    ensures
        ({
            let (u, r) = exchange(t, request);
            &&& u.sent == t.sent.push(request)
            &&& r is Ok
            &&& keeps(regs, t, from)
            &&& now(regs, from, u) == request_effect(now(regs, from, t), request)
            &&& request matches Request::Read { addr, len } ==> (are_lasting(addr, len) ==> r->Ok_0
                == held(now(regs, from, t), addr, len))
        }),
{
    law_exchange_extends(t, request);
    lemma_keeps_prefix(regs, t, exchange(t, request).0, from);
    reveal(exchange);
    let n = t.sent.len() as int;
    let u = exchange(t, request).0;
    assert(answered_truly(regs, u, from, n));
    assert(u.sent.subrange(from, n + 1).drop_last() =~= t.sent.subrange(from, n));
    assert(u.sent.subrange(from, n) =~= t.sent.subrange(from, n));
    assert(u.sent.subrange(from, n + 1).last() == request);
}

/// The same contents of the lasting registers.
pub open spec fn agree(a: Map<u16, u8>, b: Map<u16, u8>) -> bool {
    forall|addr: u16| #[trigger] is_lasting(addr) ==> a[addr] == b[addr]
}

proof fn lemma_written_agrees(a: Map<u16, u8>, b: Map<u16, u8>, addr: u16, bytes: Seq<u8>)
    requires
        agree(a, b),
    ensures
        agree(written(a, addr, bytes), written(b, addr, bytes)),
    decreases bytes.len(),
{
    if bytes.len() > 0 {
        lemma_written_agrees(a, b, addr, bytes.drop_last());
    }
}

/// One step of a program on such a chip goes through, and leaves the lasting registers as it says.
proof fn lemma_step_keeps(regs: Map<u16, u8>, t: Trace, from: int, op: Op, before: Map<u16, u8>)
    requires
        keeps(regs, step(t, op).0, from),
        from <= t.sent.len(),
        agree(now(regs, from, t), before),
    ensures
        step(t, op).1 is None,
        keeps(regs, t, from),
        agree(now(regs, from, step(t, op).0), op_effect(before, op)),
{
    law_step_extends(t, op);
    lemma_keeps_prefix(regs, t, step(t, op).0, from);
    reveal(step);
    let at = now(regs, from, t);
    match op {
        Op::Write { addr, value } => {
            lemma_exchange_keeps(
                regs,
                t,
                from,
                Request::Write { addr, len: 1, data: value as u64 },
            );
            lemma_one_byte(at, addr, value);
        },
        Op::Update { addr, mask, value } => {
            let read = Request::Read { addr, len: 1 };
            let (t1, r1) = exchange(t, read);
            law_exchange_extends(t, read);
            if let Ok(current) = r1 {
                let byte = merged(current as u8, mask, value);
                let write = Request::Write { addr, len: 1, data: byte as u64 };
                law_exchange_extends(t1, write);
                lemma_keeps_prefix(regs, t1, exchange(t1, write).0, from);
                lemma_exchange_keeps(regs, t, from, read);
                lemma_exchange_keeps(regs, t1, from, write);
                lemma_one_byte(at, addr, byte);
                if is_lasting(addr) {
                    assert(are_lasting(addr, 1));
                }
            } else {
                lemma_exchange_keeps(regs, t, from, read);
            }
        },
        Op::Burst { addr, len, data } => {
            lemma_exchange_keeps(regs, t, from, Request::Write { addr, len, data });
            lemma_written_agrees(at, before, addr, bytes_of(data as nat, len as nat));
        },
        Op::Wait { micros } => {
            lemma_exchange_keeps(regs, t, from, Request::Wait { micros });
        },
        Op::Axi { request } => {
            lemma_exchange_keeps(regs, t, from, Request::Axi { request });
        },
    }
}

/// A program on such a chip goes through, and leaves the lasting registers as its steps say.
pub proof fn law_program_on_lasting(regs: Map<u16, u8>, t: Trace, from: int, ops: Seq<Op>)
    requires
        keeps(regs, run(t, ops).0, from),
        from <= t.sent.len(),
    ensures
        run(t, ops).1 is None,
        keeps(regs, t, from),
        agree(now(regs, from, run(t, ops).0), program_effect(now(regs, from, t), ops)),
    decreases ops.len(),
{
    law_run_extends(t, ops);
    lemma_keeps_prefix(regs, t, run(t, ops).0, from);
    reveal(run);
    if ops.len() > 0 {
        let rest = ops.drop_last();
        let t1 = run(t, rest).0;
        law_run_extends(t, rest);
        law_step_extends(t1, ops.last());
        lemma_keeps_prefix(regs, t1, run(t, ops).0, from);
        law_program_on_lasting(regs, t, from, rest);
        lemma_step_keeps(
            regs,
            t1,
            from,
            ops.last(),
            program_effect(now(regs, from, t), rest),
        );
    }
}

/// A request leaves the register of a claim, unless it writes it.
proof fn lemma_exchange_ok(c: Claim, t: Trace, request: Request)
    requires
        ok(c, t),
        request_effect(now(c.regs, c.from, t), request)[c.addr] & part_mask(c.part, c.addr)
            == now(c.regs, c.from, t)[c.addr] & part_mask(c.part, c.addr),
    ensures
        ok(c, exchange(t, request).0),
{
    reveal(ok);
    law_exchange_extends(t, request);
    let u = exchange(t, request).0;
    if keeps(c.regs, u, c.from) {
        lemma_exchange_keeps(c.regs, t, c.from, request);
    }
    if let Some(past) = c.past {
        lemma_extends_on(past, t, u);
    }
}

proof fn lemma_merged_elsewhere(current: u8, mask: u8, value: u8, other: u8)
    ensures
        mask & other == 0 ==> merged(current, mask, value) & other == current & other,
{
    assert(mask & other == 0 ==> ((current & !mask) | (value & mask)) & other == current & other)
        by (bit_vector);
}

proof fn lemma_part_is_lasting(part: Part, addr: u16)
    ensures
        part_mask(part, addr) != 0 ==> is_lasting(addr) && are_lasting(addr, 1),
{
}

/// A step that leaves a part alone leaves what is claimed of it.
proof fn lemma_step_ok(c: Claim, t: Trace, op: Op)
    requires
        ok(c, t),
        clear(op, c.part),
    ensures
        ok(c, step(t, op).0),
{
    let mask = part_mask(c.part, c.addr);
    assert(mask != 0) by {
        reveal(ok);
    }
    let at = now(c.regs, c.from, t);
    lemma_part_is_lasting(c.part, c.addr);
    match op {
        Op::Write { addr, value } => {
            reveal(step);
            lemma_one_byte(at, addr, value);
            lemma_exchange_ok(c, t, Request::Write { addr, len: 1, data: value as u64 });
        },
        Op::Update { addr, mask: bits, value } => {
            let u = step(t, op).0;
            law_step_extends(t, op);
            reveal(ok);
            if keeps(c.regs, u, c.from) {
                lemma_step_keeps(c.regs, t, c.from, op, at);
                lemma_merged_elsewhere(at[addr], bits, value, mask);
            }
            if let Some(past) = c.past {
                lemma_extends_on(past, t, u);
            }
        },
        Op::Burst { addr, len, data } => {
            reveal(step);
            lemma_bytes_len(data as nat, len as nat);
            assert(addr - len < c.addr <= addr ==> part_mask(c.part, c.addr) == 0);
            lemma_written_elsewhere(at, addr, bytes_of(data as nat, len as nat), c.addr);
            lemma_exchange_ok(c, t, Request::Write { addr, len, data });
        },
        Op::Wait { micros } => {
            reveal(step);
            lemma_exchange_ok(c, t, Request::Wait { micros });
        },
        Op::Axi { request } => {
            reveal(step);
            lemma_exchange_ok(c, t, Request::Axi { request });
        },
    }
}

proof fn lemma_program_ok(c: Claim, t: Trace, ops: Seq<Op>)
    requires
        ok(c, t),
        all_clear(ops, c.part),
    ensures
        ok(c, run(t, ops).0),
    decreases ops.len(),
{
    reveal(run);
    if ops.len() > 0 {
        let rest = ops.drop_last();
        assert forall|i: int| 0 <= i < rest.len() implies clear(#[trigger] rest[i], c.part) by {
            assert(rest[i] == ops[i]);
        }
        assert(clear(ops[ops.len() - 1], c.part));
        lemma_program_ok(c, t, rest);
        lemma_step_ok(c, run(t, rest).0, ops.last());
    }
}

proof fn lemma_exchange_calm(past: Seq<Request>, t: Trace, request: Request)
    requires
        calm(past, t),
        !writes_table(request),
    ensures
        calm(past, exchange(t, request).0),
{
    reveal(calm);
    reveal(exchange);
}

proof fn lemma_step_calm(past: Seq<Request>, t: Trace, op: Op)
    requires
        calm(past, t),
        table_clear(op),
    ensures
        calm(past, step(t, op).0),
{
    reveal(step);
    match op {
        Op::Write { addr, value } => {
            lemma_exchange_calm(past, t, Request::Write { addr, len: 1, data: value as u64 });
        },
        Op::Update { addr, mask, value } => {
            let read = Request::Read { addr, len: 1 };
            lemma_exchange_calm(past, t, read);
            let (t1, r1) = exchange(t, read);
            if let Ok(current) = r1 {
                let byte = merged(current as u8, mask, value);
                lemma_exchange_calm(past, t1, Request::Write { addr, len: 1, data: byte as u64 });
            }
        },
        Op::Burst { addr, len, data } => {
            lemma_exchange_calm(past, t, Request::Write { addr, len, data });
        },
        Op::Wait { micros } => {
            lemma_exchange_calm(past, t, Request::Wait { micros });
        },
        Op::Axi { request } => {
            lemma_exchange_calm(past, t, Request::Axi { request });
        },
    }
}

proof fn lemma_program_calm(past: Seq<Request>, t: Trace, ops: Seq<Op>)
    requires
        calm(past, t),
        all_table_clear(ops),
    ensures
        calm(past, run(t, ops).0),
    decreases ops.len(),
{
    reveal(run);
    if ops.len() > 0 {
        let rest = ops.drop_last();
        assert forall|i: int| 0 <= i < rest.len() implies table_clear(#[trigger] rest[i]) by {
            assert(rest[i] == ops[i]);
        }
        assert(table_clear(ops[ops.len() - 1]));
        lemma_program_calm(past, t, rest);
        lemma_step_calm(past, run(t, rest).0, ops.last());
    }
}

/// Fields of a register that don't overlap.
pub(crate) broadcast proof fn lemma_fields_apart(mask: u8, other: u8)
    ensures
        #![trigger mask & other]
        other == 0x03 && mask % 4 == 0 ==> mask & other == 0,
        other == 0x0F && mask % 16 == 0 ==> mask & other == 0,
        other == 0xF0 && mask < 16 ==> mask & other == 0,
        other == 0xC0 && mask < 64 ==> mask & other == 0,
{
    assert(other == 0x03 && mask % 4 == 0 ==> mask & other == 0) by (bit_vector);
    assert(other == 0x0F && mask % 16 == 0 ==> mask & other == 0) by (bit_vector);
    assert(other == 0xF0 && mask < 16 ==> mask & other == 0) by (bit_vector);
    assert(other == 0xC0 && mask < 64 ==> mask & other == 0) by (bit_vector);
}

/// A question leaves every part alone.
pub broadcast proof fn leaves_exchange(e: EngineView, request: Request)
    ensures
        #![trigger e.exchange(request)]
        !(request is Write) ==> leaves(e.link, e.exchange(request).e.link, none()),
        !(request is Write) ==> calms(e.link, e.exchange(request).e.link),
        same_los(e.state.v, e.exchange(request).e.state.v),
        same_table(e.state.v, e.exchange(request).e.state.v),
        same_bandwidths(e.state.v, e.exchange(request).e.state.v),
        same_chip(e, e.exchange(request).e),
{
    reveal(EngineView::exchange);
    if !(request is Write) {
        assert forall|c: Claim| #[trigger] ok(c, e.link) implies ok(
            c,
            e.exchange(request).e.link,
        ) by {
            lemma_exchange_ok(c, e.link, request);
        }
        assert forall|past: Seq<Request>| #[trigger] calm(past, e.link) implies calm(
            past,
            e.exchange(request).e.link,
        ) by {
            lemma_exchange_calm(past, e.link, request);
        }
    }
}

/// A program leaves the parts alone that none of its steps writes.
pub broadcast proof fn leaves_run(e: EngineView, ops: Seq<Op>)
    ensures
        #![trigger e.run(ops)]
        leaves_by(e.link, e.run(ops).e.link, ops),
        all_table_clear(ops) ==> calms(e.link, e.run(ops).e.link),
        same_los(e.state.v, e.run(ops).e.state.v),
        same_table(e.state.v, e.run(ops).e.state.v),
        same_bandwidths(e.state.v, e.run(ops).e.state.v),
        same_chip(e, e.run(ops).e),
{
    reveal(EngineView::run);
    assert forall|c: Claim| #[trigger] ok(c, e.link) && all_clear(ops, c.part) implies ok(
        c,
        e.run(ops).e.link,
    ) by {
        lemma_program_ok(c, e.link, ops);
    }
    assert forall|past: Seq<Request>| #[trigger] calm(past, e.link) && all_table_clear(ops) implies calm(
        past,
        e.run(ops).e.link,
    ) by {
        lemma_program_calm(past, e.link, ops);
    }
}

/// Reading leaves every part alone.
pub broadcast proof fn leaves_read(e: EngineView, addr: u16)
    ensures
        #![trigger e.read(addr)]
        leaves(e.link, e.read(addr).e.link, none()),
        calms(e.link, e.read(addr).e.link),
        same_los(e.state.v, e.read(addr).e.state.v),
        same_table(e.state.v, e.read(addr).e.state.v),
        same_bandwidths(e.state.v, e.read(addr).e.state.v),
        same_chip(e, e.read(addr).e),
{
    broadcast use leaves_exchange;

    reveal(EngineView::read);
}

} // verus!
