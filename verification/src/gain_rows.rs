//! Which gain table is in the chip.
use vstd::prelude::*;

use crate::clocks::Ad9361Clock;
use crate::config::Ad9361Settings;
use crate::engine::{law_poll_keeps_state, law_read_keeps_state, law_run_keeps_state, EngineView};
use crate::gain_control::{closest_entry, lpf_tia_mask, GainTableDest};
use crate::kept::{calm, calms, lemma_one_byte, same_table, writes_table};
use crate::link::{exchange, extends, put, run, step, update, Op, Request, Trace};
use crate::math::flag;
use crate::ports::Channel;
use crate::regfile::{
    effect, lemma_extends_on, lemma_flow_extends, lemma_read_extends, request_effect,
};
use crate::registers::{
    AGC_CONFIG2, AGC_USE_FULL_GAIN_TABLE, GAIN_TABLE_ADDRESS, GAIN_TABLE_CONFIG,
    GAIN_TABLE_READ_DATA1, GAIN_TABLE_WRITE_DATA1, GAIN_TABLE_WRITE_DATA2, GAIN_TABLE_WRITE_DATA3,
    MANUAL_GAIN_INDEX, MAX_LMT_FULL_GAIN, RX1_MANUAL_LMT_FULL_GAIN, RX2_MANUAL_LMT_FULL_GAIN,
    START_GAIN_TABLE_CLOCK, WRITE_GAIN_TABLE,
};
use crate::tables::{ChipTables, GainTable};
use crate::units::{HertzU32, HertzU64};

verus! {

/// The three words of an entry.
pub type Row = (u8, u8, u8);

/// The gain table that a channel has after some requests. Writing the configuration register with
/// its write bit and the bit of the channel stores the data registers at the address register.
pub open spec fn rows(
    channel: Channel,
    before: Map<u8, Row>,
    regs: Map<u16, u8>,
    sent: Seq<Request>,
) -> Map<u8, Row>
    decreases sent.len(),
{
    if sent.len() == 0 {
        before
    } else {
        let past = sent.drop_last();
        let table = rows(channel, before, regs, past);
        if stores(channel, sent.last()) {
            let now = effect(regs, past);
            table.insert(now[0x130], (now[0x131], now[0x132], now[0x133]))
        } else {
            table
        }
    }
}

/// Whether a request stores an entry in the table of a channel.
pub open spec fn stores(channel: Channel, request: Request) -> bool {
    request matches Request::Write { addr, len, data } && addr == 0x137 && len == 1 && data / 4 % 2
        == 1 && (match channel {
        Channel::Ch1 => data / 8 % 2 == 1,
        Channel::Ch2 => data / 16 % 2 == 1,
    })
}

/// The entries of a table are in the chip, in order. With an external LNA in all of them the top
/// bit of the first word is set.
pub open spec fn holds_entries(
    table: Map<u8, Row>,
    entries: Seq<[u8; 3]>,
    external_lna: bool,
) -> bool {
    forall|i: int|
        0 <= i < entries.len() ==> table[i as u8] == (
            if external_lna {
                #[trigger] entries[i][0] | 0x80
            } else {
                entries[i][0]
            },
            entries[i][1],
            entries[i][2],
        )
}

proof fn lemma_rows_push(
    channel: Channel,
    before: Map<u8, Row>,
    regs: Map<u16, u8>,
    sent: Seq<Request>,
    request: Request,
)
    ensures
        rows(channel, before, regs, sent.push(request)) == (if stores(channel, request) {
            let now = effect(regs, sent);
            rows(channel, before, regs, sent).insert(now[0x130], (now[0x131], now[0x132], now[0x133]))
        } else {
            rows(channel, before, regs, sent)
        }),
        effect(regs, sent.push(request)) == request_effect(effect(regs, sent), request),
{
    assert(sent.push(request).drop_last() =~= sent);
}

/// A register that was written.
spec fn written_byte(addr: u16, value: u8) -> Request {
    Request::Write { addr, len: 1, data: value as u64 }
}

/// A write that went through was sent.
proof fn lemma_put_sent(t: Trace, ops: Seq<Op>, addr: u16, value: u8)
    requires
        ops.len() > 0,
        ops.last() == put(addr, value),
        run(t, ops).1 is None,
    ensures
        run(t, ops.drop_last()).1 is None,
        run(t, ops).0.sent == run(t, ops.drop_last()).0.sent.push(written_byte(addr, value)),
{
    reveal(run);
    reveal(step);
    reveal(exchange);
}

/// The program that stores one entry.
spec fn row_ops(i: u8, row: Row, config: u8) -> Seq<Op> {
    [
        put(GAIN_TABLE_ADDRESS, i),
        put(GAIN_TABLE_WRITE_DATA1, row.0),
        put(GAIN_TABLE_WRITE_DATA2, row.1),
        put(GAIN_TABLE_WRITE_DATA3, row.2),
        put(GAIN_TABLE_CONFIG, config),
        put(GAIN_TABLE_READ_DATA1, 0),
        put(GAIN_TABLE_READ_DATA1, 0),
    ]@
}

/// What came before, as far as it belongs to this conversation.
spec fn since(t: Trace, from: int) -> Seq<Request> {
    t.sent.subrange(from, t.sent.len() as int)
}

proof fn lemma_row_stored(
    channel: Channel,
    before: Map<u8, Row>,
    regs: Map<u16, u8>,
    from: int,
    t: Trace,
    i: u8,
    row: Row,
    config: u8,
)
    requires
        0 <= from <= t.sent.len(),
        run(t, row_ops(i, row, config)).1 is None,
        config == 0x1E,
    ensures
        ({
            let u = run(t, row_ops(i, row, config)).0;
            &&& from <= u.sent.len()
            &&& rows(channel, before, regs, since(u, from)) == rows(
                channel,
                before,
                regs,
                since(t, from),
            ).insert(i, row)
        }),
{
    let ops = row_ops(i, row, config);
    let o6 = ops.drop_last();
    let o5 = o6.drop_last();
    let o4 = o5.drop_last();
    let o3 = o4.drop_last();
    let o2 = o3.drop_last();
    let o1 = o2.drop_last();
    lemma_put_sent(t, ops, GAIN_TABLE_READ_DATA1, 0);
    lemma_put_sent(t, o6, GAIN_TABLE_READ_DATA1, 0);
    lemma_put_sent(t, o5, GAIN_TABLE_CONFIG, config);
    lemma_put_sent(t, o4, GAIN_TABLE_WRITE_DATA3, row.2);
    lemma_put_sent(t, o3, GAIN_TABLE_WRITE_DATA2, row.1);
    lemma_put_sent(t, o2, GAIN_TABLE_WRITE_DATA1, row.0);
    lemma_put_sent(t, o1, GAIN_TABLE_ADDRESS, i);
    assert(run(t, o1.drop_last()).0 == t) by {
        reveal(run);
    }
    let r1 = written_byte(0x130, i);
    let r2 = written_byte(0x131, row.0);
    let r3 = written_byte(0x132, row.1);
    let r4 = written_byte(0x133, row.2);
    let r5 = written_byte(0x137, config);
    let r6 = written_byte(0x134, 0);
    let s0 = since(t, from);
    let s1 = s0.push(r1);
    let s2 = s1.push(r2);
    let s3 = s2.push(r3);
    let s4 = s3.push(r4);
    let s5 = s4.push(r5);
    let s6 = s5.push(r6);
    let s7 = s6.push(r6);
    lemma_rows_push(channel, before, regs, s0, r1);
    lemma_rows_push(channel, before, regs, s1, r2);
    lemma_rows_push(channel, before, regs, s2, r3);
    lemma_rows_push(channel, before, regs, s3, r4);
    lemma_rows_push(channel, before, regs, s4, r5);
    lemma_rows_push(channel, before, regs, s5, r6);
    lemma_rows_push(channel, before, regs, s6, r6);
    lemma_one_byte(effect(regs, s0), 0x130, i);
    lemma_one_byte(effect(regs, s1), 0x131, row.0);
    lemma_one_byte(effect(regs, s2), 0x132, row.1);
    lemma_one_byte(effect(regs, s3), 0x133, row.2);
    assert(since(run(t, ops).0, from) =~= s7);
}

/// Nothing is stored while no request writes to a gain table.
proof fn lemma_calm_rows(
    channel: Channel,
    before: Map<u8, Row>,
    regs: Map<u16, u8>,
    from: int,
    t: Trace,
    u: Trace,
)
    requires
        0 <= from <= t.sent.len(),
        calm(t.sent, u),
    ensures
        from <= u.sent.len(),
        rows(channel, before, regs, since(u, from)) == rows(channel, before, regs, since(t, from)),
    decreases u.sent.len(),
{
    reveal(calm);
    if u.sent.len() == t.sent.len() {
        assert(u.sent =~= t.sent);
    } else {
        let v = Trace { sent: u.sent.drop_last(), ..u };
        assert(calm(t.sent, v)) by {
            assert(t.sent.is_prefix_of(v.sent)) by {
                assert forall|i: int| 0 <= i < t.sent.len() implies t.sent[i] == v.sent[i] by {
                    assert(t.sent[i] == u.sent[i]);
                }
                assert(t.sent =~= v.sent.subrange(0, t.sent.len() as int));
            }
            assert forall|i: int| t.sent.len() <= i < v.sent.len() implies !writes_table(
                #[trigger] v.sent[i],
            ) by {
                assert(v.sent[i] == u.sent[i]);
            }
        }
        lemma_calm_rows(channel, before, regs, from, t, v);
        let last = u.sent[u.sent.len() - 1];
        assert(!writes_table(last));
        assert(!stores(channel, last)) by {
            assert(crate::kept::is_table_port(0x137));
        }
        lemma_rows_push(channel, before, regs, since(v, from), last);
        assert(since(v, from).push(last) =~= since(u, from));
    }
}

/// An entry as it goes into the chip.
spec fn row_of(entry: [u8; 3], lna: u8) -> Row {
    (entry[0] | lna, entry[1], entry[2])
}

/// The entries from `i` on are stored in order, and the ones before are left.
proof fn lemma_rows_stored(
    channel: Channel,
    before: Map<u8, Row>,
    regs: Map<u16, u8>,
    from: int,
    e: EngineView,
    entries: Seq<[u8; 3]>,
    i: int,
    config: u8,
    lna: u8,
    mask: u8,
)
    requires
        0 <= from <= e.link.sent.len(),
        0 <= i <= entries.len() <= 128,
        e.gain_rows_from(entries, i, config, lna, mask).err is None,
        config | WRITE_GAIN_TABLE == 0x1E,
    ensures
        ({
            let end = e.gain_rows_from(entries, i, config, lna, mask).e;
            let old = rows(channel, before, regs, since(e.link, from));
            let new = rows(channel, before, regs, since(end.link, from));
            &&& from <= end.link.sent.len()
            &&& forall|k: int|
                i <= k < entries.len() ==> #[trigger] new[k as u8] == row_of(entries[k], lna)
            &&& forall|k: int| 0 <= k < i ==> #[trigger] new[k as u8] == old[k as u8]
        }),
    decreases entries.len() - i,
{
    if i < entries.len() {
        let word = entries[i];
        let row = row_of(word, lna);
        let ops = row_ops(i as u8, row, config | WRITE_GAIN_TABLE);
        let stored = e.run(ops);
        let noted = if word[1] & mask == 0x20 {
            stored.set_lpf_tia_match(Some(i as u8))
        } else {
            stored
        };
        assert(stored.err is None && noted.err is None);
        reveal(EngineView::run);
        lemma_row_stored(
            channel,
            before,
            regs,
            from,
            e.link,
            i as u8,
            row,
            config | WRITE_GAIN_TABLE,
        );
        lemma_rows_stored(
            channel,
            before,
            regs,
            from,
            noted.e,
            entries,
            i + 1,
            config,
            lna,
            mask,
        );
    }
}

/// Writing a gain table to both channels puts its entries into the chip and remembers it.
proof fn lemma_table_written(
    channel: Channel,
    before: Map<u8, Row>,
    regs: Map<u16, u8>,
    from: int,
    e: EngineView,
    band: usize,
)
    requires
        0 <= from <= e.link.sent.len(),
        e.tables.gain_table(band).wf(),
        e.write_gain_table(band, GainTableDest::Both).err is None,
    ensures
        ({
            let end = e.write_gain_table(band, GainTableDest::Both).e;
            &&& from <= end.link.sent.len()
            &&& end.state.v.gain.current_table == band
            &&& holds_entries(
                rows(channel, before, regs, since(end.link, from)),
                e.tables.gain_table(band).entries@,
                e.state.v.gain.elna_in_gaintable_all_index_en,
            )
        }),
{
    broadcast use {
        crate::kept::leaves_run,
        crate::kept::gain_control::leaves_current_gains,
    };

    reveal(EngineView::write_gain_table);
    reveal(EngineView::gain_rows);
    let table = e.tables.gain_table(band);
    let entries = table.entries@;
    let config = START_GAIN_TABLE_CLOCK | (GainTableDest::Both.code() << 3);
    assert(0x02u8 | (3u8 << 3) == 0x1A && 0x1Au8 | 0x04 == 0x1E) by (bit_vector);
    let head = [
        update(
            AGC_CONFIG2,
            AGC_USE_FULL_GAIN_TABLE,
            flag(!e.state.v.gain.split_gt, AGC_USE_FULL_GAIN_TABLE),
        ),
        put(MAX_LMT_FULL_GAIN, (entries.len() - 1) as u8),
    ]@;
    let gains = e.run(head).current_gains();
    let (rx1_gain, rx2_gain) = gains.r->Ok_0;
    let open = gains.e.run([put(GAIN_TABLE_CONFIG, config)]@);
    let lna = flag(e.state.v.gain.elna_in_gaintable_all_index_en, 0x80);
    let filled = open.gain_rows(band, config);
    let tail = [
        put(GAIN_TABLE_CONFIG, config),
        put(GAIN_TABLE_READ_DATA1, 0),
        put(GAIN_TABLE_READ_DATA1, 0),
        put(GAIN_TABLE_CONFIG, 0),
    ]@;
    let closed = filled.run(tail);
    let noted = closed.set_current_table(band);
    let last = [
        update(
            RX1_MANUAL_LMT_FULL_GAIN,
            MANUAL_GAIN_INDEX,
            closest_entry(table.abs_gain@, rx1_gain) as u8,
        ),
        put(RX2_MANUAL_LMT_FULL_GAIN, closest_entry(table.abs_gain@, rx2_gain) as u8),
    ]@;
    let end = noted.run(last);
    assert(from <= open.e.link.sent.len() && open.e.state.v.gain.elna_in_gaintable_all_index_en
        == e.state.v.gain.elna_in_gaintable_all_index_en && open.e.tables == e.tables) by {
        lemma_flow_extends(e.start(), head);
        lemma_gains_extend(e.run(head).e);
        lemma_flow_extends(gains.e.start(), [put(GAIN_TABLE_CONFIG, config)]@);
        law_run_keeps_state(e, head);
        law_run_keeps_state(gains.e, [put(GAIN_TABLE_CONFIG, config)]@);
    }
    let start = open.set_lpf_tia_match(None);
    lemma_rows_stored(
        channel,
        before,
        regs,
        from,
        start.e,
        entries,
        0,
        config,
        lna,
        lpf_tia_mask(open.e.state.v.gain.split_gt),
    );
    lemma_tail_stores_nothing(channel, before, regs, from, filled.e, config);
    assert(calm(closed.e.link.sent, closed.e.link)) by {
        reveal(calm);
    }
    assert(calm(closed.e.link.sent, end.e.link));
    lemma_calm_rows(channel, before, regs, from, closed.e.link, end.e.link);
    law_run_keeps_state(noted.e, last);
    let stored = rows(channel, before, regs, since(end.e.link, from));
    assert forall|i: int| 0 <= i < entries.len() implies stored[i as u8] == (
        if e.state.v.gain.elna_in_gaintable_all_index_en {
            #[trigger] entries[i][0] | 0x80
        } else {
            entries[i][0]
        },
        entries[i][1],
        entries[i][2],
    ) by {
        assert(stored[i as u8] == row_of(entries[i], lna));
        let byte = entries[i][0];
        assert(byte | 0 == byte) by (bit_vector);
    }
}

proof fn lemma_gains_extend(e: EngineView)
    ensures
        extends(e.link, e.current_gains().e.link),
        e.current_gains().e.state == e.state,
{
    reveal(EngineView::current_gains);
    let one = e.read(RX1_MANUAL_LMT_FULL_GAIN);
    lemma_read_extends(e.start(), RX1_MANUAL_LMT_FULL_GAIN);
    lemma_read_extends(one.e.start(), RX2_MANUAL_LMT_FULL_GAIN);
    lemma_extends_on(e.link, one.e.link, one.e.read(RX2_MANUAL_LMT_FULL_GAIN).e.link);
    law_read_keeps_state(e, RX1_MANUAL_LMT_FULL_GAIN);
    law_read_keeps_state(one.e, RX2_MANUAL_LMT_FULL_GAIN);
}

proof fn lemma_tail_stores_nothing(
    channel: Channel,
    before: Map<u8, Row>,
    regs: Map<u16, u8>,
    from: int,
    e: EngineView,
    config: u8,
)
    requires
        0 <= from <= e.link.sent.len(),
        config == 0x1A,
        e.run(
            [
                put(GAIN_TABLE_CONFIG, config),
                put(GAIN_TABLE_READ_DATA1, 0),
                put(GAIN_TABLE_READ_DATA1, 0),
                put(GAIN_TABLE_CONFIG, 0),
            ]@,
        ).err is None,
    ensures
        ({
            let end = e.run(
                [
                    put(GAIN_TABLE_CONFIG, config),
                    put(GAIN_TABLE_READ_DATA1, 0),
                    put(GAIN_TABLE_READ_DATA1, 0),
                    put(GAIN_TABLE_CONFIG, 0),
                ]@,
            ).e;
            &&& from <= end.link.sent.len()
            &&& rows(channel, before, regs, since(end.link, from)) == rows(
                channel,
                before,
                regs,
                since(e.link, from),
            )
        }),
{
    let ops = [
        put(GAIN_TABLE_CONFIG, config),
        put(GAIN_TABLE_READ_DATA1, 0),
        put(GAIN_TABLE_READ_DATA1, 0),
        put(GAIN_TABLE_CONFIG, 0),
    ]@;
    reveal(EngineView::run);
    let t = e.link;
    let o3 = ops.drop_last();
    let o2 = o3.drop_last();
    let o1 = o2.drop_last();
    lemma_put_sent(t, ops, GAIN_TABLE_CONFIG, 0);
    lemma_put_sent(t, o3, GAIN_TABLE_READ_DATA1, 0);
    lemma_put_sent(t, o2, GAIN_TABLE_READ_DATA1, 0);
    lemma_put_sent(t, o1, GAIN_TABLE_CONFIG, config);
    assert(run(t, o1.drop_last()).0 == t) by {
        reveal(run);
    }
    let r1 = written_byte(0x137, config);
    let r2 = written_byte(0x134, 0);
    let r4 = written_byte(0x137, 0);
    let s0 = since(t, from);
    let s1 = s0.push(r1);
    let s2 = s1.push(r2);
    let s3 = s2.push(r2);
    lemma_rows_push(channel, before, regs, s0, r1);
    lemma_rows_push(channel, before, regs, s1, r2);
    lemma_rows_push(channel, before, regs, s2, r2);
    lemma_rows_push(channel, before, regs, s3, r4);
    assert(since(run(t, ops).0, from) =~= s3.push(r4));
}

/// The table for a carrier is the first one of its kind whose band the carrier is in. The first
/// table of all stands in where there is none.
pub open spec fn is_table_for(
    tables: Seq<GainTable>,
    index: int,
    split_table: bool,
    freq: u64,
) -> bool {
    let covers = |i: int|
        tables[i].split_table == split_table && tables[i].start < freq && freq <= tables[i].end;
    &&& 0 <= index < tables.len()
    &&& covers(index) || index == 0
    &&& forall|i: int| 0 <= i < tables.len() && #[trigger] covers(i) ==> covers(index) && index <= i
}

proof fn lemma_first_cover(tables: ChipTables, split_table: bool, freq: u64, from: int)
    requires
        0 <= from <= tables.gain_tables().len(),
    ensures
        ({
            let first = tables.first_cover(split_table, freq, from);
            let all = tables.gain_tables();
            &&& from <= first <= all.len()
            &&& first < all.len() ==> all[first].covers(split_table, freq)
            &&& forall|i: int|
                from <= i < first ==> !(#[trigger] all[i]).covers(split_table, freq)
        }),
    decreases tables.gain_tables().len() - from,
{
    if from < tables.gain_tables().len() && !tables.gain_tables()[from].covers(split_table, freq) {
        lemma_first_cover(tables, split_table, freq, from + 1);
    }
}

/// The tables are valid.
pub open spec fn valid_tables(tables: ChipTables) -> bool {
    &&& 1 <= tables.gain_tables().len() <= usize::MAX
    &&& forall|i: int| 0 <= i < tables.gain_tables().len() ==> (#[trigger] tables.gain_tables()[i]).wf()
}

/// The gain table that is remembered is the one both channels have.
pub open spec fn has_remembered_table(e: EngineView, table: Map<u8, Row>) -> bool {
    holds_entries(
        table,
        e.tables.gain_table(e.state.v.gain.current_table).entries@,
        e.state.v.gain.elna_in_gaintable_all_index_en,
    )
}

/// Programming a synth leaves how the gain table is used.
proof fn lemma_lna_stays(e: EngineView, freq: u64, parent: HertzU32)
    ensures
        e.program_rfpll(false, freq, parent).e.state.v.gain == e.state.v.gain,
        e.program_rfpll(false, freq, parent).e.tables == e.tables,
{
    broadcast use {
        crate::kept::synth::leaves_program_rfpll,
        crate::gain_rows::gain_of_run,
        crate::gain_rows::gain_of_read,
        crate::gain_rows::gain_of_poll,
    };

    reveal(EngineView::program_rfpll);
    reveal(EngineView::trx_vco_cal_control);
    reveal(EngineView::rfpll_passes);
    reveal(EngineView::rfpll_pass);
    reveal(EngineView::rfpll_vco_init);
}

pub(crate) proof fn lemma_runs_keep_state()
    ensures
        forall|at: EngineView, ops: Seq<Op>| #[trigger] at.run(ops).e.state == at.state,
{
    broadcast use gain_of_run;

}

pub broadcast proof fn gain_of_run(e: EngineView, ops: Seq<Op>)
    ensures
        (#[trigger] e.run(ops)).e.state == e.state,
{
    law_run_keeps_state(e, ops);
}

pub broadcast proof fn gain_of_read(e: EngineView, addr: u16)
    ensures
        (#[trigger] e.read(addr)).e.state == e.state,
{
    law_read_keeps_state(e, addr);
}

pub broadcast proof fn gain_of_poll(
    e: EngineView,
    addr: u16,
    mask: u8,
    value: u8,
    period_us: u64,
    polls: nat,
)
    ensures
        (#[trigger] e.poll(addr, mask, value, period_us, polls)).e.state == e.state,
{
    law_poll_keeps_state(e, addr, mask, value, period_us, polls);
}

proof fn lemma_rows_lna_stays(
    e: EngineView,
    entries: Seq<[u8; 3]>,
    i: int,
    config: u8,
    lna: u8,
    mask: u8,
)
    ensures
        e.gain_rows_from(
            entries,
            i,
            config,
            lna,
            mask,
        ).e.state.v.gain.elna_in_gaintable_all_index_en
            == e.state.v.gain.elna_in_gaintable_all_index_en,
        e.gain_rows_from(entries, i, config, lna, mask).e.state.v.clk == e.state.v.clk,
        e.gain_rows_from(entries, i, config, lna, mask).e.state.v.gain.split_gt
            == e.state.v.gain.split_gt,
    decreases entries.len() - i,
{
    broadcast use gain_of_run;

    if i < entries.len() {
        let word = entries[i];
        let row = e.run(row_ops(i as u8, row_of(word, lna), config | WRITE_GAIN_TABLE));
        let noted = if word[1] & mask == 0x20 {
            row.set_lpf_tia_match(Some(i as u8))
        } else {
            row
        };
        lemma_rows_lna_stays(noted.e, entries, i + 1, config, lna, mask);
    }
}

pub(crate) proof fn lemma_written_lna_stays(e: EngineView, band: usize)
    ensures
        e.write_gain_table(band, GainTableDest::Both).e.state.v.clk == e.state.v.clk,
        e.write_gain_table(band, GainTableDest::Both).e.state.v.gain.split_gt
            == e.state.v.gain.split_gt,
        e.write_gain_table(
            band,
            GainTableDest::Both,
        ).e.state.v.gain.elna_in_gaintable_all_index_en
            == e.state.v.gain.elna_in_gaintable_all_index_en,
        e.write_gain_table(band, GainTableDest::Both).e.tables == e.tables,
{
    broadcast use {gain_of_run, gain_of_read, crate::kept::gain_control::leaves_write_gain_table};

    reveal(EngineView::write_gain_table);
    reveal(EngineView::gain_rows);
    reveal(EngineView::current_gains);
    assert forall|at: EngineView, entries: Seq<[u8; 3]>, i: int, config: u8, lna: u8, mask: u8|
        (#[trigger] at.gain_rows_from(
            entries,
            i,
            config,
            lna,
            mask,
        )).e.state.v.gain.elna_in_gaintable_all_index_en
            == at.state.v.gain.elna_in_gaintable_all_index_en && at.gain_rows_from(
            entries,
            i,
            config,
            lna,
            mask,
        ).e.state.v.clk == at.state.v.clk && at.gain_rows_from(
            entries,
            i,
            config,
            lna,
            mask,
        ).e.state.v.gain.split_gt == at.state.v.gain.split_gt by {
        lemma_rows_lna_stays(at, entries, i, config, lna, mask);
    }
}

proof fn lemma_scaler_keeps_state(e: EngineView)
    ensures
        e.read_rfpll_scaler(false).e.state == e.state,
        e.read_rfpll_scaler(false).e.tables == e.tables,
{
    broadcast use gain_of_read;

    reveal(EngineView::read_rfpll_scaler);
    reveal(EngineView::exchange);
    reveal(EngineView::read);
}

/// Setting the RX LO to a new frequency leaves the gain table of its band remembered. If that is
/// another one than before, or if the remembered one was in the chip before, its entries are the
/// ones in the chip, in order, for both channels. It doesn't matter what the chip answers.
pub proof fn law_rx_lo_brings_its_table(
    before: Map<u8, Row>,
    regs: Map<u16, u8>,
    e: EngineView,
    freq: HertzU64,
    channel: Channel,
)
    requires
        valid_tables(e.tables),
        e.state.v.clk.rates.rx_rfpll != freq,
        e.set_rfpll_rate(false, freq).err is None,
    ensures
        ({
            let end = e.set_rfpll_rate(false, freq).e;
            let table = rows(
                channel,
                before,
                regs,
                end.link.sent.subrange(e.link.sent.len() as int, end.link.sent.len() as int),
            );
            let (old, new) = (
                e.state.v.gain.current_table,
                end.state.v.gain.current_table,
            );
            &&& is_table_for(
                e.tables.gain_tables(),
                new as int,
                e.state.v.gain.split_gt,
                freq.raw,
            )
            &&& old != new || has_remembered_table(e, before) ==> has_remembered_table(end, table)
        }),
{
    broadcast use {
        crate::kept::synth::leaves_program_rfpll,
        crate::kept::clocks::leaves_read_rfpll_scaler,
    };

    reveal(EngineView::set_rfpll_rate);
    reveal(EngineView::retune_rfpll);
    reveal(EngineView::load_gain_table);
    let from = e.link.sent.len() as int;
    let parent = e.state.v.clk.rates.rx_ref;
    let programmed = e.program_rfpll(false, freq.raw, parent);
    let loaded = programmed.load_gain_table(freq.raw, GainTableDest::Both);
    let scaler = loaded.read_rfpll_scaler(false);
    let end = e.set_rfpll_rate(false, freq).e;
    lemma_lna_stays(e, freq.raw, parent);
    assert(calm(e.link.sent, e.link)) by {
        reveal(calm);
    }
    assert(since(e.link, from) =~= Seq::empty());
    lemma_calm_rows(channel, before, regs, from, e.link, programmed.e.link);
    lemma_first_cover(e.tables, e.state.v.gain.split_gt, freq.raw, 0);
    let band = e.tables.table_index(e.state.v.gain.split_gt, freq.raw) as usize;
    if e.state.v.gain.current_table != band {
        lemma_table_written(channel, before, regs, from, programmed.e, band);
        lemma_written_lna_stays(programmed.e, band);
    }
    assert(calm(loaded.e.link.sent, loaded.e.link)) by {
        reveal(calm);
    }
    assert(calm(loaded.e.link.sent, end.link));
    lemma_calm_rows(channel, before, regs, from, loaded.e.link, end.link);
    lemma_scaler_keeps_state(loaded.e);
}

/// Setting the TX LO leaves the gain tables alone: the same one is remembered, and nothing is
/// stored in the chip, whatever it answers.
pub proof fn law_tx_lo_keeps_the_table(
    before: Map<u8, Row>,
    regs: Map<u16, u8>,
    e: EngineView,
    freq: HertzU64,
    channel: Channel,
)
    ensures
        ({
            let end = e.set_rfpll_rate(true, freq).e;
            let sent = end.link.sent.subrange(
                e.link.sent.len() as int,
                end.link.sent.len() as int,
            );
            &&& end.state.v.gain.current_table == e.state.v.gain.current_table
            &&& rows(channel, before, regs, sent) == before
            &&& forall|i: int| 0 <= i < sent.len() ==> !writes_table(#[trigger] sent[i])
        }),
{
    broadcast use {
        crate::kept::synth::leaves_program_rfpll,
        crate::kept::synth::leaves_recalibrate_tx,
        crate::kept::clocks::leaves_read_rfpll_scaler,
    };

    reveal(EngineView::set_rfpll_rate);
    reveal(EngineView::retune_rfpll);
    let from = e.link.sent.len() as int;
    let end = e.set_rfpll_rate(true, freq).e;
    assert(calm(e.link.sent, e.link)) by {
        reveal(calm);
    }
    assert(since(e.link, from) =~= Seq::empty());
    assert(calm(e.link.sent, end.link));
    lemma_calm_rows(channel, before, regs, from, e.link, end.link);
    reveal(calm);
    let sent = end.link.sent.subrange(from, end.link.sent.len() as int);
    assert forall|i: int| 0 <= i < sent.len() implies !writes_table(#[trigger] sent[i]) by {
        assert(sent[i] == end.link.sent[from + i]);
    }
}

/// The gain table that is remembered is in the chip, for a channel.
spec fn in_chip(
    channel: Channel,
    before: Map<u8, Row>,
    regs: Map<u16, u8>,
    from: int,
    e: EngineView,
) -> bool {
    &&& from <= e.link.sent.len()
    &&& has_remembered_table(e, rows(channel, before, regs, since(e.link, from)))
}

/// It stays there while the gain tables are left alone.
proof fn lemma_stays_in_chip(channel: Channel, before: Map<u8, Row>, regs: Map<u16, u8>, from: int)
    requires
        0 <= from,
    ensures
        forall|a: EngineView, b: EngineView|
            #![trigger calms(a.link, b.link)]
            calms(a.link, b.link) && same_table(a.state.v, b.state.v) && b.tables == a.tables
                && in_chip(channel, before, regs, from, a) ==> in_chip(
                channel,
                before,
                regs,
                from,
                b,
            ),
{
    assert forall|a: EngineView, b: EngineView|
        #![trigger calms(a.link, b.link)]
        calms(a.link, b.link) && same_table(a.state.v, b.state.v) && b.tables == a.tables
            && in_chip(channel, before, regs, from, a) implies in_chip(
        channel,
        before,
        regs,
        from,
        b,
    ) by {
        assert(calm(a.link.sent, a.link)) by {
            reveal(calm);
        }
        assert(calm(a.link.sent, b.link));
        lemma_calm_rows(channel, before, regs, from, a.link, b.link);
    }
}

/// Setting the RX LO leaves the remembered table in the chip.
proof fn lemma_rx_lo_in_chip(
    channel: Channel,
    before: Map<u8, Row>,
    regs: Map<u16, u8>,
    from: int,
    e: EngineView,
    freq: HertzU64,
)
    requires
        0 <= from <= e.link.sent.len(),
        valid_tables(e.tables),
        in_chip(channel, before, regs, from, e),
        e.set_rfpll_rate(false, freq).err is None,
    ensures
        in_chip(channel, before, regs, from, e.set_rfpll_rate(false, freq).e),
        e.set_rfpll_rate(false, freq).e.tables == e.tables,
        e.state.v.clk.rates.rx_rfpll != freq || is_table_for(
            e.tables.gain_tables(),
            e.state.v.gain.current_table as int,
            e.state.v.gain.split_gt,
            freq.raw,
        ) ==> is_table_for(
            e.tables.gain_tables(),
            e.set_rfpll_rate(false, freq).e.state.v.gain.current_table as int,
            e.state.v.gain.split_gt,
            freq.raw,
        ),
{
    broadcast use {
        crate::kept::synth::leaves_program_rfpll,
        crate::kept::clocks::leaves_read_rfpll_scaler,
    };

    lemma_stays_in_chip(channel, before, regs, from);
    reveal(EngineView::set_rfpll_rate);
    reveal(EngineView::retune_rfpll);
    reveal(EngineView::load_gain_table);
    let parent = e.state.v.clk.rates.rx_ref;
    if e.state.v.clk.rates.rx_rfpll != freq {
        let programmed = e.program_rfpll(false, freq.raw, parent);
        assert(calms(e.link, programmed.e.link));
        let loaded = programmed.load_gain_table(freq.raw, GainTableDest::Both);
        lemma_first_cover(e.tables, e.state.v.gain.split_gt, freq.raw, 0);
        let band = e.tables.table_index(e.state.v.gain.split_gt, freq.raw) as usize;
        if e.state.v.gain.current_table != band {
            lemma_table_written(channel, before, regs, from, programmed.e, band);
            lemma_written_lna_stays(programmed.e, band);
        }
        assert(in_chip(channel, before, regs, from, loaded.e));
        let scaler = loaded.read_rfpll_scaler(false);
        assert(calms(loaded.e.link, scaler.e.link));
    }
}

/// After the RF setup the remembered gain table is the one in the chip, for both channels. It is
/// the one for the RX LO, if the LO was set or the one remembered before was.
pub proof fn law_rf_setup_brings_a_table(
    before: Map<u8, Row>,
    regs: Map<u16, u8>,
    e: EngineView,
    settings: Ad9361Settings,
    synth_ref: HertzU32,
    channel: Channel,
)
    requires
        valid_tables(e.tables),
        e.setup_rf(settings, synth_ref).err is None,
    ensures
        ({
            let end = e.setup_rf(settings, synth_ref).e;
            let sent = end.link.sent.subrange(
                e.link.sent.len() as int,
                end.link.sent.len() as int,
            );
            let freq = settings.rx_synth_freq.hz();
            &&& has_remembered_table(end, rows(channel, before, regs, sent))
            &&& e.state.v.clk.rates.rx_rfpll.raw != freq || is_table_for(
                e.tables.gain_tables(),
                e.state.v.gain.current_table as int,
                e.state.v.gain.split_gt,
                freq,
            ) ==> is_table_for(
                e.tables.gain_tables(),
                end.state.v.gain.current_table as int,
                e.state.v.gain.split_gt,
                freq,
            )
        }),
{
    broadcast use {
        crate::kept::clocks::leaves_set_clock_rate,
        crate::kept::synth::leaves_txrx_synth_cp_calib,
        crate::kept::synth::leaves_program_rfpll,
        crate::kept::synth::leaves_recalibrate_tx,
        crate::kept::clocks::leaves_read_rfpll_scaler,
        crate::kept::gain_control::leaves_write_gain_table,
        crate::kept::gain_control::leaves_load_mixer_gm_subtable,
        crate::kept::gain_control::leaves_gc_setup,
    };

    reveal(EngineView::setup_rf);
    let from = e.link.sent.len() as int;
    let table = e.state.v.gain.current_table;
    let clocks = e.set_clock_rate(Ad9361Clock::RxRef, synth_ref).set_clock_rate(
        Ad9361Clock::TxRef,
        synth_ref,
    );
    let pumps = clocks.txrx_synth_cp_calib(synth_ref, false).txrx_synth_cp_calib(synth_ref, true);
    assert(calm(e.link.sent, e.link)) by {
        reveal(calm);
    }
    assert(calm(e.link.sent, pumps.e.link));
    lemma_calm_rows(channel, before, regs, from, e.link, pumps.e.link);
    lemma_table_written(channel, before, regs, from, pumps.e, table);
    lemma_written_lna_stays(pumps.e, table);
    let written = pumps.write_gain_table(table, GainTableDest::Both);
    assert(in_chip(channel, before, regs, from, written.e));
    assert(written.e.state.v.gain.split_gt == e.state.v.gain.split_gt);
    assert(written.e.state.v.gain.current_table == table);
    assert(written.e.state.v.clk.rates.rx_rfpll == e.state.v.clk.rates.rx_rfpll);
    assert(written.e.tables == e.tables);
    let rx = written.set_rfpll_rate(false, HertzU64 { raw: settings.rx_synth_freq.hz() });
    lemma_rx_lo_in_chip(
        channel,
        before,
        regs,
        from,
        written.e,
        HertzU64 { raw: settings.rx_synth_freq.hz() },
    );
    lemma_stays_in_chip(channel, before, regs, from);
    let tx = rx.set_rfpll_rate(true, HertzU64 { raw: settings.tx_synth_freq.hz() });
    assert(calms(rx.e.link, tx.e.link) && same_table(rx.e.state.v, tx.e.state.v) && tx.e.tables
        == rx.e.tables) by {
        reveal(EngineView::set_rfpll_rate);
        reveal(EngineView::retune_rfpll);
    }
    let gm = tx.load_mixer_gm_subtable();
    let end = gm.gc_setup(settings.gain_ctrl);
    assert(calms(tx.e.link, gm.e.link) && calms(gm.e.link, end.e.link));
    assert(in_chip(channel, before, regs, from, end.e));
}

} // verus!
