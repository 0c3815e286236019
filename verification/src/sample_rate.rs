//! What setting the sample rate leaves in the cached rates.
use vstd::prelude::*;

use crate::clock_chain::{
    follows_row, law_clock_chain, lemma_divider_sizes, PathClocks, CLK_DIVIDERS,
};
use crate::clocks::{
    distance, law_closest_ratio, parent_of, rate_of, with_rate, Ad9361Clock, Ad9361ClockRates,
    ClockMulDiv,
};
use crate::engine::{law_run_keeps_state, EngineView, MAX_POLLS};
use crate::link::{exchange, extends, law_exchange_extends, wait, Op, Request, Trace};
use crate::math::clamped;
use crate::on_chip::{
    accepts, is_bypassed, law_scaler_is_read_back, lemma_plain_from, lemma_scaler_extends,
};
use crate::regfile::{
    after, effect, law_program_puts, lemma_exchange_plain, lemma_extends_on, lemma_flow_extends,
    lemma_plain_prefix, plain,
};
use crate::registers::{
    BBPLL_LOCK, CH1_OVERFLOW, FRACT_BB_FREQ_WORD1, FRACT_BB_FREQ_WORD2, FRACT_BB_FREQ_WORD3,
    INTEGER_BB_FREQ_WORD,
};
use crate::synth::{
    bbpll_program, bbpll_words_for, law_bbpll_makes_the_rate, law_bbpll_words_read_back,
    law_words_reproduce_the_rate, rounded_bbpll,
};
use crate::units::HertzU32;
use crate::{BBPLL_MODULUS, MAX_BBPLL_FREQ, MIN_BBPLL_FREQ};

verus! {

/// Dividing two rates doesn't take them further apart.
proof fn lemma_division_keeps_near(a: int, b: int, div: int)
    requires
        0 <= a,
        0 <= b,
        div >= 1,
    ensures
        distance(a / div, b / div) <= distance(a, b),
{
    assert(distance(a / div, b / div) <= distance(a, b)) by {
        vstd::arithmetic::div_mod::lemma_fundamental_div_mod(a, div);
        vstd::arithmetic::div_mod::lemma_fundamental_div_mod(b, div);
        let (p, q) = (a / div, b / div);
        let (r, s) = (a % div, b % div);
        assert(0 <= r < div && 0 <= s < div);
        assert(p - q <= (if a >= b { a - b } else { b - a }) && q - p <= (if a >= b {
            a - b
        } else {
            b - a
        })) by (nonlinear_arith)
            requires
                a == div * p + r,
                b == div * q + s,
                0 <= r < div,
                0 <= s < div,
                div >= 1,
        ;
    }
}

proof fn lemma_clock_rate_extends(e: EngineView, clock: Ad9361Clock, rate: HertzU32)
    ensures
        extends(e.link, e.set_clock_rate(clock, rate).e.link),
        e.set_clock_rate(clock, rate).e.state.v.fir == e.state.v.fir,
{
    reveal(EngineView::set_clock_rate);
    let parent = parent_of(e.state.v.ref_clk_in, &e.state.v.clk.rates, clock);
    if let Some(ratio) = ClockMulDiv::closest_ratio(rate.raw, parent.raw) {
        lemma_scaler_extends(e, clock, ratio);
        let set = e.set_clock_scaler(clock, ratio);
        lemma_extends_on(e.link, set.e.link, set.e.read_clock_scaler(clock).e.link);
    }
}

/// A clock that is set to a parent's rate divided down is as near to that as the cached rate of the
/// parent is to the one it should have.
proof fn lemma_clock_rate_near(
    regs: Map<u16, u8>,
    e: EngineView,
    clock: Ad9361Clock,
    rate: HertzU32,
    wanted: u32,
    div: u32,
)
    requires
        e.set_clock_rate(clock, rate).err is None,
        plain(regs, e.set_clock_rate(clock, rate).e.link, e.link.sent.len() as int),
        div >= 1,
        rate.raw == wanted / div,
        is_bypassed(clock, e.state.v.fir) ==> div == 1,
    ensures
        ({
            let before = e.state.v.clk.rates;
            let parent = parent_of(e.state.v.ref_clk_in, &before, clock);
            let now = e.set_clock_rate(clock, rate).e.state.v.clk.rates;
            &&& now == with_rate(before, clock, rate_of(&now, clock))
            &&& distance(rate_of(&now, clock).raw as int, rate.raw as int) <= distance(
                parent.raw as int,
                wanted as int,
            )
        }),
{
    reveal(EngineView::set_clock_rate);
    let before = e.state.v.clk.rates;
    if rate_of(&before, clock) != rate {
        let parent = parent_of(e.state.v.ref_clk_in, &before, clock);
        let ratio = ClockMulDiv::closest_ratio(rate.raw, parent.raw)->0;
        lemma_scaler_extends(e, clock, ratio);
        assert(accepts(clock, ratio, e.state.v.fir)) by {
            reveal(EngineView::set_clock_scaler);
        }
        law_scaler_is_read_back(regs, e, clock, ratio);
        let other = ClockMulDiv { mult: 1, div };
        assert(parent.raw * other.mult == parent.raw) by (nonlinear_arith)
            requires
                other.mult == 1,
        ;
        assert(other.exact_rate(parent.raw) == parent.raw as int / div as int);
        lemma_division_keeps_near(parent.raw as int, wanted as int, div as int);
        vstd::arithmetic::div_mod::lemma_div_is_ordered_by_denominator(
            parent.raw as int,
            1,
            div as int,
        );
        law_closest_ratio(rate.raw, parent.raw, other);
    }
}

/// The same for a step within a conversation that ends at `end`.
proof fn lemma_step_near(
    regs: Map<u16, u8>,
    e: EngineView,
    from: int,
    end: Trace,
    clock: Ad9361Clock,
    rate: HertzU32,
    wanted: u32,
    div: u32,
)
    requires
        0 <= from <= e.link.sent.len(),
        plain(regs, end, from),
        extends(e.set_clock_rate(clock, rate).e.link, end),
        e.set_clock_rate(clock, rate).err is None,
        div >= 1,
        rate.raw == wanted / div,
        is_bypassed(clock, e.state.v.fir) ==> div == 1,
    ensures
        ({
            let before = e.state.v.clk.rates;
            let parent = parent_of(e.state.v.ref_clk_in, &before, clock);
            let now = e.set_clock_rate(clock, rate).e.state.v.clk.rates;
            &&& now == with_rate(before, clock, rate_of(&now, clock))
            &&& distance(rate_of(&now, clock).raw as int, rate.raw as int) <= distance(
                parent.raw as int,
                wanted as int,
            )
        }),
{
    let next = e.set_clock_rate(clock, rate).e.link;
    let mid = e.link.sent.len() as int;
    lemma_clock_rate_extends(e, clock, rate);
    lemma_plain_prefix(regs, next, end, from);
    lemma_plain_from(regs, next, from, mid);
    lemma_clock_rate_near(
        effect(regs, next.sent.subrange(from, mid)),
        e,
        clock,
        rate,
        wanted,
        div,
    );
}

/// A rate that divides another one whole is that one divided by the quotient.
proof fn lemma_whole_divider(rate: u32, part: u32)
    requires
        part > 0,
        rate > 0,
        rate % part == 0,
    ensures
        rate / part >= 1,
        rate / (rate / part) == part,
{
    let k = rate as int / part as int;
    vstd::arithmetic::div_mod::lemma_fundamental_div_mod(rate as int, part as int);
    assert(rate == part * k);
    assert(k >= 1) by (nonlinear_arith)
        requires
            rate == part * k,
            rate > 0,
            part > 0,
    ;
    vstd::arithmetic::mul::lemma_mul_is_commutative(part as int, k);
    vstd::arithmetic::div_mod::lemma_div_multiples_vanish(part as int, k);
}

/// Both paths are as near to their rates as the BBPLL is to its rate.
proof fn lemma_paths_near(
    regs: Map<u16, u8>,
    e: EngineView,
    from: int,
    rx: PathClocks,
    tx: PathClocks,
    rx_row: int,
    tx_row: int,
)
    requires
        0 <= from <= e.link.sent.len(),
        rx.converter.raw > 0,
        rx.bbpll.raw % rx.converter.raw == 0,
        rx.bbpll.raw > 0,
        tx.converter == rx.converter || tx.converter.raw == rx.converter.raw / 2,
        follows_row(rx, rx_row, e.state.v.fir.rx_decimation()),
        follows_row(tx, tx_row, e.state.v.fir.tx_interpolation()),
        e.set_path_rates(rx, tx).err is None,
        plain(regs, e.set_path_rates(rx, tx).e.link, from),
    ensures
        ({
            let before = e.state.v.clk.rates;
            let now = e.set_path_rates(rx, tx).e.state.v.clk.rates;
            let off = distance(before.bbpll.raw as int, rx.bbpll.raw as int);
            &&& now.bbpll == before.bbpll
            &&& now.bb_ref == before.bb_ref
            &&& distance(now.rx_sampl.raw as int, rx.sample.raw as int) <= off
            &&& distance(now.tx_sampl.raw as int, tx.sample.raw as int) <= off
        }),
{
    reveal(EngineView::set_path_rates);
    let end = e.set_path_rates(rx, tx).e.link;
    let rx_fir = e.state.v.fir.rx_decimation();
    let tx_fir = e.state.v.fir.tx_interpolation();
    let k = rx.bbpll.raw / rx.converter.raw;
    let dac_div = if tx.converter == rx.converter {
        1u32
    } else {
        2
    };
    lemma_divider_sizes(rx_row);
    lemma_divider_sizes(tx_row);
    lemma_whole_divider(rx.bbpll.raw, rx.converter.raw);
    let adc = e.set_clock_rate(Ad9361Clock::Adc, rx.converter);
    let dac = adc.set_clock_rate(Ad9361Clock::Dac, tx.converter);
    let r2 = dac.set_clock_rate(Ad9361Clock::R2, rx.hb3);
    let t2 = r2.set_clock_rate(Ad9361Clock::T2, tx.hb3);
    let r1 = t2.set_clock_rate(Ad9361Clock::R1, rx.hb2);
    let t1 = r1.set_clock_rate(Ad9361Clock::T1, tx.hb2);
    let rf = t1.set_clock_rate(Ad9361Clock::ClkRf, rx.hb1);
    let tf = rf.set_clock_rate(Ad9361Clock::ClkTf, tx.hb1);
    let rxs = tf.set_clock_rate(Ad9361Clock::RxSampl, rx.sample);
    let txs = rxs.set_clock_rate(Ad9361Clock::TxSampl, tx.sample);
    lemma_clock_rate_extends(e, Ad9361Clock::Adc, rx.converter);
    lemma_clock_rate_extends(adc.e, Ad9361Clock::Dac, tx.converter);
    lemma_clock_rate_extends(dac.e, Ad9361Clock::R2, rx.hb3);
    lemma_clock_rate_extends(r2.e, Ad9361Clock::T2, tx.hb3);
    lemma_clock_rate_extends(t2.e, Ad9361Clock::R1, rx.hb2);
    lemma_clock_rate_extends(r1.e, Ad9361Clock::T1, tx.hb2);
    lemma_clock_rate_extends(t1.e, Ad9361Clock::ClkRf, rx.hb1);
    lemma_clock_rate_extends(rf.e, Ad9361Clock::ClkTf, tx.hb1);
    lemma_clock_rate_extends(tf.e, Ad9361Clock::RxSampl, rx.sample);
    lemma_clock_rate_extends(rxs.e, Ad9361Clock::TxSampl, tx.sample);
    assert(extends(txs.e.link, end));
    lemma_extends_on(rxs.e.link, txs.e.link, end);
    lemma_extends_on(tf.e.link, rxs.e.link, end);
    lemma_extends_on(rf.e.link, tf.e.link, end);
    lemma_extends_on(t1.e.link, rf.e.link, end);
    lemma_extends_on(r1.e.link, t1.e.link, end);
    lemma_extends_on(t2.e.link, r1.e.link, end);
    lemma_extends_on(r2.e.link, t2.e.link, end);
    lemma_extends_on(dac.e.link, r2.e.link, end);
    lemma_extends_on(adc.e.link, dac.e.link, end);
    lemma_step_near(regs, e, from, end, Ad9361Clock::Adc, rx.converter, rx.bbpll.raw, k);
    lemma_step_near(
        regs,
        adc.e,
        from,
        end,
        Ad9361Clock::Dac,
        tx.converter,
        rx.converter.raw,
        dac_div,
    );
    lemma_extends_on(e.link, adc.e.link, dac.e.link);
    lemma_step_near(
        regs,
        dac.e,
        from,
        end,
        Ad9361Clock::R2,
        rx.hb3,
        rx.converter.raw,
        CLK_DIVIDERS[rx_row][1] as u32,
    );
    lemma_extends_on(e.link, dac.e.link, r2.e.link);
    lemma_step_near(
        regs,
        r2.e,
        from,
        end,
        Ad9361Clock::T2,
        tx.hb3,
        tx.converter.raw,
        CLK_DIVIDERS[tx_row][1] as u32,
    );
    lemma_extends_on(e.link, r2.e.link, t2.e.link);
    lemma_step_near(
        regs,
        t2.e,
        from,
        end,
        Ad9361Clock::R1,
        rx.hb2,
        rx.hb3.raw,
        CLK_DIVIDERS[rx_row][2] as u32,
    );
    lemma_extends_on(e.link, t2.e.link, r1.e.link);
    lemma_step_near(
        regs,
        r1.e,
        from,
        end,
        Ad9361Clock::T1,
        tx.hb2,
        tx.hb3.raw,
        CLK_DIVIDERS[tx_row][2] as u32,
    );
    lemma_extends_on(e.link, r1.e.link, t1.e.link);
    lemma_step_near(
        regs,
        t1.e,
        from,
        end,
        Ad9361Clock::ClkRf,
        rx.hb1,
        rx.hb2.raw,
        CLK_DIVIDERS[rx_row][3] as u32,
    );
    lemma_extends_on(e.link, t1.e.link, rf.e.link);
    lemma_step_near(
        regs,
        rf.e,
        from,
        end,
        Ad9361Clock::ClkTf,
        tx.hb1,
        tx.hb2.raw,
        CLK_DIVIDERS[tx_row][3] as u32,
    );
    lemma_extends_on(e.link, rf.e.link, tf.e.link);
    lemma_step_near(regs, tf.e, from, end, Ad9361Clock::RxSampl, rx.sample, rx.hb1.raw, rx_fir);
    lemma_extends_on(e.link, tf.e.link, rxs.e.link);
    lemma_step_near(regs, rxs.e, from, end, Ad9361Clock::TxSampl, tx.sample, tx.hb1.raw, tx_fir);
}

/// Waiting for a register changes none.
proof fn lemma_poll_spares(
    regs: Map<u16, u8>,
    e: EngineView,
    from: int,
    addr: u16,
    mask: u8,
    value: u8,
    period_us: u64,
    polls: nat,
)
    requires
        0 <= from <= e.link.sent.len(),
    ensures
        ({
            let next = e.poll(addr, mask, value, period_us, polls);
            &&& extends(e.link, next.e.link)
            &&& after(regs, from, next.e) == after(regs, from, e)
            &&& next.e.state == e.state
        }),
    decreases polls,
{
    reveal_with_fuel(EngineView::poll, 2);
    if polls > 0 {
        let read = Request::Read { addr, len: 1 };
        let pause = Request::Wait { micros: period_us };
        reveal(EngineView::read);
        reveal(EngineView::exchange);
        reveal(EngineView::run);
        reveal_with_fuel(crate::link::run, 2);
        reveal(crate::link::step);
        let one = e.read(addr);
        let two = one.e.run([wait(period_us)]@);
        assert([wait(period_us)]@.drop_last() =~= Seq::empty());
        law_exchange_extends(e.link, read);
        law_exchange_extends(one.e.link, pause);
        lemma_exchange_changes_nothing(regs, e.link, from, read);
        lemma_exchange_changes_nothing(regs, one.e.link, from, pause);
        lemma_poll_spares(regs, two.e, from, addr, mask, value, period_us, (polls - 1) as nat);
        lemma_extends_on(e.link, one.e.link, two.e.link);
        lemma_extends_on(
            e.link,
            two.e.link,
            two.e.poll(addr, mask, value, period_us, (polls - 1) as nat).e.link,
        );
    }
}

/// A request that writes nothing leaves the registers.
proof fn lemma_exchange_changes_nothing(regs: Map<u16, u8>, t: Trace, from: int, request: Request)
    requires
        0 <= from <= t.sent.len(),
        !(request is Write),
    ensures
        ({
            let u = exchange(t, request).0;
            effect(regs, u.sent.subrange(from, u.sent.len() as int)) == effect(
                regs,
                t.sent.subrange(from, t.sent.len() as int),
            )
        }),
{
    reveal(exchange);
    let n = t.sent.len() as int;
    let more = t.sent.push(request);
    assert(more.subrange(from, n + 1).drop_last() =~= t.sent.subrange(from, n));
    assert(more.subrange(from, n + 1).last() == request);
}

/// How far off the BBPLL can be of the rate it is set to, in Hz. The rate is rounded to one that
/// its words can make, and that one's words are rounded again.
pub open spec fn bbpll_slack(bb_ref: u32) -> int {
    2 * (bb_ref as int / (2 * BBPLL_MODULUS) + 1)
}

/// A BBPLL that was set on a plain register file is as near to the rate as its words allow. No
/// other cached rate changes.
proof fn lemma_bbpll_near(regs: Map<u16, u8>, e: EngineView, rate: HertzU32)
    requires
        MIN_BBPLL_FREQ <= rate.raw <= MAX_BBPLL_FREQ,
        e.set_bbpll_rate(rate).err is None,
        plain(regs, e.set_bbpll_rate(rate).e.link, e.link.sent.len() as int),
    ensures
        ({
            let before = e.state.v.clk.rates;
            let now = e.set_bbpll_rate(rate).e.state.v.clk.rates;
            &&& now == Ad9361ClockRates { bbpll: now.bbpll, ..before }
            &&& distance(now.bbpll.raw as int, rate.raw as int) <= bbpll_slack(before.bb_ref.raw)
        }),
{
    reveal(EngineView::set_bbpll_rate);
    let parent = e.state.v.clk.rates.bb_ref;
    if e.state.v.clk.rates.bbpll != rate {
        reveal(EngineView::program_bbpll);
        reveal(EngineView::read_bbpll_clock_scaler);
        let from = e.link.sent.len() as int;
        let target = rounded_bbpll(rate.raw, parent.raw);
        let words = bbpll_words_for(target.raw, parent.raw);
        law_bbpll_makes_the_rate(rate.raw, parent.raw);
        law_words_reproduce_the_rate(rate.raw as int, parent.raw as int, BBPLL_MODULUS as int);
        law_bbpll_makes_the_rate(target.raw, parent.raw);
        law_words_reproduce_the_rate(target.raw as int, parent.raw as int, BBPLL_MODULUS as int);
        let ops = bbpll_program(target, parent);
        let run = e.run(ops);
        law_run_keeps_state(e, ops);
        lemma_flow_extends(e.start(), ops);
        lemma_poll_spares(
            regs,
            run.e,
            from,
            CH1_OVERFLOW,
            BBPLL_LOCK,
            BBPLL_LOCK,
            120,
            MAX_POLLS as nat,
        );
        let locked = run.wait_until(CH1_OVERFLOW, BBPLL_LOCK, BBPLL_LOCK, 120);
        assert(locked == e.program_bbpll(target, parent));
        assert(run.err is None);
        reveal(EngineView::run);
        let (integer, fract) = (words.integer as u8, words.fract);
        law_program_puts(regs, e.link, from, ops, 4, INTEGER_BB_FREQ_WORD, integer);
        law_program_puts(regs, e.link, from, ops, 5, FRACT_BB_FREQ_WORD3, fract as u8);
        law_program_puts(regs, e.link, from, ops, 6, FRACT_BB_FREQ_WORD2, (fract >> 8) as u8);
        law_program_puts(regs, e.link, from, ops, 7, FRACT_BB_FREQ_WORD1, (fract >> 16) as u8);
        reveal(EngineView::exchange);
        let read = Request::Read { addr: INTEGER_BB_FREQ_WORD, len: 4 };
        lemma_exchange_plain(regs, locked.e.link, from, read);
        let now = after(regs, from, locked.e);
        assert(Seq::new(4, |i: int| now[(INTEGER_BB_FREQ_WORD - i) as u16]) =~= seq![
            integer,
            fract as u8,
            (fract >> 8) as u8,
            (fract >> 16) as u8,
        ]);
        law_bbpll_words_read_back(words);
    }
}

proof fn lemma_path_rates_extend(e: EngineView, rx: PathClocks, tx: PathClocks)
    ensures
        extends(e.link, e.set_path_rates(rx, tx).e.link),
        e.set_path_rates(rx, tx).e.state.v.fir == e.state.v.fir,
{
    reveal(EngineView::set_path_rates);
    assert forall|at: EngineView, clock: Ad9361Clock, rate: HertzU32|
        #![trigger at.set_clock_rate(clock, rate)]
        {
            let next = at.set_clock_rate(clock, rate).e;
            extends(at.link, next.link) && next.state.v.fir == at.state.v.fir
        } by {
        lemma_clock_rate_extends(at, clock, rate);
    }
    assert forall|t: Trace, u: Trace, v: Trace|
        #![trigger extends(t, u), extends(u, v)]
        extends(t, u) && extends(u, v) implies extends(t, v) by {
        lemma_extends_on(t, u, v);
    }
}

proof fn lemma_bbpll_extends(e: EngineView, rate: HertzU32)
    ensures
        extends(e.link, e.set_bbpll_rate(rate).e.link),
        e.set_bbpll_rate(rate).e.state.v.fir == e.state.v.fir,
{
    reveal(EngineView::set_bbpll_rate);
    reveal(EngineView::program_bbpll);
    reveal(EngineView::read_bbpll_clock_scaler);
    reveal(EngineView::exchange);
    let parent = e.state.v.clk.rates.bb_ref;
    let ops = bbpll_program(
        rounded_bbpll(clamped(rate.raw, MIN_BBPLL_FREQ, MAX_BBPLL_FREQ), parent.raw),
        parent,
    );
    let run = e.run(ops);
    law_run_keeps_state(e, ops);
    lemma_flow_extends(e.start(), ops);
    lemma_poll_spares(
        Map::empty(),
        run.e,
        0,
        CH1_OVERFLOW,
        BBPLL_LOCK,
        BBPLL_LOCK,
        120,
        MAX_POLLS as nat,
    );
    let locked = run.wait_until(CH1_OVERFLOW, BBPLL_LOCK, BBPLL_LOCK, 120);
    let read = Request::Read { addr: INTEGER_BB_FREQ_WORD, len: 4 };
    law_exchange_extends(locked.e.link, read);
    lemma_extends_on(e.link, run.e.link, locked.e.link);
    lemma_extends_on(e.link, locked.e.link, exchange(locked.e.link, read).0);
}

/// Setting the sample rate leaves the cached sample rates at what was asked for, as near as the
/// BBPLL is to the rate that they come off: exactly there where it is, and a few hertz off where
/// its words can't make that rate. The registers that hold the clocks have to keep what is written
/// to them while the clocks are set.
pub proof fn law_sample_rate_is_set(regs: Map<u16, u8>, e: EngineView, rate: HertzU32)
    requires
        e.set_trx_clock_chain_freq(rate).err is None,
        e.chain_for(rate, e.state.v.clk.rate_governor) matches Some((rx, tx)) && plain(
            regs,
            e.apply_trx_clock_chain(rx, tx).e.link,
            e.link.sent.len() as int,
        ),
    ensures
        ({
            let (rx, tx) = e.chain_for(rate, e.state.v.clk.rate_governor)->0;
            let now = e.set_trx_clock_chain_freq(rate).e.state.v.clk.rates;
            let off = distance(now.bbpll.raw as int, rx.bbpll.raw as int);
            let doubled = e.state.v.mode.pp_conf3.fdd_rx_rate_2tx_rate;
            &&& off <= bbpll_slack(now.bb_ref.raw)
            &&& distance(now.tx_sampl.raw as int, rate.raw as int) <= off
            &&& distance(
                now.rx_sampl.raw as int,
                rate.raw * (if doubled {
                    2int
                } else {
                    1
                }),
            ) <= off
        }),
{
    broadcast use {crate::frame::spares_dig_tune, crate::frame::spares_bb_clk_change_handler};

    reveal(EngineView::set_trx_clock_chain_freq);
    reveal(EngineView::set_trx_clock_chain);
    reveal(EngineView::apply_trx_clock_chain);
    reveal(EngineView::refresh_unit_firs);
    let from = e.link.sent.len() as int;
    let v = e.state.v;
    let (rx, tx) = e.chain_for(rate, v.clk.rate_governor)->0;
    let (rx_fir, tx_fir) = (v.fir.rx_decimation(), v.fir.tx_interpolation());
    law_clock_chain(
        rate.raw,
        v.clk.rate_governor,
        rx_fir,
        tx_fir,
        v.mode.pp_conf3.fdd_rx_rate_2tx_rate,
    );
    let rx_row = choose|row: int| #[trigger] follows_row(rx, row, rx_fir);
    let tx_row = choose|row: int| #[trigger] follows_row(tx, row, tx_fir);
    let pll = e.set_bbpll_rate(rx.bbpll);
    let paths = pll.set_path_rates(rx, tx);
    let end = e.apply_trx_clock_chain(rx, tx).e.link;
    assert forall|at: EngineView, ops: Seq<Op>|
        #![trigger at.run(ops)]
        at.run(ops).e.state == at.state && extends(at.link, at.run(ops).e.link) by {
        law_run_keeps_state(at, ops);
        lemma_flow_extends(at.start(), ops);
    }
    assert forall|t: Trace, u: Trace, w: Trace|
        #![trigger extends(t, u), extends(u, w)]
        extends(t, u) && extends(u, w) implies extends(t, w) by {
        lemma_extends_on(t, u, w);
    }
    lemma_bbpll_extends(e, rx.bbpll);
    lemma_path_rates_extend(pll.e, rx, tx);
    assert(extends(paths.e.link, end));
    lemma_plain_prefix(regs, paths.e.link, end, from);
    lemma_plain_prefix(regs, pll.e.link, paths.e.link, from);
    lemma_bbpll_near(regs, e, rx.bbpll);
    lemma_paths_near(regs, pll.e, from, rx, tx, rx_row, tx_row);
}

} // verus!
