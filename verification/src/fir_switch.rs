//! What enabling and bypassing a FIR sets in the chip.
use vstd::prelude::*;

use crate::chip_settings::{
    claim, lemma_claim, lemma_claimed, lemma_low_nibble, lemma_run_now, lemma_short_programs,
    lemma_start,
};
use crate::clock_chain::{law_clock_chain, PathClocks};
use crate::clocks::{
    distance, law_closest_ratio, parent_of, rate_of, scaler_field, with_rate, Ad9361Clock,
    ClockMulDiv,
};
use crate::engine::EngineView;
use crate::fir::{lowest_rate, with_bypass, FirFactor};
use crate::kept::{is_lasting, keeps, now, ok, Claim, Part};
use crate::link::{merged, update, Trace};
use crate::math::flag;
use crate::on_chip::lemma_scaler_extends;
use crate::regfile::lemma_flow_extends;
use crate::registers::{
    RX_ENABLE_FILTER_CONTROL, RX_FIR_ENABLE_DECIMATION, TX_ENABLE_FILTER_CONTROL,
    TX_FIR_ENABLE_INTERPOLATION,
};
use crate::state::{FirState, LoadedFir};
use crate::units::HertzU32;

verus! {

/// The enable field for a rate factor.
pub open spec fn factor_number(factor: int) -> int {
    if factor == 4 {
        3
    } else {
        factor
    }
}

/// The rate factor of a FIR.
pub open spec fn factor_of(factor: FirFactor) -> int {
    match factor {
        FirFactor::X1 => 1,
        FirFactor::X2 => 2,
        FirFactor::X4 => 4,
    }
}

/// The enable field of the RX FIR.
pub open spec fn rx_fir_field(regs: Map<u16, u8>) -> int {
    regs[0x003] as int % 4
}

/// The enable field of the TX FIR.
pub open spec fn tx_fir_field(regs: Map<u16, u8>) -> int {
    regs[0x002] as int % 4
}

/// The sample clock that goes with a FIR, and where its field is.
spec fn sample_clock(tx: bool) -> (Ad9361Clock, Part, u16) {
    if tx {
        (Ad9361Clock::TxSampl, Part::TxFir, 0x002)
    } else {
        (Ad9361Clock::RxSampl, Part::RxFir, 0x003)
    }
}

spec fn is_off(fir: FirState, tx: bool) -> bool {
    if tx {
        fir.tx_bypassed()
    } else {
        fir.rx_bypassed()
    }
}

spec fn fir_claim(regs: Map<u16, u8>, from: int, tx: bool, field: int) -> Claim {
    claim(regs, from, sample_clock(tx).1, sample_clock(tx).2, field as u8)
}

proof fn lemma_field_bits(old: u8, value: u8)
    ensures
        value <= 3 ==> merged(old, 0x03, value) & 0x03 == value,
{
    assert(value <= 3 ==> ((old & !0x03u8) | (value & 0x03)) & 0x03 == value) by (bit_vector);
}

/// Setting a clock changes its own cached rate only.
pub(crate) proof fn lemma_one_rate(e: EngineView, clock: Ad9361Clock, rate: HertzU32)
    ensures
        ({
            let before = e.state.v.clk.rates;
            let next = e.set_clock_rate(clock, rate).e.state.v.clk.rates;
            next == with_rate(before, clock, rate_of(&next, clock))
        }),
        e.set_clock_rate(clock, rate).e.state.v.fir == e.state.v.fir,
        e.set_clock_rate(clock, rate).e.state.v.ref_clk_in == e.state.v.ref_clk_in,
{
    reveal(EngineView::set_clock_rate);
    let parent = parent_of(e.state.v.ref_clk_in, &e.state.v.clk.rates, clock);
    if let Some(ratio) = ClockMulDiv::closest_ratio(rate.raw, parent.raw) {
        lemma_scaler_extends(e, clock, ratio);
    }
}

/// Setting the sample clock of a FIR that is on sets its field to a factor.
proof fn lemma_sample_clock_set(
    regs: Map<u16, u8>,
    from: int,
    e: EngineView,
    tx: bool,
    rate: HertzU32,
)
    requires
        0 <= from <= e.link.sent.len(),
        !is_off(e.state.v.fir, tx),
        rate_of(&e.state.v.clk.rates, sample_clock(tx).0) != rate,
        e.set_clock_rate(sample_clock(tx).0, rate).err is None,
    ensures
        ({
            let clock = sample_clock(tx).0;
            let parent = parent_of(e.state.v.ref_clk_in, &e.state.v.clk.rates, clock).raw;
            &&& rate.raw > 0 && parent > 0
            &&& ClockMulDiv::closest_ratio(rate.raw, parent) matches Some(ratio) && ratio.mult == 1
                && (ratio.div == 1 || ratio.div == 2 || ratio.div == 4) && ok(
                fir_claim(regs, from, tx, factor_number(ratio.div as int)),
                e.set_clock_rate(clock, rate).e.link,
            )
        }),
{
    broadcast use crate::kept::clocks::leaves_read_clock_scaler;

    reveal(EngineView::set_clock_rate);
    reveal(EngineView::set_clock_scaler);
    let (clock, part, addr) = sample_clock(tx);
    let parent = parent_of(e.state.v.ref_clk_in, &e.state.v.clk.rates, clock).raw;
    let ratio = ClockMulDiv::closest_ratio(rate.raw, parent)->0;
    let field = scaler_field(clock, ratio, &e.state.v.fir)->0;
    let op = update(addr, 0x03, field);
    let set = e.run([op]@);
    lemma_flow_extends(e.start(), [op]@);
    if keeps(regs, set.e.link, from) {
        lemma_run_now(regs, e, from, [op]@);
        lemma_short_programs(now(regs, from, e.link), op, op);
        lemma_field_bits(now(regs, from, e.link)[addr], field);
        assert(is_lasting(addr));
    }
    lemma_claim(fir_claim(regs, from, tx, field as int), set.e.link);
}

/// The chip's clocks are set in turn, and the sample clocks of FIRs that are on set their fields.
proof fn lemma_paths_set(
    regs: Map<u16, u8>,
    from: int,
    e: EngineView,
    rx: PathClocks,
    tx: PathClocks,
)
    requires
        0 <= from <= e.link.sent.len(),
        e.set_path_rates(rx, tx).err is None,
    ensures
        ({
            let end = e.set_path_rates(rx, tx).e;
            let rates = end.state.v.clk.rates;
            &&& from <= end.link.sent.len()
            &&& end.state.v.fir == e.state.v.fir
            &&& !e.state.v.fir.rx_bypassed() && e.state.v.clk.rates.rx_sampl != rx.sample ==> set_to(
                regs,
                from,
                end.link,
                false,
                rx.sample.raw,
                rates.clkrf.raw,
            )
            &&& !e.state.v.fir.tx_bypassed() && e.state.v.clk.rates.tx_sampl != tx.sample ==> set_to(
                regs,
                from,
                end.link,
                true,
                tx.sample.raw,
                rates.clktf.raw,
            )
        }),
{
    broadcast use crate::kept::clocks::leaves_set_clock_rate;

    reveal(EngineView::set_path_rates);
    let any = claim(regs, from, Part::Modes, 0x0FA, now(regs, from, e.link)[0x0FA] & 0x0F);
    lemma_claim(any, e.link);
    let adc = e.set_clock_rate(Ad9361Clock::Adc, rx.converter);
    let dac = adc.set_clock_rate(Ad9361Clock::Dac, tx.converter);
    let r2 = dac.set_clock_rate(Ad9361Clock::R2, rx.hb3);
    let t2 = r2.set_clock_rate(Ad9361Clock::T2, tx.hb3);
    let r1 = t2.set_clock_rate(Ad9361Clock::R1, rx.hb2);
    let t1 = r1.set_clock_rate(Ad9361Clock::T1, tx.hb2);
    let rf = t1.set_clock_rate(Ad9361Clock::ClkRf, rx.hb1);
    let tf = rf.set_clock_rate(Ad9361Clock::ClkTf, tx.hb1);
    let rs = tf.set_clock_rate(Ad9361Clock::RxSampl, rx.sample);
    let ts = rs.set_clock_rate(Ad9361Clock::TxSampl, tx.sample);
    lemma_one_rate(e, Ad9361Clock::Adc, rx.converter);
    lemma_one_rate(adc.e, Ad9361Clock::Dac, tx.converter);
    lemma_one_rate(dac.e, Ad9361Clock::R2, rx.hb3);
    lemma_one_rate(r2.e, Ad9361Clock::T2, tx.hb3);
    lemma_one_rate(t2.e, Ad9361Clock::R1, rx.hb2);
    lemma_one_rate(r1.e, Ad9361Clock::T1, tx.hb2);
    lemma_one_rate(t1.e, Ad9361Clock::ClkRf, rx.hb1);
    lemma_one_rate(rf.e, Ad9361Clock::ClkTf, tx.hb1);
    lemma_one_rate(tf.e, Ad9361Clock::RxSampl, rx.sample);
    lemma_one_rate(rs.e, Ad9361Clock::TxSampl, tx.sample);
    assert(ok(any, tf.e.link) && ok(any, rs.e.link) && ok(any, ts.e.link));
    assert(from <= tf.e.link.sent.len() && from <= rs.e.link.sent.len() && from
        <= ts.e.link.sent.len()) by {
        reveal(ok);
    }
    if !e.state.v.fir.rx_bypassed() && e.state.v.clk.rates.rx_sampl != rx.sample {
        lemma_sample_clock_set(regs, from, tf.e, false, rx.sample);
    }
    if !e.state.v.fir.tx_bypassed() && e.state.v.clk.rates.tx_sampl != tx.sample {
        lemma_sample_clock_set(regs, from, rs.e, true, tx.sample);
    }
}

/// The field of a FIR is claimed to hold the factor that brings the clock before it closest to its
/// sample rate.
spec fn set_to(
    regs: Map<u16, u8>,
    from: int,
    t: Trace,
    tx: bool,
    sample: u32,
    clock: u32,
) -> bool {
    &&& sample > 0 && clock > 0
    &&& ClockMulDiv::closest_ratio(sample, clock) matches Some(ratio) && ratio.mult == 1 && (
    ratio.div == 1 || ratio.div == 2 || ratio.div == 4) && ok(
        fir_claim(regs, from, tx, factor_number(ratio.div as int)),
        t,
    )
}

/// What is claimed of the field of a FIR once the clocks are set.
spec fn fir_set(
    regs: Map<u16, u8>,
    from: int,
    t: Trace,
    tx: bool,
    off: bool,
    factor: int,
    moved: bool,
    sample: u32,
    clock: u32,
) -> bool {
    &&& off ==> ok(fir_claim(regs, from, tx, 0), t)
    &&& !off && factor == 1 ==> ok(fir_claim(regs, from, tx, 1), t)
    &&& !off && factor != 1 && moved ==> set_to(regs, from, t, tx, sample, clock)
}

proof fn lemma_clocks_applied(
    regs: Map<u16, u8>,
    from: int,
    e: EngineView,
    rx: PathClocks,
    tx: PathClocks,
)
    requires
        0 <= from <= e.link.sent.len(),
        e.apply_trx_clock_chain(rx, tx).err is None,
    ensures
        ({
            let end = e.apply_trx_clock_chain(rx, tx).e;
            let rates = e.state.v.clk.rates;
            let fir = e.state.v.fir;
            &&& fir_set(
                regs,
                from,
                end.link,
                false,
                fir.rx_bypassed(),
                fir.rx_decimation() as int,
                rates.rx_sampl != rx.sample,
                rx.sample.raw,
                end.state.v.clk.rates.clkrf.raw,
            )
            &&& fir_set(
                regs,
                from,
                end.link,
                true,
                fir.tx_bypassed(),
                fir.tx_interpolation() as int,
                rates.tx_sampl != tx.sample,
                tx.sample.raw,
                end.state.v.clk.rates.clktf.raw,
            )
        }),
{
    broadcast use {
        crate::kept::leaves_run,
        crate::kept::synth::leaves_set_bbpll_rate,
        crate::kept::clock_chain::leaves_set_path_rates,
        crate::frame::spares_run,
    };

    reveal(EngineView::apply_trx_clock_chain);
    reveal(EngineView::refresh_unit_firs);
    let any = claim(regs, from, Part::Modes, 0x0FA, now(regs, from, e.link)[0x0FA] & 0x0F);
    lemma_claim(any, e.link);
    let pll = e.set_bbpll_rate(rx.bbpll);
    assert(pll.e.state.v.fir == e.state.v.fir && pll.e.state.v.clk.rates.rx_sampl
        == e.state.v.clk.rates.rx_sampl && pll.e.state.v.clk.rates.tx_sampl
        == e.state.v.clk.rates.tx_sampl) by {
        broadcast use {
            crate::frame::spares_program_bbpll,
            crate::frame::spares_read_bbpll_clock_scaler,
        };

        reveal(EngineView::set_bbpll_rate);
    }
    assert(ok(any, pll.e.link));
    assert(from <= pll.e.link.sent.len()) by {
        reveal(ok);
    }
    lemma_paths_set(regs, from, pll.e, rx, tx);
    let paths = pll.set_path_rates(rx, tx);
    let fir = e.state.v.fir;
    let rx_op = update(
        RX_ENABLE_FILTER_CONTROL,
        RX_FIR_ENABLE_DECIMATION,
        flag(!fir.rx_bypassed(), 1),
    );
    let tx_op = update(
        TX_ENABLE_FILTER_CONTROL,
        TX_FIR_ENABLE_INTERPOLATION,
        flag(!fir.tx_bypassed(), 1),
    );
    let one = if fir.rx_decimation() == 1 {
        paths.e.run([rx_op]@)
    } else {
        paths.e.start()
    };
    lemma_flow_extends(paths, [rx_op]@);
    if fir.rx_decimation() == 1 {
        if keeps(regs, one.e.link, from) {
            lemma_run_now(regs, paths.e, from, [rx_op]@);
            lemma_short_programs(now(regs, from, paths.e.link), rx_op, rx_op);
            lemma_field_bits(now(regs, from, paths.e.link)[0x003], flag(!fir.rx_bypassed(), 1));
            assert(is_lasting(0x003));
        }
        lemma_claim(
            fir_claim(regs, from, false, flag(!fir.rx_bypassed(), 1) as int),
            one.e.link,
        );
    }
    if fir.tx_interpolation() == 1 {
        let two = one.e.run([tx_op]@);
        lemma_flow_extends(one, [tx_op]@);
        if keeps(regs, two.e.link, from) {
            lemma_run_now(regs, one.e, from, [tx_op]@);
            lemma_short_programs(now(regs, from, one.e.link), tx_op, tx_op);
            lemma_field_bits(now(regs, from, one.e.link)[0x002], flag(!fir.tx_bypassed(), 1));
            assert(is_lasting(0x002));
        }
        lemma_claim(
            fir_claim(regs, from, true, flag(!fir.tx_bypassed(), 1) as int),
            two.e.link,
        );
    }
}

/// The field of a FIR goes with its state: 0 where there is none or it is bypassed, 1 for a factor of
/// 1. For a factor of 2 or 4 it is not 0 if the sample clock moved, and 2 or 3 if the clock before
/// the FIR is near enough to its rate.
pub open spec fn switched(
    fir: Option<LoadedFir>,
    field: int,
    moved: bool,
    off: int,
    sample: u32,
) -> bool {
    match fir {
        None => field == 0,
        Some(fir) => {
            let factor = factor_of(fir.factor);
            &&& fir.bypassed ==> field == 0
            &&& !fir.bypassed && factor == 1 ==> field == 1
            &&& !fir.bypassed && moved ==> 1 <= field <= 3 && (4 * off < sample ==> field
                == factor_number(factor))
        },
    }
}

proof fn lemma_factor_found(sample: u32, clock: u32, factor: int)
    requires
        sample > 0,
        clock > 0,
        factor == 1 || factor == 2 || factor == 4,
        4 * distance(clock as int, sample * factor) < sample,
        ClockMulDiv::closest_ratio(sample, clock) matches Some(ratio) && ratio.mult == 1 && (
        ratio.div == 1 || ratio.div == 2 || ratio.div == 4),
    ensures
        ClockMulDiv::closest_ratio(sample, clock)->0.div == factor,
{
    let ratio = ClockMulDiv::closest_ratio(sample, clock)->0;
    let other = ClockMulDiv { mult: 1, div: factor as u32 };
    assert(clock * 1 == clock);
    assert(other.exact_rate(clock) == clock as int / factor) by {
        assert(clock * other.mult == clock) by (nonlinear_arith)
            requires
                other.mult == 1,
        ;
    }
    assert(ratio.exact_rate(clock) == clock as int / ratio.div as int) by {
        assert(clock * ratio.mult == clock) by (nonlinear_arith)
            requires
                ratio.mult == 1,
        ;
    }
    law_closest_ratio(sample, clock, other);
    let d = ratio.div as int;
    assert(factor == 1 ==> sample * factor == sample) by (nonlinear_arith);
    assert(factor == 2 ==> sample * factor == 2 * sample) by (nonlinear_arith);
    assert(factor == 4 ==> sample * factor == 4 * sample) by (nonlinear_arith);
    assert(clock as int / 1 == clock);
}

proof fn lemma_switched(
    regs: Map<u16, u8>,
    from: int,
    t: Trace,
    tx: bool,
    fir: Option<LoadedFir>,
    factor: int,
    moved: bool,
    path: PathClocks,
    clock: u32,
)
    requires
        keeps(regs, t, from),
        factor == (match fir {
            Some(fir) => if fir.bypassed {
                1
            } else {
                factor_of(fir.factor)
            },
            None => 1,
        }),
        path.hb1.raw == path.sample.raw * factor,
        fir_set(
            regs,
            from,
            t,
            tx,
            match fir {
                Some(fir) => fir.bypassed,
                None => true,
            },
            factor,
            moved,
            path.sample.raw,
            clock,
        ),
    ensures
        switched(
            fir,
            now(regs, from, t)[sample_clock(tx).2] as int % 4,
            moved,
            distance(clock as int, path.hb1.raw as int),
            path.sample.raw,
        ),
{
    let byte = now(regs, from, t)[sample_clock(tx).2];
    lemma_low_nibble(byte);
    let sample = path.sample.raw;
    let off = match fir {
        Some(fir) => fir.bypassed,
        None => true,
    };
    if off {
        lemma_claimed(fir_claim(regs, from, tx, 0), t);
    } else if factor == 1 {
        lemma_claimed(fir_claim(regs, from, tx, 1), t);
    } else if moved {
        let ratio = ClockMulDiv::closest_ratio(sample, clock)->0;
        lemma_claimed(fir_claim(regs, from, tx, factor_number(ratio.div as int)), t);
        if 4 * distance(clock as int, path.hb1.raw as int) < sample {
            lemma_factor_found(sample, clock, factor);
        }
    }
}

proof fn lemma_validated(regs: Map<u16, u8>, from: int, e: EngineView)
    requires
        0 <= from <= e.link.sent.len(),
        e.validate_enable_fir().err is None,
        keeps(regs, e.validate_enable_fir().e.link, from),
    ensures
        ({
            let fir = e.state.v.fir;
            let end = e.validate_enable_fir().e;
            let then = now(regs, from, end.link);
            &&& e.chain_with_firs() matches Some((rx, tx)) && switched(
                fir.rx,
                rx_fir_field(then),
                e.state.v.clk.rates.rx_sampl != rx.sample,
                distance(end.state.v.clk.rates.clkrf.raw as int, rx.hb1.raw as int),
                rx.sample.raw,
            ) && switched(
                fir.tx,
                tx_fir_field(then),
                e.state.v.clk.rates.tx_sampl != tx.sample,
                distance(end.state.v.clk.rates.clktf.raw as int, tx.hb1.raw as int),
                tx.sample.raw,
            )
        }),
{
    broadcast use {
        crate::kept::dig_tune::leaves_dig_tune,
        crate::kept::clock_chain::leaves_bb_clk_change_handler,
        crate::kept::fir::leaves_redo_bandwidths,
        crate::frame::spares_dig_tune,
        crate::frame::spares_bb_clk_change_handler,
        crate::frame::spares_redo_bandwidths,
    };

    reveal(EngineView::validate_enable_fir);
    reveal(EngineView::set_trx_clock_chain);
    let (rx, tx) = e.chain_with_firs()->0;
    let v = e.state.v;
    let (rx_fir, tx_fir) = (v.fir.rx_decimation(), v.fir.tx_interpolation());
    let doubled = v.mode.pp_conf3.fdd_rx_rate_2tx_rate;
    law_clock_chain(v.clk.rates.tx_sampl.raw, v.clk.rate_governor, rx_fir, tx_fir, doubled);
    law_clock_chain(
        lowest_rate(v.clk.rate_governor).raw,
        v.clk.rate_governor,
        rx_fir,
        tx_fir,
        doubled,
    );
    lemma_clocks_applied(regs, from, e, rx, tx);
    let end = e.validate_enable_fir().e;
    let rates = end.state.v.clk.rates;
    lemma_switched(
        regs,
        from,
        end.link,
        false,
        v.fir.rx,
        rx_fir as int,
        v.clk.rates.rx_sampl != rx.sample,
        rx,
        rates.clkrf.raw,
    );
    lemma_switched(
        regs,
        from,
        end.link,
        true,
        v.fir.tx,
        tx_fir as int,
        v.clk.rates.tx_sampl != tx.sample,
        tx,
        rates.clktf.raw,
    );
}

/// Enabling or bypassing the RX FIR: its field says bypassed, or the factor it has. So does the
/// field of the TX FIR. A factor of 2 or 4 is set along with the sample clock. Where the cached
/// sample rate is the right one already that clock isn't touched, and neither is the field.
pub proof fn law_rx_fir_is_set(regs: Map<u16, u8>, e: EngineView, enable: bool)
    requires
        e.state.v.fir.rx matches Some(fir) && fir.bypassed == enable,
        e.set_rx_fir_en_dis(enable).err is None,
        keeps(regs, e.set_rx_fir_en_dis(enable).e.link, e.link.sent.len() as int),
    ensures
        ({
            let fir = FirState { rx: with_bypass(e.state.v.fir.rx, !enable), ..e.state.v.fir };
            let end = e.set_rx_fir_en_dis(enable).e;
            let then = now(regs, e.link.sent.len() as int, end.link);
            let chain = e.set_fir(fir).e.chain_with_firs();
            &&& chain matches Some((rx, tx)) && switched(
                fir.rx,
                rx_fir_field(then),
                e.state.v.clk.rates.rx_sampl != rx.sample,
                distance(end.state.v.clk.rates.clkrf.raw as int, rx.hb1.raw as int),
                rx.sample.raw,
            ) && switched(
                fir.tx,
                tx_fir_field(then),
                e.state.v.clk.rates.tx_sampl != tx.sample,
                distance(end.state.v.clk.rates.clktf.raw as int, tx.hb1.raw as int),
                tx.sample.raw,
            )
        }),
{
    reveal(EngineView::set_rx_fir_en_dis);
    let fir = FirState { rx: with_bypass(e.state.v.fir.rx, !enable), ..e.state.v.fir };
    lemma_start(regs, e.link);
    lemma_validated(regs, e.link.sent.len() as int, e.set_fir(fir).e);
}

/// Enabling or bypassing the TX FIR: its field says bypassed, or the factor it has. So does the
/// field of the RX FIR. A factor of 2 or 4 is set along with the sample clock. Where the cached
/// sample rate is the right one already that clock isn't touched, and neither is the field.
pub proof fn law_tx_fir_is_set(regs: Map<u16, u8>, e: EngineView, enable: bool)
    requires
        e.state.v.fir.tx matches Some(fir) && fir.bypassed == enable,
        e.set_tx_fir_en_dis(enable).err is None,
        keeps(regs, e.set_tx_fir_en_dis(enable).e.link, e.link.sent.len() as int),
    ensures
        ({
            let fir = FirState { tx: with_bypass(e.state.v.fir.tx, !enable), ..e.state.v.fir };
            let end = e.set_tx_fir_en_dis(enable).e;
            let then = now(regs, e.link.sent.len() as int, end.link);
            let chain = e.set_fir(fir).e.chain_with_firs();
            &&& chain matches Some((rx, tx)) && switched(
                fir.rx,
                rx_fir_field(then),
                e.state.v.clk.rates.rx_sampl != rx.sample,
                distance(end.state.v.clk.rates.clkrf.raw as int, rx.hb1.raw as int),
                rx.sample.raw,
            ) && switched(
                fir.tx,
                tx_fir_field(then),
                e.state.v.clk.rates.tx_sampl != tx.sample,
                distance(end.state.v.clk.rates.clktf.raw as int, tx.hb1.raw as int),
                tx.sample.raw,
            )
        }),
{
    reveal(EngineView::set_tx_fir_en_dis);
    let fir = FirState { tx: with_bypass(e.state.v.fir.tx, !enable), ..e.state.v.fir };
    lemma_start(regs, e.link);
    lemma_validated(regs, e.link.sent.len() as int, e.set_fir(fir).e);
}

} // verus!
