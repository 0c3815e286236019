//! What the start sets in the chip.
use vstd::prelude::*;

use crate::api::start_chip;
use crate::chip_settings::{lemma_read_now, lemma_run_now, lemma_short_programs};
use crate::clocks::{
    law_closest_ratio, law_rx_ref_reads_back, law_scaler_reads_back, rate_of, reference_scaler,
    scaled_reference, with_rate, Ad9361Clock, ClockMulDiv,
};
use crate::config::{Ad9361Config, Ad9361Settings};
use crate::engine::{EngineView, Held};
use crate::fir_switch::lemma_one_rate;
use crate::kept::{is_lasting, keeps, leaves, now, Parts};
use crate::link::{exchange, update, Request, Trace};
use crate::lo_settings::{
    lemma_before, lemma_retune_sets, lemma_stays_set, lemma_words_say, near, set_at, tuned,
};
use crate::math::flag;
use crate::on_chip::lemma_scaler_extends;
use crate::regfile::lemma_flow_extends;
use crate::registers::{
    ENSM_STATE, PRODUCT_ID, REF_DIVIDE_CONFIG1, REF_DIVIDE_CONFIG2, RX_REF_DIVIDER_LSB,
    RX_REF_DIVIDER_MSB, STATE, TX_REF_DIVIDER,
};
use crate::spi::reset_pulse;
use crate::state::EngineState;
use crate::tables::ChipTables;
use crate::units::{HertzU32, HertzU64, MAX_CARRIER_FREQ_HZ, MIN_TX_CARRIER_FREQ_HZ};

verus! {

/// The reference that is the external one scaled by 2, 1, 1/2 or 1/4.
spec fn is_scaled_from(rate: u32, ref_clk: u32) -> bool {
    &&& rate > 0
    &&& 0 < ref_clk && 2 * ref_clk <= u32::MAX
    &&& rate == 2 * ref_clk || rate == ref_clk || rate == ref_clk / 2 || rate == ref_clk / 4
}

/// The scaler found for a scaled reference makes exactly that.
proof fn lemma_scaler_is_exact(rate: u32, ref_clk: u32)
    requires
        is_scaled_from(rate, ref_clk),
    ensures
        ClockMulDiv::closest_ratio(rate, ref_clk) matches Some(ratio) && ratio.exact_rate(ref_clk)
            == rate && ratio.rate(HertzU32 { raw: ref_clk }) == (HertzU32 { raw: rate }),
{
    let ratio = ClockMulDiv::closest_ratio(rate, ref_clk)->0;
    let twice = ClockMulDiv { mult: 2, div: 1 };
    let same = ClockMulDiv { mult: 1, div: 1 };
    let half = ClockMulDiv { mult: 1, div: 2 };
    let quarter = ClockMulDiv { mult: 1, div: 4 };
    let other = if rate == 2 * ref_clk {
        twice
    } else if rate == ref_clk {
        same
    } else if rate == ref_clk / 2 {
        half
    } else {
        quarter
    };
    assert(ref_clk * 2 == 2 * ref_clk && ref_clk * 1 == ref_clk);
    assert(other.exact_rate(ref_clk) == rate) by {
        let n = ref_clk * other.mult;
        assert(other.mult == 2 ==> n == 2 * ref_clk) by (nonlinear_arith)
            requires
                n == ref_clk * other.mult,
        ;
        assert(other.mult == 1 ==> n == ref_clk) by (nonlinear_arith)
            requires
                n == ref_clk * other.mult,
        ;
        assert(n / 1 == n);
    }
    law_closest_ratio(rate, ref_clk, other);
}

/// A synth's reference that was set is the one in the cache.
proof fn lemma_reference_set(
    regs: Map<u16, u8>,
    from: int,
    e: EngineView,
    tx: bool,
    rate: HertzU32,
)
    requires
        0 <= from <= e.link.sent.len(),
        is_scaled_from(rate.raw, e.state.v.ref_clk_in.raw),
        ({
            let set = e.set_clock_rate(
                if tx {
                    Ad9361Clock::TxRef
                } else {
                    Ad9361Clock::RxRef
                },
                rate,
            );
            set.err is None && keeps(regs, set.e.link, from)
        }),
    ensures
        ({
            let clock = if tx {
                Ad9361Clock::TxRef
            } else {
                Ad9361Clock::RxRef
            };
            let next = e.set_clock_rate(clock, rate).e.state.v.clk.rates;
            next == with_rate(e.state.v.clk.rates, clock, rate)
        }),
{
    let clock = if tx {
        Ad9361Clock::TxRef
    } else {
        Ad9361Clock::RxRef
    };
    lemma_one_rate(e, clock, rate);
    reveal(EngineView::set_clock_rate);
    reveal(EngineView::set_clock_scaler);
    reveal(EngineView::read_clock_scaler);
    let ref_clk = e.state.v.ref_clk_in;
    if rate_of(&e.state.v.clk.rates, clock) != rate {
        lemma_scaler_is_exact(rate.raw, ref_clk.raw);
        let ratio = ClockMulDiv::closest_ratio(rate.raw, ref_clk.raw)->0;
        lemma_scaler_extends(e, clock, ratio);
        let scaler = reference_scaler(ratio)->0;
        let set = e.set_clock_scaler(clock, ratio);
        let old = now(regs, from, e.link);
        assert(is_lasting(REF_DIVIDE_CONFIG1) && is_lasting(REF_DIVIDE_CONFIG2));
        if tx {
            let op = update(REF_DIVIDE_CONFIG2, TX_REF_DIVIDER, scaler << 2);
            lemma_flow_extends(e.start(), [op]@);
            lemma_read_now(regs, set.e, from, REF_DIVIDE_CONFIG2);
            lemma_run_now(regs, e, from, [op]@);
            lemma_short_programs(old, op, op);
            law_scaler_reads_back(clock, ratio, e.state.v.fir, old[REF_DIVIDE_CONFIG2]);
        } else {
            let msb = update(
                REF_DIVIDE_CONFIG1,
                RX_REF_DIVIDER_MSB,
                flag(scaler >= 2, RX_REF_DIVIDER_MSB),
            );
            let lsb = update(
                REF_DIVIDE_CONFIG2,
                RX_REF_DIVIDER_LSB,
                flag(scaler % 2 == 1, RX_REF_DIVIDER_LSB),
            );
            lemma_flow_extends(e.start(), [msb, lsb]@);
            let one = set.e.read(REF_DIVIDE_CONFIG1);
            crate::regfile::lemma_read_extends(set.e.start(), REF_DIVIDE_CONFIG1);
            lemma_read_now(regs, one.e, from, REF_DIVIDE_CONFIG2);
            lemma_read_now(regs, set.e, from, REF_DIVIDE_CONFIG1);
            lemma_run_now(regs, e, from, [msb, lsb]@);
            lemma_short_programs(old, msb, lsb);
            law_rx_ref_reads_back(ratio, old[REF_DIVIDE_CONFIG1], old[REF_DIVIDE_CONFIG2]);
        }
    }
}

/// Both synths are claimed to be set.
spec fn both_set(
    regs: Map<u16, u8>,
    from: int,
    t: Trace,
    rx: u64,
    tx: u64,
    reference: u32,
) -> bool {
    &&& set_at(regs, from, t, false, rx, reference)
    &&& set_at(regs, from, t, true, tx, reference)
}

/// What is known of every step that leaves parts of the chip alone.
proof fn lemma_steps(regs: Map<u16, u8>, from: int, rx: u64, tx: u64, reference: u32)
    requires
        0 <= from,
    ensures
        forall|t: Trace, u: Trace, but: Parts| #[trigger]
            leaves(t, u, but) && from <= t.sent.len() && (!but.dcxo || !but.modes) ==> from
                <= u.sent.len() && (keeps(regs, u, from) ==> keeps(regs, t, from)),
        forall|t: Trace, u: Trace, but: Parts| #[trigger]
            leaves(t, u, but) && !but.rx_lo && !but.tx_lo && both_set(
                regs,
                from,
                t,
                rx,
                tx,
                reference,
            ) ==> both_set(regs, from, u, rx, tx, reference),
{
    assert forall|t: Trace, u: Trace, but: Parts| #[trigger]
        leaves(t, u, but) && from <= t.sent.len() && (!but.dcxo || !but.modes) implies from
        <= u.sent.len() && (keeps(regs, u, from) ==> keeps(regs, t, from)) by {
        lemma_before(regs, from, t, u, but);
    }
    assert forall|t: Trace, u: Trace, but: Parts| #[trigger]
        leaves(t, u, but) && !but.rx_lo && !but.tx_lo && both_set(
            regs,
            from,
            t,
            rx,
            tx,
            reference,
        ) implies both_set(regs, from, u, rx, tx, reference) by {
        lemma_stays_set(regs, from, t, u, but, false, rx, reference);
        lemma_stays_set(regs, from, t, u, but, true, tx, reference);
    }
}

proof fn lemma_charge_pumps(e: EngineView, reference: HertzU32, tx: bool)
    ensures
        e.txrx_synth_cp_calib(reference, tx).e.state == e.state,
{
    broadcast use {crate::gain_rows::gain_of_run, crate::gain_rows::gain_of_poll};

    reveal(EngineView::txrx_synth_cp_calib);
}

/// The RF setup sets both synths to the frequencies of the settings.
proof fn lemma_rf_set(
    regs: Map<u16, u8>,
    from: int,
    e: EngineView,
    settings: Ad9361Settings,
    synth_ref: HertzU32,
)
    requires
        0 <= from <= e.link.sent.len(),
        is_scaled_from(synth_ref.raw, e.state.v.ref_clk_in.raw),
        2048 * synth_ref.raw > 12_000_000_000,
        e.state.v.clk.rates.rx_rfpll.raw != settings.rx_synth_freq.hz(),
        e.state.v.clk.rates.tx_rfpll.raw != settings.tx_synth_freq.hz(),
        e.setup_rf(settings, synth_ref).err is None,
        keeps(regs, e.setup_rf(settings, synth_ref).e.link, from),
    ensures
        ({
            let end = e.setup_rf(settings, synth_ref).e;
            let (rx, tx) = (settings.rx_synth_freq.hz(), settings.tx_synth_freq.hz());
            &&& from <= end.link.sent.len()
            &&& MIN_TX_CARRIER_FREQ_HZ <= rx <= MAX_CARRIER_FREQ_HZ
            &&& MIN_TX_CARRIER_FREQ_HZ <= tx <= MAX_CARRIER_FREQ_HZ
            &&& both_set(regs, from, end.link, rx, tx, synth_ref.raw)
            &&& near(end.state.v.clk.rates.rx_rfpll, rx as int, synth_ref.raw as int)
            &&& near(end.state.v.clk.rates.tx_rfpll, tx as int, synth_ref.raw as int)
        }),
{
    broadcast use {
        crate::kept::clocks::leaves_set_clock_rate,
        crate::kept::synth::leaves_txrx_synth_cp_calib,
        crate::kept::gain_control::leaves_write_gain_table,
        crate::kept::synth::leaves_retune_rfpll,
        crate::kept::synth::leaves_recalibrate_tx,
        crate::kept::gain_control::leaves_load_mixer_gm_subtable,
        crate::kept::gain_control::leaves_gc_setup,
    };

    reveal(EngineView::setup_rf);
    reveal(EngineView::set_rfpll_rate);
    let (rx_freq, tx_freq) = (settings.rx_synth_freq.hz(), settings.tx_synth_freq.hz());
    let rx_hz = HertzU64 { raw: rx_freq };
    let tx_hz = HertzU64 { raw: tx_freq };
    lemma_steps(regs, from, rx_freq, tx_freq, synth_ref.raw);
    let table = e.state.v.gain.current_table;
    let rr = e.set_clock_rate(Ad9361Clock::RxRef, synth_ref);
    let tr = rr.set_clock_rate(Ad9361Clock::TxRef, synth_ref);
    let c1 = tr.txrx_synth_cp_calib(synth_ref, false);
    let c2 = c1.txrx_synth_cp_calib(synth_ref, true);
    let wt = c2.write_gain_table(table, crate::gain_control::GainTableDest::Both);
    lemma_one_rate(e, Ad9361Clock::RxRef, synth_ref);
    lemma_one_rate(rr.e, Ad9361Clock::TxRef, synth_ref);
    lemma_charge_pumps(tr.e, synth_ref, false);
    lemma_charge_pumps(c1.e, synth_ref, true);
    crate::gain_rows::lemma_written_lna_stays(c2.e, table);
    let rx = wt.set_rfpll_rate(false, rx_hz);
    let tx = rx.set_rfpll_rate(true, tx_hz);
    let rx_parent = wt.e.state.v.clk.rates.rx_ref;
    let tx_parent = rx.e.state.v.clk.rates.tx_ref;
    let tuned_tx = rx.e.retune_rfpll(true, tx_hz, tx_parent);
    let gm = tx.load_mixer_gm_subtable();
    let end = gm.gc_setup(settings.gain_ctrl);
    assert(rr.err is None && tr.err is None && c2.err is None && wt.err is None);
    assert(rx == wt.e.retune_rfpll(false, rx_hz, rx_parent));
    assert(rx.err is None && tx.err is None && gm.err is None);
    assert(keeps(regs, gm.e.link, from) && keeps(regs, tx.e.link, from));
    assert(from <= wt.e.link.sent.len());
    assert(keeps(regs, rx.e.link, from)) by {
        assert(from <= rx.e.link.sent.len());
        if rx.e.state.v.clk.rates.tx_rfpll == tx_hz {
        } else {
            assert(leaves(
                rx.e.link,
                tuned_tx.e.link,
                Parts { rx_lo: true, tx_lo: true, table_size: true, ..crate::kept::none() },
            ));
        }
    }
    assert(keeps(regs, wt.e.link, from));
    assert(keeps(regs, tr.e.link, from) && keeps(regs, rr.e.link, from));
    lemma_reference_set(regs, from, e, false, synth_ref);
    lemma_reference_set(regs, from, rr.e, true, synth_ref);
    lemma_retune_sets(regs, from, wt.e, false, rx_hz, synth_ref, MAX_CARRIER_FREQ_HZ);
    lemma_retune_sets(regs, from, rx.e, true, tx_hz, synth_ref, rx_freq);
    assert(both_set(regs, from, tuned_tx.e.link, rx_freq, tx_freq, synth_ref.raw));
}

/// Bringing the chip up sets the synths to the frequencies of the settings, RX to the one for RX and
/// TX to the one for TX, and so are the cached rates. Where the chip reports one of them as the rate
/// it runs at before anything is set, that synth is not set.
pub proof fn law_bring_up_sets_the_los(regs: Map<u16, u8>, e: EngineView, config: Ad9361Config)
    requires
        is_valid(config),
        e.state.v.ref_clk_in.raw == config.spec_ref_clk().hz(),
        2048 * config.spec_synth_ref().raw > 12_000_000_000,
        e.init_clocks().e.state.v.clk.rates.rx_rfpll.raw
            != config.spec_settings().rx_synth_freq.hz(),
        e.init_clocks().e.state.v.clk.rates.tx_rfpll.raw
            != config.spec_settings().tx_synth_freq.hz(),
        e.bring_up(config).err is None,
        keeps(regs, e.bring_up(config).e.link, e.link.sent.len() as int),
    ensures
        ({
            let end = e.bring_up(config).e;
            let then = now(regs, e.link.sent.len() as int, end.link);
            let reference = config.spec_synth_ref().raw as int;
            let rx = config.spec_settings().rx_synth_freq.hz() as int;
            let tx = config.spec_settings().tx_synth_freq.hz() as int;
            &&& tuned(then, false, rx, reference)
            &&& tuned(then, true, tx, reference)
            &&& near(end.state.v.clk.rates.rx_rfpll, rx, reference)
            &&& near(end.state.v.clk.rates.tx_rfpll, tx, reference)
        }),
{
    broadcast use {
        crate::kept::clocks::leaves_init_clocks,
        crate::kept::setup::leaves_setup_clocks,
        crate::kept::setup::leaves_setup_ports,
        crate::kept::setup::leaves_setup_rf,
        crate::kept::setup::leaves_setup_calibrations,
        crate::kept::control::leaves_set_ensm_mode,
        crate::kept::setup::leaves_setup_attenuation,
        crate::kept::setup::leaves_setup_monitors,
        crate::kept::setup::leaves_start_running,
        crate::kept::axi_init::leaves_adc_init,
        crate::kept::dig_tune::leaves_post_setup,
        crate::kept::api::leaves_load_firs,
        crate::kept::axi_init::leaves_dac_init,
    };

    reveal(EngineView::bring_up);
    reveal(EngineView::init);
    reveal(EngineView::setup);
    let from = e.link.sent.len() as int;
    let settings = config.spec_settings();
    let synth_ref = config.spec_synth_ref();
    let (rx, tx) = (settings.rx_synth_freq.hz(), settings.tx_synth_freq.hz());
    lemma_steps(regs, from, rx, tx, synth_ref.raw);
    let read = e.init_clocks();
    let clocks = read.e.setup_clocks(settings, config.spec_bbpll_ref());
    let ports = clocks.setup_ports(settings, config.spec_ref_clk());
    let rf = ports.setup_rf(settings, synth_ref);
    let cal = rf.setup_calibrations(settings);
    let ensm = cal.set_ensm_mode(read.e.state.v.mode.fdd, settings.ensm_pin_ctrl);
    let atten = ensm.setup_attenuation(settings);
    let monitors = atten.setup_monitors(settings);
    let running = monitors.start_running(settings.ensm_pin_ctrl);
    let adc = running.adc_init(crate::dig_tune::num_phy_chan(&read.e.state.v.mode));
    let tuned_up = adc.post_setup();
    let firs = tuned_up.load_firs(settings);
    let end = e.bring_up(config);
    assert(end == firs.dac_init());
    assert(ports.err is None && rf.err is None && running.err is None && tuned_up.err is None);
    assert(from <= ports.e.link.sent.len() && from <= rf.e.link.sent.len() && from
        <= running.e.link.sent.len() && from <= firs.e.link.sent.len());
    assert(keeps(regs, firs.e.link, from) && keeps(regs, running.e.link, from));
    assert(keeps(regs, rf.e.link, from));
    lemma_valid(config);
    lemma_rf_set(regs, from, ports.e, settings, synth_ref);
    assert(both_set(regs, from, running.e.link, rx, tx, synth_ref.raw));
    assert(both_set(regs, from, end.e.link, rx, tx, synth_ref.raw));
    lemma_words_say(regs, from, end.e.link, false, rx, synth_ref.raw);
    lemma_words_say(regs, from, end.e.link, true, tx, synth_ref.raw);
}

/// A checked configuration: the reference is in its range and the synths have one of their own,
/// scaled from it.
pub open spec fn is_valid(config: Ad9361Config) -> bool {
    &&& 10_000_000 <= config.spec_ref_clk().hz() <= 80_000_000
    &&& config.spec_synth_ref().raw > 0
    &&& exists|max: u32| #[trigger]
        scaled_reference(config.spec_ref_clk().hz(), max) == config.spec_synth_ref().raw
}

proof fn lemma_valid(config: Ad9361Config)
    requires
        is_valid(config),
    ensures
        is_scaled_from(config.spec_synth_ref().raw, config.spec_ref_clk().hz()),
{
}

/// The chip after its reset and identification, as the start goes on from there.
pub open spec fn identified(
    t: Trace,
    tables: ChipTables,
    config: Ad9361Config,
    core_id: u32,
) -> EngineView {
    let id = exchange(reset_pulse(t).0, Request::Read { addr: PRODUCT_ID, len: 1 }).0;
    let (link, ensm) = exchange(id, Request::Read { addr: STATE, len: 1 });
    let state = EngineState::fresh(config, tables, core_id, ensm->Ok_0 as u8 & ENSM_STATE);
    EngineView { link, state: Held { v: state }, tables }
}

/// A start that succeeds sets the synths to the frequencies of the settings, RX to the one for RX
/// and TX to the one for TX, and so are the cached rates. The registers are `regs` once the chip is
/// identified.
pub proof fn law_start_sets_the_los(
    regs: Map<u16, u8>,
    t: Trace,
    tables: ChipTables,
    config: Ad9361Config,
    core_id: u32,
)
    requires
        is_valid(config),
        2048 * config.spec_synth_ref().raw > 12_000_000_000,
        ({
            let read = identified(t, tables, config, core_id).init_clocks().e.state.v.clk.rates;
            &&& read.rx_rfpll.raw != config.spec_settings().rx_synth_freq.hz()
            &&& read.tx_rfpll.raw != config.spec_settings().tx_synth_freq.hz()
        }),
        start_chip(t, tables, config, core_id).r is Ok,
        keeps(
            regs,
            start_chip(t, tables, config, core_id).link,
            identified(t, tables, config, core_id).link.sent.len() as int,
        ),
    ensures
        ({
            let started = start_chip(t, tables, config, core_id);
            let then = now(
                regs,
                identified(t, tables, config, core_id).link.sent.len() as int,
                started.link,
            );
            let rates = started.r->Ok_0.0.v.clk.rates;
            let reference = config.spec_synth_ref().raw as int;
            let rx = config.spec_settings().rx_synth_freq.hz() as int;
            let tx = config.spec_settings().tx_synth_freq.hz() as int;
            &&& tuned(then, false, rx, reference)
            &&& tuned(then, true, tx, reference)
            &&& near(rates.rx_rfpll, rx, reference)
            &&& near(rates.tx_rfpll, tx, reference)
        }),
{
    let e = identified(t, tables, config, core_id);
    law_bring_up_sets_the_los(regs, e, config);
}

} // verus!
