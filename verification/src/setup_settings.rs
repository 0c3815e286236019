//! What the setup sets in the chip beside the LOs: gain modes, RF ports and baseband filters.
use vstd::prelude::*;

use crate::calibration::RxPhase;
use crate::chip_settings::{
    claim, filters_claimed, lemma_claim, lemma_claimed, lemma_effect_at, lemma_filters_after_quad,
    lemma_filters_are, lemma_filters_set, lemma_low_nibble, lemma_run_now, lemma_short_programs,
    mode_field, mode_number, rx_filter_is, tx_filter_is,
};
use crate::clocks::Ad9361Clock;
use crate::config::{Ad9361Config, Ad9361Settings, ChannelMode};
use crate::engine::EngineView;
use crate::gain_control::{agc_config3, step_field, GainControl, GainMode, GainTableDest};
use crate::kept::{is_lasting, keeps, leaves, now, ok, Part, Parts};
use crate::link::{put, update, Op, Trace};
use crate::lo_settings::lemma_before;
use crate::math::flag;
use crate::on_chip::lemma_written;
use crate::ports::Channel;
use crate::regfile::{lemma_flow_extends, written};
use crate::registers::{
    AGC_CONFIG1, AGC_CONFIG2, AGC_CONFIG3, DEC_PWR_FOR_GAIN_LOCK_EXIT, DEC_PWR_FOR_LOCK_LEVEL,
    DEC_PWR_FOR_LOW_PWR, DIG_GAIN_EN, IMMEDIATELY_UPDATE_TPC_ATTEN, INPUT_SELECT,
    MAN_GAIN_CTRL_RX1, MAN_GAIN_CTRL_RX2, MASK_CLR_ATTEN_UPDATE, PEAK_WAIT_TIME,
    SLOW_ATTACK_HYBRID_MODE, TX1_ATTEN1, TX2_ATTEN1, TX2_DIG_ATTEN, TX_ATTEN_OFFSET, TX_OUTPUT,
};
use crate::setup::{rx_in_use, tx_in_use};
use crate::spi::bytes_of;
use crate::units::{lemma_saturated, saturated, HertzU32, HertzU64, TxAttenuation, MAX_QUARTER_DB};

verus! {

/// The pins of an RX input: A, B and C from the lowest bit up, the negative pin of each first.
pub open spec fn input_pins(regs: Map<u16, u8>) -> int {
    regs[0x004] as int % 64
}

/// The number of steps before a conversation, and what the chip kept, over every step that leaves
/// parts alone.
proof fn lemma_goes_on(regs: Map<u16, u8>, from: int)
    requires
        0 <= from,
    ensures
        forall|t: Trace, u: Trace, but: Parts| #[trigger]
            leaves(t, u, but) && from <= t.sent.len() && (!but.dcxo || !but.modes) ==> from
                <= u.sent.len() && (keeps(regs, u, from) ==> keeps(regs, t, from)),
{
    assert forall|t: Trace, u: Trace, but: Parts| #[trigger]
        leaves(t, u, but) && from <= t.sent.len() && (!but.dcxo || !but.modes) implies from
        <= u.sent.len() && (keeps(regs, u, from) ==> keeps(regs, t, from)) by {
        lemma_before(regs, from, t, u, but);
    }
}

proof fn lemma_modes_byte(one: u8, two: u8, high: u8)
    requires
        one <= 3,
        two <= 3,
    ensures
        (high & 0xF0 == high) ==> (high | (two << 2) | one) & 0x0F == two * 4 + one,
{
    assert((high & 0xF0 == high) ==> (high | (two << 2) | one) & 0x0F == two * 4 + one)
        by (bit_vector)
        requires
            one <= 3,
            two <= 3,
    ;
}

/// Setting the gain control up puts the modes of both channels into their fields.
proof fn lemma_modes_set(regs: Map<u16, u8>, from: int, e: EngineView, ctrl: GainControl)
    requires
        0 <= from <= e.link.sent.len(),
        e.gc_setup(ctrl).err is None,
    ensures
        ok(
            claim(
                regs,
                from,
                Part::Modes,
                0x0FA,
                (ctrl.rx2_mode.code() * 4 + ctrl.rx1_mode.code()) as u8,
            ),
            e.gc_setup(ctrl).e.link,
        ),
{
    broadcast use {
        crate::kept::leaves_run,
        crate::kept::gain_control::leaves_gc_thresholds,
        crate::kept::gain_control::leaves_gc_slow_attack,
        crate::kept::gain_control::leaves_gc_fast_attack,
        crate::kept::gain_control::leaves_gc_unlock,
        crate::kept::gain_control::leaves_set_agc_pulled_high,
        crate::kept::gain_control::leaves_gc_update,
    };

    reveal(EngineView::gc_setup);
    reveal(EngineView::gc_modes);
    let noted = e.set_gain_control(ctrl).e;
    let gain = noted.state.v.gain;
    let byte = DEC_PWR_FOR_GAIN_LOCK_EXIT | DEC_PWR_FOR_LOCK_LEVEL | DEC_PWR_FOR_LOW_PWR | flag(
        gain.any(GainMode::HybridAgc),
        SLOW_ATTACK_HYBRID_MODE,
    ) | (ctrl.rx2_mode.code() << 2) | ctrl.rx1_mode.code();
    let ops = [
        put(AGC_CONFIG1, byte),
        update(
            AGC_CONFIG2,
            MAN_GAIN_CTRL_RX1 | MAN_GAIN_CTRL_RX2 | DIG_GAIN_EN,
            flag(ctrl.mgc_rx1_ctrl_inp_en, MAN_GAIN_CTRL_RX1) | flag(
                ctrl.mgc_rx2_ctrl_inp_en,
                MAN_GAIN_CTRL_RX2,
            ) | flag(ctrl.dig_gain_en, DIG_GAIN_EN),
        ),
        put(AGC_CONFIG3, agc_config3(&ctrl, gain.split_gt)),
        put(PEAK_WAIT_TIME, step_field(ctrl.mgc_dec_gain_step) << 5),
    ]@;
    let modes = noted.run(ops);
    lemma_flow_extends(noted.start(), ops);
    assert((0x80u8 | 0x40 | 0x20 | 0x10) & 0xF0 == 0x80u8 | 0x40 | 0x20 | 0x10 && (0x80u8 | 0x40
        | 0x20 | 0) & 0xF0 == 0x80u8 | 0x40 | 0x20 | 0) by (bit_vector);
    lemma_modes_byte(
        ctrl.rx1_mode.code(),
        ctrl.rx2_mode.code(),
        DEC_PWR_FOR_GAIN_LOCK_EXIT | DEC_PWR_FOR_LOCK_LEVEL | DEC_PWR_FOR_LOW_PWR | flag(
            gain.any(GainMode::HybridAgc),
            SLOW_ATTACK_HYBRID_MODE,
        ),
    );
    let c = claim(
        regs,
        from,
        Part::Modes,
        0x0FA,
        (ctrl.rx2_mode.code() * 4 + ctrl.rx1_mode.code()) as u8,
    );
    if keeps(regs, modes.e.link, from) {
        lemma_run_now(regs, noted, from, ops);
        lemma_effect_at(now(regs, from, e.link), ops, 0, 0x0FA);
        assert(is_lasting(0x0FA));
    }
    lemma_claim(c, modes.e.link);
}

/// The RF ports are set as asked for.
proof fn lemma_input_set(regs: Map<u16, u8>, from: int, e: EngineView, settings: Ad9361Settings)
    requires
        0 <= from <= e.link.sent.len(),
    ensures
        ({
            let set = e.rf_port_setup(settings.rf_rx_input_sel, settings.rf_tx_output_b);
            set.err is None ==> ok(
                claim(
                    regs,
                    from,
                    Part::Input,
                    0x004,
                    (settings.rf_rx_input_sel.select() + (if settings.rf_tx_output_b {
                        64int
                    } else {
                        0
                    })) as u8,
                ),
                set.e.link,
            )
        }),
{
    reveal(EngineView::rf_port_setup);
    let select = settings.rf_rx_input_sel.select();
    let byte = select | flag(settings.rf_tx_output_b, TX_OUTPUT);
    assert(select < 64 ==> select | 0x40 == select + 64 && select | 0 == select) by (bit_vector);
    let op = put(INPUT_SELECT, byte);
    let set = e.run([op]@);
    lemma_flow_extends(e.start(), [op]@);
    if keeps(regs, set.e.link, from) {
        lemma_run_now(regs, e, from, [op]@);
        lemma_short_programs(now(regs, from, e.link), op, op);
        assert(is_lasting(0x004));
        lemma_low_nibble(now(regs, from, set.e.link)[0x004]);
    }
    if set.err is None {
        lemma_claim(claim(regs, from, Part::Input, 0x004, byte), set.e.link);
    }
}

/// The filters are set for half of the bandwidths of the settings.
proof fn lemma_calibrations_set(
    regs: Map<u16, u8>,
    from: int,
    e: EngineView,
    settings: Ad9361Settings,
)
    requires
        0 <= from <= e.link.sent.len(),
        e.setup_calibrations(settings).err is None,
        e.state.v.cal.current_rx_bw.raw == settings.rf_rx_bandwidth.hz(),
        e.state.v.cal.current_tx_bw.raw == settings.rf_tx_bandwidth.hz(),
    ensures
        filters_claimed(
            regs,
            from,
            e.setup_calibrations(settings).e.link,
            settings.rf_rx_bandwidth.hz() / 2,
            settings.rf_tx_bandwidth.hz() / 2,
            e.state.v.clk.rates.bbpll.raw,
        ),
{
    broadcast use {
        crate::kept::calibration::leaves_bb_dc_offset_calib,
        crate::kept::calibration::leaves_rf_dc_offset_calib,
        crate::kept::calibration::leaves_filter_calibs,
        crate::kept::calibration::leaves_tracking_control,
        crate::kept::ports::leaves_pp_port_restore_conf3,
        crate::frame::spares_filter_calibs,
    };

    reveal(EngineView::setup_calibrations);
    reveal(EngineView::calibrate_offsets);
    let rx = HertzU32 { raw: settings.rf_rx_bandwidth.hz() / 2 };
    let tx = HertzU32 { raw: settings.rf_tx_bandwidth.hz() / 2 };
    let filters = e.filter_calibs(rx, tx);
    lemma_filters_set(regs, from, e, rx, tx);
    let lo = filters.e.state.v.clk.rates.rx_rfpll.raw;
    let bb = filters.e.bb_dc_offset_calib();
    let rf = bb.rf_dc_offset_calib(lo);
    assert(bb.e.state == filters.e.state && rf.e.state == filters.e.state) by {
        broadcast use {crate::gain_rows::gain_of_run, crate::gain_rows::gain_of_poll};

        reveal(EngineView::bb_dc_offset_calib);
        reveal(EngineView::rf_dc_offset_calib);
        reveal(EngineView::run_calibration);
    }
    assert(filters_claimed(regs, from, rf.e.link, rx.raw, tx.raw, e.state.v.clk.rates.bbpll.raw));
    assert(from <= rf.e.link.sent.len()) by {
        reveal(ok);
    }
    lemma_filters_after_quad(regs, from, rf.e, rx.raw, tx.raw, RxPhase::Auto);
}

/// The setup leaves the chip as the settings say: the gain modes of both channels, the RF input and
/// output, and the baseband filters for half of the RF bandwidths off the BBPLL rate that the
/// clocks were set to.
pub proof fn law_setup_follows_the_settings(
    regs: Map<u16, u8>,
    e: EngineView,
    config: Ad9361Config,
)
    requires
        e.state.v.cal.current_rx_bw.raw == config.spec_settings().rf_rx_bandwidth.hz(),
        e.state.v.cal.current_tx_bw.raw == config.spec_settings().rf_tx_bandwidth.hz(),
        e.setup(config).err is None,
        keeps(regs, e.setup(config).e.link, e.link.sent.len() as int),
    ensures
        ({
            let settings = config.spec_settings();
            let then = now(regs, e.link.sent.len() as int, e.setup(config).e.link);
            let clocks = e.setup_clocks(settings, config.spec_bbpll_ref());
            let bbpll = clocks.setup_ports(settings, config.spec_ref_clk()).setup_rf(
                settings,
                config.spec_synth_ref(),
            ).e.state.v.clk.rates.bbpll.raw as int;
            &&& mode_field(then, Channel::Ch1) == mode_number(settings.gain_ctrl.rx1_mode)
            &&& mode_field(then, Channel::Ch2) == mode_number(settings.gain_ctrl.rx2_mode)
            &&& input_pins(then) == settings.rf_rx_input_sel.select()
            &&& then[0x004] >= 64 <==> settings.rf_tx_output_b
            &&& rx_filter_is(then, settings.rf_rx_bandwidth.hz() as int / 2, bbpll)
            &&& tx_filter_is(then, settings.rf_tx_bandwidth.hz() as int / 2, bbpll)
        }),
{
    broadcast use {
        crate::kept::setup::leaves_setup_clocks,
        crate::kept::setup::leaves_setup_ports,
        crate::kept::setup::leaves_setup_rf,
        crate::kept::setup::leaves_setup_calibrations,
        crate::kept::control::leaves_set_ensm_mode,
        crate::kept::setup::leaves_setup_attenuation,
        crate::kept::setup::leaves_setup_monitors,
        crate::kept::setup::leaves_start_running,
    };

    reveal(EngineView::setup);
    let from = e.link.sent.len() as int;
    let settings = config.spec_settings();
    lemma_goes_on(regs, from);
    let clocks = e.setup_clocks(settings, config.spec_bbpll_ref());
    let ports = clocks.setup_ports(settings, config.spec_ref_clk());
    let rf = ports.setup_rf(settings, config.spec_synth_ref());
    let cal = rf.setup_calibrations(settings);
    let end = e.setup(config).e;
    assert(clocks.err is None && ports.err is None && rf.err is None && cal.err is None);
    assert(from <= clocks.e.link.sent.len() && from <= ports.e.link.sent.len() && from
        <= rf.e.link.sent.len() && from <= cal.e.link.sent.len());
    lemma_ports_claim(regs, from, clocks.e, settings, config);
    lemma_rf_modes(regs, from, ports.e, settings, config.spec_synth_ref());
    lemma_calibrations_set(regs, from, rf.e, settings);
    let bbpll = rf.e.state.v.clk.rates.bbpll.raw;
    let modes = claim(
        regs,
        from,
        Part::Modes,
        0x0FA,
        (settings.gain_ctrl.rx2_mode.code() * 4 + settings.gain_ctrl.rx1_mode.code()) as u8,
    );
    let input = claim(
        regs,
        from,
        Part::Input,
        0x004,
        (settings.rf_rx_input_sel.select() + (if settings.rf_tx_output_b {
            64int
        } else {
            0
        })) as u8,
    );
    assert(ok(modes, end.link) && ok(input, end.link));
    assert(filters_claimed(
        regs,
        from,
        end.link,
        settings.rf_rx_bandwidth.hz() / 2,
        settings.rf_tx_bandwidth.hz() / 2,
        bbpll,
    ));
    lemma_filters_are(
        regs,
        from,
        end.link,
        settings.rf_rx_bandwidth.hz() / 2,
        settings.rf_tx_bandwidth.hz() / 2,
        bbpll,
    );
    lemma_claimed(modes, end.link);
    lemma_claimed(input, end.link);
    lemma_low_nibble(now(regs, from, end.link)[0x0FA]);
    lemma_low_nibble(now(regs, from, end.link)[0x004]);
}

proof fn lemma_rf_modes(
    regs: Map<u16, u8>,
    from: int,
    e: EngineView,
    settings: Ad9361Settings,
    synth_ref: HertzU32,
)
    requires
        0 <= from <= e.link.sent.len(),
        e.setup_rf(settings, synth_ref).err is None,
    ensures
        ok(
            claim(
                regs,
                from,
                Part::Modes,
                0x0FA,
                (settings.gain_ctrl.rx2_mode.code() * 4 + settings.gain_ctrl.rx1_mode.code()) as u8,
            ),
            e.setup_rf(settings, synth_ref).e.link,
        ),
{
    broadcast use {
        crate::kept::clocks::leaves_set_clock_rate,
        crate::kept::synth::leaves_txrx_synth_cp_calib,
        crate::kept::gain_control::leaves_write_gain_table,
        crate::kept::synth::leaves_set_rfpll_rate,
        crate::kept::gain_control::leaves_load_mixer_gm_subtable,
    };

    reveal(EngineView::setup_rf);
    let table = e.state.v.gain.current_table;
    let before = e.set_clock_rate(Ad9361Clock::RxRef, synth_ref).set_clock_rate(
        Ad9361Clock::TxRef,
        synth_ref,
    ).txrx_synth_cp_calib(synth_ref, false).txrx_synth_cp_calib(synth_ref, true).write_gain_table(
        table,
        GainTableDest::Both,
    ).set_rfpll_rate(false, HertzU64 { raw: settings.rx_synth_freq.hz() }).set_rfpll_rate(
        true,
        HertzU64 { raw: settings.tx_synth_freq.hz() },
    ).load_mixer_gm_subtable();
    let any = claim(regs, from, Part::Dcxo, 0x292, now(regs, from, e.link)[0x292] & 0xFF);
    lemma_claim(any, e.link);
    assert(ok(any, before.e.link));
    assert(from <= before.e.link.sent.len()) by {
        reveal(ok);
    }
    lemma_modes_set(regs, from, before.e, settings.gain_ctrl);
}

proof fn lemma_ports_claim(
    regs: Map<u16, u8>,
    from: int,
    e: EngineView,
    settings: Ad9361Settings,
    config: Ad9361Config,
)
    requires
        0 <= from <= e.link.sent.len(),
        e.setup_ports(settings, config.spec_ref_clk()).err is None,
    ensures
        ok(
            claim(
                regs,
                from,
                Part::Input,
                0x004,
                (settings.rf_rx_input_sel.select() + (if settings.rf_tx_output_b {
                    64int
                } else {
                    0
                })) as u8,
            ),
            e.setup_ports(settings, config.spec_ref_clk()).e.link,
        ),
{
    broadcast use {
        crate::kept::ports::leaves_set_tx_channels,
        crate::kept::ports::leaves_set_rx_channels,
        crate::kept::ports::leaves_pp_port_setup,
        crate::kept::ports::leaves_auxadc_setup,
        crate::kept::ports::leaves_ctrl_outs_setup,
        crate::kept::ports::leaves_set_ref_clk_cycles,
        crate::kept::ports::leaves_setup_ext_lna,
    };

    reveal(EngineView::setup_ports);
    let tx = tx_in_use(settings.channels);
    let rx = rx_in_use(settings.channels);
    let on = e.set_tx_channels(tx.0, tx.1).set_rx_channels(rx.0, rx.1);
    let any = claim(regs, from, Part::Dcxo, 0x292, now(regs, from, e.link)[0x292] & 0xFF);
    lemma_claim(any, e.link);
    assert(ok(any, on.e.link));
    assert(from <= on.e.link.sent.len()) by {
        reveal(ok);
    }
    lemma_input_set(regs, from, on.e, settings);
}

/// The attenuation of a TX channel in quarters of a decibel.
pub open spec fn attenuation_of(regs: Map<u16, u8>, channel: Channel) -> int {
    match channel {
        Channel::Ch1 => regs[0x074] * 256 + regs[0x073],
        Channel::Ch2 => regs[0x076] * 256 + regs[0x075],
    }
}

/// The attenuation of a channel is claimed.
spec fn atten_claimed(
    regs: Map<u16, u8>,
    from: int,
    t: Trace,
    channel: Channel,
    steps: int,
) -> bool {
    let high = match channel {
        Channel::Ch1 => 0x074u16,
        Channel::Ch2 => 0x076u16,
    };
    &&& ok(claim(regs, from, Part::Attenuation, high, (steps / 256) as u8), t)
    &&& ok(claim(regs, from, Part::Attenuation, (high - 1) as u16, (steps % 256) as u8), t)
}

proof fn lemma_atten_claim(
    regs: Map<u16, u8>,
    from: int,
    t: Trace,
    channel: Channel,
    steps: int,
)
    requires
        0 <= from <= t.sent.len(),
        0 <= steps < 65536,
        keeps(regs, t, from) ==> attenuation_of(now(regs, from, t), channel) == steps,
    ensures
        atten_claimed(regs, from, t, channel, steps),
{
    let then = now(regs, from, t);
    lemma_low_nibble(then[0x073]);
    lemma_low_nibble(then[0x074]);
    lemma_low_nibble(then[0x075]);
    lemma_low_nibble(then[0x076]);
    let high = match channel {
        Channel::Ch1 => 0x074u16,
        Channel::Ch2 => 0x076u16,
    };
    lemma_claim(claim(regs, from, Part::Attenuation, high, (steps / 256) as u8), t);
    lemma_claim(claim(regs, from, Part::Attenuation, (high - 1) as u16, (steps % 256) as u8), t);
}

proof fn lemma_atten_claimed(
    regs: Map<u16, u8>,
    from: int,
    t: Trace,
    channel: Channel,
    steps: int,
)
    requires
        0 <= steps < 65536,
        atten_claimed(regs, from, t, channel, steps),
    ensures
        0 <= from <= t.sent.len(),
        keeps(regs, t, from) ==> attenuation_of(now(regs, from, t), channel) == steps,
{
    let then = now(regs, from, t);
    lemma_low_nibble(then[0x073]);
    lemma_low_nibble(then[0x074]);
    lemma_low_nibble(then[0x075]);
    lemma_low_nibble(then[0x076]);
    reveal(ok);
}

proof fn lemma_two_bytes(steps: u16)
    ensures
        bytes_of(steps as u64 as nat, 2) == seq![(steps / 256) as u8, (steps % 256) as u8],
{
    reveal_with_fuel(bytes_of, 3);
    assert(bytes_of(steps as u64 as nat, 2) =~= seq![(steps / 256) as u8, (steps % 256) as u8]);
}

/// Writing the attenuation of one channel sets that and leaves the other.
proof fn lemma_one_atten(
    regs: Map<u16, u8>,
    from: int,
    e: EngineView,
    channel: Channel,
    steps: u16,
    other: Channel,
    kept: int,
)
    requires
        0 <= from <= e.link.sent.len(),
        other != channel,
        0 <= kept < 65536,
    ensures
        ({
            let addr = match channel {
                Channel::Ch1 => TX1_ATTEN1,
                Channel::Ch2 => TX2_ATTEN1,
            };
            let end = e.run([Op::Burst { addr, len: 2, data: steps as u64 }]@).e.link;
            &&& from <= end.sent.len()
            &&& atten_claimed(regs, from, end, channel, steps as int)
            &&& atten_claimed(regs, from, e.link, other, kept) ==> atten_claimed(
                regs,
                from,
                end,
                other,
                kept,
            )
        }),
{
    let addr = match channel {
        Channel::Ch1 => TX1_ATTEN1,
        Channel::Ch2 => TX2_ATTEN1,
    };
    let op = Op::Burst { addr, len: 2, data: steps as u64 };
    let end = e.run([op]@).e.link;
    lemma_flow_extends(e.start(), [op]@);
    let old = now(regs, from, e.link);
    let had = atten_claimed(regs, from, e.link, other, kept);
    if keeps(regs, end, from) {
        lemma_run_now(regs, e, from, [op]@);
        lemma_short_programs(old, op, op);
        lemma_two_bytes(steps);
        let bytes = bytes_of(steps as u64 as nat, 2);
        lemma_written(old, addr, bytes);
        let set = written(old, addr, bytes);
        assert(set[(addr - 0) as u16] == bytes[0] && set[(addr - 1) as u16] == bytes[1]);
        assert(is_lasting(0x073) && is_lasting(0x074) && is_lasting(0x075) && is_lasting(0x076));
        if had {
            lemma_atten_claimed(regs, from, e.link, other, kept);
        }
    }
    lemma_atten_claim(regs, from, end, channel, steps as int);
    if had {
        lemma_atten_claim(regs, from, end, other, kept);
    }
}

/// Setting attenuations sets those of the channels asked for, and leaves the others.
proof fn lemma_attens_set(
    regs: Map<u16, u8>,
    from: int,
    e: EngineView,
    atten: TxAttenuation,
    tx1: bool,
    tx2: bool,
    kept: int,
)
    requires
        0 <= from <= e.link.sent.len(),
        0 <= kept < 65536,
        e.set_tx_atten(atten, tx1, tx2, true).err is None,
    ensures
        ({
            let end = e.set_tx_atten(atten, tx1, tx2, true).e.link;
            let steps = atten.steps() as int;
            &&& from <= end.sent.len()
            &&& tx1 ==> atten_claimed(regs, from, end, Channel::Ch1, steps)
            &&& tx2 ==> atten_claimed(regs, from, end, Channel::Ch2, steps)
            &&& !tx1 && atten_claimed(regs, from, e.link, Channel::Ch1, kept) ==> atten_claimed(
                regs,
                from,
                end,
                Channel::Ch1,
                kept,
            )
            &&& !tx2 && atten_claimed(regs, from, e.link, Channel::Ch2, kept) ==> atten_claimed(
                regs,
                from,
                end,
                Channel::Ch2,
                kept,
            )
        }),
{
    broadcast use crate::kept::leaves_run;

    reveal(EngineView::set_tx_atten);
    let steps = atten.steps();
    let off = update(TX2_DIG_ATTEN, IMMEDIATELY_UPDATE_TPC_ATTEN, 0);
    let on = update(TX2_DIG_ATTEN, IMMEDIATELY_UPDATE_TPC_ATTEN, IMMEDIATELY_UPDATE_TPC_ATTEN);
    let held = e.run([off]@);
    lemma_flow_extends(e.start(), [off]@);
    let one = Op::Burst { addr: TX1_ATTEN1, len: 2, data: steps as u64 };
    let two = Op::Burst { addr: TX2_ATTEN1, len: 2, data: steps as u64 };
    let first = if tx1 {
        held.run([one]@)
    } else {
        held
    };
    if tx1 {
        lemma_one_atten(regs, from, held.e, Channel::Ch1, steps, Channel::Ch2, kept);
    }
    if tx2 {
        lemma_one_atten(regs, from, first.e, Channel::Ch2, steps, Channel::Ch1, kept);
        lemma_one_atten(regs, from, first.e, Channel::Ch2, steps, Channel::Ch1, steps as int);
    }
    let second = if tx2 {
        first.run([two]@)
    } else {
        first
    };
    lemma_flow_extends(second, [on]@);
}

/// The setup sets the attenuation of the channels in use as asked for, and mutes the one that isn't.
pub proof fn law_setup_attenuates(
    regs: Map<u16, u8>,
    e: EngineView,
    settings: Ad9361Settings,
    channel: Channel,
)
    requires
        e.state.v.mode.rx2tx2 <==> settings.channels is TwoByTwo,
        e.setup_attenuation(settings).err is None,
        keeps(regs, e.setup_attenuation(settings).e.link, e.link.sent.len() as int),
    ensures
        ({
            let then = now(
                regs,
                e.link.sent.len() as int,
                e.setup_attenuation(settings).e.link,
            );
            attenuation_of(then, channel) == (match settings.channels {
                ChannelMode::TwoByTwo => settings.tx_attenuation.steps() as int,
                ChannelMode::OneByOne { tx, .. } => if tx == channel {
                    settings.tx_attenuation.steps() as int
                } else {
                    359
                },
            })
        }),
{
    reveal(EngineView::setup_attenuation);
    let from = e.link.sent.len() as int;
    let ops = [update(TX_ATTEN_OFFSET, MASK_CLR_ATTEN_UPDATE, 0)]@;
    let ready = e.run(ops);
    lemma_flow_extends(e.start(), ops);
    let tx = tx_in_use(settings.channels);
    let atten = settings.tx_attenuation;
    let steps = atten.steps() as int;
    let set = ready.set_tx_atten(atten, tx.0, tx.1, true);
    let end = e.setup_attenuation(settings).e.link;
    lemma_attens_set(regs, from, ready.e, atten, tx.0, tx.1, 0);
    let most = saturated(MAX_QUARTER_DB);
    assert(most.steps() == 359) by {
        lemma_saturated(MAX_QUARTER_DB);
    }
    if !e.state.v.mode.rx2tx2 {
        lemma_attens_set(regs, from, set.e, most, tx.1, tx.0, steps);
    }
    let wanted = match settings.channels {
        ChannelMode::TwoByTwo => steps,
        ChannelMode::OneByOne { tx, .. } => if tx == channel {
            steps
        } else {
            359
        },
    };
    lemma_atten_claimed(regs, from, end, channel, wanted);
}

} // verus!
