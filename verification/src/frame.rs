//! What operations leave alone: none of the ones that set clocks, tune or calibrate changes which
//! FIRs are on, and only the ones that set clocks change the cached rates.
use vstd::prelude::*;

use crate::calibration::{AdcInputs, QuadPlan, RxPhase, TX_QUAD_CONVERGED, TrackingConfig};
use crate::clock_chain::PathClocks;
use crate::clocks::{Ad9361Clock, ClockMulDiv};
use crate::control::{ForcedEnsmState, SavedEnsmState};
use crate::dig_tune::{BistLoopback, BistMode, DigTuneFlags, SavedChannel};
use crate::engine::EngineView;
use crate::link::{AxiRequest, Op, Request, wait};
use crate::monitor::RssiConfiguration;
use crate::ports::AuxAdcConfig;
use crate::state::EngineState;
use crate::units::{HertzU32, TxAttenuation};

verus! {

/// The same FIRs are loaded, and the same ones bypassed.
pub open spec fn same_firs(a: EngineState, b: EngineState) -> bool {
    b.fir == a.fir
}

/// The same rates are cached.
pub open spec fn same_rates(a: EngineState, b: EngineState) -> bool {
    b.clk.rates == a.clk.rates
}

pub broadcast proof fn spares_exchange(e: EngineView, request: Request)
    ensures
        same_firs(e.state.v, (#[trigger] e.exchange(request)).e.state.v),
        same_rates(e.state.v, e.exchange(request).e.state.v),
{
    reveal(EngineView::exchange);
}

pub broadcast proof fn spares_read(e: EngineView, addr: u16)
    ensures
        same_firs(e.state.v, (#[trigger] e.read(addr)).e.state.v),
        same_rates(e.state.v, e.read(addr).e.state.v),
{
    broadcast use spares_exchange;

    reveal(EngineView::read);
}

pub broadcast proof fn spares_ensm_state(e: EngineView)
    ensures
        same_firs(e.state.v, (#[trigger] e.ensm_state()).e.state.v),
        same_rates(e.state.v, e.ensm_state().e.state.v),
{
    broadcast use spares_read;

    reveal(EngineView::ensm_state);
}

pub broadcast proof fn spares_run(e: EngineView, ops: Seq<Op>)
    ensures
        same_firs(e.state.v, (#[trigger] e.run(ops)).e.state.v),
        same_rates(e.state.v, e.run(ops).e.state.v),
{
    reveal(EngineView::run);
}

pub broadcast proof fn spares_ensm_settle(e: EngineView, want: u8, polls: nat)
    ensures
        same_firs(e.state.v, (#[trigger] e.ensm_settle(want, polls)).e.state.v),
        same_rates(e.state.v, e.ensm_settle(want, polls).e.state.v),
    decreases polls,
{
    broadcast use {
        spares_ensm_state,
        spares_run,
    };

    reveal(EngineView::ensm_settle);
    if polls > 0 {
        let mid = e.ensm_state().e.run([wait(1000)]@);
        spares_ensm_settle(mid.e, want, (polls - 1) as nat);
    }
}

pub broadcast proof fn spares_ensm_force_state(e: EngineView, state: ForcedEnsmState)
    ensures
        same_firs(e.state.v, (#[trigger] e.ensm_force_state(state)).e.state.v),
        same_rates(e.state.v, e.ensm_force_state(state).e.state.v),
{
    broadcast use {
        spares_ensm_state,
        spares_ensm_settle,
        spares_read,
        spares_run,
    };

    reveal(EngineView::ensm_force_state);
}

pub broadcast proof fn spares_ensm_restore_state(e: EngineView, saved: SavedEnsmState)
    ensures
        same_firs(e.state.v, (#[trigger] e.ensm_restore_state(saved)).e.state.v),
        same_rates(e.state.v, e.ensm_restore_state(saved).e.state.v),
{
    broadcast use {
        spares_read,
        spares_run,
    };

    reveal(EngineView::ensm_restore_state);
}

pub broadcast proof fn spares_read_clock_scaler(e: EngineView, clock: Ad9361Clock)
    ensures
        same_firs(e.state.v, (#[trigger] e.read_clock_scaler(clock)).e.state.v),
        same_rates(e.state.v, e.read_clock_scaler(clock).e.state.v),
{
    broadcast use spares_read;

    reveal(EngineView::read_clock_scaler);
}

pub broadcast proof fn spares_read_bbpll_clock_scaler(e: EngineView)
    ensures
        same_firs(e.state.v, (#[trigger] e.read_bbpll_clock_scaler()).e.state.v),
        same_rates(e.state.v, e.read_bbpll_clock_scaler().e.state.v),
{
    broadcast use spares_exchange;

    reveal(EngineView::read_bbpll_clock_scaler);
}

pub broadcast proof fn spares_set_clock_scaler(
    e: EngineView,
    clock: Ad9361Clock,
    ratio: ClockMulDiv,
)
    ensures
        same_firs(e.state.v, (#[trigger] e.set_clock_scaler(clock, ratio)).e.state.v),
        same_rates(e.state.v, e.set_clock_scaler(clock, ratio).e.state.v),
{
    broadcast use spares_run;

    reveal(EngineView::set_clock_scaler);
}

pub broadcast proof fn spares_set_clock_rate(e: EngineView, clock: Ad9361Clock, rate: HertzU32)
    ensures
        same_firs(e.state.v, (#[trigger] e.set_clock_rate(clock, rate)).e.state.v),
{
    broadcast use {
        spares_read_clock_scaler,
        spares_set_clock_scaler,
    };

    reveal(EngineView::set_clock_rate);
}

pub broadcast proof fn spares_set_path_rates(e: EngineView, rx: PathClocks, tx: PathClocks)
    ensures
        same_firs(e.state.v, (#[trigger] e.set_path_rates(rx, tx)).e.state.v),
{
    broadcast use spares_set_clock_rate;

    reveal(EngineView::set_path_rates);
}

pub broadcast proof fn spares_refresh_unit_firs(e: EngineView)
    ensures
        same_firs(e.state.v, (#[trigger] e.refresh_unit_firs()).e.state.v),
        same_rates(e.state.v, e.refresh_unit_firs().e.state.v),
{
    broadcast use spares_run;

    reveal(EngineView::refresh_unit_firs);
}

pub broadcast proof fn spares_poll(
    e: EngineView,
    addr: u16,
    mask: u8,
    value: u8,
    period_us: u64,
    polls: nat,
)
    ensures
        same_firs(e.state.v, (#[trigger] e.poll(addr, mask, value, period_us, polls)).e.state.v),
        same_rates(e.state.v, e.poll(addr, mask, value, period_us, polls).e.state.v),
    decreases polls,
{
    broadcast use {
        spares_read,
        spares_run,
    };

    reveal(EngineView::poll);
    if polls > 0 {
        let mid = e.read(addr).e.run([wait(period_us)]@);
        spares_poll(mid.e, addr, mask, value, period_us, (polls - 1) as nat);
    }
}

pub broadcast proof fn spares_program_bbpll(e: EngineView, rate: HertzU32, parent: HertzU32)
    ensures
        same_firs(e.state.v, (#[trigger] e.program_bbpll(rate, parent)).e.state.v),
        same_rates(e.state.v, e.program_bbpll(rate, parent).e.state.v),
{
    broadcast use {
        spares_run,
        spares_poll,
    };

    reveal(EngineView::program_bbpll);
}

pub broadcast proof fn spares_set_bbpll_rate(e: EngineView, rate: HertzU32)
    ensures
        same_firs(e.state.v, (#[trigger] e.set_bbpll_rate(rate)).e.state.v),
{
    broadcast use {
        spares_read_bbpll_clock_scaler,
        spares_program_bbpll,
    };

    reveal(EngineView::set_bbpll_rate);
}

pub broadcast proof fn spares_apply_trx_clock_chain(e: EngineView, rx: PathClocks, tx: PathClocks)
    ensures
        same_firs(e.state.v, (#[trigger] e.apply_trx_clock_chain(rx, tx)).e.state.v),
{
    broadcast use {
        spares_set_path_rates,
        spares_refresh_unit_firs,
        spares_set_bbpll_rate,
    };

    reveal(EngineView::apply_trx_clock_chain);
}

pub broadcast proof fn spares_gc_update(e: EngineView)
    ensures
        same_firs(e.state.v, (#[trigger] e.gc_update()).e.state.v),
        same_rates(e.state.v, e.gc_update().e.state.v),
{
    broadcast use spares_run;

    reveal(EngineView::gc_update);
}

pub broadcast proof fn spares_rssi_setup(e: EngineView, ctrl: RssiConfiguration, is_update: bool)
    ensures
        same_firs(e.state.v, (#[trigger] e.rssi_setup(ctrl, is_update)).e.state.v),
        same_rates(e.state.v, e.rssi_setup(ctrl, is_update).e.state.v),
{
    broadcast use spares_run;

    reveal(EngineView::rssi_setup);
}

pub broadcast proof fn spares_auxadc_setup(e: EngineView, config: AuxAdcConfig)
    ensures
        same_firs(e.state.v, (#[trigger] e.auxadc_setup(config)).e.state.v),
        same_rates(e.state.v, e.auxadc_setup(config).e.state.v),
{
    broadcast use spares_run;

    reveal(EngineView::auxadc_setup);
}

pub broadcast proof fn spares_bb_clk_update(e: EngineView)
    ensures
        same_firs(e.state.v, (#[trigger] e.bb_clk_update()).e.state.v),
        same_rates(e.state.v, e.bb_clk_update().e.state.v),
{
    broadcast use {
        spares_gc_update,
        spares_rssi_setup,
        spares_auxadc_setup,
    };

    reveal(EngineView::bb_clk_update);
}

pub broadcast proof fn spares_save_ensm_state(e: EngineView)
    ensures
        same_firs(e.state.v, (#[trigger] e.save_ensm_state()).e.state.v),
        same_rates(e.state.v, e.save_ensm_state().e.state.v),
{
    broadcast use spares_ensm_state;

    reveal(EngineView::save_ensm_state);
}

pub broadcast proof fn spares_set_ensm_mode(e: EngineView, fdd: bool, pinctrl: bool)
    ensures
        same_firs(e.state.v, (#[trigger] e.set_ensm_mode(fdd, pinctrl)).e.state.v),
        same_rates(e.state.v, e.set_ensm_mode(fdd, pinctrl).e.state.v),
{
    broadcast use {
        spares_read,
        spares_run,
    };

    reveal(EngineView::set_ensm_mode);
}

pub broadcast proof fn spares_set_tx_channels(e: EngineView, tx1: bool, tx2: bool)
    ensures
        same_firs(e.state.v, (#[trigger] e.set_tx_channels(tx1, tx2)).e.state.v),
        same_rates(e.state.v, e.set_tx_channels(tx1, tx2).e.state.v),
{
    broadcast use spares_run;

    reveal(EngineView::set_tx_channels);
}

pub broadcast proof fn spares_int_loopback_fix_ch_cross(e: EngineView, enable: bool)
    ensures
        same_firs(e.state.v, (#[trigger] e.int_loopback_fix_ch_cross(enable)).e.state.v),
        same_rates(e.state.v, e.int_loopback_fix_ch_cross(enable).e.state.v),
{
    broadcast use spares_set_tx_channels;

    reveal(EngineView::int_loopback_fix_ch_cross);
}

pub broadcast proof fn spares_loop_channel(e: EngineView, enable: bool, chan: u8)
    ensures
        same_firs(e.state.v, (#[trigger] e.loop_channel(enable, chan)).e.state.v),
        same_rates(e.state.v, e.loop_channel(enable, chan).e.state.v),
{
    broadcast use {
        spares_exchange,
        spares_run,
    };

    reveal(EngineView::loop_channel);
}

pub broadcast proof fn spares_hdl_loopback(e: EngineView, enable: bool)
    ensures
        same_firs(e.state.v, (#[trigger] e.hdl_loopback(enable)).e.state.v),
        same_rates(e.state.v, e.hdl_loopback(enable).e.state.v),
{
    broadcast use spares_loop_channel;

    reveal(EngineView::hdl_loopback);
}

pub broadcast proof fn spares_bist_loopback(e: EngineView, mode: BistLoopback)
    ensures
        same_firs(e.state.v, (#[trigger] e.bist_loopback(mode)).e.state.v),
        same_rates(e.state.v, e.bist_loopback(mode).e.state.v),
{
    broadcast use {
        spares_int_loopback_fix_ch_cross,
        spares_hdl_loopback,
        spares_read,
        spares_run,
    };

    reveal(EngineView::bist_loopback);
}

pub broadcast proof fn spares_set_tx_atten(
    e: EngineView,
    atten: TxAttenuation,
    tx1: bool,
    tx2: bool,
    immed: bool,
)
    ensures
        same_firs(e.state.v, (#[trigger] e.set_tx_atten(atten, tx1, tx2, immed)).e.state.v),
        same_rates(e.state.v, e.set_tx_atten(atten, tx1, tx2, immed).e.state.v),
{
    broadcast use spares_run;

    reveal(EngineView::set_tx_atten);
}

pub broadcast proof fn spares_tx_atten(e: EngineView, tx2: bool)
    ensures
        same_firs(e.state.v, (#[trigger] e.tx_atten(tx2)).e.state.v),
        same_rates(e.state.v, e.tx_atten(tx2).e.state.v),
{
    broadcast use spares_exchange;

    reveal(EngineView::tx_atten);
}

pub broadcast proof fn spares_tx_mute(e: EngineView, mute: bool)
    ensures
        same_firs(e.state.v, (#[trigger] e.tx_mute(mute)).e.state.v),
        same_rates(e.state.v, e.tx_mute(mute).e.state.v),
{
    broadcast use {
        spares_set_tx_atten,
        spares_tx_atten,
    };

    reveal(EngineView::tx_mute);
}

pub broadcast proof fn spares_bist_prbs(e: EngineView, mode: BistMode)
    ensures
        same_firs(e.state.v, (#[trigger] e.bist_prbs(mode)).e.state.v),
        same_rates(e.state.v, e.bist_prbs(mode).e.state.v),
{
    broadcast use spares_run;

    reveal(EngineView::bist_prbs);
}

pub broadcast proof fn spares_set_intf_delay(
    e: EngineView,
    tx: bool,
    clock_delay: u8,
    data_delay: u8,
    clock_changed: bool,
)
    ensures
        same_firs(
            e.state.v,
            (#[trigger] e.set_intf_delay(tx, clock_delay, data_delay, clock_changed)).e.state.v,
        ),
        same_rates(
            e.state.v,
            e.set_intf_delay(tx, clock_delay, data_delay, clock_changed).e.state.v,
        ),
{
    broadcast use {
        spares_ensm_force_state,
        spares_run,
    };

    reveal(EngineView::set_intf_delay);
}

pub broadcast proof fn spares_clear_pn(e: EngineView, delay_ms: u64)
    ensures
        same_firs(e.state.v, (#[trigger] e.clear_pn(delay_ms)).e.state.v),
        same_rates(e.state.v, e.clear_pn(delay_ms).e.state.v),
{
    broadcast use {
        spares_exchange,
        spares_run,
    };

    reveal(EngineView::clear_pn);
}

pub broadcast proof fn spares_pn_error_from(e: EngineView, chan: int, channels: int)
    ensures
        same_firs(e.state.v, (#[trigger] e.pn_error_from(chan, channels)).e.state.v),
        same_rates(e.state.v, e.pn_error_from(chan, channels).e.state.v),
    decreases channels - chan,
{
    broadcast use spares_exchange;

    if chan < channels {
        let mid = e.axi(AxiRequest::AdcReadChannelStatus { chan: chan as u8 });
        spares_pn_error_from(mid.e, chan + 1, channels);
    }
}

pub broadcast proof fn spares_check_pn(e: EngineView, tx: bool, delay_ms: u64)
    ensures
        same_firs(e.state.v, (#[trigger] e.check_pn(tx, delay_ms)).e.state.v),
        same_rates(e.state.v, e.check_pn(tx, delay_ms).e.state.v),
{
    broadcast use {
        spares_clear_pn,
        spares_pn_error_from,
        spares_exchange,
    };

    reveal(EngineView::check_pn);
}

pub broadcast proof fn spares_sweep_from(e: EngineView, tx: bool, far: bool, j: int, row: Seq<u8>)
    ensures
        same_firs(e.state.v, (#[trigger] e.sweep_from(tx, far, j, row)).e.state.v),
        same_rates(e.state.v, e.sweep_from(tx, far, j, row).e.state.v),
    decreases 16 - j,
{
    broadcast use {
        spares_check_pn,
        spares_set_intf_delay,
    };

    if j < 16 {
        let mid = e.set_intf_delay(
            tx,
            if far {
                15
            } else {
                0
            },
            if far {
                (15 - j) as u8
            } else {
                j as u8
            },
            j == 0,
        ).check_pn(tx, 4);
        let row = if mid.r->Ok_0 {
            row.update(j, 1)
        } else {
            row
        };
        spares_sweep_from(mid.e, tx, far, j + 1, row);
    }
}

pub broadcast proof fn spares_sweep(e: EngineView, tx: bool, far: bool, row: Seq<u8>)
    ensures
        same_firs(e.state.v, (#[trigger] e.sweep(tx, far, row)).e.state.v),
        same_rates(e.state.v, e.sweep(tx, far, row).e.state.v),
{
    broadcast use spares_sweep_from;

    reveal(EngineView::sweep);
}

pub broadcast proof fn spares_set_trx_clock_chain_freq_no_tune(e: EngineView, freq: HertzU32)
    ensures
        same_firs(e.state.v, (#[trigger] e.set_trx_clock_chain_freq_no_tune(freq)).e.state.v),
{
    broadcast use {
        spares_apply_trx_clock_chain,
        spares_bb_clk_update,
    };

    reveal(EngineView::set_trx_clock_chain_freq_no_tune);
}

pub broadcast proof fn spares_sweeps_from(
    e: EngineView,
    tx: bool,
    sweep: int,
    sweeps: int,
    half_data_rate: bool,
    near: Seq<u8>,
    far: Seq<u8>,
)
    ensures
        same_firs(
            e.state.v,
            (#[trigger] e.sweeps_from(tx, sweep, sweeps, half_data_rate, near, far)).e.state.v,
        ),
        sweeps <= 1 ==> same_rates(
            e.state.v,
            e.sweeps_from(tx, sweep, sweeps, half_data_rate, near, far).e.state.v,
        ),
    decreases sweeps - sweep,
{
    broadcast use {
        spares_sweep,
        spares_set_trx_clock_chain_freq_no_tune,
    };

    if sweep < sweeps {
        let first = e.at_sweep_rate(sweep as u8, sweeps > 1, half_data_rate).sweep(
            tx,
            false,
            near,
        );
        let mid = first.e.sweep(tx, true, far);
        spares_sweeps_from(
            mid.e,
            tx,
            sweep + 1,
            sweeps,
            half_data_rate,
            first.r->Ok_0,
            mid.r->Ok_0,
        );
    }
}

pub broadcast proof fn spares_dig_tune_delay(e: EngineView, max_freq: HertzU32, tx: bool)
    ensures
        same_firs(e.state.v, (#[trigger] e.dig_tune_delay(max_freq, tx)).e.state.v),
        max_freq.raw == 0 ==> same_rates(e.state.v, e.dig_tune_delay(max_freq, tx).e.state.v),
{
    broadcast use {
        spares_set_intf_delay,
        spares_sweeps_from,
    };

    reveal(EngineView::dig_tune_delay);
}

pub broadcast proof fn spares_dig_tune_rx(e: EngineView, max_freq: HertzU32)
    ensures
        same_firs(e.state.v, (#[trigger] e.dig_tune_rx(max_freq)).e.state.v),
        max_freq.raw == 0 ==> same_rates(e.state.v, e.dig_tune_rx(max_freq).e.state.v),
{
    broadcast use {
        spares_bist_prbs,
        spares_bist_loopback,
        spares_dig_tune_delay,
        spares_run,
    };

    reveal(EngineView::dig_tune_rx);
}

pub broadcast proof fn spares_restore_channel(e: EngineView, chan: u8, saved: SavedChannel)
    ensures
        same_firs(e.state.v, (#[trigger] e.restore_channel(chan, saved)).e.state.v),
        same_rates(e.state.v, e.restore_channel(chan, saved).e.state.v),
{
    broadcast use {
        spares_exchange,
        spares_run,
    };

    reveal(EngineView::restore_channel);
}

pub broadcast proof fn spares_restore_from(e: EngineView, saved: Seq<SavedChannel>, chan: int)
    ensures
        same_firs(e.state.v, (#[trigger] e.restore_from(saved, chan)).e.state.v),
        same_rates(e.state.v, e.restore_from(saved, chan).e.state.v),
    decreases saved.len() - chan,
{
    broadcast use spares_restore_channel;

    if chan < saved.len() {
        let mid = e.restore_channel(chan as u8, saved[chan]);
        spares_restore_from(mid.e, saved, chan + 1);
    }
}

pub broadcast proof fn spares_restore_channels(e: EngineView, saved: Seq<SavedChannel>)
    ensures
        same_firs(e.state.v, (#[trigger] e.restore_channels(saved)).e.state.v),
        same_rates(e.state.v, e.restore_channels(saved).e.state.v),
{
    broadcast use spares_restore_from;

    reveal(EngineView::restore_channels);
}

pub broadcast proof fn spares_prepare_channel(e: EngineView, chan: u8)
    ensures
        same_firs(e.state.v, (#[trigger] e.prepare_channel(chan)).e.state.v),
        same_rates(e.state.v, e.prepare_channel(chan).e.state.v),
{
    broadcast use {
        spares_exchange,
        spares_run,
    };

    reveal(EngineView::prepare_channel);
}

pub broadcast proof fn spares_prepare_from(e: EngineView, channels: int, saved: Seq<SavedChannel>)
    ensures
        same_firs(e.state.v, (#[trigger] e.prepare_from(channels, saved)).e.state.v),
        same_rates(e.state.v, e.prepare_from(channels, saved).e.state.v),
    decreases channels - saved.len(),
{
    broadcast use spares_prepare_channel;

    if saved.len() < channels {
        let mid = e.prepare_channel(saved.len() as u8);
        spares_prepare_from(mid.e, channels, saved.push(mid.r->Ok_0));
    }
}

pub broadcast proof fn spares_prepare_channels(e: EngineView)
    ensures
        same_firs(e.state.v, (#[trigger] e.prepare_channels()).e.state.v),
        same_rates(e.state.v, e.prepare_channels().e.state.v),
{
    broadcast use spares_prepare_from;

    reveal(EngineView::prepare_channels);
}

pub broadcast proof fn spares_dig_tune_tx(e: EngineView, max_freq: HertzU32)
    ensures
        same_firs(e.state.v, (#[trigger] e.dig_tune_tx(max_freq)).e.state.v),
        max_freq.raw == 0 ==> same_rates(e.state.v, e.dig_tune_tx(max_freq).e.state.v),
{
    broadcast use {
        spares_bist_prbs,
        spares_bist_loopback,
        spares_dig_tune_delay,
        spares_restore_channels,
        spares_prepare_channels,
        spares_run,
    };

    reveal(EngineView::dig_tune_tx);
}

pub broadcast proof fn spares_tune_muted(e: EngineView, max_freq: HertzU32)
    ensures
        same_firs(e.state.v, (#[trigger] e.tune_muted(max_freq)).e.state.v),
        max_freq.raw == 0 ==> same_rates(e.state.v, e.tune_muted(max_freq).e.state.v),
{
    broadcast use {
        spares_set_ensm_mode,
        spares_bist_loopback,
        spares_tx_mute,
        spares_dig_tune_rx,
        spares_dig_tune_tx,
        spares_run,
    };

    reveal(EngineView::tune_muted);
}

pub broadcast proof fn spares_restore_delays(e: EngineView)
    ensures
        same_firs(e.state.v, (#[trigger] e.restore_delays()).e.state.v),
        same_rates(e.state.v, e.restore_delays().e.state.v),
{
    broadcast use {
        spares_ensm_force_state,
        spares_run,
    };

    reveal(EngineView::restore_delays);
}

pub broadcast proof fn spares_store_delays(e: EngineView)
    ensures
        same_firs(e.state.v, (#[trigger] e.store_delays()).e.state.v),
        same_rates(e.state.v, e.store_delays().e.state.v),
{
    broadcast use spares_read;

    reveal(EngineView::store_delays);
}

pub broadcast proof fn spares_tune_finish(
    e: EngineView,
    restore: bool,
    store: bool,
    saved: SavedEnsmState,
)
    ensures
        same_firs(e.state.v, (#[trigger] e.tune_finish(restore, store, saved)).e.state.v),
        same_rates(e.state.v, e.tune_finish(restore, store, saved).e.state.v),
{
    broadcast use {
        spares_set_ensm_mode,
        spares_ensm_restore_state,
        spares_tx_mute,
        spares_restore_delays,
        spares_store_delays,
        spares_run,
    };

    reveal(EngineView::tune_finish);
}

pub broadcast proof fn spares_dig_tune(e: EngineView, max_freq: HertzU32, flags: DigTuneFlags)
    ensures
        same_firs(e.state.v, (#[trigger] e.dig_tune(max_freq, flags)).e.state.v),
        max_freq.raw == 0 ==> same_rates(e.state.v, e.dig_tune(max_freq, flags).e.state.v),
{
    broadcast use {
        spares_save_ensm_state,
        spares_tune_muted,
        spares_tune_finish,
    };

    reveal(EngineView::dig_tune);
}

pub broadcast proof fn spares_bb_clk_change_handler(e: EngineView)
    ensures
        same_firs(e.state.v, (#[trigger] e.bb_clk_change_handler()).e.state.v),
        same_rates(e.state.v, e.bb_clk_change_handler().e.state.v),
{
    broadcast use {
        spares_bb_clk_update,
        spares_dig_tune,
    };

    reveal(EngineView::bb_clk_change_handler);
}

pub broadcast proof fn spares_set_trx_clock_chain(e: EngineView, rx: PathClocks, tx: PathClocks)
    ensures
        same_firs(e.state.v, (#[trigger] e.set_trx_clock_chain(rx, tx)).e.state.v),
{
    broadcast use {
        spares_apply_trx_clock_chain,
        spares_bb_clk_change_handler,
        spares_dig_tune,
    };

    reveal(EngineView::set_trx_clock_chain);
}

pub broadcast proof fn spares_run_calibration(e: EngineView, mask: u8)
    ensures
        same_firs(e.state.v, (#[trigger] e.run_calibration(mask)).e.state.v),
        same_rates(e.state.v, e.run_calibration(mask).e.state.v),
{
    broadcast use {
        spares_run,
        spares_poll,
    };

    reveal(EngineView::run_calibration);
}

pub broadcast proof fn spares_tx_quad_calib_once(
    e: EngineView,
    phase: u8,
    rxnco_word: u8,
    decim: u8,
)
    ensures
        same_firs(e.state.v, (#[trigger] e.tx_quad_calib_once(phase, rxnco_word, decim)).e.state.v),
        same_rates(e.state.v, e.tx_quad_calib_once(phase, rxnco_word, decim).e.state.v),
{
    broadcast use {
        spares_run_calibration,
        spares_read,
        spares_run,
    };

    reveal(EngineView::tx_quad_calib_once);
}

pub broadcast proof fn spares_quad_trials_from(
    e: EngineView,
    i: int,
    failed: Seq<u8>,
    rxnco_word: u8,
    decim: u8,
)
    ensures
        same_firs(
            e.state.v,
            (#[trigger] e.quad_trials_from(i, failed, rxnco_word, decim)).e.state.v,
        ),
        same_rates(e.state.v, e.quad_trials_from(i, failed, rxnco_word, decim).e.state.v),
    decreases 32 - i,
{
    broadcast use spares_tx_quad_calib_once;

    if i < 32 {
        let mid = e.tx_quad_calib_once(i as u8, rxnco_word, decim);
        let failed = failed.push(
            if mid.r->Ok_0 == TX_QUAD_CONVERGED {
                0
            } else {
                1
            },
        );
        spares_quad_trials_from(mid.e, i + 1, failed, rxnco_word, decim);
    }
}

pub broadcast proof fn spares_tx_quad_phase_search(e: EngineView, rxnco_word: u8, decim: u8)
    ensures
        same_firs(e.state.v, (#[trigger] e.tx_quad_phase_search(rxnco_word, decim)).e.state.v),
        same_rates(e.state.v, e.tx_quad_phase_search(rxnco_word, decim).e.state.v),
{
    broadcast use {
        spares_tx_quad_calib_once,
        spares_quad_trials_from,
    };

    reveal(EngineView::tx_quad_phase_search);
}

pub broadcast proof fn spares_tx_quad_retry(e: EngineView, rxnco_word: u8, decim: u8)
    ensures
        same_firs(e.state.v, (#[trigger] e.tx_quad_retry(rxnco_word, decim)).e.state.v),
        same_rates(e.state.v, e.tx_quad_retry(rxnco_word, decim).e.state.v),
{
    broadcast use {
        spares_tx_quad_calib_once,
        spares_tx_quad_phase_search,
    };

    reveal(EngineView::tx_quad_retry);
}

pub broadcast proof fn spares_tx_quad_calibrate(
    e: EngineView,
    phase: u8,
    rxnco_word: u8,
    decim: u8,
    rx_phase: RxPhase,
)
    ensures
        same_firs(
            e.state.v,
            (#[trigger] e.tx_quad_calibrate(phase, rxnco_word, decim, rx_phase)).e.state.v,
        ),
        same_rates(e.state.v, e.tx_quad_calibrate(phase, rxnco_word, decim, rx_phase).e.state.v),
{
    broadcast use {
        spares_tx_quad_calib_once,
        spares_tx_quad_phase_search,
        spares_tx_quad_retry,
    };

    reveal(EngineView::tx_quad_calibrate);
}

pub broadcast proof fn spares_quad_phase(e: EngineView, plan: QuadPlan, rx_phase: RxPhase)
    ensures
        same_firs(e.state.v, (#[trigger] e.quad_phase(plan, rx_phase)).e.state.v),
        same_rates(e.state.v, e.quad_phase(plan, rx_phase).e.state.v),
{
    broadcast use spares_read;

    reveal(EngineView::quad_phase);
}

pub broadcast proof fn spares_quad_uninvert(e: EngineView)
    ensures
        same_firs(e.state.v, (#[trigger] e.quad_uninvert()).e.state.v),
        same_rates(e.state.v, e.quad_uninvert().e.state.v),
{
    broadcast use {
        spares_read,
        spares_run,
    };

    reveal(EngineView::quad_uninvert);
}

pub broadcast proof fn spares_quad_reinvert(e: EngineView, inverted: bool, saved: u8)
    ensures
        same_firs(e.state.v, (#[trigger] e.quad_reinvert(inverted, saved)).e.state.v),
        same_rates(e.state.v, e.quad_reinvert(inverted, saved).e.state.v),
{
    broadcast use spares_run;

    reveal(EngineView::quad_reinvert);
}

pub broadcast proof fn spares_quad_prepare(e: EngineView, txnco_word: u8)
    ensures
        same_firs(e.state.v, (#[trigger] e.quad_prepare(txnco_word)).e.state.v),
        same_rates(e.state.v, e.quad_prepare(txnco_word).e.state.v),
{
    broadcast use spares_run;

    reveal(EngineView::quad_prepare);
}

pub broadcast proof fn spares_rx_bb_analog_filter_calib(
    e: EngineView,
    rx_bb_bw: HertzU32,
    bbpll: HertzU32,
)
    ensures
        same_firs(e.state.v, (#[trigger] e.rx_bb_analog_filter_calib(rx_bb_bw, bbpll)).e.state.v),
        same_rates(e.state.v, e.rx_bb_analog_filter_calib(rx_bb_bw, bbpll).e.state.v),
{
    broadcast use {
        spares_run_calibration,
        spares_run,
    };

    reveal(EngineView::rx_bb_analog_filter_calib);
}

pub broadcast proof fn spares_tx_bb_analog_filter_calib(
    e: EngineView,
    tx_bb_bw: HertzU32,
    bbpll: HertzU32,
)
    ensures
        same_firs(e.state.v, (#[trigger] e.tx_bb_analog_filter_calib(tx_bb_bw, bbpll)).e.state.v),
        same_rates(e.state.v, e.tx_bb_analog_filter_calib(tx_bb_bw, bbpll).e.state.v),
{
    broadcast use {
        spares_run_calibration,
        spares_run,
    };

    reveal(EngineView::tx_bb_analog_filter_calib);
}

pub broadcast proof fn spares_tx_bb_second_filter_calib(e: EngineView, tx_bb_bw: HertzU32)
    ensures
        same_firs(e.state.v, (#[trigger] e.tx_bb_second_filter_calib(tx_bb_bw)).e.state.v),
        same_rates(e.state.v, e.tx_bb_second_filter_calib(tx_bb_bw).e.state.v),
{
    broadcast use spares_run;

    reveal(EngineView::tx_bb_second_filter_calib);
}

pub broadcast proof fn spares_read_filter_codes(e: EngineView)
    ensures
        same_firs(e.state.v, (#[trigger] e.read_filter_codes()).e.state.v),
        same_rates(e.state.v, e.read_filter_codes().e.state.v),
{
    broadcast use spares_read;

    reveal(EngineView::read_filter_codes);
}

pub broadcast proof fn spares_rx_tia_calib(e: EngineView, rx_bb_bw: HertzU32)
    ensures
        same_firs(e.state.v, (#[trigger] e.rx_tia_calib(rx_bb_bw)).e.state.v),
        same_rates(e.state.v, e.rx_tia_calib(rx_bb_bw).e.state.v),
{
    broadcast use {
        spares_read_filter_codes,
        spares_run,
    };

    reveal(EngineView::rx_tia_calib);
}

pub broadcast proof fn spares_write_adc(e: EngineView, i: AdcInputs)
    ensures
        same_firs(e.state.v, (#[trigger] e.write_adc(i)).e.state.v),
        same_rates(e.state.v, e.write_adc(i).e.state.v),
{
    broadcast use spares_run;

    reveal(EngineView::write_adc);
}

pub broadcast proof fn spares_rx_adc_setup(
    e: EngineView,
    bbpll: HertzU32,
    adc: HertzU32,
    rxbbf_div: u32,
)
    ensures
        same_firs(e.state.v, (#[trigger] e.rx_adc_setup(bbpll, adc, rxbbf_div)).e.state.v),
        same_rates(e.state.v, e.rx_adc_setup(bbpll, adc, rxbbf_div).e.state.v),
{
    broadcast use {
        spares_read_filter_codes,
        spares_write_adc,
    };

    reveal(EngineView::rx_adc_setup);
}

pub broadcast proof fn spares_filter_calibs(e: EngineView, rx: HertzU32, tx: HertzU32)
    ensures
        same_firs(e.state.v, (#[trigger] e.filter_calibs(rx, tx)).e.state.v),
        same_rates(e.state.v, e.filter_calibs(rx, tx).e.state.v),
{
    broadcast use {
        spares_rx_bb_analog_filter_calib,
        spares_tx_bb_analog_filter_calib,
        spares_tx_bb_second_filter_calib,
        spares_rx_tia_calib,
        spares_rx_adc_setup,
    };

    reveal(EngineView::filter_calibs);
}

pub broadcast proof fn spares_update_rf_bandwidth_filters(
    e: EngineView,
    rf_rx_bw: HertzU32,
    rf_tx_bw: HertzU32,
)
    ensures
        same_firs(
            e.state.v,
            (#[trigger] e.update_rf_bandwidth_filters(rf_rx_bw, rf_tx_bw)).e.state.v,
        ),
        same_rates(e.state.v, e.update_rf_bandwidth_filters(rf_rx_bw, rf_tx_bw).e.state.v),
{
    broadcast use spares_filter_calibs;

    reveal(EngineView::update_rf_bandwidth_filters);
}

pub broadcast proof fn spares_quad_widen(e: EngineView, widen: bool, freq: u32)
    ensures
        same_firs(e.state.v, (#[trigger] e.quad_widen(widen, freq)).e.state.v),
        same_rates(e.state.v, e.quad_widen(widen, freq).e.state.v),
{
    broadcast use spares_update_rf_bandwidth_filters;

    reveal(EngineView::quad_widen);
}

pub broadcast proof fn spares_quad_narrow(e: EngineView, widen: bool)
    ensures
        same_firs(e.state.v, (#[trigger] e.quad_narrow(widen)).e.state.v),
        same_rates(e.state.v, e.quad_narrow(widen).e.state.v),
{
    broadcast use spares_update_rf_bandwidth_filters;

    reveal(EngineView::quad_narrow);
}

pub broadcast proof fn spares_tx_quad_calib(
    e: EngineView,
    bw_rx: u32,
    bw_tx: u32,
    rx_phase: RxPhase,
)
    ensures
        same_firs(e.state.v, (#[trigger] e.tx_quad_calib(bw_rx, bw_tx, rx_phase)).e.state.v),
        same_rates(e.state.v, e.tx_quad_calib(bw_rx, bw_tx, rx_phase).e.state.v),
{
    broadcast use {
        spares_tx_quad_calibrate,
        spares_quad_phase,
        spares_quad_uninvert,
        spares_quad_reinvert,
        spares_quad_prepare,
        spares_quad_widen,
        spares_quad_narrow,
    };

    reveal(EngineView::tx_quad_calib);
}

pub broadcast proof fn spares_tracking_control(e: EngineView, tracking: TrackingConfig)
    ensures
        same_firs(e.state.v, (#[trigger] e.tracking_control(tracking)).e.state.v),
        same_rates(e.state.v, e.tracking_control(tracking).e.state.v),
{
    broadcast use spares_run;

    reveal(EngineView::tracking_control);
}

pub broadcast proof fn spares_pause_tracking(e: EngineView)
    ensures
        same_firs(e.state.v, (#[trigger] e.pause_tracking()).e.state.v),
        same_rates(e.state.v, e.pause_tracking().e.state.v),
{
    broadcast use {
        spares_tracking_control,
        spares_ensm_force_state,
    };

    reveal(EngineView::pause_tracking);
}

pub broadcast proof fn spares_resume_tracking(
    e: EngineView,
    tracking: TrackingConfig,
    saved: SavedEnsmState,
)
    ensures
        same_firs(e.state.v, (#[trigger] e.resume_tracking(tracking, saved)).e.state.v),
        same_rates(e.state.v, e.resume_tracking(tracking, saved).e.state.v),
{
    broadcast use {
        spares_tracking_control,
        spares_ensm_restore_state,
    };

    reveal(EngineView::resume_tracking);
}

pub broadcast proof fn spares_calibrate_bandwidths(
    e: EngineView,
    rf_rx_bw: HertzU32,
    rf_tx_bw: HertzU32,
)
    ensures
        same_firs(e.state.v, (#[trigger] e.calibrate_bandwidths(rf_rx_bw, rf_tx_bw)).e.state.v),
        same_rates(e.state.v, e.calibrate_bandwidths(rf_rx_bw, rf_tx_bw).e.state.v),
{
    broadcast use {
        spares_update_rf_bandwidth_filters,
        spares_tx_quad_calib,
    };

    reveal(EngineView::calibrate_bandwidths);
}

pub broadcast proof fn spares_update_rf_bandwidth(
    e: EngineView,
    rf_rx_bw: HertzU32,
    rf_tx_bw: HertzU32,
)
    ensures
        same_firs(e.state.v, (#[trigger] e.update_rf_bandwidth(rf_rx_bw, rf_tx_bw)).e.state.v),
        same_rates(e.state.v, e.update_rf_bandwidth(rf_rx_bw, rf_tx_bw).e.state.v),
{
    broadcast use {
        spares_pause_tracking,
        spares_resume_tracking,
        spares_calibrate_bandwidths,
    };

    reveal(EngineView::update_rf_bandwidth);
}

pub broadcast proof fn spares_redo_bandwidths(e: EngineView)
    ensures
        same_firs(e.state.v, (#[trigger] e.redo_bandwidths()).e.state.v),
        same_rates(e.state.v, e.redo_bandwidths().e.state.v),
{
    broadcast use {
        spares_update_rf_bandwidth,
        spares_dig_tune,
    };

    reveal(EngineView::redo_bandwidths);
}

pub broadcast proof fn spares_validate_enable_fir(e: EngineView)
    ensures
        same_firs(e.state.v, (#[trigger] e.validate_enable_fir()).e.state.v),
{
    broadcast use {
        spares_set_trx_clock_chain,
        spares_redo_bandwidths,
    };

    reveal(EngineView::validate_enable_fir);
}

} // verus!
