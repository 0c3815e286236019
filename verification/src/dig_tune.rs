//! Digital interface tuning, using the ADC PN checker and DAC data source of the AXI core.
//!
//! Needs a core with the per-channel DAC data source mux (version 8 and up).
use vstd::prelude::*;

use crate::calibration::{find_opt, is_zero_run, law_longest_run, longest_run};
use crate::clock_chain::PathClocks;
use crate::config::DigInterfaceTune;
use crate::control::{ForcedEnsmState, law_ensm_fails_on_the_bus, SavedEnsmState};
use crate::engine::{
    Engine, EngineView, flow, Flow, law_exchange_keeps_state, law_read_fails_on_the_bus,
    law_run_fails_on_the_bus, law_run_keeps_state, Reply,
};
use crate::error::Ad9361Error;
use crate::link::{axi, AxiRequest, Fault, Op, put, Request, wait};
use crate::math::flag;
use crate::ports::{Channel, RxClockDataDelay, TxClockDataDelay};
use crate::registers::{
    BIST_CONFIG, BIST_ENABLE, DATA_PORT_LOOP_TEST_ENABLE, DATA_PORT_SP_HD_LOOP_TEST_OE,
    HALF_DUPLEX_MODE, OBSERVE_CONFIG, PARALLEL_PORT_CONF3, RX_CLOCK_DATA_DELAY, SINGLE_PORT_MODE,
    TX1_ATTEN1, TX2_ATTEN1, TX_CLOCK_DATA_DELAY,
};
use crate::state::{EngineState, ModeState, TuneState};
use crate::units::{HertzU32, MAX_QUARTER_DB, saturated, TxAttenuation};

verus! {

/// Where the data loops back during tuning.
#[derive(Debug, Clone, Copy, PartialEq, Eq, Structural)]
pub enum BistLoopback {
    Off,
    /// inside the AD9361, TX to RX
    TxToRx,
    /// inside the FPGA, RX to TX
    RxToTx,
}

/// Where BIST injects the PRBS.
#[derive(Debug, Clone, Copy, PartialEq, Eq, Structural)]
pub enum BistMode {
    Disable,
    InjectTx,
    InjectRx,
}

/// Options for `dig_tune`.
#[derive(Debug, Clone, Copy, PartialEq, Eq, Structural)]
pub struct DigTuneFlags {
    /// don't tune, put the configured delays back
    pub restore_default: bool,
    /// don't keep the result as the new default
    pub skip_store_result: bool,
}

impl Default for DigTuneFlags {
    fn default() -> (flags: Self)
        ensures
            flags == (DigTuneFlags { restore_default: false, skip_store_result: false }),
    {
        DigTuneFlags { restore_default: false, skip_store_result: false }
    }
}

/// Channels of the AXI core: I and Q of each channel in use.
#[verifier::allow_in_spec]
pub fn num_phy_chan(mode: &ModeState) -> u8
    returns
        (if mode.rx2tx2 {
            4u8
        } else {
            2u8
        }),
{
    if mode.rx2tx2 {
        4
    } else {
        2
    }
}

/// DAC data source that takes the ADC data.
pub const SOURCE_LOOPBACK: u32 = 8;

/// DAC data source that sends a PN sequence.
pub const SOURCE_PN: u32 = 9;

/// ADC datapath while the PN checker looks at it: sign extended, formatted, enabled, with IQ
/// correction.
pub const ADC_PATH_CHECKED: u32 = 0x251;

/// Lock flag of the ADC interface status.
pub const ADC_LOCKED: u64 = 0x1;

/// TX rate of each sweep.
#[verifier::allow_in_spec]
pub fn sweep_rate(sweep: u8, half_data_rate: bool) -> HertzU32
    returns
        (HertzU32 {
            raw: match sweep {
                0 => if half_data_rate { 12_500_000u32 } else { 25_000_000 },
                1 => if half_data_rate { 20_000_000u32 } else { 40_000_000 },
                _ => if half_data_rate { 30_720_000u32 } else { 61_440_000 },
            },
        }),
{
    HertzU32 {
        raw: match sweep {
            0 => if half_data_rate {
                12_500_000
            } else {
                25_000_000
            },
            1 => if half_data_rate {
                20_000_000
            } else {
                40_000_000
            },
            _ => if half_data_rate {
                30_720_000
            } else {
                61_440_000
            },
        },
    }
}

/// BIST configuration register.
#[verifier::allow_in_spec]
pub fn bist_config(mode: BistMode) -> u8
    returns
        (match mode {
            BistMode::Disable => 0u8,
            BistMode::InjectTx => BIST_ENABLE,
            BistMode::InjectRx => BIST_ENABLE | 0x08,
        }),
{
    match mode {
        BistMode::Disable => 0,
        BistMode::InjectTx => BIST_ENABLE,
        BistMode::InjectRx => BIST_ENABLE | 0x08,
    }
}

/// Observe configuration register with the two loop bits as given.
#[verifier::allow_in_spec]
pub fn observe_config(observe: u8, single_port_half_duplex: bool, looped: bool) -> u8
    returns
        (observe & !(DATA_PORT_SP_HD_LOOP_TEST_OE | DATA_PORT_LOOP_TEST_ENABLE)) | flag(
            single_port_half_duplex,
            DATA_PORT_SP_HD_LOOP_TEST_OE,
        ) | flag(looped, DATA_PORT_LOOP_TEST_ENABLE),
{
    (observe & !(DATA_PORT_SP_HD_LOOP_TEST_OE | DATA_PORT_LOOP_TEST_ENABLE)) | flag(
        single_port_half_duplex,
        DATA_PORT_SP_HD_LOOP_TEST_OE,
    ) | flag(looped, DATA_PORT_LOOP_TEST_ENABLE)
}

/// Address of the clock and data delay register.
#[verifier::allow_in_spec]
pub fn delay_addr(tx: bool) -> u16
    returns
        (if tx {
            TX_CLOCK_DATA_DELAY
        } else {
            RX_CLOCK_DATA_DELAY
        }),
{
    if tx {
        TX_CLOCK_DATA_DELAY
    } else {
        RX_CLOCK_DATA_DELAY
    }
}

/// Clock and data delay register, same layout for RX and TX.
#[verifier::allow_in_spec]
pub fn delay_word(clock_delay: u8, data_delay: u8) -> u8
    returns
        ((clock_delay & 0xF) << 4) | (data_delay & 0xF),
{
    ((clock_delay & 0xF) << 4) | (data_delay & 0xF)
}

/// DAC rate divider.
#[verifier::allow_in_spec]
pub fn dac_rate_divider(rx2tx2: bool, half_rate: bool, lvds: bool) -> u8
    returns
        (if rx2tx2 {
            if !half_rate && lvds {
                4u8
            } else {
                2
            }
        } else if !half_rate && lvds {
            2u8
        } else {
            1
        }),
{
    if rx2tx2 {
        if !half_rate && lvds {
            4
        } else {
            2
        }
    } else if !half_rate && lvds {
        2
    } else {
        1
    }
}

/// Clock and data delay in the middle of the wider of two windows, or none if both are empty.
/// `near` holds the data delays at no clock delay that fail. `far` was swept the other way round
/// at full clock delay.
pub open spec fn best_delay(near: Seq<u8>, far: Seq<u8>) -> Option<(u8, u8)> {
    let (near_count, near_start) = longest_run(near, 0);
    let (far_count, far_start) = longest_run(far, 0);
    if near_count == 0 && far_count == 0 {
        None
    } else if far_count > near_count {
        Some(((far_start + far_count / 2) as u8, 0u8))
    } else {
        Some((0u8, (near_start + near_count / 2) as u8))
    }
}

/// A delay in the middle of the widest window of a sweep. No window of either sweep is wider.
pub open spec fn in_widest(sweep: Seq<u8>, near: Seq<u8>, far: Seq<u8>, delay: u8) -> bool {
    let (n, from) = longest_run(sweep, 0);
    &&& n > 0
    &&& is_zero_run(sweep, from, n)
    &&& delay == from + n / 2
    &&& forall|i: int, k: int| #[trigger] is_zero_run(near, i, k) ==> k <= n
    &&& forall|i: int, k: int| #[trigger] is_zero_run(far, i, k) ==> k <= n
}

/// The delay that tuning picks has passed: it lies in the middle of a window without a failure, and
/// no window of either sweep is wider. Tuning finds one unless every setting failed.
pub proof fn law_best_delay_passed(near: Seq<u8>, far: Seq<u8>)
    requires
        near.len() == 16,
        far.len() == 16,
    ensures
        best_delay(near, far) is None <==> (forall|i: int| 0 <= i < 16 ==> near[i] != 0)
            && (forall|i: int| 0 <= i < 16 ==> far[i] != 0),
        best_delay(near, far) matches Some((clock, data)) ==> {
            ||| clock == 0 && data < 16 && near[data as int] == 0
            ||| data == 0 && clock < 16 && far[clock as int] == 0
        },
        best_delay(near, far) matches Some((clock, data)) ==> if longest_run(far, 0).0
            > longest_run(near, 0).0 {
            data == 0 && in_widest(far, near, far, clock)
        } else {
            clock == 0 && in_widest(near, near, far, data)
        },
{
    law_longest_run(near);
    law_longest_run(far);
    let (near_count, near_start) = longest_run(near, 0);
    let (far_count, far_start) = longest_run(far, 0);
    assert forall|i: int| 0 <= i < 16 && near[i] == 0 implies near_count > 0 by {
        assert(is_zero_run(near, i, 1));
    }
    assert forall|i: int| 0 <= i < 16 && far[i] == 0 implies far_count > 0 by {
        assert(is_zero_run(far, i, 1));
    }
    if near_count > 0 {
        assert(near[near_start + near_count / 2] == 0);
    }
    if far_count > 0 {
        assert(far[far_start + far_count / 2] == 0);
    }
}

/// What TX tuning changes in a channel of the AXI core.
#[derive(Debug, Clone, Copy, PartialEq, Eq, Structural)]
pub struct SavedChannel {
    pub adc_path: u32,
    pub dac_source: u32,
    pub dac_legacy: u32,
}

impl EngineView {
    /// Changes the tuning state.
    pub open spec fn set_tune(self, tune: TuneState) -> Flow {
        self.set(EngineState { tune, ..self.state.v })
    }

    /// Where BIST injects the PRBS.
    #[verifier::opaque]
    pub open spec fn bist_prbs(self, mode: BistMode) -> Flow {
        self.set_tune(TuneState { bist_config: bist_config(mode), ..self.state.v.tune }).run(
            [put(BIST_CONFIG, bist_config(mode))]@,
        )
    }

    /// In 1R1T with different RX and TX channels, moves TX to the channel of RX, since the loopback
    /// stays within a channel, or puts it back.
    #[verifier::opaque]
    pub open spec fn int_loopback_fix_ch_cross(self, enable: bool) -> Flow {
        let mode = self.state.v.mode;
        if !mode.rx2tx2 && mode.rx1tx1_use_rx != mode.rx1tx1_use_tx {
            let ch = if enable {
                mode.rx1tx1_use_rx
            } else {
                mode.rx1tx1_use_tx
            };
            self.set_tx_channels(ch == Channel::Ch1, ch == Channel::Ch2)
        } else {
            self.start()
        }
    }

    /// Loops the ADC data of a channel back into the DAC in the FPGA and stashes the old source, or
    /// puts that back.
    #[verifier::opaque]
    pub open spec fn loop_channel(self, enable: bool, chan: u8) -> Flow {
        let source = self.axi(AxiRequest::DacReadSource { chan });
        match source.r {
            Err(error) => source.done(),
            Ok(value) => {
                let current = value as u32;
                let tune = source.e.state.v.tune;
                if enable && current != SOURCE_LOOPBACK {
                    source.e.set_tune(
                        TuneState {
                            scratch_dac_source: tune.scratch_dac_source.with(chan, current),
                            ..tune
                        },
                    ).run([axi(AxiRequest::DacWriteSource { chan, raw: SOURCE_LOOPBACK })]@)
                } else if current == SOURCE_LOOPBACK {
                    source.e.run(
                        [
                            axi(
                                AxiRequest::DacWriteSource {
                                    chan,
                                    raw: tune.scratch_dac_source.get(chan),
                                },
                            ),
                        ]@,
                    )
                } else {
                    source.e.start()
                }
            },
        }
    }

    /// Loops ADC data back into the DAC in the FPGA, or puts the old DAC sources back.
    #[verifier::opaque]
    pub open spec fn hdl_loopback(self, enable: bool) -> Flow {
        let one = self.loop_channel(enable, 0).loop_channel(enable, 1);
        if self.state.v.mode.rx2tx2 {
            one.loop_channel(enable, 2).loop_channel(enable, 3)
        } else {
            one
        }
    }

    /// Where the data loops back.
    #[verifier::opaque]
    pub open spec fn bist_loopback(self, mode: BistLoopback) -> Flow {
        let observe = self.read(OBSERVE_CONFIG);
        match observe.r {
            Err(error) => observe.done(),
            Ok(byte) => {
                let noted = observe.e.set_tune(
                    TuneState { bist_loopback_mode: mode, ..observe.e.state.v.tune },
                );
                match mode {
                    BistLoopback::Off => noted.hdl_loopback(false).int_loopback_fix_ch_cross(
                        false,
                    ).run([put(OBSERVE_CONFIG, observe_config(byte, false, false))]@),
                    BistLoopback::RxToTx => noted.hdl_loopback(true).int_loopback_fix_ch_cross(
                        false,
                    ).run([put(OBSERVE_CONFIG, observe_config(byte, false, false))]@),
                    BistLoopback::TxToRx => {
                        let conf3 = noted.hdl_loopback(false).int_loopback_fix_ch_cross(true).read(
                            PARALLEL_PORT_CONF3,
                        );
                        match conf3.r {
                            Err(error) => conf3.done(),
                            Ok(port) => conf3.e.run(
                                [
                                    put(
                                        OBSERVE_CONFIG,
                                        observe_config(
                                            byte,
                                            port & SINGLE_PORT_MODE != 0 && port & HALF_DUPLEX_MODE
                                                != 0,
                                            true,
                                        ),
                                    ),
                                ]@,
                            ),
                        }
                    },
                }
            },
        }
    }

    /// TX attenuation of a channel, as the chip has it.
    #[verifier::opaque]
    pub open spec fn tx_atten(self, tx2: bool) -> Reply<TxAttenuation> {
        let word = self.read_word(
            if tx2 {
                TX2_ATTEN1
            } else {
                TX1_ATTEN1
            },
            2,
        );
        Reply {
            e: word.e,
            r: match word.r {
                Ok(value) => Ok(saturated(value as u16)),
                Err(error) => Err(error),
            },
        }
    }

    /// Saves the attenuations and mutes by maxing them, or sets the saved ones again.
    #[verifier::opaque]
    pub open spec fn tx_mute(self, mute: bool) -> Flow {
        if mute {
            let tx1 = self.tx_atten(false);
            match tx1.r {
                Err(error) => tx1.done(),
                Ok(atten1) => {
                    let tx2 = tx1.e.set(
                        EngineState { tx1_atten_cached: atten1, ..tx1.e.state.v },
                    ).tx_atten(true);
                    match tx2.r {
                        Err(error) => tx2.done(),
                        Ok(atten2) => tx2.e.set(
                            EngineState { tx2_atten_cached: atten2, ..tx2.e.state.v },
                        ).set_tx_atten(saturated(MAX_QUARTER_DB), true, true, true),
                    }
                },
            }
        } else {
            let tx1 = self.state.v.tx1_atten_cached;
            let tx2 = self.state.v.tx2_atten_cached;
            if tx1 == tx2 {
                self.set_tx_atten(tx1, true, true, true)
            } else {
                self.set_tx_atten(tx1, true, false, true).set_tx_atten(tx2, false, true, true)
            }
        }
    }

    /// Clears the PN checkers and waits for them to look at the data again.
    #[verifier::opaque]
    pub open spec fn clear_pn(self, delay_ms: u64) -> Flow {
        if self.state.v.mode.rx2tx2 {
            self.run(
                [
                    axi(AxiRequest::AdcClearPnStatus { chan: 0 }),
                    axi(AxiRequest::AdcClearPnStatus { chan: 1 }),
                    axi(AxiRequest::AdcClearPnStatus { chan: 2 }),
                    axi(AxiRequest::AdcClearPnStatus { chan: 3 }),
                    wait(delay_ms.wrapping_mul(1000)),
                ]@,
            )
        } else {
            self.run(
                [
                    axi(AxiRequest::AdcClearPnStatus { chan: 0 }),
                    axi(AxiRequest::AdcClearPnStatus { chan: 1 }),
                    wait(delay_ms.wrapping_mul(1000)),
                ]@,
            )
        }
    }

    /// Whether one of the channels from `chan` on reports an error.
    pub open spec fn pn_error_from(self, chan: int, channels: int) -> Reply<bool>
        decreases channels - chan,
    {
        if chan >= channels {
            self.start().reply(false)
        } else {
            let status = self.axi(AxiRequest::AdcReadChannelStatus { chan: chan as u8 });
            match status.r {
                Err(error) => Reply { e: status.e, r: Err(error) },
                Ok(value) => if value != 0 {
                    status.e.start().reply(true)
                } else {
                    status.e.pn_error_from(chan + 1, channels)
                },
            }
        }
    }

    /// Waits, then looks at the PN checkers, and for RX at the lock of the interface first. True
    /// for an error.
    #[verifier::opaque]
    pub open spec fn check_pn(self, tx: bool, delay_ms: u64) -> Reply<bool> {
        let channels = num_phy_chan(&self.state.v.mode) as int;
        let cleared = self.clear_pn(delay_ms);
        match cleared.err {
            Some(error) => Reply { e: cleared.e, r: Err(error) },
            None => if tx {
                cleared.e.pn_error_from(0, channels)
            } else {
                let status = cleared.e.axi(AxiRequest::AdcReadStatus);
                match status.r {
                    Err(error) => Reply { e: status.e, r: Err(error) },
                    Ok(value) => if value & ADC_LOCKED == 0 {
                        status.e.start().reply(true)
                    } else {
                        status.e.pn_error_from(0, channels)
                    },
                }
            },
        }
    }

    /// Sets a clock and data delay. The clock delay only changes in alert.
    #[verifier::opaque]
    pub open spec fn set_intf_delay(
        self,
        tx: bool,
        clock_delay: u8,
        data_delay: u8,
        clock_changed: bool,
    ) -> Flow {
        let ready = if clock_changed {
            self.ensm_force_state(ForcedEnsmState::Alert).done()
        } else {
            self.start()
        };
        let written = ready.run([put(delay_addr(tx), delay_word(clock_delay, data_delay))]@);
        if clock_changed {
            written.ensm_force_state(ForcedEnsmState::Fdd).done()
        } else {
            written
        }
    }

    /// Sweeps the data delay from step `j` on, and marks the settings that fail.
    pub open spec fn sweep_from(self, tx: bool, far: bool, j: int, row: Seq<u8>) -> Reply<Seq<u8>>
        decreases 16 - j,
    {
        if j >= 16 {
            self.start().reply(row)
        } else {
            let checked = self.set_intf_delay(
                tx,
                if far {
                    15
                } else {
                    0
                },
                if far {
                    (15 - j) as u8
                } else {
                    j as u8
                },
                j == 0,
            ).check_pn(tx, 4);
            match checked.r {
                Err(error) => Reply { e: checked.e, r: Err(error) },
                Ok(failed) => checked.e.sweep_from(
                    tx,
                    far,
                    j + 1,
                    if failed {
                        row.update(j, 1)
                    } else {
                        row
                    },
                ),
            }
        }
    }

    /// Sweeps the data delay, upwards at no clock delay or downwards at full clock delay, and marks
    /// the settings that fail.
    #[verifier::opaque]
    pub open spec fn sweep(self, tx: bool, far: bool, row: Seq<u8>) -> Reply<Seq<u8>> {
        self.sweep_from(tx, far, 0, row)
    }

    /// Switches to the rate of a sweep. Without a chain for that rate it carries on with the
    /// current clocks.
    pub open spec fn at_sweep_rate(
        self,
        sweep: u8,
        change_rate: bool,
        half_data_rate: bool,
    ) -> EngineView {
        if change_rate {
            self.set_trx_clock_chain_freq_no_tune(sweep_rate(sweep, half_data_rate)).e
        } else {
            self
        }
    }

    /// Sweeps at the rates from `sweep` on.
    pub open spec fn sweeps_from(
        self,
        tx: bool,
        sweep: int,
        sweeps: int,
        half_data_rate: bool,
        near: Seq<u8>,
        far: Seq<u8>,
    ) -> Reply<(Seq<u8>, Seq<u8>)>
        decreases sweeps - sweep,
    {
        if sweep >= sweeps {
            self.start().reply((near, far))
        } else {
            let first = self.at_sweep_rate(sweep as u8, sweeps > 1, half_data_rate).sweep(
                tx,
                false,
                near,
            );
            match first.r {
                Err(error) => Reply { e: first.e, r: Err(error) },
                Ok(near) => {
                    let second = first.e.sweep(tx, true, far);
                    match second.r {
                        Err(error) => Reply { e: second.e, r: Err(error) },
                        Ok(far) => second.e.sweeps_from(
                            tx,
                            sweep + 1,
                            sweeps,
                            half_data_rate,
                            near,
                            far,
                        ),
                    }
                },
            }
        }
    }

    /// Sweeps clock and data delays, at the current rate or at three rates, and picks the middle of
    /// the widest window that passes everywhere.
    #[verifier::opaque]
    pub open spec fn dig_tune_delay(self, max_freq: HertzU32, tx: bool) -> Flow {
        let mode = self.state.v.mode;
        let clear = Seq::new(16, |i: int| 0u8);
        let swept = self.sweeps_from(
            tx,
            0,
            if max_freq.raw != 0 {
                3
            } else {
                1
            },
            !mode.lvds_mode && mode.rx2tx2,
            clear,
            clear,
        );
        match swept.r {
            Err(error) => swept.done(),
            Ok((near, far)) => match best_delay(near, far) {
                None => swept.e.fail(Ad9361Error::TuningFailed),
                Some((clock_delay, data_delay)) => swept.e.set_intf_delay(
                    tx,
                    clock_delay,
                    data_delay,
                    true,
                ),
            },
        }
    }

    /// Tunes RX with a PRBS injected there.
    #[verifier::opaque]
    pub open spec fn dig_tune_rx(self, max_freq: HertzU32) -> Flow {
        let ready = self.bist_loopback(BistLoopback::Off).bist_prbs(BistMode::InjectRx);
        if ready.err is Some {
            ready
        } else {
            let tuned = ready.e.dig_tune_delay(max_freq, false);
            tuned.e.run([axi(AxiRequest::AdcResetPulse)]@).after(tuned.err)
        }
    }

    /// Sets up a channel for TX tuning, and hands out what it had before.
    #[verifier::opaque]
    pub open spec fn prepare_channel(self, chan: u8) -> Reply<SavedChannel> {
        let path = self.axi(AxiRequest::AdcReadDataPath { chan });
        match path.r {
            Err(error) => Reply { e: path.e, r: Err(error) },
            Ok(adc_path) => {
                let legacy = path.e.run(
                    [
                        axi(AxiRequest::AdcWriteDataPath { chan, raw: ADC_PATH_CHECKED }),
                        axi(AxiRequest::AdcSelectPn { chan, custom: true }),
                    ]@,
                ).axi(AxiRequest::DacReadLegacy { chan });
                match legacy.r {
                    Err(error) => Reply { e: legacy.e, r: Err(error) },
                    Ok(dac_legacy) => {
                        let source = legacy.e.axi(AxiRequest::DacReadSource { chan });
                        match source.r {
                            Err(error) => Reply { e: source.e, r: Err(error) },
                            Ok(dac_source) => source.e.run(
                                [
                                    axi(AxiRequest::DacWriteSource { chan, raw: SOURCE_PN }),
                                    axi(AxiRequest::DacWriteLegacy { chan, raw: 0 }),
                                    axi(AxiRequest::DacSynchronize),
                                ]@,
                            ).reply(
                                SavedChannel {
                                    adc_path: adc_path as u32,
                                    dac_source: dac_source as u32,
                                    dac_legacy: dac_legacy as u32,
                                },
                            ),
                        }
                    },
                }
            },
        }
    }

    /// Sets up the channels from the next one on.
    pub open spec fn prepare_from(
        self,
        channels: int,
        saved: Seq<SavedChannel>,
    ) -> Reply<Seq<SavedChannel>>
        decreases channels - saved.len(),
    {
        if saved.len() >= channels {
            self.start().reply(saved)
        } else {
            let next = self.prepare_channel(saved.len() as u8);
            match next.r {
                Err(error) => Reply { e: next.e, r: Err(error) },
                Ok(channel) => next.e.prepare_from(channels, saved.push(channel)),
            }
        }
    }

    /// Puts a channel back to what it had before TX tuning.
    #[verifier::opaque]
    pub open spec fn restore_channel(self, chan: u8, saved: SavedChannel) -> Flow {
        self.run(
            [
                axi(AxiRequest::AdcWriteDataPath { chan, raw: saved.adc_path }),
                axi(AxiRequest::AdcSelectPn { chan, custom: false }),
                axi(AxiRequest::DacWriteSource { chan, raw: saved.dac_source }),
                axi(AxiRequest::DacSynchronize),
                axi(AxiRequest::DacWriteLegacy { chan, raw: saved.dac_legacy }),
            ]@,
        )
    }

    /// Puts the channels from `chan` on back.
    pub open spec fn restore_from(self, saved: Seq<SavedChannel>, chan: int) -> Flow
        decreases saved.len() - chan,
    {
        if chan >= saved.len() {
            self.start()
        } else {
            let restored = self.restore_channel(chan as u8, saved[chan]);
            if restored.err is Some {
                restored
            } else {
                restored.e.restore_from(saved, chan + 1)
            }
        }
    }

    /// Puts the channels back to what they had before TX tuning.
    #[verifier::opaque]
    pub open spec fn restore_channels(self, saved: Seq<SavedChannel>) -> Flow {
        self.restore_from(saved, 0)
    }

    /// Sets up the channels for TX tuning.
    #[verifier::opaque]
    pub open spec fn prepare_channels(self) -> Reply<Seq<SavedChannel>> {
        self.prepare_from(num_phy_chan(&self.state.v.mode) as int, Seq::empty())
    }

    /// Tunes TX: the DAC sends a PN sequence, the AD9361 loops it back to the ADC PN checker.
    #[verifier::opaque]
    pub open spec fn dig_tune_tx(self, max_freq: HertzU32) -> Flow {
        let saved = self.bist_prbs(BistMode::Disable).bist_loopback(BistLoopback::TxToRx).run(
            [axi(AxiRequest::DacReleaseReset)]@,
        ).prepare_channels();
        match saved.r {
            Err(error) => saved.done(),
            Ok(channels) => {
                let tuned = saved.e.dig_tune_delay(max_freq, true);
                tuned.e.restore_channels(channels).after(tuned.err)
            },
        }
    }

    /// Tunes with TX muted, and puts the loopback and the BIST configuration back. Hands out the
    /// error that tuning ended with.
    #[verifier::opaque]
    pub open spec fn tune_muted(self, max_freq: HertzU32) -> Reply<Option<Fault>> {
        let st = self.state.v;
        let muted = self.tx_mute(true);
        let ready = if st.mode.fdd {
            muted
        } else {
            muted.set_ensm_mode(true, false)
        };
        match ready.err {
            Some(error) => Reply { e: ready.e, r: Err(error) },
            None => {
                let rx = ready.e.dig_tune_rx(max_freq);
                let tuned = if rx.err is None && st.tune.dig_interface_tune
                    == DigInterfaceTune::RxAndTx {
                    rx.e.dig_tune_tx(max_freq)
                } else {
                    rx
                };
                tuned.e.bist_loopback(st.tune.bist_loopback_mode).run(
                    [put(BIST_CONFIG, st.tune.bist_config)]@,
                ).reply(tuned.err)
            },
        }
    }

    /// Writes the delays back that were stored last.
    #[verifier::opaque]
    pub open spec fn restore_delays(self) -> Flow {
        let tune = self.state.v.tune;
        self.ensm_force_state(ForcedEnsmState::Alert).done().run(
            [
                put(RX_CLOCK_DATA_DELAY, tune.rx_clk_data_delay.raw),
                put(TX_CLOCK_DATA_DELAY, tune.tx_clk_data_delay.raw),
            ]@,
        )
    }

    /// Stores the delays that the chip has.
    #[verifier::opaque]
    pub open spec fn store_delays(self) -> Flow {
        let rx = self.read(RX_CLOCK_DATA_DELAY);
        match rx.r {
            Err(error) => rx.done(),
            Ok(rx_raw) => {
                let tx = rx.e.set_tune(
                    TuneState {
                        rx_clk_data_delay: RxClockDataDelay { raw: rx_raw },
                        ..rx.e.state.v.tune
                    },
                ).read(TX_CLOCK_DATA_DELAY);
                match tx.r {
                    Err(error) => tx.done(),
                    Ok(tx_raw) => tx.e.set_tune(
                        TuneState {
                            tx_clk_data_delay: TxClockDataDelay { raw: tx_raw },
                            ..tx.e.state.v.tune
                        },
                    ),
                }
            },
        }
    }

    /// The end of tuning: the delays, the ENSM and the attenuation.
    #[verifier::opaque]
    pub open spec fn tune_finish(self, restore: bool, store: bool, saved: SavedEnsmState) -> Flow {
        let st = self.state.v;
        let delays = if restore {
            self.restore_delays()
        } else if store {
            self.store_delays()
        } else {
            self.start()
        };
        let mode = if st.mode.fdd {
            delays
        } else {
            delays.set_ensm_mode(st.mode.fdd, st.ensm.pin_ctrl)
        };
        mode.ensm_restore_state(saved).run([axi(AxiRequest::AdcResetPulse)]@).tx_mute(false)
    }

    /// Tunes the digital interface, at the current rate if `max_freq` is zero and else from 25 MSPS
    /// up to 61.44 MSPS. If nothing passes, or if there is no tuning to do, the stored delays are
    /// written back. A failure is only reported for a sweep over the rates.
    #[verifier::opaque]
    pub open spec fn dig_tune(self, max_freq: HertzU32, flags: DigTuneFlags) -> Flow {
        let st = self.state.v;
        let ensm = self.save_ensm_state();
        match ensm.r {
            Err(error) => ensm.done(),
            Ok(saved) => if st.tune.dig_interface_tune == DigInterfaceTune::UseConfigured
                || flags.restore_default {
                ensm.e.tune_finish(true, false, saved)
            } else {
                let tuned = ensm.e.tune_muted(max_freq);
                match tuned.r {
                    Err(error) => tuned.done(),
                    Ok(outcome) => tuned.e.tune_finish(
                        tuning_failed(outcome),
                        !flags.skip_store_result,
                        saved,
                    ).after(
                        if max_freq.raw == 0 {
                            None
                        } else {
                            outcome
                        },
                    ),
                }
            },
        }
    }

    /// Enables the channels of the AXI core without DC filter offset.
    #[verifier::opaque]
    pub open spec fn enable_core_channels(self) -> Flow {
        let one = self.run(
            [
                axi(AxiRequest::AdcWriteDcFilter { chan: 0, raw: 0 }),
                axi(AxiRequest::AdcEnableChannel { chan: 0 }),
                axi(AxiRequest::AdcWriteDcFilter { chan: 1, raw: 0 }),
                axi(AxiRequest::AdcEnableChannel { chan: 1 }),
            ]@,
        );
        if self.state.v.mode.rx2tx2 {
            one.run(
                [
                    axi(AxiRequest::AdcWriteDcFilter { chan: 2, raw: 0 }),
                    axi(AxiRequest::AdcEnableChannel { chan: 2 }),
                    axi(AxiRequest::AdcWriteDcFilter { chan: 3, raw: 0 }),
                    axi(AxiRequest::AdcEnableChannel { chan: 3 }),
                ]@,
            )
        } else {
            one
        }
    }

    /// Configures the AXI core.
    #[verifier::opaque]
    pub open spec fn configure_core(self) -> Flow {
        let st = self.state.v;
        self.run(
            [
                axi(AxiRequest::AdcOneChannelMode { on: !st.mode.rx2tx2 }),
                axi(AxiRequest::DacOneChannelMode { on: !st.mode.rx2tx2 }),
                axi(
                    AxiRequest::DacRateDivider {
                        divider: dac_rate_divider(
                            st.mode.rx2tx2,
                            st.tune.axi_half_dac_rate_en,
                            st.mode.lvds_mode,
                        ),
                    },
                ),
            ]@,
        ).enable_core_channels()
    }

    /// Tunes over all rates, then sets the configured clocks again and passes through alert.
    #[verifier::opaque]
    pub open spec fn tune_at_start(self, flags: DigTuneFlags) -> Flow {
        let clk = self.state.v.clk;
        let forced = self.dig_tune(HertzU32 { raw: 61_440_000 }, flags).set_trx_clock_chain(
            clk.rx_path_clks,
            clk.tx_path_clks,
        ).ensm_force_state(ForcedEnsmState::Alert);
        match forced.r {
            Err(error) => forced.done(),
            Ok(saved) => forced.e.ensm_restore_state(saved),
        }
    }

    /// [`Self::tune_at_start`] with a tuning mode of its own. The configured mode is put back
    /// afterwards, whatever came of it.
    #[verifier::opaque]
    pub open spec fn with_dig_tune_mode(self, mode: DigInterfaceTune, flags: DigTuneFlags) -> Flow {
        let tune = self.state.v.tune;
        let tuned = self.set_tune(TuneState { dig_interface_tune: mode, ..tune }).tune_at_start(flags);
        tuned.e.set_tune(
            TuneState { dig_interface_tune: tune.dig_interface_tune, ..tuned.e.state.v.tune },
        ).after(tuned.err)
    }

    /// Configures the AXI core and tunes the interface. Only core 0 is tuned. With a retune on
    /// every baseband clock change this is just a baseline.
    #[verifier::opaque]
    pub open spec fn post_setup(self) -> Flow {
        let st = self.state.v;
        self.configure_core().with_dig_tune_mode(
            if st.tune.bb_clk_change_dig_tune_en {
                DigInterfaceTune::UseConfigured
            } else {
                st.tune.dig_interface_tune
            },
            DigTuneFlags { restore_default: st.core_id != 0, skip_store_result: false },
        )
    }
}

/// The same steps, after others.
impl Flow {
    pub open spec fn set_tune(self, tune: TuneState) -> Flow {
        if self.err is Some {
            self
        } else {
            self.e.set_tune(tune)
        }
    }

    pub open spec fn bist_prbs(self, mode: BistMode) -> Flow {
        if self.err is Some {
            self
        } else {
            self.e.bist_prbs(mode)
        }
    }

    pub open spec fn int_loopback_fix_ch_cross(self, enable: bool) -> Flow {
        if self.err is Some {
            self
        } else {
            self.e.int_loopback_fix_ch_cross(enable)
        }
    }

    pub open spec fn loop_channel(self, enable: bool, chan: u8) -> Flow {
        if self.err is Some {
            self
        } else {
            self.e.loop_channel(enable, chan)
        }
    }

    pub open spec fn hdl_loopback(self, enable: bool) -> Flow {
        if self.err is Some {
            self
        } else {
            self.e.hdl_loopback(enable)
        }
    }

    pub open spec fn bist_loopback(self, mode: BistLoopback) -> Flow {
        if self.err is Some {
            self
        } else {
            self.e.bist_loopback(mode)
        }
    }

    pub open spec fn tx_atten(self, tx2: bool) -> Reply<TxAttenuation> {
        match self.err {
            Some(error) => Reply { e: self.e, r: Err(error) },
            None => self.e.tx_atten(tx2),
        }
    }

    pub open spec fn tx_mute(self, mute: bool) -> Flow {
        if self.err is Some {
            self
        } else {
            self.e.tx_mute(mute)
        }
    }

    pub open spec fn clear_pn(self, delay_ms: u64) -> Flow {
        if self.err is Some {
            self
        } else {
            self.e.clear_pn(delay_ms)
        }
    }

    pub open spec fn check_pn(self, tx: bool, delay_ms: u64) -> Reply<bool> {
        match self.err {
            Some(error) => Reply { e: self.e, r: Err(error) },
            None => self.e.check_pn(tx, delay_ms),
        }
    }

    pub open spec fn set_intf_delay(
        self,
        tx: bool,
        clock_delay: u8,
        data_delay: u8,
        clock_changed: bool,
    ) -> Flow {
        if self.err is Some {
            self
        } else {
            self.e.set_intf_delay(tx, clock_delay, data_delay, clock_changed)
        }
    }

    pub open spec fn sweep(self, tx: bool, far: bool, row: Seq<u8>) -> Reply<Seq<u8>> {
        match self.err {
            Some(error) => Reply { e: self.e, r: Err(error) },
            None => self.e.sweep(tx, far, row),
        }
    }

    pub open spec fn dig_tune_delay(self, max_freq: HertzU32, tx: bool) -> Flow {
        if self.err is Some {
            self
        } else {
            self.e.dig_tune_delay(max_freq, tx)
        }
    }

    pub open spec fn dig_tune_rx(self, max_freq: HertzU32) -> Flow {
        if self.err is Some {
            self
        } else {
            self.e.dig_tune_rx(max_freq)
        }
    }

    pub open spec fn prepare_channel(self, chan: u8) -> Reply<SavedChannel> {
        match self.err {
            Some(error) => Reply { e: self.e, r: Err(error) },
            None => self.e.prepare_channel(chan),
        }
    }

    pub open spec fn restore_channel(self, chan: u8, saved: SavedChannel) -> Flow {
        if self.err is Some {
            self
        } else {
            self.e.restore_channel(chan, saved)
        }
    }

    pub open spec fn restore_channels(self, saved: Seq<SavedChannel>) -> Flow {
        if self.err is Some {
            self
        } else {
            self.e.restore_channels(saved)
        }
    }

    pub open spec fn prepare_channels(self) -> Reply<Seq<SavedChannel>> {
        match self.err {
            Some(error) => Reply { e: self.e, r: Err(error) },
            None => self.e.prepare_channels(),
        }
    }

    pub open spec fn dig_tune_tx(self, max_freq: HertzU32) -> Flow {
        if self.err is Some {
            self
        } else {
            self.e.dig_tune_tx(max_freq)
        }
    }

    pub open spec fn tune_muted(self, max_freq: HertzU32) -> Reply<Option<Fault>> {
        match self.err {
            Some(error) => Reply { e: self.e, r: Err(error) },
            None => self.e.tune_muted(max_freq),
        }
    }

    pub open spec fn restore_delays(self) -> Flow {
        if self.err is Some {
            self
        } else {
            self.e.restore_delays()
        }
    }

    pub open spec fn store_delays(self) -> Flow {
        if self.err is Some {
            self
        } else {
            self.e.store_delays()
        }
    }

    pub open spec fn tune_finish(self, restore: bool, store: bool, saved: SavedEnsmState) -> Flow {
        if self.err is Some {
            self
        } else {
            self.e.tune_finish(restore, store, saved)
        }
    }

    pub open spec fn dig_tune(self, max_freq: HertzU32, flags: DigTuneFlags) -> Flow {
        if self.err is Some {
            self
        } else {
            self.e.dig_tune(max_freq, flags)
        }
    }

    pub open spec fn enable_core_channels(self) -> Flow {
        if self.err is Some {
            self
        } else {
            self.e.enable_core_channels()
        }
    }

    pub open spec fn configure_core(self) -> Flow {
        if self.err is Some {
            self
        } else {
            self.e.configure_core()
        }
    }

    pub open spec fn tune_at_start(self, flags: DigTuneFlags) -> Flow {
        if self.err is Some {
            self
        } else {
            self.e.tune_at_start(flags)
        }
    }

    pub open spec fn with_dig_tune_mode(self, mode: DigInterfaceTune, flags: DigTuneFlags) -> Flow {
        if self.err is Some {
            self
        } else {
            self.e.with_dig_tune_mode(mode, flags)
        }
    }

    pub open spec fn post_setup(self) -> Flow {
        if self.err is Some {
            self
        } else {
            self.e.post_setup()
        }
    }
}

/// Starting up leaves the configured tuning mode as it was, whatever came of it.
pub proof fn law_post_setup_keeps_tuning_mode(e: EngineView)
    ensures
        e.post_setup().e.state.v.tune.dig_interface_tune == e.state.v.tune.dig_interface_tune,
{
    reveal(EngineView::post_setup);
    reveal(EngineView::configure_core);
    reveal(EngineView::enable_core_channels);
    reveal(EngineView::with_dig_tune_mode);
    assert forall|at: EngineView, ops: Seq<Op>| #[trigger] at.run(ops).e.state == at.state by {
        law_run_keeps_state(at, ops);
    }
}

/// Setting an attenuation leaves the state alone.
proof fn lemma_atten_keeps_state(
    e: EngineView,
    atten: TxAttenuation,
    tx1: bool,
    tx2: bool,
    immed: bool,
)
    ensures
        e.set_tx_atten(atten, tx1, tx2, immed).e.state == e.state,
{
    reveal(EngineView::set_tx_atten);
    assert forall|at: EngineView, ops: Seq<Op>| #[trigger] at.run(ops).e.state == at.state by {
        law_run_keeps_state(at, ops);
    }
}

/// Unmuting sets the attenuations again that the chip had when it was muted.
pub proof fn law_unmute_restores(e: EngineView)
    requires
        e.tx_mute(true).err is None,
    ensures
        ({
            let muted = e.tx_mute(true).e;
            let tx1 = e.tx_atten(false);
            let tx2 = tx1.e.tx_atten(true);
            &&& tx1.r matches Ok(atten1)
            &&& tx2.r matches Ok(atten2)
            &&& muted.tx_mute(false) == (if atten1 == atten2 {
                muted.set_tx_atten(atten1, true, true, true)
            } else {
                muted.set_tx_atten(atten1, true, false, true).set_tx_atten(
                    atten2,
                    false,
                    true,
                    true,
                )
            })
        }),
{
    reveal(EngineView::tx_mute);
    let tx1 = e.tx_atten(false);
    if let Ok(atten1) = tx1.r {
        let noted = tx1.e.set(EngineState { tx1_atten_cached: atten1, ..tx1.e.state.v }).e;
        let tx2 = noted.tx_atten(true);
        reveal(EngineView::tx_atten);
        reveal(EngineView::exchange);
        law_exchange_keeps_state(noted, Request::Read { addr: TX2_ATTEN1, len: 2 });
        if let Ok(atten2) = tx2.r {
            let both = tx2.e.set(EngineState { tx2_atten_cached: atten2, ..tx2.e.state.v }).e;
            lemma_atten_keeps_state(both, saturated(MAX_QUARTER_DB), true, true, true);
        }
    }
}

proof fn lemma_loopback_fails_on_the_bus(e: EngineView, mode: BistLoopback)
    ensures
        e.bist_loopback(mode).err matches Some(error) ==> error is Spi,
{
    reveal(EngineView::bist_loopback);
    reveal(EngineView::hdl_loopback);
    reveal(EngineView::loop_channel);
    reveal(EngineView::int_loopback_fix_ch_cross);
    reveal(EngineView::set_tx_channels);
    reveal(EngineView::exchange);
    assert forall|at: EngineView, ops: Seq<Op>| #[trigger]
        at.run(ops).err matches Some(error) ==> error is Spi by {
        law_run_fails_on_the_bus(at, ops);
    }
    assert forall|at: EngineView, addr: u16| #[trigger]
        at.read(addr).r matches Err(error) ==> error is Spi by {
        law_read_fails_on_the_bus(at, addr);
    }
}

proof fn lemma_mute_fails_on_the_bus(e: EngineView, mute: bool)
    ensures
        e.tx_mute(mute).err matches Some(error) ==> error is Spi,
{
    reveal(EngineView::tx_mute);
    reveal(EngineView::tx_atten);
    reveal(EngineView::exchange);
    reveal(EngineView::set_tx_atten);
    assert forall|at: EngineView, ops: Seq<Op>| #[trigger]
        at.run(ops).err matches Some(error) ==> error is Spi by {
        law_run_fails_on_the_bus(at, ops);
    }
}

proof fn lemma_finish_fails_on_the_bus(
    e: EngineView,
    restore: bool,
    store: bool,
    saved: SavedEnsmState,
)
    ensures
        e.tune_finish(restore, store, saved).err matches Some(error) ==> error is Spi,
{
    reveal(EngineView::tune_finish);
    reveal(EngineView::restore_delays);
    reveal(EngineView::store_delays);
    assert forall|at: EngineView, ops: Seq<Op>| #[trigger]
        at.run(ops).err matches Some(error) ==> error is Spi by {
        law_run_fails_on_the_bus(at, ops);
    }
    assert forall|at: EngineView, addr: u16| #[trigger]
        at.read(addr).r matches Err(error) ==> error is Spi by {
        law_read_fails_on_the_bus(at, addr);
    }
    assert forall|at: EngineView, state: ForcedEnsmState| #[trigger]
        at.ensm_force_state(state).r matches Err(error) ==> error is Spi by {
        law_ensm_fails_on_the_bus(at, state, saved, true, true);
    }
    assert forall|at: EngineView| #[trigger]
        at.ensm_restore_state(saved).err matches Some(error) ==> error is Spi by {
        law_ensm_fails_on_the_bus(at, ForcedEnsmState::Alert, saved, true, true);
    }
    assert forall|at: EngineView, fdd: bool, pinctrl: bool| #[trigger]
        at.set_ensm_mode(fdd, pinctrl).err matches Some(error) ==> error is Spi by {
        law_ensm_fails_on_the_bus(at, ForcedEnsmState::Alert, saved, fdd, pinctrl);
    }
    assert forall|at: EngineView, mute: bool| #[trigger]
        at.tx_mute(mute).err matches Some(error) ==> error is Spi by {
        lemma_mute_fails_on_the_bus(at, mute);
    }
}

/// Tuning at the current rate only fails on the bus: if no delay passes, the stored ones are
/// written back instead.
pub proof fn law_tuning_in_place_fails_on_the_bus(e: EngineView, flags: DigTuneFlags)
    ensures
        e.dig_tune(HertzU32 { raw: 0 }, flags).err matches Some(error) ==> error is Spi,
{
    reveal(EngineView::dig_tune);
    reveal(EngineView::tune_muted);
    assert forall|at: EngineView, restore: bool, store: bool, saved: SavedEnsmState| #[trigger]
        at.tune_finish(restore, store, saved).err matches Some(error) ==> error is Spi by {
        lemma_finish_fails_on_the_bus(at, restore, store, saved);
    }
    assert forall|at: EngineView, ops: Seq<Op>| #[trigger]
        at.run(ops).err matches Some(error) ==> error is Spi by {
        law_run_fails_on_the_bus(at, ops);
    }
    assert forall|at: EngineView, mute: bool| #[trigger]
        at.tx_mute(mute).err matches Some(error) ==> error is Spi by {
        lemma_mute_fails_on_the_bus(at, mute);
    }
    assert forall|at: EngineView, mode: BistLoopback| #[trigger]
        at.bist_loopback(mode).err matches Some(error) ==> error is Spi by {
        lemma_loopback_fails_on_the_bus(at, mode);
    }
    assert forall|at: EngineView, fdd: bool, pinctrl: bool| #[trigger]
        at.set_ensm_mode(fdd, pinctrl).err matches Some(error) ==> error is Spi by {
        law_ensm_fails_on_the_bus(
            at,
            ForcedEnsmState::Alert,
            SavedEnsmState { raw: 0 },
            fdd,
            pinctrl,
        );
    }
    law_ensm_fails_on_the_bus(e, ForcedEnsmState::Alert, SavedEnsmState { raw: 0 }, true, true);
}

/// Whether tuning ended because nothing passed.
#[verifier::allow_in_spec]
pub fn tuning_failed(outcome: Option<Fault>) -> bool
    returns
        (match outcome {
            Some(Ad9361Error::TuningFailed) => true,
            _ => false,
        }),
{
    match outcome {
        Some(Ad9361Error::TuningFailed) => true,
        _ => false,
    }
}

impl<'a> Engine<'a> {
    /// Where BIST injects the PRBS.
    pub fn bist_prbs(&mut self, mode: BistMode) -> (r: Result<(), Fault>)
        ensures
            flow(final(self)@, r) == old(self)@.bist_prbs(mode),
    {
        reveal(EngineView::bist_prbs);
        self.state.v.tune.bist_config = bist_config(mode);
        self.run(&[put(BIST_CONFIG, bist_config(mode))])
    }

    fn int_loopback_fix_ch_cross(&mut self, enable: bool) -> (r: Result<(), Fault>)
        ensures
            flow(final(self)@, r) == old(self)@.int_loopback_fix_ch_cross(enable),
    {
        reveal(EngineView::int_loopback_fix_ch_cross);
        let mode: ModeState = self.state.v.mode;
        if !mode.rx2tx2 && mode.rx1tx1_use_rx != mode.rx1tx1_use_tx {
            let ch: Channel = if enable {
                mode.rx1tx1_use_rx
            } else {
                mode.rx1tx1_use_tx
            };
            self.set_tx_channels(ch == Channel::Ch1, ch == Channel::Ch2)?;
        }
        Ok(())
    }

    fn loop_channel(&mut self, enable: bool, chan: u8) -> (r: Result<(), Fault>)
        ensures
            flow(final(self)@, r) == old(self)@.loop_channel(enable, chan),
    {
        reveal(EngineView::loop_channel);
        let current: u32 = self.axi(AxiRequest::DacReadSource { chan })? as u32;
        let tune: TuneState = self.state.v.tune;
        if enable && current != SOURCE_LOOPBACK {
            self.state.v.tune.scratch_dac_source = tune.scratch_dac_source.with(chan, current);
            self.run(&[axi(AxiRequest::DacWriteSource { chan, raw: SOURCE_LOOPBACK })])?;
        } else if current == SOURCE_LOOPBACK {
            self.run(&[
                axi(
                    AxiRequest::DacWriteSource {
                        chan,
                        raw: tune.scratch_dac_source.get(chan),
                    },
                ),
            ])?;
        }
        Ok(())
    }

    fn hdl_loopback(&mut self, enable: bool) -> (r: Result<(), Fault>)
        ensures
            flow(final(self)@, r) == old(self)@.hdl_loopback(enable),
    {
        reveal(EngineView::hdl_loopback);
        let rx2tx2: bool = self.state.v.mode.rx2tx2;
        self.loop_channel(enable, 0)?;
        self.loop_channel(enable, 1)?;
        if rx2tx2 {
            self.loop_channel(enable, 2)?;
            self.loop_channel(enable, 3)?;
        }
        Ok(())
    }

    /// Where the data loops back.
    pub fn bist_loopback(&mut self, mode: BistLoopback) -> (r: Result<(), Fault>)
        ensures
            flow(final(self)@, r) == old(self)@.bist_loopback(mode),
    {
        reveal(EngineView::bist_loopback);
        let byte: u8 = self.read(OBSERVE_CONFIG)?;
        self.state.v.tune.bist_loopback_mode = mode;
        match mode {
            BistLoopback::Off => {
                self.hdl_loopback(false)?;
                self.int_loopback_fix_ch_cross(false)?;
                self.run(&[put(OBSERVE_CONFIG, observe_config(byte, false, false))])
            },
            BistLoopback::RxToTx => {
                self.hdl_loopback(true)?;
                self.int_loopback_fix_ch_cross(false)?;
                self.run(&[put(OBSERVE_CONFIG, observe_config(byte, false, false))])
            },
            BistLoopback::TxToRx => {
                self.hdl_loopback(false)?;
                self.int_loopback_fix_ch_cross(true)?;
                let port: u8 = self.read(PARALLEL_PORT_CONF3)?;
                self.run(&[
                    put(
                        OBSERVE_CONFIG,
                        observe_config(
                            byte,
                            port & SINGLE_PORT_MODE != 0 && port & HALF_DUPLEX_MODE
                                != 0,
                            true,
                        ),
                    ),
                ])
            },
        }
    }

    /// TX attenuation as the chip has it, TX2 or else TX1.
    pub fn tx_atten(&mut self, tx2: bool) -> (r: Result<TxAttenuation, Fault>)
        ensures
            (Reply { e: final(self)@, r }) == old(self)@.tx_atten(tx2),
    {
        reveal(EngineView::tx_atten);
        let addr: u16 = if tx2 {
            TX2_ATTEN1
        } else {
            TX1_ATTEN1
        };
        let value: u64 = self.read_word(addr, 2)?;
        Ok(TxAttenuation::saturating_from_quarter_db(value as u16))
    }

    /// Mute by maxing the attenuation, or restore it.
    pub fn tx_mute(&mut self, mute: bool) -> (r: Result<(), Fault>)
        ensures
            flow(final(self)@, r) == old(self)@.tx_mute(mute),
    {
        reveal(EngineView::tx_mute);
        if mute {
            self.state.v.tx1_atten_cached = self.tx_atten(false)?;
            self.state.v.tx2_atten_cached = self.tx_atten(true)?;
            return self.set_tx_atten(TxAttenuation::maximum(), true, true, true);
        }
        let tx1: TxAttenuation = self.state.v.tx1_atten_cached;
        let tx2: TxAttenuation = self.state.v.tx2_atten_cached;
        if tx1 == tx2 {
            return self.set_tx_atten(tx1, true, true, true);
        }
        self.set_tx_atten(tx1, true, false, true)?;
        self.set_tx_atten(tx2, false, true, true)
    }

    fn clear_pn(&mut self, delay_ms: u64) -> (r: Result<(), Fault>)
        ensures
            flow(final(self)@, r) == old(self)@.clear_pn(delay_ms),
    {
        reveal(EngineView::clear_pn);
        if self.state.v.mode.rx2tx2 {
            self.run(&[
                axi(AxiRequest::AdcClearPnStatus { chan: 0 }),
                axi(AxiRequest::AdcClearPnStatus { chan: 1 }),
                axi(AxiRequest::AdcClearPnStatus { chan: 2 }),
                axi(AxiRequest::AdcClearPnStatus { chan: 3 }),
                wait(delay_ms.wrapping_mul(1000)),
            ])
        } else {
            self.run(&[
                axi(AxiRequest::AdcClearPnStatus { chan: 0 }),
                axi(AxiRequest::AdcClearPnStatus { chan: 1 }),
                wait(delay_ms.wrapping_mul(1000)),
            ])
        }
    }

    fn check_pn(&mut self, tx: bool, delay_ms: u64) -> (r: Result<bool, Fault>)
        ensures
            (Reply { e: final(self)@, r }) == old(self)@.check_pn(tx, delay_ms),
    {
        reveal(EngineView::check_pn);
        let channels: u8 = num_phy_chan(&self.state.v.mode);
        self.clear_pn(delay_ms)?;
        if !tx {
            let status: u64 = self.axi(AxiRequest::AdcReadStatus)?;
            if status & ADC_LOCKED == 0 {
                return Ok(true);
            }
        }
        let mut chan: u8 = 0;
        while chan < channels
            invariant
                chan <= channels,
                old(self)@.check_pn(tx, delay_ms) == self@.pn_error_from(
                    chan as int,
                    channels as int,
                ),
            decreases channels - chan,
        {
            let status: u64 = self.axi(AxiRequest::AdcReadChannelStatus { chan })?;
            if status != 0 {
                return Ok(true);
            }
            chan = chan + 1;
        }
        Ok(false)
    }

    fn set_intf_delay(
        &mut self,
        tx: bool,
        clock_delay: u8,
        data_delay: u8,
        clock_changed: bool,
    ) -> (r: Result<(), Fault>)
        ensures
            flow(final(self)@, r) == old(self)@.set_intf_delay(
                tx,
                clock_delay,
                data_delay,
                clock_changed,
            ),
    {
        reveal(EngineView::set_intf_delay);
        if clock_changed {
            let _ = self.ensm_force_state(ForcedEnsmState::Alert)?;
        }
        self.run(&[put(delay_addr(tx), delay_word(clock_delay, data_delay))])?;
        if clock_changed {
            let _ = self.ensm_force_state(ForcedEnsmState::Fdd)?;
        }
        Ok(())
    }

    fn sweep(&mut self, tx: bool, far: bool, row: &mut Vec<u8>) -> (r: Result<(), Fault>)
        requires
            old(row)@.len() == 16,
        ensures
            final(row)@.len() == 16,
            match r {
                Ok(()) => old(self)@.sweep(tx, far, old(row)@) == (Reply {
                    e: final(self)@,
                    r: Ok(final(row)@),
                }),
                Err(error) => old(self)@.sweep(tx, far, old(row)@) == (Reply::<Seq<u8>> {
                    e: final(self)@,
                    r: Err(error),
                }),
            },
    {
        reveal(EngineView::sweep);
        let mut j: u8 = 0;
        while j < 16
            invariant
                j <= 16,
                row@.len() == 16,
                old(self)@.sweep(tx, far, old(row)@) == self@.sweep_from(tx, far, j as int, row@),
            decreases 16 - j,
        {
            let clock_delay: u8 = if far {
                15
            } else {
                0
            };
            let data_delay: u8 = if far {
                15 - j
            } else {
                j
            };
            self.set_intf_delay(tx, clock_delay, data_delay, j == 0)?;
            if self.check_pn(tx, 4)? {
                row.set(j as usize, 1);
            }
            j = j + 1;
        }
        Ok(())
    }

    fn sweeps(
        &mut self,
        tx: bool,
        sweeps: u8,
        half_data_rate: bool,
        near: &mut Vec<u8>,
        far: &mut Vec<u8>,
    ) -> (r: Result<(), Fault>)
        requires
            old(near)@.len() == 16,
            old(far)@.len() == 16,
        ensures
            final(near)@.len() == 16,
            final(far)@.len() == 16,
            ({
                let swept = old(self)@.sweeps_from(
                    tx,
                    0,
                    sweeps as int,
                    half_data_rate,
                    old(near)@,
                    old(far)@,
                );
                match r {
                    Ok(()) => swept == (Reply {
                        e: final(self)@,
                        r: Ok((final(near)@, final(far)@)),
                    }),
                    Err(error) => swept == (Reply::<(Seq<u8>, Seq<u8>)> {
                        e: final(self)@,
                        r: Err(error),
                    }),
                }
            }),
    {
        let mut sweep: u8 = 0;
        while sweep < sweeps
            invariant
                sweep <= sweeps,
                near@.len() == 16,
                far@.len() == 16,
                old(self)@.sweeps_from(
                    tx,
                    0,
                    sweeps as int,
                    half_data_rate,
                    old(near)@,
                    old(far)@,
                ) == self@.sweeps_from(
                    tx,
                    sweep as int,
                    sweeps as int,
                    half_data_rate,
                    near@,
                    far@,
                ),
            decreases sweeps - sweep,
        {
            if sweeps > 1 {
                // no chain for that rate? carry on with the current clocks
                let _ = self.set_trx_clock_chain_freq_no_tune(sweep_rate(sweep, half_data_rate));
            }
            self.sweep(tx, false, near)?;
            self.sweep(tx, true, far)?;
            sweep = sweep + 1;
        }
        Ok(())
    }

    fn dig_tune_delay(&mut self, max_freq: HertzU32, tx: bool) -> (r: Result<(), Fault>)
        ensures
            flow(final(self)@, r) == old(self)@.dig_tune_delay(max_freq, tx),
    {
        reveal(EngineView::dig_tune_delay);
        let half_data_rate: bool = !self.state.v.mode.lvds_mode && self.state.v.mode.rx2tx2;
        let sweeps: u8 = if max_freq.raw != 0 {
            3
        } else {
            1
        };
        let mut near: Vec<u8> = vec![0u8; 16];
        let mut far: Vec<u8> = vec![0u8; 16];
        assert(near@ =~= Seq::new(16, |i: int| 0u8));
        assert(far@ =~= Seq::new(16, |i: int| 0u8));
        self.sweeps(tx, sweeps, half_data_rate, &mut near, &mut far)?;

        let (near_count, near_start) = find_opt(near.as_slice());
        let (far_count, far_start) = find_opt(far.as_slice());
        if near_count == 0 && far_count == 0 {
            return Err(Ad9361Error::TuningFailed);
        }
        if far_count > near_count {
            self.set_intf_delay(tx, (far_start + far_count / 2) as u8, 0, true)
        } else {
            self.set_intf_delay(tx, 0, (near_start + near_count / 2) as u8, true)
        }
    }

    fn dig_tune_rx(&mut self, max_freq: HertzU32) -> (r: Result<(), Fault>)
        ensures
            flow(final(self)@, r) == old(self)@.dig_tune_rx(max_freq),
    {
        reveal(EngineView::dig_tune_rx);
        self.bist_loopback(BistLoopback::Off)?;
        self.bist_prbs(BistMode::InjectRx)?;
        let result = self.dig_tune_delay(max_freq, false);
        self.run(&[axi(AxiRequest::AdcResetPulse)])?;
        result
    }

    fn prepare_channel(&mut self, chan: u8) -> (r: Result<SavedChannel, Fault>)
        ensures
            (Reply { e: final(self)@, r }) == old(self)@.prepare_channel(chan),
    {
        reveal(EngineView::prepare_channel);
        let adc_path: u64 = self.axi(AxiRequest::AdcReadDataPath { chan })?;
        self.run(&[
            axi(AxiRequest::AdcWriteDataPath { chan, raw: ADC_PATH_CHECKED }),
            axi(AxiRequest::AdcSelectPn { chan, custom: true }),
        ])?;
        let dac_legacy: u64 = self.axi(AxiRequest::DacReadLegacy { chan })?;
        let dac_source: u64 = self.axi(AxiRequest::DacReadSource { chan })?;
        self.run(&[
            axi(AxiRequest::DacWriteSource { chan, raw: SOURCE_PN }),
            axi(AxiRequest::DacWriteLegacy { chan, raw: 0 }),
            axi(AxiRequest::DacSynchronize),
        ])?;
        Ok(
            SavedChannel {
                adc_path: adc_path as u32,
                dac_source: dac_source as u32,
                dac_legacy: dac_legacy as u32,
            },
        )
    }

    fn prepare_channels(&mut self) -> (r: Result<Vec<SavedChannel>, Fault>)
        ensures
            match r {
                Ok(saved) => saved@.len() <= 4 && old(self)@.prepare_channels() == (Reply {
                    e: final(self)@,
                    r: Ok(saved@),
                }),
                Err(error) => old(self)@.prepare_channels() == (Reply::<Seq<SavedChannel>> {
                    e: final(self)@,
                    r: Err(error),
                }),
            },
    {
        reveal(EngineView::prepare_channels);
        let channels: u8 = num_phy_chan(&self.state.v.mode);
        let mut saved: Vec<SavedChannel> = Vec::new();
        let mut chan: u8 = 0;
        assert(saved@ =~= Seq::empty());
        while chan < channels
            invariant
                chan == saved@.len(),
                chan <= channels <= 4,
                old(self)@.prepare_channels() == self@.prepare_from(channels as int, saved@),
            decreases channels - chan,
        {
            let channel: SavedChannel = self.prepare_channel(chan)?;
            saved.push(channel);
            chan = chan + 1;
        }
        Ok(saved)
    }

    fn restore_channel(&mut self, chan: u8, saved: SavedChannel) -> (r: Result<(), Fault>)
        ensures
            flow(final(self)@, r) == old(self)@.restore_channel(chan, saved),
    {
        reveal(EngineView::restore_channel);
        self.run(&[
            axi(AxiRequest::AdcWriteDataPath { chan, raw: saved.adc_path }),
            axi(AxiRequest::AdcSelectPn { chan, custom: false }),
            axi(AxiRequest::DacWriteSource { chan, raw: saved.dac_source }),
            axi(AxiRequest::DacSynchronize),
            axi(AxiRequest::DacWriteLegacy { chan, raw: saved.dac_legacy }),
        ])
    }

    fn restore_channels(&mut self, saved: &Vec<SavedChannel>) -> (r: Result<(), Fault>)
        requires
            saved@.len() <= 4,
        ensures
            flow(final(self)@, r) == old(self)@.restore_channels(saved@),
    {
        reveal(EngineView::restore_channels);
        let mut chan: usize = 0;
        while chan < saved.len()
            invariant
                chan <= saved@.len() <= 4,
                old(self)@.restore_channels(saved@) == self@.restore_from(saved@, chan as int),
            decreases saved@.len() - chan,
        {
            self.restore_channel(chan as u8, saved[chan])?;
            chan = chan + 1;
        }
        Ok(())
    }

    fn dig_tune_tx(&mut self, max_freq: HertzU32) -> (r: Result<(), Fault>)
        ensures
            flow(final(self)@, r) == old(self)@.dig_tune_tx(max_freq),
    {
        reveal(EngineView::dig_tune_tx);
        self.bist_prbs(BistMode::Disable)?;
        self.bist_loopback(BistLoopback::TxToRx)?;
        self.run(&[axi(AxiRequest::DacReleaseReset)])?;
        let saved: Vec<SavedChannel> = self.prepare_channels()?;
        let result = self.dig_tune_delay(max_freq, true);
        self.restore_channels(&saved)?;
        result
    }

    fn tune_muted(&mut self, max_freq: HertzU32) -> (r: Result<Option<Fault>, Fault>)
        ensures
            (Reply { e: final(self)@, r }) == old(self)@.tune_muted(max_freq),
    {
        reveal(EngineView::tune_muted);
        let fdd: bool = self.state.v.mode.fdd;
        let tune: TuneState = self.state.v.tune;

        // mute, the PRBS must not go out on the antenna
        self.tx_mute(true)?;
        if !fdd {
            self.set_ensm_mode(true, false)?;
        }
        let mut result = self.dig_tune_rx(max_freq);
        if result.is_ok() && tune.dig_interface_tune == DigInterfaceTune::RxAndTx {
            result = self.dig_tune_tx(max_freq);
        }
        self.bist_loopback(tune.bist_loopback_mode)?;
        self.run(&[put(BIST_CONFIG, tune.bist_config)])?;
        match result {
            Ok(()) => Ok(None),
            Err(error) => Ok(Some(error)),
        }
    }

    fn restore_delays(&mut self) -> (r: Result<(), Fault>)
        ensures
            flow(final(self)@, r) == old(self)@.restore_delays(),
    {
        reveal(EngineView::restore_delays);
        let tune: TuneState = self.state.v.tune;
        let _ = self.ensm_force_state(ForcedEnsmState::Alert)?;
        self.run(&[
            put(RX_CLOCK_DATA_DELAY, tune.rx_clk_data_delay.raw),
            put(TX_CLOCK_DATA_DELAY, tune.tx_clk_data_delay.raw),
        ])
    }

    fn store_delays(&mut self) -> (r: Result<(), Fault>)
        ensures
            flow(final(self)@, r) == old(self)@.store_delays(),
    {
        reveal(EngineView::store_delays);
        let rx_raw: u8 = self.read(RX_CLOCK_DATA_DELAY)?;
        self.state.v.tune.rx_clk_data_delay = RxClockDataDelay { raw: rx_raw };
        let tx_raw: u8 = self.read(TX_CLOCK_DATA_DELAY)?;
        self.state.v.tune.tx_clk_data_delay = TxClockDataDelay { raw: tx_raw };
        Ok(())
    }

    fn tune_finish(&mut self, restore: bool, store: bool, saved: SavedEnsmState) -> (r: Result<
        (),
        Fault,
    >)
        ensures
            flow(final(self)@, r) == old(self)@.tune_finish(restore, store, saved),
    {
        reveal(EngineView::tune_finish);
        let fdd: bool = self.state.v.mode.fdd;
        let pin_ctrl: bool = self.state.v.ensm.pin_ctrl;
        if restore {
            self.restore_delays()?;
        } else if store {
            self.store_delays()?;
        }
        if !fdd {
            self.set_ensm_mode(fdd, pin_ctrl)?;
        }
        self.ensm_restore_state(saved)?;
        self.run(&[axi(AxiRequest::AdcResetPulse)])?;
        self.tx_mute(false)
    }

    /// Tunes the digital interface. `max_freq` 0 tunes at the current rate, anything else sweeps
    /// 25 MSPS up to 61.44 MSPS.
    pub fn dig_tune(&mut self, max_freq: HertzU32, flags: DigTuneFlags) -> (r: Result<(), Fault>)
        ensures
            flow(final(self)@, r) == old(self)@.dig_tune(max_freq, flags),
    {
        reveal(EngineView::dig_tune);
        let mode: DigInterfaceTune = self.state.v.tune.dig_interface_tune;
        let saved: SavedEnsmState = self.save_ensm_state()?;
        if mode == DigInterfaceTune::UseConfigured || flags.restore_default {
            return self.tune_finish(true, false, saved);
        }
        let outcome: Option<Fault> = self.tune_muted(max_freq)?;
        self.tune_finish(tuning_failed(outcome), !flags.skip_store_result, saved)?;
        if max_freq.raw == 0 {
            return Ok(());
        }
        match outcome {
            None => Ok(()),
            Some(error) => Err(error),
        }
    }

    fn enable_core_channels(&mut self) -> (r: Result<(), Fault>)
        ensures
            flow(final(self)@, r) == old(self)@.enable_core_channels(),
    {
        reveal(EngineView::enable_core_channels);
        let rx2tx2: bool = self.state.v.mode.rx2tx2;
        // enabling a channel also sets the IQ correction coefficients
        self.run(&[
            axi(AxiRequest::AdcWriteDcFilter { chan: 0, raw: 0 }),
            axi(AxiRequest::AdcEnableChannel { chan: 0 }),
            axi(AxiRequest::AdcWriteDcFilter { chan: 1, raw: 0 }),
            axi(AxiRequest::AdcEnableChannel { chan: 1 }),
        ])?;
        if rx2tx2 {
            self.run(&[
                axi(AxiRequest::AdcWriteDcFilter { chan: 2, raw: 0 }),
                axi(AxiRequest::AdcEnableChannel { chan: 2 }),
                axi(AxiRequest::AdcWriteDcFilter { chan: 3, raw: 0 }),
                axi(AxiRequest::AdcEnableChannel { chan: 3 }),
            ])?;
        }
        Ok(())
    }

    fn configure_core(&mut self) -> (r: Result<(), Fault>)
        ensures
            flow(final(self)@, r) == old(self)@.configure_core(),
    {
        reveal(EngineView::configure_core);
        let st: EngineState = self.state.v;
        self.run(&[
            axi(AxiRequest::AdcOneChannelMode { on: !st.mode.rx2tx2 }),
            axi(AxiRequest::DacOneChannelMode { on: !st.mode.rx2tx2 }),
            axi(
                AxiRequest::DacRateDivider {
                    divider: dac_rate_divider(
                        st.mode.rx2tx2,
                        st.tune.axi_half_dac_rate_en,
                        st.mode.lvds_mode,
                    ),
                },
            ),
        ])?;
        self.enable_core_channels()
    }

    fn tune_at_start(&mut self, flags: DigTuneFlags) -> (r: Result<(), Fault>)
        ensures
            flow(final(self)@, r) == old(self)@.tune_at_start(flags),
    {
        reveal(EngineView::tune_at_start);
        let rx: PathClocks = self.state.v.clk.rx_path_clks;
        let tx: PathClocks = self.state.v.clk.tx_path_clks;
        self.dig_tune(HertzU32 { raw: 61_440_000 }, flags)?;
        self.set_trx_clock_chain(&rx, &tx)?;
        let saved: SavedEnsmState = self.ensm_force_state(ForcedEnsmState::Alert)?;
        self.ensm_restore_state(saved)
    }

    fn with_dig_tune_mode(&mut self, mode: DigInterfaceTune, flags: DigTuneFlags) -> (r: Result<
        (),
        Fault,
    >)
        ensures
            flow(final(self)@, r) == old(self)@.with_dig_tune_mode(mode, flags),
    {
        reveal(EngineView::with_dig_tune_mode);
        let configured: DigInterfaceTune = self.state.v.tune.dig_interface_tune;
        self.state.v.tune.dig_interface_tune = mode;
        let result = self.tune_at_start(flags);
        self.state.v.tune.dig_interface_tune = configured;
        result
    }

    /// Configures the AXI core and tunes.
    pub fn post_setup(&mut self) -> (r: Result<(), Fault>)
        ensures
            flow(final(self)@, r) == old(self)@.post_setup(),
    {
        reveal(EngineView::post_setup);
        let st: EngineState = self.state.v;
        self.configure_core()?;
        let flags = DigTuneFlags { restore_default: st.core_id != 0, skip_store_result: false };
        // with a retune on every baseband clock change this is just a baseline
        let mode: DigInterfaceTune = if st.tune.bb_clk_change_dig_tune_en {
            DigInterfaceTune::UseConfigured
        } else {
            st.tune.dig_interface_tune
        };
        self.with_dig_tune_mode(mode, flags)
    }
}

} // verus!
