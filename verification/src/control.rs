//! Enable state machine (ENSM), TX attenuation, CLKOUT.
use vstd::prelude::*;

use crate::engine::{
    flow, law_poll_fails_or_times_out, law_read_fails_on_the_bus, law_read_keeps_state,
    law_run_fails_on_the_bus, law_run_keeps_state, Engine, EngineView, Flow, Reply,
};
use crate::error::Ad9361Error;
use crate::gain_control::GainMode;
use crate::link::{put, update, wait, Fault, Op};
use crate::math::flag;
use crate::registers::{
    BBPLL, BBPLL_ENABLE, BYPASS_LD_SYNTH, CLKOUT_ENABLE, CLKOUT_SELECT, CLOCK_ENABLE,
    CLOCK_ENABLE_DFLT, DIGITAL_POWER_UP, DUAL_SYNTH_MODE, ENABLE_ENSM_PIN_CTRL,
    ENABLE_RX_DATA_PORT_FOR_CAL, ENSM_CONFIG1, ENSM_CONFIG2, ENSM_MODE, ENSM_STATE,
    FDD_EXTERNAL_CTRL_ENABLE, FDD_MODE, FORCE_ALERT_STATE, FORCE_PD_RESET_RX1,
    FORCE_PD_RESET_RX2, FORCE_RX_ON, FORCE_TX_ON, IMMEDIATELY_UPDATE_TPC_ATTEN, LEVEL_MODE,
    POWER_DOWN_RX_SYNTH, POWER_DOWN_TX_SYNTH, RX_CP_OVERRANGE_VCO_LOCK, RX_PFD_CONFIG,
    RX_SYNTH_READY_MASK, SMALL_LMT_OVERLOAD_THRESH, SMALL_LMT_THRESH, STATE,
    SYNTH_ENABLE_PIN_CTRL_MODE, TO_ALERT, TX1_ATTEN1, TX2_ATTEN1, TX2_DIG_ATTEN, TXNRX_SPI_CTRL,
    TX_SYNTH_OFFSET, TX_SYNTH_READY_MASK, VCO_LOCK, XO_BYPASS,
};
use crate::state::{EngineState, EnsmTracking, ModeState};
use crate::units::TxAttenuation;

verus! {

/// ENSM state to go back to later.
#[derive(Debug, Clone, Copy, PartialEq, Eq, Structural)]
pub struct SavedEnsmState {
    pub raw: u8,
}

/// ENSM state.
#[derive(Debug, Clone, Copy, PartialEq, Eq, Structural)]
pub enum EnsmState {
    /// Clocks off
    Sleep,
    SleepWait,
    Alert,
    Tx,
    TxFlush,
    Rx,
    RxFlush,
    Fdd,
    FddFlush,
}

impl EnsmState {
    /// Value of the ENSM state field. The chip never reports `Sleep`.
    #[verifier::allow_in_spec]
    pub fn raw(self) -> u8
        returns
            (match self {
                EnsmState::Sleep => 0x80u8,
                EnsmState::SleepWait => 0x0,
                EnsmState::Alert => 0x5,
                EnsmState::Tx => 0x6,
                EnsmState::TxFlush => 0x7,
                EnsmState::Rx => 0x8,
                EnsmState::RxFlush => 0x9,
                EnsmState::Fdd => 0xA,
                EnsmState::FddFlush => 0xB,
            }),
    {
        match self {
            EnsmState::Sleep => 0x80,
            EnsmState::SleepWait => 0x0,
            EnsmState::Alert => 0x5,
            EnsmState::Tx => 0x6,
            EnsmState::TxFlush => 0x7,
            EnsmState::Rx => 0x8,
            EnsmState::RxFlush => 0x9,
            EnsmState::Fdd => 0xA,
            EnsmState::FddFlush => 0xB,
        }
    }
}

/// States the driver can force.
#[derive(Debug, Clone, Copy, PartialEq, Eq, Structural)]
pub enum ForcedEnsmState {
    Tx,
    Fdd,
    Rx,
    Alert,
}

/// The forced state as a chip state.
pub open spec fn forced_state(state: ForcedEnsmState) -> EnsmState {
    match state {
        ForcedEnsmState::Tx => EnsmState::Tx,
        ForcedEnsmState::Fdd => EnsmState::Fdd,
        ForcedEnsmState::Rx => EnsmState::Rx,
        ForcedEnsmState::Alert => EnsmState::Alert,
    }
}

impl From<ForcedEnsmState> for EnsmState {
    fn from(state: ForcedEnsmState) -> (r: Self) {
        match state {
            ForcedEnsmState::Tx => EnsmState::Tx,
            ForcedEnsmState::Fdd => EnsmState::Fdd,
            ForcedEnsmState::Rx => EnsmState::Rx,
            ForcedEnsmState::Alert => EnsmState::Alert,
        }
    }
}

impl vstd::std_specs::convert::FromSpecImpl<ForcedEnsmState> for EnsmState {
    open spec fn obeys_from_spec() -> bool {
        true
    }

    open spec fn from_spec(state: ForcedEnsmState) -> Self {
        forced_state(state)
    }
}

/// States that can be requested. The flush states are transient.
#[derive(Debug, Clone, Copy, PartialEq, Eq, Structural)]
pub enum RequestedEnsmState {
    Sleep,
    SleepWait,
    Alert,
    Tx,
    Rx,
    Fdd,
}

/// The requested state as a chip state.
pub open spec fn requested_state(state: RequestedEnsmState) -> EnsmState {
    match state {
        RequestedEnsmState::Sleep => EnsmState::Sleep,
        RequestedEnsmState::SleepWait => EnsmState::SleepWait,
        RequestedEnsmState::Alert => EnsmState::Alert,
        RequestedEnsmState::Tx => EnsmState::Tx,
        RequestedEnsmState::Rx => EnsmState::Rx,
        RequestedEnsmState::Fdd => EnsmState::Fdd,
    }
}

impl From<RequestedEnsmState> for EnsmState {
    fn from(state: RequestedEnsmState) -> (r: Self) {
        match state {
            RequestedEnsmState::Sleep => EnsmState::Sleep,
            RequestedEnsmState::SleepWait => EnsmState::SleepWait,
            RequestedEnsmState::Alert => EnsmState::Alert,
            RequestedEnsmState::Tx => EnsmState::Tx,
            RequestedEnsmState::Rx => EnsmState::Rx,
            RequestedEnsmState::Fdd => EnsmState::Fdd,
        }
    }
}

impl vstd::std_specs::convert::FromSpecImpl<RequestedEnsmState> for EnsmState {
    open spec fn obeys_from_spec() -> bool {
        true
    }

    open spec fn from_spec(state: RequestedEnsmState) -> Self {
        requested_state(state)
    }
}

/// What the CLKOUT pin outputs.
#[derive(Debug, Clone, Copy, PartialEq, Eq, Structural)]
pub enum ClkoutMode {
    Disable,
    BufferedXtalnDcxo,
    AdcClkDiv2,
    AdcClkDiv3,
    AdcClkDiv4,
    AdcClkDiv8,
    AdcClkDiv16,
}

impl ClkoutMode {
    /// The register field. Means nothing for `Disable`.
    #[verifier::allow_in_spec]
    pub fn select(self) -> u8
        returns
            (match self {
                ClkoutMode::Disable => 0u8,
                ClkoutMode::BufferedXtalnDcxo => 0,
                ClkoutMode::AdcClkDiv2 => 1,
                ClkoutMode::AdcClkDiv3 => 2,
                ClkoutMode::AdcClkDiv4 => 3,
                ClkoutMode::AdcClkDiv8 => 4,
                ClkoutMode::AdcClkDiv16 => 5,
            }),
    {
        match self {
            ClkoutMode::Disable => 0,
            ClkoutMode::BufferedXtalnDcxo => 0,
            ClkoutMode::AdcClkDiv2 => 1,
            ClkoutMode::AdcClkDiv3 => 2,
            ClkoutMode::AdcClkDiv4 => 3,
            ClkoutMode::AdcClkDiv8 => 4,
            ClkoutMode::AdcClkDiv16 => 5,
        }
    }
}

/// RX synth register address, or the one of its TX twin.
#[verifier::allow_in_spec]
pub fn synth_addr(addr: u16, tx: bool) -> u16
    requires
        addr <= 0x3FF,
    returns
        (if tx {
            (addr + TX_SYNTH_OFFSET) as u16
        } else {
            addr
        }),
{
    if tx {
        addr + TX_SYNTH_OFFSET
    } else {
        addr
    }
}

/// What goes into the second ENSM configuration register besides the synth power down and ready
/// mask bits.
#[verifier::allow_in_spec]
pub fn ensm_config2_mode(mode: &ModeState, fdd: bool, pinctrl: bool) -> u8
    returns
        (if fdd {
            DUAL_SYNTH_MODE | flag(mode.fdd_independent_mode, FDD_EXTERNAL_CTRL_ENABLE)
        } else if mode.tdd_use_dual_synth {
            DUAL_SYNTH_MODE
        } else {
            flag(pinctrl, SYNTH_ENABLE_PIN_CTRL_MODE)
        }),
{
    if fdd {
        DUAL_SYNTH_MODE | flag(mode.fdd_independent_mode, FDD_EXTERNAL_CTRL_ENABLE)
    } else if mode.tdd_use_dual_synth {
        DUAL_SYNTH_MODE
    } else {
        flag(pinctrl, SYNTH_ENABLE_PIN_CTRL_MODE)
    }
}

/// Clock enables of a chip that runs.
#[verifier::allow_in_spec]
pub fn clocks_on(use_extclk: bool) -> u8
    returns
        DIGITAL_POWER_UP | CLOCK_ENABLE_DFLT | BBPLL_ENABLE | flag(use_extclk, XO_BYPASS),
{
    DIGITAL_POWER_UP | CLOCK_ENABLE_DFLT | BBPLL_ENABLE | flag(use_extclk, XO_BYPASS)
}

/// First ENSM configuration register, without the bits that pick the state.
#[verifier::allow_in_spec]
pub fn ensm_config1_base(mode: &ModeState, ensm: &EnsmTracking, pinctrl: bool) -> u8
    returns
        flag(!ensm.pin_pulse_mode, LEVEL_MODE) | flag(pinctrl, ENABLE_ENSM_PIN_CTRL) | flag(
            mode.txmon_tdd_en,
            ENABLE_RX_DATA_PORT_FOR_CAL,
        ) | TO_ALERT,
{
    flag(!ensm.pin_pulse_mode, LEVEL_MODE) | flag(pinctrl, ENABLE_ENSM_PIN_CTRL) | flag(
        mode.txmon_tdd_en,
        ENABLE_RX_DATA_PORT_FOR_CAL,
    ) | TO_ALERT
}

/// Bits of the first ENSM configuration register that pick a state.
#[verifier::allow_in_spec]
pub fn ensm_state_bits(state: RequestedEnsmState) -> u8
    returns
        (match state {
            RequestedEnsmState::Tx => FORCE_TX_ON,
            RequestedEnsmState::Fdd => FORCE_TX_ON,
            RequestedEnsmState::Rx => FORCE_RX_ON,
            RequestedEnsmState::Alert => FORCE_ALERT_STATE,
            RequestedEnsmState::SleepWait => 0,
            RequestedEnsmState::Sleep => 0,
        }),
{
    match state {
        RequestedEnsmState::Tx => FORCE_TX_ON,
        RequestedEnsmState::Fdd => FORCE_TX_ON,
        RequestedEnsmState::Rx => FORCE_RX_ON,
        RequestedEnsmState::Alert => FORCE_ALERT_STATE,
        RequestedEnsmState::SleepWait => 0,
        RequestedEnsmState::Sleep => 0,
    }
}

/// Whether the chip can't go to the state directly: RX and TX are TDD states and entered from
/// alert, FDD is an FDD state.
#[verifier::allow_in_spec]
pub fn ensm_indirect(mode: &ModeState, from_alert: bool, state: RequestedEnsmState) -> bool
    returns
        (match state {
            RequestedEnsmState::Tx => mode.fdd || !from_alert,
            RequestedEnsmState::Rx => mode.fdd || !from_alert,
            RequestedEnsmState::Fdd => !mode.fdd,
            RequestedEnsmState::Alert => false,
            RequestedEnsmState::SleepWait => false,
            RequestedEnsmState::Sleep => false,
        }),
{
    match state {
        RequestedEnsmState::Tx => mode.fdd || !from_alert,
        RequestedEnsmState::Rx => mode.fdd || !from_alert,
        RequestedEnsmState::Fdd => !mode.fdd,
        RequestedEnsmState::Alert => false,
        RequestedEnsmState::SleepWait => false,
        RequestedEnsmState::Sleep => false,
    }
}

impl EngineView {
    /// FDD or TDD, keeping the synth power down and ready mask bits.
    #[verifier::opaque]
    pub open spec fn set_ensm_mode(self, fdd: bool, pinctrl: bool) -> Flow {
        let current = self.run([put(ENSM_MODE, flag(fdd, FDD_MODE))]@).read(ENSM_CONFIG2);
        match current.r {
            Err(error) => current.done(),
            Ok(byte) => current.e.run(
                [
                    put(
                        ENSM_CONFIG2,
                        (byte & (POWER_DOWN_RX_SYNTH | POWER_DOWN_TX_SYNTH | RX_SYNTH_READY_MASK
                            | TX_SYNTH_READY_MASK)) | ensm_config2_mode(
                            &current.e.state.v.mode,
                            fdd,
                            pinctrl,
                        ),
                    ),
                ]@,
            ),
        }
    }

    /// TX attenuation of the chosen channels, most significant byte first.
    #[verifier::opaque]
    pub open spec fn set_tx_atten(
        self,
        atten: TxAttenuation,
        tx1: bool,
        tx2: bool,
        immed: bool,
    ) -> Flow {
        let steps = atten.steps() as u64;
        let held = self.run([update(TX2_DIG_ATTEN, IMMEDIATELY_UPDATE_TPC_ATTEN, 0)]@);
        let first = if tx1 {
            held.run([Op::Burst { addr: TX1_ATTEN1, len: 2, data: steps }]@)
        } else {
            held
        };
        let second = if tx2 {
            first.run([Op::Burst { addr: TX2_ATTEN1, len: 2, data: steps }]@)
        } else {
            first
        };
        if immed {
            second.run(
                [
                    update(
                        TX2_DIG_ATTEN,
                        IMMEDIATELY_UPDATE_TPC_ATTEN,
                        IMMEDIATELY_UPDATE_TPC_ATTEN,
                    ),
                ]@,
            )
        } else {
            second
        }
    }

    /// CLKOUT off, or on with a source.
    #[verifier::opaque]
    pub open spec fn clkout_control(self, mode: ClkoutMode) -> Flow {
        if mode == ClkoutMode::Disable {
            self.run([update(BBPLL, CLKOUT_ENABLE, 0)]@)
        } else {
            self.run(
                [
                    update(
                        BBPLL,
                        CLKOUT_ENABLE | CLKOUT_SELECT,
                        CLKOUT_ENABLE | (mode.select() << 5),
                    ),
                ]@,
            )
        }
    }

    /// RX or TX VCO calibration on or off.
    #[verifier::opaque]
    pub open spec fn trx_vco_cal_control(self, tx: bool, enable: bool) -> Flow {
        self.run(
            [
                update(
                    synth_addr(RX_PFD_CONFIG, tx),
                    BYPASS_LD_SYNTH,
                    flag(!enable, BYPASS_LD_SYNTH),
                ),
            ]@,
        )
    }

    /// ENSM state from the chip.
    #[verifier::opaque]
    pub open spec fn ensm_state(self) -> Reply<u8> {
        let reply = self.read(STATE);
        Reply {
            e: reply.e,
            r: match reply.r {
                Ok(byte) => Ok(byte & ENSM_STATE),
                Err(error) => Err(error),
            },
        }
    }

    /// Waits for an ENSM state, a millisecond at a time, `polls` times at most. Not getting there
    /// is no error.
    #[verifier::opaque]
    pub open spec fn ensm_settle(self, want: u8, polls: nat) -> Flow
        decreases polls,
    {
        if polls == 0 {
            self.start()
        } else {
            let state = self.ensm_state();
            match state.r {
                Err(error) => state.done(),
                Ok(raw) => if raw == want {
                    state.e.start()
                } else {
                    let waited = state.e.run([wait(1000)]@);
                    if waited.err is Some {
                        waited
                    } else {
                        waited.e.ensm_settle(want, (polls - 1) as nat)
                    }
                },
            }
        }
    }

    /// Forces an ENSM state and returns the old one. Nothing is forced if the chip is already
    /// there.
    #[verifier::opaque]
    pub open spec fn ensm_force_state(self, state: ForcedEnsmState) -> Reply<SavedEnsmState> {
        let device = self.ensm_state();
        match device.r {
            Err(error) => Reply { e: device.e, r: Err(error) },
            Ok(raw) => {
                let saved = SavedEnsmState { raw };
                let want = forced_state(state).raw();
                if raw == want {
                    device.e.start().reply(saved)
                } else {
                    let config = device.e.read(ENSM_CONFIG1);
                    match config.r {
                        Err(error) => Reply { e: config.e, r: Err(error) },
                        Ok(byte) => {
                            let st = config.e.state.v;
                            config.e.set(
                                EngineState {
                                    ensm: EnsmTracking {
                                        saved_pin_ctrl_enable: byte & ENABLE_ENSM_PIN_CTRL != 0,
                                        ..st.ensm
                                    },
                                    ..st
                                },
                            ).run(
                                [
                                    put(ENSM_CONFIG1, TO_ALERT | FORCE_ALERT_STATE),
                                    put(ENSM_CONFIG1, forced_config1(byte, raw, state)),
                                ]@,
                            ).ensm_settle(want, 10).reply(saved)
                        },
                    }
                }
            },
        }
    }

    /// The ENSM state, for restoring it later.
    #[verifier::opaque]
    pub open spec fn save_ensm_state(self) -> Reply<SavedEnsmState> {
        let device = self.ensm_state();
        Reply {
            e: device.e,
            r: match device.r {
                Ok(raw) => Ok(SavedEnsmState { raw }),
                Err(error) => Err(error),
            },
        }
    }

    /// Goes back to a saved state if it's one that can be restored: TX, FDD, RX or alert.
    #[verifier::opaque]
    pub open spec fn ensm_restore_state(self, saved: SavedEnsmState) -> Flow {
        let current = self.read(ENSM_CONFIG1);
        match current.r {
            Err(error) => current.done(),
            Ok(byte) => match restored_config1(byte, saved.raw) {
                None => current.e.start(),
                Some(config) => {
                    let back = current.e.run(
                        [
                            put(ENSM_CONFIG1, TO_ALERT | FORCE_ALERT_STATE),
                            put(ENSM_CONFIG1, config),
                        ]@,
                    );
                    if current.e.state.v.ensm.saved_pin_ctrl_enable {
                        back.run([put(ENSM_CONFIG1, config | ENABLE_ENSM_PIN_CTRL)]@)
                    } else {
                        back
                    }
                },
            },
        }
    }

    /// Clocks on and VCO calibration on, coming from sleep.
    #[verifier::opaque]
    pub open spec fn ensm_wake(self) -> Flow {
        if self.state.v.ensm.current == EnsmState::Sleep.raw() {
            self.run(
                [
                    put(CLOCK_ENABLE, clocks_on(self.state.v.clk.use_extclk)),
                    wait(20),
                    put(ENSM_CONFIG1, TO_ALERT | FORCE_ALERT_STATE),
                ]@,
            ).trx_vco_cal_control(false, true).trx_vco_cal_control(true, true)
        } else {
            self.start()
        }
    }

    /// Flushes, then switches the clocks off.
    #[verifier::opaque]
    pub open spec fn ensm_sleep(self) -> Flow {
        let st = self.state.v;
        self.trx_vco_cal_control(false, false).trx_vco_cal_control(true, false).run(
            [
                put(ENSM_CONFIG1, 0),
                put(
                    ENSM_CONFIG1,
                    if st.mode.fdd {
                        FORCE_TX_ON
                    } else {
                        FORCE_RX_ON
                    },
                ),
                wait(flush_micros(st.clk.rates.adc.raw)),
                put(ENSM_CONFIG1, 0),
                wait(1),
                put(CLOCK_ENABLE, flag(st.clk.use_extclk, XO_BYPASS)),
            ]@,
        ).set_ensm_current(EnsmState::Sleep)
    }

    /// Remembers the ENSM state.
    pub open spec fn set_ensm_current(self, state: EnsmState) -> Flow {
        let st = self.state.v;
        self.set(
            EngineState { ensm: EnsmTracking { current: state.raw(), ..st.ensm }, ..st },
        )
    }

    /// Resets the peak detectors of the channels in manual gain mode.
    #[verifier::opaque]
    pub open spec fn reset_peak_detectors(self) -> Flow {
        let gain = self.state.v.gain;
        let thresh = self.read(SMALL_LMT_OVERLOAD_THRESH);
        match thresh.r {
            Err(error) => thresh.done(),
            Ok(byte) => thresh.e.run(
                [
                    put(
                        SMALL_LMT_OVERLOAD_THRESH,
                        (byte & SMALL_LMT_THRESH) | flag(
                            gain.rx1_mode == GainMode::Manual,
                            FORCE_PD_RESET_RX1,
                        ) | flag(gain.rx2_mode == GainMode::Manual, FORCE_PD_RESET_RX2),
                    ),
                    put(SMALL_LMT_OVERLOAD_THRESH, byte & SMALL_LMT_THRESH),
                ]@,
            ),
        }
    }

    /// Goes through alert where the state can't be reached directly. From alert, that means the
    /// state doesn't go with the duplex mode, which is an error.
    #[verifier::opaque]
    pub open spec fn ensm_pass_alert(self, state: RequestedEnsmState, pinctrl: bool) -> Flow {
        let st = self.state.v;
        let from_alert = st.ensm.current == EnsmState::Alert.raw();
        if !ensm_indirect(&st.mode, from_alert, state) {
            self.start()
        } else if from_alert {
            self.fail(Ad9361Error::InvalidEnsmTransition)
        } else {
            self.run(
                [
                    put(
                        ENSM_CONFIG1,
                        ensm_config1_base(&st.mode, &st.ensm, pinctrl) | FORCE_ALERT_STATE,
                    ),
                ]@,
            ).wait_until(STATE, ENSM_STATE, EnsmState::Alert.raw(), 120)
        }
    }

    /// Switches the synth that RX and TX share in TDD, and waits until it locks.
    #[verifier::opaque]
    pub open spec fn ensm_pick_synth(self, state: RequestedEnsmState, pinctrl: bool) -> Flow {
        let mode = self.state.v.mode;
        let tx = state == RequestedEnsmState::Tx;
        let rx = state == RequestedEnsmState::Rx;
        if !mode.fdd && !pinctrl && !mode.tdd_use_dual_synth && (tx || rx) {
            self.run([update(ENSM_CONFIG2, TXNRX_SPI_CTRL, flag(tx, TXNRX_SPI_CTRL))]@).wait_until(
                synth_addr(RX_CP_OVERRANGE_VCO_LOCK, tx),
                VCO_LOCK,
                VCO_LOCK,
                120,
            )
        } else {
            self.start()
        }
    }

    /// Enters the state.
    #[verifier::opaque]
    pub open spec fn ensm_enter(self, state: RequestedEnsmState, pinctrl: bool) -> Flow {
        let st = self.state.v;
        let entered = self.run(
            [
                put(
                    ENSM_CONFIG1,
                    ensm_config1_base(&st.mode, &st.ensm, pinctrl) | ensm_state_bits(state),
                ),
            ]@,
        );
        if state == RequestedEnsmState::Rx && st.gain.any(GainMode::Manual) {
            entered.reset_peak_detectors()
        } else {
            entered
        }
    }

    /// Moves the ENSM to a requested state.
    #[verifier::opaque]
    pub open spec fn ensm_set_state(self, state: RequestedEnsmState, pinctrl: bool) -> Flow {
        if state == RequestedEnsmState::Sleep {
            self.ensm_wake().ensm_sleep()
        } else {
            self.ensm_wake().ensm_pass_alert(state, pinctrl).ensm_pick_synth(
                state,
                pinctrl,
            ).ensm_enter(state, pinctrl).set_ensm_current(requested_state(state))
        }
    }
}

/// The same steps, after others.
impl Flow {
    pub open spec fn set_ensm_mode(self, fdd: bool, pinctrl: bool) -> Flow {
        if self.err is Some {
            self
        } else {
            self.e.set_ensm_mode(fdd, pinctrl)
        }
    }

    pub open spec fn set_tx_atten(
        self,
        atten: TxAttenuation,
        tx1: bool,
        tx2: bool,
        immed: bool,
    ) -> Flow {
        if self.err is Some {
            self
        } else {
            self.e.set_tx_atten(atten, tx1, tx2, immed)
        }
    }

    pub open spec fn clkout_control(self, mode: ClkoutMode) -> Flow {
        if self.err is Some {
            self
        } else {
            self.e.clkout_control(mode)
        }
    }

    pub open spec fn trx_vco_cal_control(self, tx: bool, enable: bool) -> Flow {
        if self.err is Some {
            self
        } else {
            self.e.trx_vco_cal_control(tx, enable)
        }
    }

    pub open spec fn ensm_state(self) -> Reply<u8> {
        match self.err {
            Some(error) => Reply { e: self.e, r: Err(error) },
            None => self.e.ensm_state(),
        }
    }

    pub open spec fn ensm_settle(self, want: u8, polls: nat) -> Flow {
        if self.err is Some {
            self
        } else {
            self.e.ensm_settle(want, polls)
        }
    }

    pub open spec fn ensm_force_state(self, state: ForcedEnsmState) -> Reply<SavedEnsmState> {
        match self.err {
            Some(error) => Reply { e: self.e, r: Err(error) },
            None => self.e.ensm_force_state(state),
        }
    }

    pub open spec fn save_ensm_state(self) -> Reply<SavedEnsmState> {
        match self.err {
            Some(error) => Reply { e: self.e, r: Err(error) },
            None => self.e.save_ensm_state(),
        }
    }

    pub open spec fn ensm_restore_state(self, saved: SavedEnsmState) -> Flow {
        if self.err is Some {
            self
        } else {
            self.e.ensm_restore_state(saved)
        }
    }

    pub open spec fn ensm_wake(self) -> Flow {
        if self.err is Some {
            self
        } else {
            self.e.ensm_wake()
        }
    }

    pub open spec fn ensm_sleep(self) -> Flow {
        if self.err is Some {
            self
        } else {
            self.e.ensm_sleep()
        }
    }

    pub open spec fn set_ensm_current(self, state: EnsmState) -> Flow {
        if self.err is Some {
            self
        } else {
            self.e.set_ensm_current(state)
        }
    }

    pub open spec fn reset_peak_detectors(self) -> Flow {
        if self.err is Some {
            self
        } else {
            self.e.reset_peak_detectors()
        }
    }

    pub open spec fn ensm_pass_alert(self, state: RequestedEnsmState, pinctrl: bool) -> Flow {
        if self.err is Some {
            self
        } else {
            self.e.ensm_pass_alert(state, pinctrl)
        }
    }

    pub open spec fn ensm_pick_synth(self, state: RequestedEnsmState, pinctrl: bool) -> Flow {
        if self.err is Some {
            self
        } else {
            self.e.ensm_pick_synth(state, pinctrl)
        }
    }

    pub open spec fn ensm_enter(self, state: RequestedEnsmState, pinctrl: bool) -> Flow {
        if self.err is Some {
            self
        } else {
            self.e.ensm_enter(state, pinctrl)
        }
    }

    pub open spec fn ensm_set_state(self, state: RequestedEnsmState, pinctrl: bool) -> Flow {
        if self.err is Some {
            self
        } else {
            self.e.ensm_set_state(state, pinctrl)
        }
    }
}

/// Time for the flush, 384 ADC clock cycles, in microseconds.
#[verifier::allow_in_spec]
pub fn flush_micros(adc: u32) -> u64
    returns
        384_000_000u64 / (if adc == 0 {
            1u64
        } else {
            adc as u64
        }),
{
    384_000_000u64 / (if adc == 0 {
        1u64
    } else {
        adc as u64
    })
}

/// First ENSM configuration register for a forced state. SPI control on, and out of alert.
#[verifier::allow_in_spec]
pub fn forced_config1(current: u8, device_state: u8, state: ForcedEnsmState) -> u8
    returns
        ({
            let spi = current & !ENABLE_ENSM_PIN_CTRL;
            let out = if device_state != 0 {
                spi & !TO_ALERT
            } else {
                spi
            };
            match state {
                ForcedEnsmState::Tx => out | FORCE_TX_ON,
                ForcedEnsmState::Fdd => out | FORCE_TX_ON,
                ForcedEnsmState::Rx => out | FORCE_RX_ON,
                ForcedEnsmState::Alert => (out & !(FORCE_TX_ON | FORCE_RX_ON)) | TO_ALERT
                    | FORCE_ALERT_STATE,
            }
        }),
{
    let spi: u8 = current & !ENABLE_ENSM_PIN_CTRL;
    let out: u8 = if device_state != 0 {
        spi & !TO_ALERT
    } else {
        spi
    };
    match state {
        ForcedEnsmState::Tx => out | FORCE_TX_ON,
        ForcedEnsmState::Fdd => out | FORCE_TX_ON,
        ForcedEnsmState::Rx => out | FORCE_RX_ON,
        ForcedEnsmState::Alert => (out & !(FORCE_TX_ON | FORCE_RX_ON)) | TO_ALERT
            | FORCE_ALERT_STATE,
    }
}

/// First ENSM configuration register to go back to a saved state: what forcing set is cleared.
/// `None` if the state is not one that can be restored.
#[verifier::allow_in_spec]
pub fn restored_config1(current: u8, saved: u8) -> Option<u8>
    returns
        ({
            let cleared = (current & !(FORCE_TX_ON | FORCE_RX_ON | FORCE_ALERT_STATE)) | TO_ALERT;
            if saved == 0x6 || saved == 0xA {
                Some(cleared | FORCE_TX_ON)
            } else if saved == 0x8 {
                Some(cleared | FORCE_RX_ON)
            } else if saved == 0x5 {
                Some(cleared)
            } else {
                None::<u8>
            }
        }),
{
    let cleared: u8 = (current & !(FORCE_TX_ON | FORCE_RX_ON | FORCE_ALERT_STATE)) | TO_ALERT;
    if saved == 0x6 || saved == 0xA {
        Some(cleared | FORCE_TX_ON)
    } else if saved == 0x8 {
        Some(cleared | FORCE_RX_ON)
    } else if saved == 0x5 {
        Some(cleared)
    } else {
        None
    }
}

/// Waiting for an ENSM state leaves the state alone.
proof fn lemma_settle_keeps_state(e: EngineView, want: u8, polls: nat)
    ensures
        e.ensm_settle(want, polls).e.state == e.state,
    decreases polls,
{
    reveal(EngineView::ensm_settle);
    reveal(EngineView::ensm_state);
    if polls > 0 {
        law_read_keeps_state(e, STATE);
        let state = e.ensm_state();
        law_run_keeps_state(state.e, [wait(1000)]@);
        lemma_settle_keeps_state(state.e.run([wait(1000)]@).e, want, (polls - 1) as nat);
    }
}

/// Forcing an ENSM state only notes whether the pins had control.
pub proof fn law_force_keeps_state(e: EngineView, state: ForcedEnsmState)
    ensures
        ({
            let after = e.ensm_force_state(state).e.state.v;
            after == EngineState {
                ensm: EnsmTracking {
                    saved_pin_ctrl_enable: after.ensm.saved_pin_ctrl_enable,
                    ..e.state.v.ensm
                },
                ..e.state.v
            }
        }),
{
    reveal(EngineView::ensm_force_state);
    reveal(EngineView::ensm_state);
    law_read_keeps_state(e, STATE);
    let device = e.ensm_state();
    law_read_keeps_state(device.e, ENSM_CONFIG1);
    if let Ok(raw) = device.r {
        let want = forced_state(state).raw();
        let config = device.e.read(ENSM_CONFIG1);
        if let Ok(byte) = config.r {
            let st = config.e.state.v;
            let noted = config.e.set(
                EngineState {
                    ensm: EnsmTracking {
                        saved_pin_ctrl_enable: byte & ENABLE_ENSM_PIN_CTRL != 0,
                        ..st.ensm
                    },
                    ..st
                },
            ).e;
            let ops = [
                put(ENSM_CONFIG1, TO_ALERT | FORCE_ALERT_STATE),
                put(ENSM_CONFIG1, forced_config1(byte, raw, state)),
            ]@;
            law_run_keeps_state(noted, ops);
            lemma_settle_keeps_state(noted.run(ops).e, want, 10);
        }
    }
}

/// Restoring an ENSM state leaves the state alone.
pub proof fn law_restore_keeps_state(e: EngineView, saved: SavedEnsmState)
    ensures
        e.ensm_restore_state(saved).e.state == e.state,
{
    reveal(EngineView::ensm_restore_state);
    law_read_keeps_state(e, ENSM_CONFIG1);
    let current = e.read(ENSM_CONFIG1);
    if let Ok(byte) = current.r {
        if let Some(config) = restored_config1(byte, saved.raw) {
            let ops = [
                put(ENSM_CONFIG1, TO_ALERT | FORCE_ALERT_STATE),
                put(ENSM_CONFIG1, config),
            ]@;
            law_run_keeps_state(current.e, ops);
            law_run_keeps_state(
                current.e.run(ops).e,
                [put(ENSM_CONFIG1, config | ENABLE_ENSM_PIN_CTRL)]@,
            );
        }
    }
}

/// Forcing and restoring an ENSM state and setting the ENSM mode only fail on the bus.
pub proof fn law_ensm_fails_on_the_bus(
    e: EngineView,
    state: ForcedEnsmState,
    saved: SavedEnsmState,
    fdd: bool,
    pinctrl: bool,
)
    ensures
        e.save_ensm_state().r matches Err(error) ==> error is Spi,
        e.ensm_force_state(state).r matches Err(error) ==> error is Spi,
        e.ensm_restore_state(saved).err matches Some(error) ==> error is Spi,
        e.set_ensm_mode(fdd, pinctrl).err matches Some(error) ==> error is Spi,
{
    reveal(EngineView::save_ensm_state);
    reveal(EngineView::ensm_state);
    reveal(EngineView::ensm_force_state);
    reveal(EngineView::ensm_restore_state);
    reveal(EngineView::set_ensm_mode);
    assert forall|at: EngineView, ops: Seq<Op>| #[trigger]
        at.run(ops).err matches Some(error) ==> error is Spi by {
        law_run_fails_on_the_bus(at, ops);
    }
    assert forall|at: EngineView, addr: u16| #[trigger]
        at.read(addr).r matches Err(error) ==> error is Spi by {
        law_read_fails_on_the_bus(at, addr);
    }
    assert forall|at: EngineView, want: u8, polls: nat|
        (#[trigger] at.ensm_settle(want, polls)).err matches Some(error) ==> error is Spi by {
        lemma_settle_fails_on_the_bus(at, want, polls);
    }
}

proof fn lemma_settle_fails_on_the_bus(e: EngineView, want: u8, polls: nat)
    ensures
        e.ensm_settle(want, polls).err matches Some(error) ==> error is Spi,
    decreases polls,
{
    reveal(EngineView::ensm_settle);
    reveal(EngineView::ensm_state);
    if polls > 0 {
        law_read_fails_on_the_bus(e, STATE);
        let state = e.ensm_state();
        law_run_fails_on_the_bus(state.e, [wait(1000)]@);
        lemma_settle_fails_on_the_bus(state.e.run([wait(1000)]@).e, want, (polls - 1) as nat);
    }
}

/// A requested state is refused exactly where it doesn't go with the duplex mode and the chip is
/// in alert: TX and RX in FDD, FDD in TDD. Nothing is sent.
pub proof fn law_state_goes_with_duplex(e: EngineView, state: RequestedEnsmState, pinctrl: bool)
    ensures
        ({
            let st = e.state.v;
            let refused = st.ensm.current == EnsmState::Alert.raw() && (if st.mode.fdd {
                state == RequestedEnsmState::Tx || state == RequestedEnsmState::Rx
            } else {
                state == RequestedEnsmState::Fdd
            });
            &&& refused ==> e.ensm_set_state(state, pinctrl) == e.fail(
                Ad9361Error::InvalidEnsmTransition,
            )
            &&& e.ensm_set_state(state, pinctrl).err == Some(
                Fault::InvalidEnsmTransition,
            ) ==> refused
        }),
{
    reveal(EngineView::ensm_set_state);
    reveal(EngineView::ensm_wake);
    reveal(EngineView::ensm_sleep);
    reveal(EngineView::ensm_pass_alert);
    reveal(EngineView::ensm_pick_synth);
    reveal(EngineView::ensm_enter);
    reveal(EngineView::reset_peak_detectors);
    reveal(EngineView::trx_vco_cal_control);
    assert forall|at: EngineView, ops: Seq<Op>| #[trigger]
        at.run(ops).e.state == at.state && (at.run(ops).err matches Some(error) ==> error is Spi) by {
        law_run_keeps_state(at, ops);
        law_run_fails_on_the_bus(at, ops);
    }
    assert forall|at: EngineView, addr: u16| #[trigger]
        at.read(addr).r matches Err(error) ==> error is Spi by {
        law_read_fails_on_the_bus(at, addr);
    }
    assert forall|at: EngineView, addr: u16, mask: u8, value: u8, period: u64, polls: nat|
        (#[trigger] at.poll(addr, mask, value, period, polls)).err matches Some(error) ==> error is Spi
            || error is Timeout by {
        law_poll_fails_or_times_out(at, addr, mask, value, period, polls);
    }
}

impl<'a> Engine<'a> {
    /// Sets FDD or TDD mode.
    pub fn set_ensm_mode(&mut self, fdd: bool, pinctrl: bool) -> (r: Result<(), Fault>)
        ensures
            flow(final(self)@, r) == old(self)@.set_ensm_mode(fdd, pinctrl),
    {
        reveal(EngineView::set_ensm_mode);
        self.run(&[put(ENSM_MODE, flag(fdd, FDD_MODE))])?;
        // keep the synth power down / ready mask bits
        let byte: u8 = self.read(ENSM_CONFIG2)?;
        self.run(
            &[
                put(
                    ENSM_CONFIG2,
                    (byte & (POWER_DOWN_RX_SYNTH | POWER_DOWN_TX_SYNTH | RX_SYNTH_READY_MASK
                        | TX_SYNTH_READY_MASK)) | ensm_config2_mode(
                        &self.state.v.mode,
                        fdd,
                        pinctrl,
                    ),
                ),
            ],
        )
    }

    /// Sets the TX attenuation. `immed` = apply now, don't wait for the update.
    pub fn set_tx_atten(
        &mut self,
        atten: TxAttenuation,
        tx1: bool,
        tx2: bool,
        immed: bool,
    ) -> (r: Result<(), Fault>)
        ensures
            flow(final(self)@, r) == old(self)@.set_tx_atten(atten, tx1, tx2, immed),
    {
        reveal(EngineView::set_tx_atten);
        // 0.25 dB per LSB, and the burst counts addresses down, so MSB goes first
        let steps: u64 = atten.quarter_db() as u64;
        self.run(&[update(TX2_DIG_ATTEN, IMMEDIATELY_UPDATE_TPC_ATTEN, 0)])?;
        if tx1 {
            self.run(&[Op::Burst { addr: TX1_ATTEN1, len: 2, data: steps }])?;
        }
        if tx2 {
            self.run(&[Op::Burst { addr: TX2_ATTEN1, len: 2, data: steps }])?;
        }
        if immed {
            self.run(
                &[
                    update(
                        TX2_DIG_ATTEN,
                        IMMEDIATELY_UPDATE_TPC_ATTEN,
                        IMMEDIATELY_UPDATE_TPC_ATTEN,
                    ),
                ],
            )?;
        }
        Ok(())
    }

    /// Sets what the CLKOUT pin outputs.
    pub fn clkout_control(&mut self, mode: ClkoutMode) -> (r: Result<(), Fault>)
        ensures
            flow(final(self)@, r) == old(self)@.clkout_control(mode),
    {
        reveal(EngineView::clkout_control);
        if mode == ClkoutMode::Disable {
            self.run(&[update(BBPLL, CLKOUT_ENABLE, 0)])
        } else {
            self.run(
                &[
                    update(
                        BBPLL,
                        CLKOUT_ENABLE | CLKOUT_SELECT,
                        CLKOUT_ENABLE | (mode.select() << 5),
                    ),
                ],
            )
        }
    }

    /// RX (`tx == false`) or TX VCO calibration on or off.
    pub fn trx_vco_cal_control(&mut self, tx: bool, enable: bool) -> (r: Result<(), Fault>)
        ensures
            flow(final(self)@, r) == old(self)@.trx_vco_cal_control(tx, enable),
    {
        reveal(EngineView::trx_vco_cal_control);
        self.run(
            &[
                update(
                    synth_addr(RX_PFD_CONFIG, tx),
                    BYPASS_LD_SYNTH,
                    flag(!enable, BYPASS_LD_SYNTH),
                ),
            ],
        )
    }

    /// Raw state from the chip.
    pub fn ensm_state(&mut self) -> (r: Result<u8, Fault>)
        ensures
            (Reply { e: final(self)@, r }) == old(self)@.ensm_state(),
    {
        reveal(EngineView::ensm_state);
        match self.read(STATE) {
            Ok(byte) => Ok(byte & ENSM_STATE),
            Err(error) => Err(error),
        }
    }

    /// Forces a state. Returns the old state for restoring.
    pub fn ensm_force_state(&mut self, state: ForcedEnsmState) -> (r: Result<SavedEnsmState, Fault>)
        ensures
            (Reply { e: final(self)@, r }) == old(self)@.ensm_force_state(state),
    {
        reveal(EngineView::ensm_force_state);
        let device_state: u8 = self.ensm_state()?;
        let saved = SavedEnsmState { raw: device_state };
        let want: u8 = EnsmState::from(state).raw();
        if device_state == want {
            return Ok(saved);
        }
        let byte: u8 = self.read(ENSM_CONFIG1)?;
        self.state.v.ensm.saved_pin_ctrl_enable = byte & ENABLE_ENSM_PIN_CTRL != 0;
        self.run(
            &[
                put(ENSM_CONFIG1, TO_ALERT | FORCE_ALERT_STATE),
                put(ENSM_CONFIG1, forced_config1(byte, device_state, state)),
            ],
        )?;
        // takes a moment. Timing out is not an error
        self.ensm_settle(want)?;
        Ok(saved)
    }

    /// Waits for an ENSM state.
    fn ensm_settle(&mut self, want: u8) -> (r: Result<(), Fault>)
        ensures
            flow(final(self)@, r) == old(self)@.ensm_settle(want, 10),
    {
        reveal(EngineView::ensm_settle);
        let mut polls: u8 = 10;
        while polls > 0
            invariant
                old(self)@.ensm_settle(want, 10) == self@.ensm_settle(want, polls as nat),
            decreases polls,
        {
            proof {
                reveal(EngineView::ensm_settle);
            }
            if self.ensm_state()? == want {
                return Ok(());
            }
            self.run(&[wait(1000)])?;
            polls = polls - 1;
        }
        proof {
            reveal(EngineView::ensm_settle);
        }
        Ok(())
    }

    /// Current state, for [`Self::ensm_restore_state`].
    pub fn save_ensm_state(&mut self) -> (r: Result<SavedEnsmState, Fault>)
        ensures
            (Reply { e: final(self)@, r }) == old(self)@.save_ensm_state(),
    {
        reveal(EngineView::save_ensm_state);
        match self.ensm_state() {
            Ok(raw) => Ok(SavedEnsmState { raw }),
            Err(error) => Err(error),
        }
    }

    /// Goes back to a saved state if it's one that can be restored.
    pub fn ensm_restore_state(&mut self, saved: SavedEnsmState) -> (r: Result<(), Fault>)
        ensures
            flow(final(self)@, r) == old(self)@.ensm_restore_state(saved),
    {
        reveal(EngineView::ensm_restore_state);
        let byte: u8 = self.read(ENSM_CONFIG1)?;
        let pin_ctrl = self.state.v.ensm.saved_pin_ctrl_enable;
        let config: u8 = match restored_config1(byte, saved.raw) {
            Some(config) => config,
            None => return Ok(()),
        };
        self.run(
            &[put(ENSM_CONFIG1, TO_ALERT | FORCE_ALERT_STATE), put(ENSM_CONFIG1, config)],
        )?;
        if pin_ctrl {
            self.run(&[put(ENSM_CONFIG1, config | ENABLE_ENSM_PIN_CTRL)])?;
        }
        Ok(())
    }

    /// Clocks on and VCO calibration on, coming from sleep.
    fn ensm_wake(&mut self) -> (r: Result<(), Fault>)
        ensures
            flow(final(self)@, r) == old(self)@.ensm_wake(),
    {
        reveal(EngineView::ensm_wake);
        if self.state.v.ensm.current != EnsmState::Sleep.raw() {
            return Ok(());
        }
        self.run(
            &[
                put(CLOCK_ENABLE, clocks_on(self.state.v.clk.use_extclk)),
                wait(20),
                put(ENSM_CONFIG1, TO_ALERT | FORCE_ALERT_STATE),
            ],
        )?;
        self.trx_vco_cal_control(false, true)?;
        self.trx_vco_cal_control(true, true)
    }

    /// Flushes, then switches the clocks off.
    fn ensm_sleep(&mut self) -> (r: Result<(), Fault>)
        ensures
            flow(final(self)@, r) == old(self)@.ensm_sleep(),
    {
        reveal(EngineView::ensm_sleep);
        let state: EngineState = self.state.v;
        let flush: u8 = if state.mode.fdd {
            FORCE_TX_ON
        } else {
            FORCE_RX_ON
        };
        self.trx_vco_cal_control(false, false)?;
        self.trx_vco_cal_control(true, false)?;
        self.run(
            &[
                put(ENSM_CONFIG1, 0),
                put(ENSM_CONFIG1, flush),
                wait(flush_micros(state.clk.rates.adc.raw)),
                put(ENSM_CONFIG1, 0),
                wait(1),
                put(CLOCK_ENABLE, flag(state.clk.use_extclk, XO_BYPASS)),
            ],
        )?;
        self.state.v.ensm.current = EnsmState::Sleep.raw();
        Ok(())
    }

    /// Resets the peak detectors of the channels in manual gain mode.
    fn reset_peak_detectors(&mut self) -> (r: Result<(), Fault>)
        ensures
            flow(final(self)@, r) == old(self)@.reset_peak_detectors(),
    {
        reveal(EngineView::reset_peak_detectors);
        let rx1_manual = self.state.v.gain.rx1_mode == GainMode::Manual;
        let rx2_manual = self.state.v.gain.rx2_mode == GainMode::Manual;
        let base: u8 = self.read(SMALL_LMT_OVERLOAD_THRESH)? & SMALL_LMT_THRESH;
        self.run(
            &[
                put(
                    SMALL_LMT_OVERLOAD_THRESH,
                    base | flag(rx1_manual, FORCE_PD_RESET_RX1) | flag(
                        rx2_manual,
                        FORCE_PD_RESET_RX2,
                    ),
                ),
                put(SMALL_LMT_OVERLOAD_THRESH, base),
            ],
        )
    }

    /// Moves the ENSM to a state.
    pub fn ensm_set_state(&mut self, state: RequestedEnsmState, pinctrl: bool) -> (r: Result<
        (),
        Fault,
    >)
        ensures
            flow(final(self)@, r) == old(self)@.ensm_set_state(state, pinctrl),
    {
        reveal(EngineView::ensm_set_state);
        self.ensm_wake()?;
        if state == RequestedEnsmState::Sleep {
            return self.ensm_sleep();
        }
        self.ensm_pass_alert(state, pinctrl)?;
        self.ensm_pick_synth(state, pinctrl)?;
        self.ensm_enter(state, pinctrl)?;
        self.state.v.ensm.current = EnsmState::from(state).raw();
        Ok(())
    }

    /// Goes through alert where the state can't be reached directly.
    fn ensm_pass_alert(&mut self, state: RequestedEnsmState, pinctrl: bool) -> (r: Result<
        (),
        Fault,
    >)
        ensures
            flow(final(self)@, r) == old(self)@.ensm_pass_alert(state, pinctrl),
    {
        reveal(EngineView::ensm_pass_alert);
        let mode: ModeState = self.state.v.mode;
        let ensm: EnsmTracking = self.state.v.ensm;
        let from_alert = ensm.current == EnsmState::Alert.raw();
        if !ensm_indirect(&mode, from_alert, state) {
            return Ok(());
        }
        if from_alert {
            return Err(Ad9361Error::InvalidEnsmTransition);
        }
        self.run(
            &[put(ENSM_CONFIG1, ensm_config1_base(&mode, &ensm, pinctrl) | FORCE_ALERT_STATE)],
        )?;
        self.wait_until(STATE, ENSM_STATE, EnsmState::Alert.raw(), 120)
    }

    /// Switches the synth that RX and TX share in TDD, and waits until it locks.
    fn ensm_pick_synth(&mut self, state: RequestedEnsmState, pinctrl: bool) -> (r: Result<
        (),
        Fault,
    >)
        ensures
            flow(final(self)@, r) == old(self)@.ensm_pick_synth(state, pinctrl),
    {
        reveal(EngineView::ensm_pick_synth);
        let mode: ModeState = self.state.v.mode;
        let tx = state == RequestedEnsmState::Tx;
        let rx = state == RequestedEnsmState::Rx;
        if !mode.fdd && !pinctrl && !mode.tdd_use_dual_synth && (tx || rx) {
            self.run(&[update(ENSM_CONFIG2, TXNRX_SPI_CTRL, flag(tx, TXNRX_SPI_CTRL))])?;
            self.wait_until(synth_addr(RX_CP_OVERRANGE_VCO_LOCK, tx), VCO_LOCK, VCO_LOCK, 120)?;
        }
        Ok(())
    }

    /// Enters the state.
    fn ensm_enter(&mut self, state: RequestedEnsmState, pinctrl: bool) -> (r: Result<(), Fault>)
        ensures
            flow(final(self)@, r) == old(self)@.ensm_enter(state, pinctrl),
    {
        reveal(EngineView::ensm_enter);
        let mode: ModeState = self.state.v.mode;
        let ensm: EnsmTracking = self.state.v.ensm;
        let manual = self.state.v.gain.any(GainMode::Manual);
        self.run(
            &[put(ENSM_CONFIG1, ensm_config1_base(&mode, &ensm, pinctrl) | ensm_state_bits(state))],
        )?;
        if state == RequestedEnsmState::Rx && manual {
            self.reset_peak_detectors()?;
        }
        Ok(())
    }
}

} // verus!
