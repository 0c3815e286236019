//! The driver against a fake AD9361 and a fake AXI core.
use ad9361::api::{Ad9361, Configured, ManualRxGain, RxFir, TxFir, Uninitialized};
use ad9361::clock_chain::PathClocks;
use ad9361::clocks::{Ad9361Clock, ClockMulDiv};
use ad9361::config::{
    Ad9361Config, Ad9361Settings, ChannelMode, ConfigError, DigInterfaceTune, Duplex, GainTableKind,
    RateGovernor, ReferenceClock,
};
use ad9361::control::{EnsmState, ForcedEnsmState, RequestedEnsmState, SavedEnsmState};
use ad9361::dig_tune::{BistLoopback, BistMode, DigTuneFlags};
use ad9361::engine::Engine;
use ad9361::error::{Ad9361Error, InitError};
use ad9361::fir::{
    FirChannels, FirCoefficients, FirFactor, RxFirConfig, RxFirGain, TxFirConfig, TxFirGain,
    DEFAULT_FIR_COEFFICIENTS,
};
use ad9361::gain_control::{GainControl, GainMode};
use ad9361::link::{Answer, AxiRequest, BusFault, Fault, Link, Performed, Request};
use ad9361::monitor::{RssiConfiguration, RssiRestartMode};
use ad9361::ports::Channel;
use ad9361::registers::{
    ADC_LARGE_OVERLOAD_THRESH, ADC_SMALL_OVERLOAD_THRESH, BIST_CONFIG, CALIBRATION_CONTROL,
    CH1_OVERFLOW, DCXO_COARSE_TUNE, DCXO_FINE_TUNE_HIGH, DCXO_FINE_TUNE_LOW, ENSM_CONFIG1,
    ENSM_MODE, FORCE_RX_ON, FORCE_TX_ON, PRODUCT_ID, QUAD_CAL_STATUS_TX1, QUAD_CAL_STATUS_TX2,
    RSSI_WEIGHT0, RX_BBF_C3_MSB, RX_BBF_R2346, RX_CAL_STATUS, RX_CLOCK_DATA_DELAY,
    RX_CP_OVERRANGE_VCO_LOCK, RX_ENABLE_FILTER_CONTROL, STATE, TX_CLOCK_DATA_DELAY,
    TX_FILTER_COEF_ADDR, TX_FILTER_COEF_WRITE_DATA1, TX_FILTER_COEF_WRITE_DATA2, TX_SYNTH_OFFSET,
};
use ad9361::spi;
use ad9361::state::LoadedFir;
use ad9361::tables::{ChipTables, GainTable, SynthEntry};
use ad9361::units::{
    HertzU32, HertzU64, RfBandwidth, RxLoFrequency, SampleRate, TxAttenuation, TxLoFrequency, U13, U6,
};
use ad9361::MIN_SYNTH_FREF;
use axi_ad9361::regs::adc::fields::{ChannelDataPathControl, Status};
use axi_ad9361::regs::dac::regs::{ChannelDataSource, DataSource};

/// A fake register file, and a fake AXI core.
struct Fake {
    regs: Vec<u8>,
    /// every write, (address, value)
    writes: Vec<(u16, u8)>,
    /// every other request that was performed
    others: Vec<Request>,
    sources: [u32; 16],
    legacy: [u32; 16],
    paths: [u32; 16],
    tones: Vec<[u32; 2]>,
    /// the interface works with this RX delay register or less
    working_delay: u8,
    adc_status: u64,
    dac_status: u64,
    /// requests until the bus fails
    fails_after: Option<usize>,
    micros: u64,
}

impl Fake {
    /// Registers that hold what was written, and nothing else.
    fn plain() -> Self {
        Fake {
            regs: vec![0; 1024],
            writes: Vec::new(),
            others: Vec::new(),
            sources: [0; 16],
            legacy: [0; 16],
            paths: [0; 16],
            tones: vec![[0; 2]; 32],
            working_delay: 0xFF,
            adc_status: 1,
            dac_status: 1,
            fails_after: None,
            micros: 0,
        }
    }

    /// A chip on which every calibration finishes and every PLL locks.
    fn working() -> Self {
        let mut fake = Fake::plain();
        fake.regs[PRODUCT_ID as usize] = 0x0A;
        fake.regs[RX_BBF_C3_MSB as usize] = 0x10;
        fake.regs[RX_BBF_R2346 as usize] = 0x03;
        fake.regs[QUAD_CAL_STATUS_TX1 as usize] = 0x03;
        fake.regs[QUAD_CAL_STATUS_TX2 as usize] = 0x03;
        fake.regs[CH1_OVERFLOW as usize] = 0x80;
        for tx in [0, TX_SYNTH_OFFSET] {
            fake.regs[(RX_CAL_STATUS + tx) as usize] = 0x80;
            fake.regs[(RX_CP_OVERRANGE_VCO_LOCK + tx) as usize] = 0x02;
        }
        fake
    }

    fn write(&mut self, addr: u16, value: u8) {
        self.writes.push((addr, value));
        // calibrations finish at once
        self.regs[addr as usize] = if addr == CALIBRATION_CONTROL { 0 } else { value };
        if addr == ENSM_CONFIG1 {
            let fdd = self.regs[ENSM_MODE as usize] & 1 == 1;
            let state = if value & FORCE_TX_ON != 0 {
                if fdd { EnsmState::Fdd } else { EnsmState::Tx }
            } else if value & FORCE_RX_ON != 0 {
                EnsmState::Rx
            } else if value != 0 {
                EnsmState::Alert
            } else {
                EnsmState::SleepWait
            };
            self.regs[STATE as usize] = state.raw();
        }
    }

    fn axi(&mut self, request: AxiRequest) -> u64 {
        match request {
            AxiRequest::AdcReadStatus => self.adc_status,
            AxiRequest::AdcReadDataPath { chan } => self.paths[chan as usize] as u64,
            AxiRequest::AdcWriteDataPath { chan, raw } => {
                self.paths[chan as usize] = raw;
                0
            }
            AxiRequest::AdcReadChannelStatus { .. } => {
                let delay = self.regs[RX_CLOCK_DATA_DELAY as usize];
                if delay <= self.working_delay { 0 } else { 1 }
            }
            AxiRequest::DacReadInterfaceStatus => self.dac_status,
            AxiRequest::DacReadClockFrequency => 0x1_0000,
            AxiRequest::DacReadClockRatio => 4,
            AxiRequest::DacSelectSources { channels, source } => {
                for chan in 0..channels {
                    self.sources[chan as usize] = source as u32;
                }
                0
            }
            AxiRequest::DacReadSource { chan } => self.sources[chan as usize] as u64,
            AxiRequest::DacWriteSource { chan, raw } => {
                self.sources[chan as usize] = raw;
                0
            }
            AxiRequest::DacReadLegacy { chan } => self.legacy[chan as usize] as u64,
            AxiRequest::DacWriteLegacy { chan, raw } => {
                self.legacy[chan as usize] = raw;
                0
            }
            AxiRequest::DacReadToneScale { chan, second } => {
                self.tones[chan as usize * 2 + second as usize][0] as u64
            }
            AxiRequest::DacWriteToneScale { chan, second, raw } => {
                self.tones[chan as usize * 2 + second as usize][0] = raw;
                0
            }
            AxiRequest::DacReadTonePhase { chan, second } => {
                self.tones[chan as usize * 2 + second as usize][1] as u64
            }
            AxiRequest::DacWriteTonePhase { chan, second, raw } => {
                self.tones[chan as usize * 2 + second as usize][1] = raw;
                0
            }
            _ => 0,
        }
    }

    fn perform(&mut self, request: Request) -> Answer {
        if let Some(left) = self.fails_after {
            if left == 0 {
                self.fails_after = None;
                return Answer::Failed;
            }
            self.fails_after = Some(left - 1);
        }
        match request {
            Request::Write { addr, len, data } => {
                let header = spi::header(true, addr, len);
                assert_eq!(header.high & 0x80, 0x80);
                for (i, byte) in spi::encode(data, len).iter().enumerate() {
                    self.write(addr - i as u16, *byte);
                }
                Answer::Value(0)
            }
            Request::Read { addr, len } => {
                let header = spi::header(false, addr, len);
                assert_eq!(((header.high & 0x3) as u16) << 8 | header.low as u16, addr);
                let bytes: Vec<u8> =
                    (0..len as u16).map(|i| self.regs[(addr - i) as usize]).collect();
                Answer::Value(spi::decode(&bytes))
            }
            Request::Wait { micros } => {
                self.micros += micros;
                Answer::Value(0)
            }
            Request::Axi { request: access } => {
                self.others.push(request);
                Answer::Value(self.axi(access))
            }
            Request::Reset { .. } => {
                self.others.push(request);
                Answer::Value(0)
            }
        }
    }

    /// Performs the requests that have no answer yet, up to the first that fails. Returns whether
    /// the conversation was already complete.
    fn catch_up(&mut self, link: &Link, done: &mut Vec<Performed>) -> bool {
        // an operation that is run again repeats itself
        assert!(!link.is_stuck());
        if link.is_complete() {
            return true;
        }
        for request in &link.requests()[done.len()..] {
            let answer = self.perform(*request);
            done.push(Performed { request: *request, answer });
            if answer == Answer::Failed {
                break;
            }
        }
        false
    }

    /// Runs an operation of the engine to its end.
    fn run<'t, T>(&mut self, engine: &mut Engine<'t>, op: impl Fn(&mut Engine<'t>) -> T) -> T {
        let mut done = Vec::new();
        loop {
            let mut attempt = engine.clone();
            attempt.link = Link::new(done.clone());
            let result = op(&mut attempt);
            if self.catch_up(&attempt.link, &mut done) {
                *engine = attempt;
                return result;
            }
        }
    }

    /// Runs an operation of the running chip to its end.
    fn drive<'t, T>(&mut self, chip: &mut Ad9361<'t>, op: impl Fn(&mut Ad9361<'t>) -> T) -> T {
        let mut done = Vec::new();
        loop {
            let mut attempt = chip.clone();
            attempt.begin(done.clone());
            let result = op(&mut attempt);
            if self.catch_up(attempt.link(), &mut done) {
                *chip = attempt;
                return result;
            }
        }
    }

    /// Starts the chip.
    fn start<'t>(
        &mut self,
        configured: &Configured,
        tables: &'t ChipTables,
    ) -> Result<Ad9361<'t>, InitError<BusFault, BusFault>> {
        let mut done = Vec::new();
        loop {
            let (link, result) = configured.init(Link::new(done.clone()), tables);
            if self.catch_up(&link, &mut done) {
                return result;
            }
        }
    }
}

fn gain_table(split_table: bool, start: u64, end: u64, first: i8, count: i8) -> GainTable {
    GainTable {
        split_table,
        start,
        end,
        abs_gain: (0..count).map(|i| first + i).collect(),
        entries: (0..count as u8).map(|i| [i, i & 0x1F, 0x20]).collect(),
    }
}

fn synth_table(level: u8) -> Vec<SynthEntry> {
    let entry = |vco_mhz| SynthEntry {
        vco_mhz,
        vco_output_level: level,
        vco_varactor: 4,
        vco_bias_ref: 2,
        vco_bias_tcf: 1,
        vco_cal_offset: 15,
        vco_varactor_reference: 8,
        charge_pump_current: 15,
        lf_c2: 12,
        lf_c1: 3,
        lf_r1: 14,
        lf_c3: 15,
        lf_r3: 11,
    };
    vec![entry(12_605), entry(9_000), entry(6_000)]
}

fn tables() -> &'static ChipTables {
    let gain = vec![
        gain_table(false, 0, 1_300_000_000, -1, 78),
        gain_table(false, 1_300_000_000, 4_000_000_000, -3, 77),
        gain_table(false, 4_000_000_000, 6_000_000_000, -10, 73),
        gain_table(true, 0, 1_300_000_000, -1, 41),
        gain_table(true, 1_300_000_000, 4_000_000_000, -3, 41),
        gain_table(true, 4_000_000_000, 6_000_000_000, -10, 41),
    ];
    let fdd = [synth_table(10), synth_table(10), synth_table(10)];
    let tdd = [synth_table(9), synth_table(9), synth_table(9)];
    Box::leak(Box::new(ChipTables::new(gain, fdd, tdd).unwrap()))
}

fn ref_clk() -> ReferenceClock {
    ReferenceClock::new(HertzU32::Hz(40_000_000)).unwrap()
}

fn default_config() -> Ad9361Config {
    Ad9361Config::new(Ad9361Settings::default(), ref_clk()).unwrap()
}

/// Engine on a register file.
fn engine_on(fake: &mut Fake) -> Engine<'static> {
    let mut engine = Engine::new(Link::new(Vec::new()), tables(), &default_config(), 0, 0);
    fake.run(&mut engine, |e| e.init_clocks()).unwrap();
    fake.writes.clear();
    engine
}

fn bench() -> (Engine<'static>, Fake) {
    let mut fake = Fake::plain();
    let engine = engine_on(&mut fake);
    (engine, fake)
}

fn started_with(settings: Ad9361Settings) -> (Ad9361<'static>, Fake) {
    let mut fake = Fake::working();
    let configured = Uninitialized::new(ref_clk(), 0).configure(settings).unwrap();
    let chip = fake.start(&configured, tables()).unwrap();
    (chip, fake)
}

fn started() -> (Ad9361<'static>, Fake) {
    started_with(Ad9361Settings::default())
}

#[test]
fn spi_write_and_read_use_the_protocol_header() {
    let (mut engine, mut fake) = bench();
    fake.run(&mut engine, |e| e.write_bytes(&[0xAB, 0xCD], 0x274)).unwrap();
    // 0x274, then 0x273
    assert_eq!(fake.writes, [(0x274, 0xAB), (0x273, 0xCD)]);

    let out = fake.run(&mut engine, |e| e.read_bytes(2, 0x274)).unwrap();
    assert_eq!(out, [0xAB, 0xCD]);
    // the headers of the two transactions
    assert_eq!(spi::header(true, 0x274, 2), spi::Header { high: 0x92, low: 0x74 });
    assert_eq!(spi::header(false, 0x274, 2), spi::Header { high: 0x12, low: 0x74 });
}

#[test]
fn set_tx_atten_writes_both_bytes_msb_first() {
    let (mut engine, mut fake) = bench();
    let atten = TxAttenuation::from_quarter_db(300).unwrap();
    fake.run(&mut engine, |e| e.set_tx_atten(atten, true, false, true)).unwrap();
    // 300 = 0x12C, 0x74 has bit 8 and 0x73 the low byte
    assert_eq!(fake.regs[0x74], 0x01);
    assert_eq!(fake.regs[0x73], 0x2C);
    // TX2 not touched
    assert_eq!(fake.regs[0x76], 0x00);
    assert_eq!(fake.regs[0x75], 0x00);
}

#[test]
fn reference_clock_range() {
    assert!(ReferenceClock::new(HertzU32::Hz(40_000_000)).is_ok());
    assert!(ReferenceClock::new(HertzU32::Hz(0)).is_err());
    assert!(ReferenceClock::new(HertzU32::Hz(500_000)).is_err());
    assert!(ReferenceClock::new(HertzU32::Hz(200_000_000)).is_err());
}

#[test]
fn default_settings_are_valid_for_the_pluto_reference() {
    default_config();
}

#[test]
fn ensm_pin_control_excludes_fdd_independent_mode() {
    let settings = Ad9361Settings {
        ensm_pin_ctrl: true,
        duplex: Duplex::Fdd { independent_mode: true },
        ..Ad9361Settings::default()
    };
    let result = Ad9361Config::new(settings, ref_clk());
    assert!(matches!(result, Err(ConfigError::EnsmPinControlInFddIndependentMode)));
}

#[test]
fn synth_reference_must_be_reachable() {
    // 40 MHz / 4 is just over the lowest window (9.999 MHz)
    let settings = Ad9361Settings {
        trx_synth_max_fref: HertzU32::Hz(MIN_SYNTH_FREF),
        ..Ad9361Settings::default()
    };
    let result = Ad9361Config::new(settings, ref_clk());
    assert!(matches!(result, Err(ConfigError::SynthReference)));
}

#[test]
fn clock_chain_beyond_the_limits_is_rejected() {
    let mut rx = PathClocks::default_rx();
    rx.converter = HertzU32::Hz(700_000_000);
    let settings = Ad9361Settings { rx_path_clks: rx, ..Ad9361Settings::default() };
    let result = Ad9361Config::new(settings, ref_clk());
    assert!(matches!(result, Err(ConfigError::ClockChain)));
}

#[test]
fn clock_chain_for_30_72_msps_is_the_default_chain() {
    let (engine, _) = bench();
    let (rx, tx) = engine
        .calculate_rf_clock_chain(HertzU32::Hz(30_720_000), RateGovernor::Nominal.index())
        .unwrap();
    assert_eq!(rx, PathClocks::default_rx());
    // DAC runs at the ADC rate when it can. The default chain uses half
    assert_eq!(
        tx,
        PathClocks { converter: HertzU32::Hz(245_760_000), ..PathClocks::default_tx() }
    );
}

#[test]
fn clock_chain_rejects_impossible_rates() {
    let (engine, _) = bench();
    assert!(engine.calculate_rf_clock_chain(HertzU32::Hz(0), 1).is_err());
    assert!(engine.calculate_rf_clock_chain(HertzU32::Hz(70_000_000), 1).is_err());
}

#[test]
fn gain_table_lookup() {
    let full = tables().gain_table_index(false, 2_400_000_000);
    let split = tables().gain_table_index(true, 2_400_000_000);
    assert_ne!(full, split);
    // out of range falls back to the first table
    assert_eq!(tables().gain_table_index(false, 7_000_000_000), 0);
}

#[test]
fn manual_gain_selects_the_closest_table_entry() {
    let (mut engine, mut fake) = bench();
    let table = engine.state.v.gain.current_table;
    let abs = engine.tables.gain_table_at(table).abs_gain.clone();

    let actual = fake.run(&mut engine, |e| e.set_manual_rx_gain(Channel::Ch1, 30)).unwrap();
    assert!((actual - 30).abs() <= 1, "closest entry to 30 dB is {actual} dB");
    let index = abs.iter().position(|g| *g == actual).unwrap();
    assert_eq!(fake.regs[0x109] & 0x7F, index as u8);

    // RX2 has its own register
    fake.run(&mut engine, |e| e.set_manual_rx_gain(Channel::Ch2, 10)).unwrap();
    assert_ne!(fake.regs[0x10C] & 0x7F, fake.regs[0x109] & 0x7F);

    // above the table, last entry
    let max = fake.run(&mut engine, |e| e.set_manual_rx_gain(Channel::Ch1, 120)).unwrap();
    assert_eq!(max, *abs.last().unwrap());
    assert_eq!(fake.regs[0x109] & 0x7F, (abs.len() - 1) as u8);
}

#[test]
fn ensm_state_is_saved_and_restored() {
    let (mut engine, mut fake) = bench();
    fake.regs[STATE as usize] = EnsmState::Fdd.raw();
    let saved = fake.run(&mut engine, |e| e.save_ensm_state()).unwrap();
    fake.regs[STATE as usize] = EnsmState::Alert.raw();
    fake.run(&mut engine, |e| e.ensm_restore_state(saved)).unwrap();
    let config = fake.run(&mut engine, |e| e.read_reg(ENSM_CONFIG1)).unwrap();
    assert!(config & FORCE_TX_ON != 0);
    assert!(config & FORCE_RX_ON == 0);
}

#[test]
fn dcxo_tune_splits_the_fine_value() {
    let (mut engine, mut fake) = bench();
    fake.run(&mut engine, |e| e.set_dcxo_tune(U6::new(8), U13::new(5920))).unwrap();
    assert_eq!(fake.regs[DCXO_COARSE_TUNE as usize] & 0x3F, 8);
    // 5920 = 0x1720, low 5 bits then the upper 8
    assert_eq!(fake.regs[DCXO_FINE_TUNE_LOW as usize] & 0x1F, 0x00);
    assert_eq!(fake.regs[DCXO_FINE_TUNE_HIGH as usize], 0xB9);
}

#[test]
fn engine_state_starts_from_the_configuration() {
    let (engine, _) = bench();
    let state = &engine.state.v;
    assert!(state.mode.rx2tx2 && state.mode.fdd);
    assert_eq!(state.mode.rx1tx1_use_rx, Channel::Ch1);
    // table for the RX LO (2.4 GHz) is the loaded one
    assert_eq!(state.gain.current_table, tables().gain_table_index(false, 2_400_000_000));
    assert!(state.clk.current_rx_lo.is_none() && state.clk.current_tx_lo.is_none());
    assert!(state.cal.last_tx_quad_cal_phase.is_none());
    assert!(state.fir.rx.is_none() && state.fir.tx.is_none());
}

#[test]
fn settings_that_would_be_truncated_are_rejected() {
    let mut settings = Ad9361Settings::default();
    settings.gain_ctrl.mgc_inc_gain_step = 9;
    let result = Ad9361Config::new(settings, ref_clk());
    assert!(matches!(result, Err(ConfigError::OutOfRange("gain_ctrl.mgc_inc_gain_step"))));

    let mut settings = Ad9361Settings::default();
    settings.rssi.duration = 0;
    let result = Ad9361Config::new(settings, ref_clk());
    assert!(matches!(result, Err(ConfigError::OutOfRange("rssi.duration"))));
}

#[test]
fn a_working_chip_starts() {
    let (chip, fake) = started();
    assert_eq!(chip.revision(), 2);
    // the reset pulse comes first
    assert_eq!(fake.others[0], Request::Reset { high: false });
    assert_eq!(fake.others[1], Request::Reset { high: true });
    // FDD runs
    assert_eq!(fake.regs[STATE as usize], EnsmState::Fdd.raw());
    let rates = chip.clock_rates();
    assert_eq!(rates.rx_sampl.raw, 30_720_000);
    assert_eq!(rates.tx_sampl.raw, 30_720_000);
    assert!(rates.rx_rfpll.raw.abs_diff(2_400_000_000) < 10);
    // 10 dB on both channels
    assert_eq!((fake.regs[0x74], fake.regs[0x73]), (0, 40));
    assert_eq!((fake.regs[0x76], fake.regs[0x75]), (0, 40));
    // DDS tones on four channels
    assert_eq!(fake.sources[..4], [0, 0, 0, 0]);
    assert_eq!(chip.dac_num_tx_channels(), 2);
}

#[test]
fn a_wrong_product_is_refused() {
    let mut fake = Fake::working();
    fake.regs[PRODUCT_ID as usize] = 0x1A;
    let configured = Uninitialized::new(ref_clk(), 0).configure(Ad9361Settings::default()).unwrap();
    let result = fake.start(&configured, tables());
    assert!(matches!(result, Err(InitError::UnsupportedDevice { product_id: 3 })));
    // nothing was written to it
    assert!(fake.writes.is_empty());
}

#[test]
fn a_failing_reset_pin_is_reported() {
    let mut fake = Fake::working();
    fake.fails_after = Some(0);
    let configured = Uninitialized::new(ref_clk(), 0).configure(Ad9361Settings::default()).unwrap();
    let result = fake.start(&configured, tables());
    assert!(matches!(result, Err(InitError::ResetPin(BusFault::Failed))));
}

#[test]
fn a_failing_bus_stops_the_start() {
    for requests in [4, 5, 40, 400] {
        let mut fake = Fake::working();
        fake.fails_after = Some(requests);
        let configured =
            Uninitialized::new(ref_clk(), 0).configure(Ad9361Settings::default()).unwrap();
        let result = fake.start(&configured, tables());
        let spi = Ad9361Error::Spi(BusFault::Failed);
        assert!(matches!(result, Err(InitError::Chip(error)) if error == spi), "{requests}");
    }
}

#[test]
fn cores_without_status_are_reported() {
    let mut fake = Fake::working();
    fake.adc_status = 0;
    let configured = Uninitialized::new(ref_clk(), 0).configure(Ad9361Settings::default()).unwrap();
    let result = fake.start(&configured, tables());
    assert!(matches!(result, Err(InitError::Chip(Ad9361Error::AxiStatus))));

    let (mut engine, mut fake) = bench();
    fake.dac_status = 0;
    let result = fake.run(&mut engine, |e| e.dac_init());
    assert_eq!(result, Err(Ad9361Error::AxiStatus));
}

#[test]
fn an_unusable_filter_calibration_is_reported() {
    let mut fake = Fake::working();
    fake.regs[RX_BBF_C3_MSB as usize] = 0;
    fake.regs[RX_BBF_R2346 as usize] = 0;
    let configured = Uninitialized::new(ref_clk(), 0).configure(Ad9361Settings::default()).unwrap();
    let result = fake.start(&configured, tables());
    assert!(matches!(result, Err(InitError::Chip(Ad9361Error::CalibrationResult))));
}

#[test]
fn a_pll_that_does_not_lock_times_out() {
    let (mut engine, mut fake) = bench();
    fake.regs[RX_CAL_STATUS as usize] = 0;
    let result =
        fake.run(&mut engine, |e| e.txrx_synth_cp_calib(HertzU32::Hz(40_000_000), false));
    assert_eq!(result, Err(Ad9361Error::Timeout));
    // 20000 polls, 120 us apart
    assert!(fake.micros >= 20_000 * 120);
}

#[test]
fn tuning_without_a_working_delay_fails() {
    let mut fake = Fake::working();
    fake.adc_status = 0x10; // alive but not locked
    let configured = Uninitialized::new(ref_clk(), 0).configure(Ad9361Settings::default()).unwrap();
    let result = fake.start(&configured, tables());
    assert!(matches!(result, Err(InitError::Chip(Ad9361Error::TuningFailed))));
    // the configured delays are back
    let port = configured.config().settings().port;
    assert_eq!(fake.regs[RX_CLOCK_DATA_DELAY as usize], port.rx_clk_data_delay.raw);
    assert_eq!(fake.regs[TX_CLOCK_DATA_DELAY as usize], port.tx_clk_data_delay.raw);
}

#[test]
fn tuning_picks_the_middle_of_the_window() {
    let mut fake = Fake::working();
    fake.working_delay = 0x09;
    let configured = Uninitialized::new(ref_clk(), 0).configure(Ad9361Settings::default()).unwrap();
    fake.start(&configured, tables()).unwrap();
    // RX works from 0 to 9, TX everywhere
    assert_eq!(fake.regs[RX_CLOCK_DATA_DELAY as usize], 0x05);
    assert_eq!(fake.regs[TX_CLOCK_DATA_DELAY as usize], 0x08);
}

#[test]
fn other_cores_keep_the_configured_delays() {
    let mut fake = Fake::working();
    fake.working_delay = 0x09;
    let configured = Uninitialized::new(ref_clk(), 1).configure(Ad9361Settings::default()).unwrap();
    let chip = fake.start(&configured, tables()).unwrap();
    let port = configured.config().settings().port;
    assert_eq!(fake.regs[RX_CLOCK_DATA_DELAY as usize], port.rx_clk_data_delay.raw);
    assert_eq!(fake.regs[TX_CLOCK_DATA_DELAY as usize], port.tx_clk_data_delay.raw);
    assert_eq!(chip.revision(), 2);
}

#[test]
fn tuning_in_place_never_reports_a_failed_sweep() {
    let (mut engine, mut fake) = bench();
    fake.adc_status = 0;
    fake.regs[STATE as usize] = EnsmState::Fdd.raw();
    let flags = DigTuneFlags::default();
    fake.run(&mut engine, |e| e.dig_tune(HertzU32::Hz(0), flags)).unwrap();
    assert_eq!(engine.state.v.tune.dig_interface_tune, DigInterfaceTune::RxAndTx);
}

#[test]
fn muting_saves_and_restores_the_attenuation() {
    let (mut engine, mut fake) = bench();
    (fake.regs[0x74], fake.regs[0x73]) = (0x00, 40);
    (fake.regs[0x76], fake.regs[0x75]) = (0x01, 0x00);
    fake.run(&mut engine, |e| e.tx_mute(true)).unwrap();
    // 359 steps
    assert_eq!((fake.regs[0x74], fake.regs[0x73]), (0x01, 0x67));
    assert_eq!((fake.regs[0x76], fake.regs[0x75]), (0x01, 0x67));
    fake.run(&mut engine, |e| e.tx_mute(false)).unwrap();
    assert_eq!((fake.regs[0x74], fake.regs[0x73]), (0x00, 40));
    assert_eq!((fake.regs[0x76], fake.regs[0x75]), (0x01, 0x00));
}

#[test]
fn fpga_loopback_stashes_the_dac_sources() {
    let (mut engine, mut fake) = bench();
    fake.sources[..4].copy_from_slice(&[2, 2, 0, 0]);
    fake.run(&mut engine, |e| e.bist_loopback(BistLoopback::RxToTx)).unwrap();
    assert_eq!(fake.sources[..4], [8, 8, 8, 8]);
    fake.run(&mut engine, |e| e.bist_loopback(BistLoopback::Off)).unwrap();
    assert_eq!(fake.sources[..4], [2, 2, 0, 0]);
}

#[test]
fn bist_injects_where_it_is_told() {
    let (mut engine, mut fake) = bench();
    fake.run(&mut engine, |e| e.bist_prbs(BistMode::InjectRx)).unwrap();
    assert_eq!(fake.regs[BIST_CONFIG as usize], 0x09);
    fake.run(&mut engine, |e| e.bist_prbs(BistMode::InjectTx)).unwrap();
    assert_eq!(fake.regs[BIST_CONFIG as usize], 0x01);
    fake.run(&mut engine, |e| e.bist_prbs(BistMode::Disable)).unwrap();
    assert_eq!(fake.regs[BIST_CONFIG as usize], 0x00);
}

#[test]
fn the_dac_starts_with_its_tones() {
    let (mut engine, mut fake) = bench();
    fake.sources = [7; 16];
    fake.run(&mut engine, |e| e.dac_init()).unwrap();
    // 400 MHz clock: 3 MHz is 491/65535, 90 degrees is a quarter turn, 5 % of 0x4000 is 819
    assert_eq!(fake.tones[0], [819, 0x4000_01EB]);
    assert_eq!(fake.tones[1], [819, 0x4000_01EB]);
    assert_eq!(fake.tones[2], [819, 0x0000_01EB]);
    assert_eq!(fake.tones[7], [819, 0x0000_01EB]);
    assert_eq!(fake.tones[8], [0, 0]);
    assert_eq!(fake.sources[..5], [0, 0, 0, 0, 7]);
    let divider = Request::Axi { request: AxiRequest::DacRateDivider { divider: 4 } };
    assert!(fake.others.contains(&divider));
}

#[test]
fn the_dac_plays_dma_data_or_tones() {
    let (mut chip, mut fake) = started();
    fake.drive(&mut chip, |c| c.dac_use_dma_data()).unwrap();
    assert_eq!(fake.sources[..4], [2, 2, 2, 2]);
    fake.drive(&mut chip, |c| c.dac_use_dds()).unwrap();
    assert_eq!(fake.sources[..4], [0, 0, 0, 0]);
}

#[test]
fn attenuation_is_set_and_read_back() {
    let (mut chip, mut fake) = started();
    fake.drive(&mut chip, |c| c.set_tx_attenuation(TxAttenuation::from_db(30))).unwrap();
    assert_eq!((fake.regs[0x74], fake.regs[0x73]), (0, 120));
    assert_eq!((fake.regs[0x76], fake.regs[0x75]), (0, 120));
    let atten = fake.drive(&mut chip, |c| c.tx_attenuation()).unwrap();
    assert_eq!(atten, TxAttenuation::from_db(30));
}

#[test]
fn the_sample_rate_changes_with_both_paths() {
    let (mut chip, mut fake) = started();
    let rate = SampleRate::new(HertzU32::Hz(15_360_000)).unwrap();
    fake.drive(&mut chip, |c| c.set_sample_rate(rate)).unwrap();
    assert_eq!(chip.clock_rates().rx_sampl.raw, 15_360_000);
    assert_eq!(chip.clock_rates().tx_sampl.raw, 15_360_000);
}

#[test]
fn an_impossible_sample_rate_sends_nothing() {
    let (mut chip, mut fake) = started();
    fake.writes.clear();
    let rate = SampleRate::new(HertzU32::Hz(100_000)).unwrap();
    let result = fake.drive(&mut chip, |c| c.set_sample_rate(rate));
    assert_eq!(result, Err(Ad9361Error::InvalidRate));
    assert!(fake.writes.is_empty());
    assert_eq!(chip.clock_rates().rx_sampl.raw, 30_720_000);
}

#[test]
fn lo_changes_load_the_table_and_recalibrate() {
    let (mut chip, mut fake) = started();
    let rx = RxLoFrequency::from_hz(900_000_000);
    fake.drive(&mut chip, |c| c.set_rx_lo_frequency(rx)).unwrap();
    assert!(chip.clock_rates().rx_rfpll.raw.abs_diff(900_000_000) < 10);

    // a small move of the TX LO leaves the quadrature calibration alone, a big one doesn't
    let calibrations = |fake: &Fake| {
        fake.writes.iter().filter(|w| w.0 == CALIBRATION_CONTROL && w.1 == 0x10).count()
    };
    fake.writes.clear();
    let near = TxLoFrequency::from_hz(2_450_000_000);
    fake.drive(&mut chip, |c| c.set_tx_lo_frequency(near)).unwrap();
    assert_eq!(calibrations(&fake), 0);
    let far = TxLoFrequency::from_hz(2_550_000_000);
    fake.drive(&mut chip, |c| c.set_tx_lo_frequency(far)).unwrap();
    assert_eq!(calibrations(&fake), 1);
    assert!(chip.clock_rates().tx_rfpll.raw.abs_diff(2_550_000_000) < 10);
}

#[test]
fn bandwidths_are_recalibrated() {
    let (mut chip, mut fake) = started();
    fake.writes.clear();
    let rx = RfBandwidth::new(HertzU32::Hz(5_000_000)).unwrap();
    let tx = RfBandwidth::new(HertzU32::Hz(8_000_000)).unwrap();
    fake.drive(&mut chip, |c| c.set_bandwidths(rx, tx)).unwrap();
    // RX and TX baseband filters
    assert!(fake.writes.contains(&(CALIBRATION_CONTROL, 0x80)));
    assert!(fake.writes.contains(&(CALIBRATION_CONTROL, 0x40)));
    // and the chip runs on
    assert_eq!(fake.regs[STATE as usize], EnsmState::Fdd.raw());
}

#[test]
fn manual_gain_comes_with_a_handle() {
    let (mut chip, mut fake) = started();
    assert_eq!(chip.gain_mode(Channel::Ch1), GainMode::SlowAttackAgc);
    fake.drive(&mut chip, |c| c.manual_gain(Channel::Ch1).map(|_| ())).unwrap();
    assert_eq!(chip.gain_mode(Channel::Ch1), GainMode::Manual);
    assert_eq!(chip.gain_mode(Channel::Ch2), GainMode::SlowAttackAgc);
    let set = fake
        .drive(&mut chip, |c| {
            ManualRxGain { driver: c, channel: Channel::Ch1 }.set_gain(40)
        })
        .unwrap();
    assert_eq!(set, 40);
    // 43 entries above -3 dB
    assert_eq!(fake.regs[0x109] & 0x7F, 43);
    fake.drive(&mut chip, |c| c.set_gain_mode(Channel::Ch1, GainMode::SlowAttackAgc)).unwrap();
    assert_eq!(chip.gain_mode(Channel::Ch1), GainMode::SlowAttackAgc);
}

#[test]
fn manual_gain_needs_the_full_table() {
    let settings =
        Ad9361Settings { gain_table: GainTableKind::Split, ..Ad9361Settings::default() };
    let (mut chip, mut fake) = started_with(settings);
    fake.writes.clear();
    let result = fake.drive(&mut chip, |c| c.manual_gain(Channel::Ch1).map(|_| ()));
    assert_eq!(result, Err(Ad9361Error::UnsupportedGainTable));
    assert!(fake.writes.is_empty());
}

#[test]
fn fir_taps_are_written_low_byte_first() {
    let (mut engine, mut fake) = bench();
    fake.regs[STATE as usize] = EnsmState::Alert.raw();
    fake.regs[RX_ENABLE_FILTER_CONTROL as usize] = 0xDE;
    let config = RxFirConfig::default();
    fake.run(&mut engine, |e| e.set_rx_fir_config(&config)).unwrap();
    let of = |addr: u16| -> Vec<u8> {
        fake.writes.iter().filter(|w| w.0 == addr).map(|w| w.1).collect()
    };
    let rx = |addr: u16| addr + 0x90;
    assert_eq!(of(rx(TX_FILTER_COEF_ADDR)), (0..64).collect::<Vec<u8>>());
    let low = of(rx(TX_FILTER_COEF_WRITE_DATA1));
    let high = of(rx(TX_FILTER_COEF_WRITE_DATA2));
    let taps: Vec<i16> =
        low.iter().zip(&high).map(|(l, h)| i16::from_le_bytes([*l, *h])).collect();
    assert_eq!(taps, DEFAULT_FIR_COEFFICIENTS);
    // the enable register is what it was
    assert_eq!(fake.regs[RX_ENABLE_FILTER_CONTROL as usize], 0xDE);
    assert!(engine.state.v.fir.rx_bypassed());
}

#[test]
fn firs_are_enabled_and_bypassed() {
    let (mut chip, mut fake) = started();
    // the default settings load both
    assert!(chip.rx_fir().is_some() && chip.tx_fir().is_some());
    fake.drive(&mut chip, |c| RxFir { driver: c }.set_enabled(true)).unwrap();
    assert_eq!(fake.regs[RX_ENABLE_FILTER_CONTROL as usize] & 0x3, 1);
    fake.drive(&mut chip, |c| TxFir { driver: c }.set_enabled(true)).unwrap();
    fake.drive(&mut chip, |c| RxFir { driver: c }.set_enabled(false)).unwrap();
    assert_eq!(fake.regs[RX_ENABLE_FILTER_CONTROL as usize] & 0x3, 0);
}

#[test]
fn a_decimating_fir_makes_low_rates_possible() {
    let (mut chip, mut fake) = started();
    let rx = RxFirConfig { decimation: FirFactor::X4, ..RxFirConfig::default() };
    let tx = TxFirConfig::new(
        FirChannels::Both,
        TxFirGain::ZeroDb,
        FirFactor::X4,
        FirCoefficients::default_filter(),
    )
    .unwrap();
    fake.drive(&mut chip, |c| c.load_rx_fir(&rx).map(|_| ())).unwrap();
    fake.drive(&mut chip, |c| c.load_tx_fir(&tx).map(|_| ())).unwrap();
    // a chain for the rate is only there with both
    let rate = SampleRate::new(HertzU32::Hz(1_000_000)).unwrap();
    let result = fake.drive(&mut chip, |c| c.set_sample_rate(rate));
    assert_eq!(result, Err(Ad9361Error::InvalidRate));
    let half = SampleRate::new(HertzU32::Hz(10_000_000)).unwrap();
    fake.drive(&mut chip, |c| c.set_sample_rate(half)).unwrap();
    fake.drive(&mut chip, |c| RxFir { driver: c }.set_enabled(true)).unwrap();
    fake.drive(&mut chip, |c| TxFir { driver: c }.set_enabled(true)).unwrap();
    fake.drive(&mut chip, |c| c.set_sample_rate(rate)).unwrap();
    assert_eq!(chip.clock_rates().rx_sampl.raw, 1_000_000);
}

#[test]
fn a_fir_that_does_not_fit_stays_bypassed() {
    let taps: &'static [i16] = Box::leak(vec![1i16; 128].into_boxed_slice());
    let (mut chip, mut fake) = started();
    let config = RxFirConfig {
        channels: FirChannels::Both,
        gain: RxFirGain::ZeroDb,
        decimation: FirFactor::X1,
        coefficients: FirCoefficients::new(taps).unwrap(),
    };
    fake.drive(&mut chip, |c| c.load_rx_fir(&config).map(|_| ())).unwrap();
    let result = fake.drive(&mut chip, |c| RxFir { driver: c }.set_enabled(true));
    assert_eq!(result, Err(Ad9361Error::FirTooLong));
    // bypassing it again has nothing to do
    fake.writes.clear();
    fake.drive(&mut chip, |c| RxFir { driver: c }.set_enabled(false)).unwrap();
    assert!(fake.writes.is_empty());
}

#[test]
fn a_fir_without_coefficients_can_not_be_enabled() {
    let (mut engine, mut fake) = bench();
    let result = fake.run(&mut engine, |e| e.set_rx_fir_en_dis(true));
    assert_eq!(result, Err(Ad9361Error::FirNotLoaded));
    let result = fake.run(&mut engine, |e| e.set_tx_fir_en_dis(true));
    assert_eq!(result, Err(Ad9361Error::FirNotLoaded));
    assert!(fake.writes.is_empty());

    let settings = Ad9361Settings { rx_fir: None, tx_fir: None, ..Ad9361Settings::default() };
    let (mut chip, _) = started_with(settings);
    assert!(chip.rx_fir().is_none() && chip.tx_fir().is_none());
}

#[test]
fn states_that_do_not_go_with_the_duplex_mode_are_refused() {
    let (mut engine, mut fake) = bench();
    engine.state.v.ensm.current = EnsmState::Alert.raw();
    for state in [RequestedEnsmState::Tx, RequestedEnsmState::Rx] {
        let result = fake.run(&mut engine, |e| e.ensm_set_state(state, false));
        assert_eq!(result, Err(Ad9361Error::InvalidEnsmTransition));
    }
    assert!(fake.writes.is_empty());
    fake.run(&mut engine, |e| e.ensm_set_state(RequestedEnsmState::Fdd, false)).unwrap();
    assert_eq!(engine.state.v.ensm.current, EnsmState::Fdd.raw());
}

#[test]
fn a_forced_state_is_left_again() {
    let (mut engine, mut fake) = bench();
    fake.regs[ENSM_MODE as usize] = 1;
    fake.regs[STATE as usize] = EnsmState::Fdd.raw();
    let saved = fake.run(&mut engine, |e| e.ensm_force_state(ForcedEnsmState::Alert)).unwrap();
    assert_eq!(saved, SavedEnsmState { raw: EnsmState::Fdd.raw() });
    assert_eq!(fake.regs[STATE as usize], EnsmState::Alert.raw());
    fake.run(&mut engine, |e| e.ensm_restore_state(saved)).unwrap();
    assert_eq!(fake.regs[STATE as usize], EnsmState::Fdd.raw());
    // already there: nothing to force
    fake.writes.clear();
    fake.run(&mut engine, |e| e.ensm_force_state(ForcedEnsmState::Fdd)).unwrap();
    assert!(fake.writes.is_empty());
}

fn rssi(duration: u32) -> RssiConfiguration {
    RssiConfiguration {
        restart_mode: RssiRestartMode::GainChangeOccurs,
        unit_is_rx_samples: true,
        delay: 16,
        wait: 8,
        duration,
    }
}

#[test]
fn rssi_weights_add_up() {
    let (mut engine, mut fake) = bench();
    let weights = |fake: &Fake| -> Vec<u8> {
        (0..4).map(|i| fake.regs[RSSI_WEIGHT0 as usize + i]).collect()
    };
    fake.run(&mut engine, |e| e.rssi_setup(&rssi(1024), false)).unwrap();
    assert_eq!(weights(&fake), [255, 0, 0, 0]);
    fake.run(&mut engine, |e| e.rssi_setup(&rssi(1000), false)).unwrap();
    let sum: u32 = weights(&fake).iter().map(|w| *w as u32).sum();
    assert_eq!(sum, 255);
    // the rounded shares 203, 51, 2 and 0 leave less than nothing for the last chunk
    fake.run(&mut engine, |e| e.rssi_setup(&rssi(1289), false)).unwrap();
    assert_eq!(weights(&fake), [203, 51, 2, 255]);
}

#[test]
fn an_rssi_duration_of_no_samples_is_refused() {
    let (mut engine, mut fake) = bench();
    let result = fake.run(&mut engine, |e| e.rssi_setup(&rssi(0), false));
    assert_eq!(result, Err(Ad9361Error::RssiDurationTooShort));
    assert!(fake.writes.is_empty());
    // settings in samples don't depend on the rate
    fake.run(&mut engine, |e| e.rssi_setup(&rssi(0), true)).unwrap();
}

#[test]
fn gain_control_needs_time_for_a_measurement() {
    let (mut engine, mut fake) = bench();
    engine.state.v.clk.rates.clkrf = HertzU32::Hz(30_720_000);
    engine.state.v.clk.rates.rx_sampl = HertzU32::Hz(30_720_000);
    engine.state.v.gain.gain_ctrl.dec_pow_measurement_duration = 15;
    engine.state.v.gain.gain_ctrl.gain_update_interval_us = 0;
    let result = fake.run(&mut engine, |e| e.gc_update());
    assert_eq!(result, Err(Ad9361Error::GainControlTiming));
    engine.state.v.clk.rates.clkrf = HertzU32::Hz(0);
    let result = fake.run(&mut engine, |e| e.gc_update());
    assert_eq!(result, Err(Ad9361Error::InvalidRate));
}

#[test]
fn auxdac_words_are_split() {
    let (mut engine, mut fake) = bench();
    fake.run(&mut engine, |e| e.auxdac_set(ad9361::ports::Dac::Dac1, 1000)).unwrap();
    let word = ad9361::ports::auxdac_word(1000);
    assert_eq!(fake.regs[0x18], (word >> 2) as u8);
    assert_eq!(fake.regs[0x1A] & 0x3, (word & 0x3) as u8);
    assert_ne!(word & 0x3, word);
}

#[test]
fn one_channel_mutes_the_other() {
    let settings = Ad9361Settings {
        channels: ChannelMode::OneByOne { rx: Channel::Ch1, tx: Channel::Ch2 },
        ..Ad9361Settings::default()
    };
    let (chip, fake) = started_with(settings);
    assert_eq!(chip.dac_num_tx_channels(), 1);
    // TX1 at 89.75 dB, TX2 at 10 dB
    assert_eq!((fake.regs[0x74], fake.regs[0x73]), (0x01, 0x67));
    assert_eq!((fake.regs[0x76], fake.regs[0x75]), (0, 40));
}

#[test]
fn tdd_runs_in_rx() {
    let settings = Ad9361Settings {
        duplex: Duplex::Tdd { dual_synth: false, skip_vco_cal: false },
        ..Ad9361Settings::default()
    };
    let (_, fake) = started_with(settings);
    assert_eq!(fake.regs[STATE as usize], EnsmState::Rx.raw());
}

#[test]
fn equal_los_are_set_up_from_matching_tables() {
    let (mut engine, mut fake) = (
        Engine::new(Link::new(Vec::new()), tables(), &default_config(), 0, 0),
        Fake::working(),
    );
    fake.run(&mut engine, |e| e.init_clocks()).unwrap();
    engine.state.v.clk.rates.rx_ref = HertzU32::Hz(80_000_000);
    engine.state.v.clk.rates.tx_ref = HertzU32::Hz(80_000_000);
    let lo = |hz| HertzU64::Hz(hz);
    fake.run(&mut engine, |e| e.set_rfpll_rate(false, lo(2_400_000_000))).unwrap();
    fake.run(&mut engine, |e| e.set_rfpll_rate(true, lo(2_450_000_000))).unwrap();
    // different LOs use the FDD tables
    let level = |fake: &Fake, tx: u16| fake.regs[(0x23A + tx) as usize] & 0xF;
    assert_eq!((level(&fake, 0), level(&fake, TX_SYNTH_OFFSET)), (10, 10));
    // equal ones the TDD tables, both of them
    fake.run(&mut engine, |e| e.set_rfpll_rate(true, lo(2_400_000_000))).unwrap();
    assert_eq!((level(&fake, 0), level(&fake, TX_SYNTH_OFFSET)), (9, 9));
}

#[test]
fn a_conversation_is_repeated_with_more_answers() {
    let read = Request::Read { addr: 0x17, len: 1 };
    let write = Request::Write { addr: 0x14, len: 1, data: 5 };
    let talk = |done: Vec<Performed>| {
        let mut link = Link::new(done);
        let first = link.exchange(read);
        let second = link.exchange(write);
        (link, first, second)
    };
    let performed = |request, answer| Performed { request, answer };
    // a question without an answer stops everything after it
    let (link, first, second) = talk(vec![]);
    assert_eq!(link.requests(), &vec![read]);
    assert_eq!((first, second), (Err(BusFault::Unanswered), Err(BusFault::Unanswered)));
    assert!(!link.is_complete() && !link.is_stuck());
    // a write is taken to go through until its answer is known
    let value = performed(read, Answer::Value(7));
    let (link, first, second) = talk(vec![value]);
    assert_eq!(link.requests(), &vec![read, write]);
    assert_eq!((first, second), (Ok(7), Ok(0)));
    assert!(!link.is_complete());
    let (link, _, second) = talk(vec![value, performed(write, Answer::Failed)]);
    assert_eq!(second, Err(BusFault::Failed));
    assert!(link.is_complete());
    assert_eq!(link.clone().requests(), link.requests());
    // an answer is not used for another request
    let (link, first, second) = talk(vec![performed(write, Answer::Value(0))]);
    assert_eq!((first, second), (Err(BusFault::Diverged), Err(BusFault::Unanswered)));
    assert!(link.is_stuck() && !link.is_complete() && link.requests().is_empty());
}

#[test]
fn bytes_go_most_significant_first() {
    assert_eq!(spi::encode(0x0001_2345, 3), [0x01, 0x23, 0x45]);
    assert_eq!(spi::decode(&[0x01, 0x23, 0x45]), 0x0001_2345);
    assert_eq!(spi::decode(&spi::encode(u64::MAX, 8)), u64::MAX);
    let fault: Fault = Ad9361Error::Spi(BusFault::Failed);
    assert_eq!(fault.text("no clock"), "SPI error: no clock");
}

#[test]
fn registers_are_written_read_and_modified() {
    let (mut engine, mut fake) = bench();
    fake.run(&mut engine, |e| e.write_reg(0x3C, 0xA5)).unwrap();
    assert_eq!(fake.run(&mut engine, |e| e.read_reg(0x3C)), Ok(0xA5));
    // the bits under the mask change, the others stay
    fake.run(&mut engine, |e| e.modify_reg(0x3C, 0x0F, 0x7C)).unwrap();
    assert_eq!(fake.regs[0x3C], 0xAC);
}

#[test]
fn axi_values_are_those_of_the_core() {
    let path = ChannelDataPathControl::ZERO
        .with_format_signext(true)
        .with_format_enable(true)
        .with_enable(true);
    assert_eq!(path.raw_value(), ad9361::axi_init::ADC_PATH_PLAIN);
    assert_eq!(path.with_iqcor_enable(true).raw_value(), ad9361::dig_tune::ADC_PATH_CHECKED);
    let source =
        |source| ChannelDataSource::builder().with_data_source(source).build().raw_value();
    assert_eq!(source(DataSource::LoopbackDataAdc), ad9361::dig_tune::SOURCE_LOOPBACK);
    assert_eq!(source(DataSource::PnX), ad9361::dig_tune::SOURCE_PN);
    assert_eq!(source(DataSource::InputData), ad9361::axi_init::SOURCE_DMA as u32);
    assert_eq!(source(DataSource::InternalTone), ad9361::axi_init::SOURCE_TONE as u32);
    assert!(Status::new_with_raw_value(ad9361::dig_tune::ADC_LOCKED as u32).locked());
}

#[test]
fn a_gain_mode_is_remembered_per_channel() {
    let (mut engine, mut fake) = bench();
    engine.state.v.clk.rates.clkrf = HertzU32::Hz(30_720_000);
    engine.state.v.clk.rates.rx_sampl = HertzU32::Hz(30_720_000);
    fake.run(&mut engine, |e| e.set_gain_mode(Channel::Ch2, GainMode::FastAttackAgc)).unwrap();
    assert_eq!(engine.gain_mode(Channel::Ch2), GainMode::FastAttackAgc);
    assert_eq!(engine.gain_mode(Channel::Ch1), GainMode::SlowAttackAgc);
}

#[test]
fn the_tuning_mode_is_put_back() {
    let mut fake = Fake::working();
    let mut engine = engine_on(&mut fake);
    engine.state.v.tune.bb_clk_change_dig_tune_en = true;
    // a baseline with the configured delays, for which another mode is set meanwhile
    fake.run(&mut engine, |e| e.post_setup()).unwrap();
    assert_eq!(engine.state.v.tune.dig_interface_tune, DigInterfaceTune::RxAndTx);
}

#[test]
fn chains_end_at_the_requested_rate() {
    let (mut engine, _) = bench();
    let fir = |factor| Some(LoadedFir { factor, ntaps: 64, bypassed: false });
    // 2 and 4 at 10 MSPS
    engine.state.v.fir.rx = fir(FirFactor::X2);
    engine.state.v.fir.tx = fir(FirFactor::X4);
    let (rx, tx) = engine.calculate_rf_clock_chain(HertzU32::Hz(10_000_000), 1).unwrap();
    assert_eq!((rx.sample.raw, tx.sample.raw), (10_000_000, 10_000_000));
    assert_eq!((rx.hb1.raw, tx.hb1.raw), (20_000_000, 40_000_000));
    // at 50 MSPS the TX path would need a divider of one and a half
    assert_eq!(
        engine.calculate_rf_clock_chain(HertzU32::Hz(50_000_000), 1),
        Err(Ad9361Error::InvalidRate)
    );
    // 4 and none at full rate
    engine.state.v.fir.rx = fir(FirFactor::X4);
    engine.state.v.fir.tx = None;
    let (rx, tx) = engine.calculate_rf_clock_chain(HertzU32::Hz(61_440_000), 1).unwrap();
    assert_eq!((rx.sample.raw, tx.sample.raw), (61_440_000, 61_440_000));
    assert_eq!((rx.converter.raw, tx.converter.raw), (491_520_000, 245_760_000));
    assert_eq!((tx.hb3.raw, tx.hb2.raw, tx.hb1.raw), (122_880_000, 61_440_000, 61_440_000));
}

#[test]
fn clocks_are_set_to_the_closest_rate() {
    let (mut engine, mut fake) = bench();
    engine.state.v.clk.rates.r2 = HertzU32::Hz(100_000_000);
    engine.state.v.clk.rates.r1 = HertzU32::Hz(0);
    fake.run(&mut engine, |e| e.set_clock_rate(Ad9361Clock::R1, HertzU32::Hz(67_000_000))).unwrap();
    assert_eq!(engine.clock_rate(Ad9361Clock::R1).raw, 50_000_000);
    fake.run(&mut engine, |e| e.set_clock_rate(Ad9361Clock::R1, HertzU32::Hz(76_000_000))).unwrap();
    assert_eq!(engine.clock_rate(Ad9361Clock::R1).raw, 100_000_000);
    // no divider of three here
    let r = fake.run(&mut engine, |e| e.set_clock_rate(Ad9361Clock::R1, HertzU32::Hz(33_000_000)));
    assert_eq!(r, Err(Ad9361Error::InvalidRate));
}

#[test]
fn scalers_read_back() {
    let (mut engine, mut fake) = bench();
    for clock in [Ad9361Clock::BbRef, Ad9361Clock::RxRef, Ad9361Clock::TxRef] {
        for (mult, div) in [(1, 1), (1, 2), (1, 4), (2, 1)] {
            let ratio = ClockMulDiv { mult, div };
            fake.run(&mut engine, |e| e.set_clock_scaler(clock, &ratio)).unwrap();
            assert_eq!(fake.run(&mut engine, |e| e.read_clock_scaler(clock)), Ok(ratio));
        }
    }
    for (clock, div) in [(Ad9361Clock::Adc, 64), (Ad9361Clock::R2, 3), (Ad9361Clock::T1, 2)] {
        let ratio = ClockMulDiv { mult: 1, div };
        fake.run(&mut engine, |e| e.set_clock_scaler(clock, &ratio)).unwrap();
        assert_eq!(fake.run(&mut engine, |e| e.read_clock_scaler(clock)), Ok(ratio));
    }
    // a bypassed FIR doesn't divide
    let by_four = ClockMulDiv { mult: 1, div: 4 };
    fake.run(&mut engine, |e| e.set_clock_scaler(Ad9361Clock::RxSampl, &by_four)).unwrap();
    let read = fake.run(&mut engine, |e| e.read_clock_scaler(Ad9361Clock::RxSampl));
    assert_eq!(read, Ok(ClockMulDiv { mult: 1, div: 1 }));
}

#[test]
fn the_datapaths_only_divide() {
    let mut fake = Fake::plain();
    for (i, reg) in fake.regs.iter_mut().enumerate() {
        *reg = (i * 37 % 251) as u8;
    }
    let engine = engine_on(&mut fake);
    let r = engine.clock_rates();
    let rx = [r.bbpll.raw, r.adc.raw, r.r2.raw, r.r1.raw, r.clkrf.raw, r.rx_sampl.raw];
    let tx = [r.adc.raw, r.dac.raw, r.t2.raw, r.t1.raw, r.clktf.raw, r.tx_sampl.raw];
    assert!(rx.windows(2).all(|w| w[0] >= w[1]));
    assert!(tx.windows(2).all(|w| w[0] >= w[1]));
    for reference in [r.tx_ref.raw, r.rx_ref.raw, r.bb_ref.raw] {
        assert!([80_000_000, 40_000_000, 20_000_000, 10_000_000].contains(&reference));
    }
}

#[test]
fn bytes_read_back() {
    let (mut engine, mut fake) = bench();
    let bytes = [1, 2, 3, 4, 5, 6, 7, 0xF8];
    fake.run(&mut engine, |e| e.write_bytes(&bytes, 0x274)).unwrap();
    assert_eq!(fake.run(&mut engine, |e| e.read_bytes(8, 0x274)).unwrap(), bytes);
    assert_eq!(fake.regs[0x274], 1);
    assert_eq!(fake.regs[0x275], 0);
    assert_eq!(fake.regs[0x26D], 0xF8);
    assert_eq!(fake.regs[0x26C], 0);
}

#[test]
fn overload_thresholds_are_put_in_order() {
    for (small, large) in [(47, 58), (58, 47)] {
        let (mut engine, mut fake) = bench();
        engine.state.v.clk.rates.clkrf = HertzU32::Hz(30_720_000);
        engine.state.v.clk.rates.rx_sampl = HertzU32::Hz(30_720_000);
        let ctrl = GainControl {
            adc_small_overload_thresh: small,
            adc_large_overload_thresh: large,
            rx1_mode: GainMode::FastAttackAgc,
            ..GainControl::default()
        };
        fake.run(&mut engine, |e| e.gc_setup(&ctrl)).unwrap();
        assert_eq!(fake.regs[ADC_SMALL_OVERLOAD_THRESH as usize], 47);
        assert_eq!(fake.regs[ADC_LARGE_OVERLOAD_THRESH as usize], 58);
        assert_eq!(engine.gain_mode(Channel::Ch1), GainMode::FastAttackAgc);
        assert_eq!(engine.gain_mode(Channel::Ch2), GainMode::SlowAttackAgc);
    }
}

#[test]
fn every_number_has_to_fit_its_field() {
    let refused = |change: &dyn Fn(&mut Ad9361Settings)| {
        let mut settings = Ad9361Settings::default();
        change(&mut settings);
        match Ad9361Config::new(settings, ref_clk()) {
            Err(ConfigError::OutOfRange(name)) => name,
            Err(_) => "another error",
            Ok(_) => "",
        }
    };
    assert_eq!(refused(&|s| s.dc_offset.attenuation_high = 31), "");
    assert_eq!(refused(&|s| s.dc_offset.attenuation_high = 32), "dc_offset.attenuation_high");
    assert_eq!(refused(&|s| s.dc_offset.attenuation_low = 32), "dc_offset.attenuation_low");
    let high = "gain_ctrl.agc_outer_thresh_high";
    assert_eq!(refused(&|s| s.gain_ctrl.agc_inner_thresh_high = 20), "");
    assert_eq!(refused(&|s| s.gain_ctrl.agc_inner_thresh_high = 21), high);
    assert_eq!(refused(&|s| s.gain_ctrl.agc_outer_thresh_high = 11), high);
    let low = "gain_ctrl.agc_outer_thresh_low";
    assert_eq!(refused(&|s| s.gain_ctrl.agc_outer_thresh_low = 27), "");
    assert_eq!(refused(&|s| s.gain_ctrl.agc_outer_thresh_low = 28), low);
    assert_eq!(refused(&|s| s.gain_ctrl.agc_outer_thresh_low = 11), low);
    let duration = "gain_ctrl.dec_pow_measurement_duration";
    assert_eq!(refused(&|s| s.gain_ctrl.dec_pow_measurement_duration = 0xF_FFFF), "");
    assert_eq!(refused(&|s| s.gain_ctrl.dec_pow_measurement_duration = 0x10_0000), duration);
    assert_eq!(refused(&|s| s.port.lvds_bias.lvds_bias = 8), "port.lvds_bias.lvds_bias");
    assert_eq!(refused(&|s| s.port.lvds_bias.clk_out_slew = 4), "port.lvds_bias.clk_out_slew");
    assert_eq!(refused(&|s| s.port.conf2.delay_rx_data = 4), "port.conf2.delay_rx_data");
    let interval = "auxadc.temp_time_interval_ms";
    assert_eq!(refused(&|s| s.auxadc.temp_time_interval_ms = 60_000), "");
    assert_eq!(refused(&|s| s.auxadc.temp_time_interval_ms = 100_000), interval);
}

#[test]
fn the_reference_clock_is_10_to_80_mhz() {
    let ok = |hz: u32| ReferenceClock::new(HertzU32::Hz(hz)).is_ok();
    assert!(ok(10_000_000) && ok(80_000_000));
    assert!(!ok(9_999_999) && !ok(80_000_001) && !ok(80_500_000));
}

#[test]
fn adc_setup_checks_the_rate_before_the_filter_and_rounds_last() {
    let (mut engine, mut fake) = bench();
    let bbpll = HertzU32::Hz(983_040_000);
    let mut setup = |r2346: u8, adc: u32| {
        fake.regs[RX_BBF_R2346 as usize] = r2346;
        fake.writes.clear();
        let r = fake.run(&mut engine, |e| e.rx_adc_setup(bbpll, HertzU32 { raw: adc }, 7));
        (r, fake.writes.iter().map(|w| w.0).collect::<Vec<u16>>())
    };
    assert_eq!(setup(0, 999), (Err(Ad9361Error::InvalidRate), vec![]));
    assert_eq!(setup(0, 1000), (Err(Ad9361Error::CalibrationResult), vec![]));
    // the count of kilohertz rounds up past 32 bits
    assert_eq!(setup(0, 4_294_966_796), (Err(Ad9361Error::CalibrationResult), vec![]));
    assert_eq!(setup(3, 4_294_966_796), (Err(Ad9361Error::InvalidRate), vec![]));
    assert_eq!(setup(3, 245_760_000), (Ok(()), (0x200..=0x227).collect()));
}

#[test]
fn the_default_firs_change_no_rate() {
    let settings = Ad9361Settings::default();
    let rx = settings.rx_fir.unwrap();
    assert_eq!((rx.channels, rx.gain), (FirChannels::Both, RxFirGain::ZeroDb));
    assert_eq!(rx.decimation, FirFactor::X1);
    let tx = settings.tx_fir.unwrap();
    assert_eq!((tx.channels(), tx.gain()), (FirChannels::Both, TxFirGain::Minus6Db));
    assert_eq!(tx.interpolation(), FirFactor::X1);
}

#[test]
fn a_switched_fir_is_on_or_off() {
    let (mut chip, mut fake) = started();
    fake.drive(&mut chip, |c| RxFir { driver: c }.set_enabled(true)).unwrap();
    // it is on already
    fake.writes.clear();
    fake.drive(&mut chip, |c| RxFir { driver: c }.set_enabled(true)).unwrap();
    assert!(fake.writes.is_empty());
    // the other one isn't
    fake.drive(&mut chip, |c| TxFir { driver: c }.set_enabled(false)).unwrap();
    assert!(fake.writes.is_empty());
    fake.drive(&mut chip, |c| RxFir { driver: c }.set_enabled(false)).unwrap();
    assert!(!fake.writes.is_empty());
}

#[test]
fn the_cached_sample_rates_are_as_near_as_the_bbpll() {
    let (mut chip, mut fake) = started();
    for hz in [7_654_321, 11_111_111, 61_439_999, 30_720_000] {
        let rate = SampleRate::new(HertzU32 { raw: hz }).unwrap();
        fake.drive(&mut chip, |c| c.set_sample_rate(rate)).unwrap();
        let r = *chip.clock_rates();
        assert!(r.tx_sampl.raw.abs_diff(hz) <= 20);
        assert!(r.rx_sampl.raw.abs_diff(hz) <= 20);
    }
    assert_eq!(chip.clock_rates().tx_sampl.raw, 30_720_000);
}
