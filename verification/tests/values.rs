//! Values with a limited range, pure functions and messages.
use ad9361::calibration::find_opt;
use ad9361::clocks::{ref_div_sel, ClockMulDiv, RfPllScaler};
use ad9361::error::{Ad9361Error, InitError};
use ad9361::fir::{FirChannels, FirCoefficients, FirFactor, TxFirConfig, TxFirGain};
use ad9361::ports::PortConfig;
use ad9361::state::{FirState, LoadedFir};
use ad9361::synth::bbpll_words;
use ad9361::units::{
    AuxAdcDecimation, ElnaGain, HertzU32, HertzU64, RfBandwidth, RxLoFrequency, SampleRate,
    TxAttenuation, TxLoFrequency,
};
use ad9361::BBPLL_MODULUS;

#[test]
fn tx_attenuation_range_and_steps() {
    assert_eq!(TxAttenuation::from_db(10).mdb(), 10_000);
    assert_eq!(TxAttenuation::from_db(10).quarter_db(), 40);
    assert_eq!(TxAttenuation::maximum().mdb(), 89_750);
    assert!(TxAttenuation::from_mdb(89_750).is_ok());
    assert!(TxAttenuation::from_mdb(90_000).is_err());
    // rounds down
    assert_eq!(TxAttenuation::from_mdb(10_249).unwrap().quarter_db(), 40);
    assert!(TxAttenuation::from_quarter_db(360).is_err());
    assert_eq!(TxAttenuation::saturating_from_quarter_db(1023), TxAttenuation::maximum());
}

#[test]
fn bbpll_words_reproduce_the_rate() {
    let (integer, fract) = bbpll_words(983_040_000, 40_000_000);
    assert_eq!(integer, 24);
    let rate = 40_000_000u64 * integer as u64
        + (40_000_000u64 * fract as u64 + BBPLL_MODULUS as u64 / 2) / BBPLL_MODULUS as u64;
    // fractional word resolution is parent / modulus, about 19 Hz
    assert!(rate.abs_diff(983_040_000) <= 40_000_000 / BBPLL_MODULUS as u64 + 1, "{rate}");
}

#[test]
fn fir_state_uses_unit_rates_until_a_filter_is_loaded_and_enabled() {
    let mut fir = FirState::default();
    assert!(fir.rx_bypassed() && fir.tx_bypassed());
    assert_eq!((fir.rx_decimation(), fir.tx_interpolation()), (1, 1));

    // loaded, still bypassed
    fir.rx = Some(LoadedFir { factor: FirFactor::X4, ntaps: 64, bypassed: true });
    assert!(fir.rx_bypassed());
    assert_eq!(fir.rx_decimation(), 1);

    fir.rx.as_mut().unwrap().bypassed = false;
    assert!(!fir.rx_bypassed());
    assert_eq!(fir.rx_decimation(), 4);
    // TX doesn't care
    assert_eq!(fir.tx_interpolation(), 1);
}

#[test]
fn lvds_port_configuration_is_corrected_to_full_rate_dual_port() {
    let mut port = PortConfig::default();
    port.conf3 =
        port.conf3.with_lvds_mode(true).with_half_duplex_mode(true).with_single_port_mode(true);
    let conf3 = port.sanitized_conf3();
    assert!(conf3.lvds_mode);
    assert!(!conf3.half_duplex_mode && !conf3.single_port_mode && !conf3.single_data_rate);
}

#[test]
fn errors_display() {
    let error: Ad9361Error<()> = Ad9361Error::FirNotLoaded;
    assert_eq!(error.text(""), "no FIR filter is loaded");
    let init: InitError<(), ()> = InitError::UnsupportedDevice { product_id: 3 };
    assert!(init.text("").contains("product ID 3"));
}

#[test]
fn the_longest_run_of_zeros_is_found() {
    assert_eq!(find_opt(&[1, 0, 0, 1, 0, 0, 0, 1]), (3, 4));
    // the first of two equal ones
    assert_eq!(find_opt(&[0, 0, 1, 0, 0]), (2, 0));
    assert_eq!(find_opt(&[1, 1]).0, 0);
    assert_eq!(find_opt(&[]).0, 0);
}

#[test]
fn references_are_scaled_into_their_window() {
    let scaled = |hz: u32| ref_div_sel(HertzU32::Hz(hz), HertzU32::Hz(70_007_000)).raw;
    assert_eq!(scaled(30_000_000), 60_000_000);
    assert_eq!(scaled(40_000_000), 40_000_000);
    assert_eq!(scaled(100_000_000), 50_000_000);
    assert_eq!(scaled(280_000_000), 70_000_000);
    assert_eq!(scaled(300_000_000), 0);
}

#[test]
fn ratios_are_the_closest_ones() {
    let ratio = |rate, parent| ClockMulDiv::closest(HertzU32::Hz(rate), HertzU32::Hz(parent));
    assert_eq!(ratio(30, 91), Some(ClockMulDiv { mult: 1, div: 3 }));
    assert_eq!(ratio(30, 106), Some(ClockMulDiv { mult: 1, div: 4 }));
    assert_eq!(ratio(80, 40), Some(ClockMulDiv { mult: 2, div: 1 }));
    // 50 is closer to 67 than 100 is
    assert_eq!(ratio(67, 100), Some(ClockMulDiv { mult: 1, div: 2 }));
    assert_eq!(ratio(75, 100), Some(ClockMulDiv { mult: 1, div: 1 }));
    assert_eq!(ratio(u32::MAX, 0x8000_0000), Some(ClockMulDiv { mult: 1, div: 1 }));
    assert_eq!(ratio(0, 40), None);
    assert_eq!(ratio(40, 0), None);
}

#[test]
fn limited_values_know_their_limits() {
    assert!(SampleRate::new(HertzU32::Hz(61_440_000)).is_ok());
    assert!(SampleRate::new(HertzU32::Hz(61_440_001)).is_err());
    assert!(SampleRate::new(HertzU32::Hz(0)).is_err());
    assert!(RxLoFrequency::new(HertzU64::Hz(70_000_000)).is_ok());
    assert!(RxLoFrequency::new(HertzU64::Hz(69_999_999)).is_err());
    assert!(TxLoFrequency::new(HertzU64::Hz(46_875_001)).is_ok());
    assert!(TxLoFrequency::new(HertzU64::Hz(6_000_000_001)).is_err());
    assert!(RfBandwidth::new(HertzU32::Hz(56_000_000)).is_ok());
    assert!(RfBandwidth::new(HertzU32::Hz(199_999)).is_err());
    assert_eq!(AuxAdcDecimation::new(300).unwrap(), AuxAdcDecimation::d256());
    assert!(AuxAdcDecimation::new(255).is_err());
    assert_eq!(ElnaGain::from_mdb(31_500).unwrap().field(), 63);
    assert!(ElnaGain::from_mdb(32_000).is_err());
}

#[test]
fn tap_counts_are_limited() {
    let taps = |n: usize| -> &'static [i16] { Box::leak(vec![0i16; n].into_boxed_slice()) };
    assert!(FirCoefficients::new(taps(0)).is_err());
    assert!(FirCoefficients::new(taps(17)).is_err());
    assert!(FirCoefficients::new(taps(144)).is_err());
    let long = FirCoefficients::new(taps(128)).unwrap();
    let config = |factor| TxFirConfig::new(FirChannels::Ch1, TxFirGain::ZeroDb, factor, long);
    assert!(config(FirFactor::X1).is_err());
    assert!(config(FirFactor::X2).is_ok());
}

#[test]
fn rf_pll_rates_need_no_register_widths() {
    let rate = |integer, fract, vco_div| {
        RfPllScaler { fract, integer, vco_div }.rate_from_parent(HertzU32::Hz(40_000_000)).raw
    };
    assert_eq!(rate(120, 0, 0), 2_400_000_000);
    assert_eq!(rate(3000, 0, 1), 30_000_000_000);
    assert_eq!(rate(3000, 8_388_593, 1), 30_010_000_000);
    assert_eq!(rate(3000, 0, 62), 0);
}
