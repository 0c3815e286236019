//! Ports and the small blocks: RF and data ports, channel enables, AuxADC and AuxDAC, GPO, control
//! outputs, external LNA.
use vstd::prelude::*;

use crate::config::ReferenceClock;
use crate::engine::{Engine, EngineView, flow, Flow};
use crate::error::Ad9361Error;
use crate::link::{Fault, put, update};
use crate::math::{flag, least};
use crate::narrow::low_2_bits;
use crate::registers::{
    AUTO_GPO, AUXADC_CLOCK_DIVIDER, AUXADC_CONFIG, AUXDAC1_CONFIG, AUXDAC1_RX_DELAY,
    AUXDAC1_TX_DELAY, AUXDAC1_WORD, AUXDAC2_CONFIG, AUXDAC2_RX_DELAY, AUXDAC2_TX_DELAY,
    AUXDAC2_WORD, AUXDAC_AUTO_RX_BAR, AUXDAC_AUTO_TX_BAR, AUXDAC_ENABLE_CONTROL, AUXDAC_INIT_BAR,
    AUXDAC_MANUAL_SELECT, CONTROL_OUTPUT_ENABLE, CONTROL_OUTPUT_POINTER, EXTERNAL_LNA1_CTRL,
    EXTERNAL_LNA2_CTRL, EXTERNAL_LNA_CONTROL, EXT_LNA_HIGH_GAIN, EXT_LNA_LOW_GAIN, GPO0_RX_DELAY,
    GPO0_TX_DELAY, GPO1_RX_DELAY, GPO1_TX_DELAY, GPO2_RX_DELAY, GPO2_TX_DELAY, GPO3_RX_DELAY,
    GPO3_TX_DELAY, GPO_FORCE_AND_INIT, GPO_MANUAL_SELECT, INPUT_SELECT, INVERT_BITS, INVERT_RX2,
    INVERT_RX2_RF_DC_CGOUT_WORD, LVDS_BIAS_CONTROL, LVDS_INVERT_CTRL1, LVDS_INVERT_CTRL2,
    PARALLEL_PORT_CONF1, PARALLEL_PORT_CONF2, PARALLEL_PORT_CONF3, REFERENCE_CLOCK_CYCLES,
    RX_CHANNEL_ENABLE, RX_CLOCK_DATA_DELAY, RX_ENABLE_FILTER_CONTROL, START_TEMP_READING,
    TEMP_OFFSET, TEMP_SENSE2, TEMP_SENSE_PERIODIC_ENABLE, TEMP_SENSOR_CONFIG, TX_CHANNEL_ENABLE,
    TX_CLOCK_DATA_DELAY, TX_ENABLE_FILTER_CONTROL, TX_OUTPUT,
};
use crate::units::{AuxAdcDecimation, ElnaGain, HertzU32, RxInput, U4};

verus! {

/// One of the two AuxDACs.
#[derive(Debug, Clone, Copy, PartialEq, Eq, Structural)]
pub enum Dac {
    Dac1,
    Dac2,
}

/// One of the two RX or TX channels.
#[derive(Debug, Clone, Copy, PartialEq, Eq, Structural)]
pub enum Channel {
    Ch1,
    Ch2,
}

/// AuxADC and temperature sensor.
#[derive(Debug, Clone, Copy, PartialEq, Eq, Structural)]
pub struct AuxAdcConfig {
    /// Temperature offset, signed
    pub offset: i8,
    /// temperature measurement interval
    pub temp_time_interval_ms: u32,
    pub temp_sensor_decimation: AuxAdcDecimation,
    pub periodic_temp_measurement: bool,
    pub auxadc_clock_rate: HertzU32,
    pub auxadc_decimation: AuxAdcDecimation,
}

impl Default for AuxAdcConfig {
    fn default() -> (config: Self)
        ensures
            config.offset == -50,
            config.temp_time_interval_ms == 1000,
            config.temp_sensor_decimation.code() == 0,
            config.periodic_temp_measurement,
            config.auxadc_clock_rate.raw == 40_000_000,
            config.auxadc_decimation.code() == 0,
    {
        AuxAdcConfig {
            offset: -50,
            temp_time_interval_ms: 1000,
            temp_sensor_decimation: AuxAdcDecimation::d256(),
            periodic_temp_measurement: true,
            auxadc_clock_rate: HertzU32 { raw: 40_000_000 },
            auxadc_decimation: AuxAdcDecimation::d256(),
        }
    }
}

/// Control outputs.
#[derive(Debug, Clone, Copy, PartialEq, Eq, Structural)]
pub struct CtrlOutsConfig {
    pub index: u8,
    /// one bit per output
    pub en_mask: u8,
}

impl Default for CtrlOutsConfig {
    fn default() -> (config: Self)
        ensures
            config == (CtrlOutsConfig { index: 0, en_mask: 0xFF }),
    {
        CtrlOutsConfig { index: 0, en_mask: 0xFF }
    }
}

/// External LNA.
#[derive(Debug, Clone, Copy, PartialEq, Eq, Structural)]
pub struct ElnaConfig {
    /// high gain
    pub gain: ElnaGain,
    /// bypass loss
    pub bypass_loss: ElnaGain,
    pub settling_delay_ns: u32,
    /// LNA 1 on GPO0
    pub elna_1_control_en: bool,
    /// LNA 2 on GPO1
    pub elna_2_control_en: bool,
    pub elna_in_gaintable_all_index_en: bool,
}

impl Default for ElnaConfig {
    fn default() -> (config: Self)
        ensures
            config.gain.steps() == 0,
            config.bypass_loss.steps() == 0,
            config.settling_delay_ns == 0,
            !config.elna_1_control_en,
            !config.elna_2_control_en,
            !config.elna_in_gaintable_all_index_en,
    {
        ElnaConfig {
            gain: ElnaGain::zero(),
            bypass_loss: ElnaGain::zero(),
            settling_delay_ns: 0,
            elna_1_control_en: false,
            elna_2_control_en: false,
            elna_in_gaintable_all_index_en: false,
        }
    }
}

/// First configuration register of the parallel port.
#[derive(Debug, Clone, Copy, PartialEq, Eq, Structural)]
pub struct ParallelPortConf1 {
    pub pp_tx_swap_iq: bool,
    pub pp_rx_swap_iq: bool,
    pub tx_channel_swap: bool,
    pub rx_channel_swap: bool,
    pub rx_frame_pulse_mode: bool,
    pub two_r_two_t_timing: bool,
    pub invert_data_bus: bool,
    pub invert_data_clk: bool,
}

impl ParallelPortConf1 {
    /// The register byte.
    #[verifier::allow_in_spec]
    pub fn byte(&self) -> u8
        returns
            flag(self.pp_tx_swap_iq, 0x80) | flag(self.pp_rx_swap_iq, 0x40) | flag(
                self.tx_channel_swap,
                0x20,
            ) | flag(self.rx_channel_swap, 0x10) | flag(self.rx_frame_pulse_mode, 0x08) | flag(
                self.two_r_two_t_timing,
                0x04,
            ) | flag(self.invert_data_bus, 0x02) | flag(self.invert_data_clk, 0x01),
    {
        flag(self.pp_tx_swap_iq, 0x80) | flag(self.pp_rx_swap_iq, 0x40) | flag(
            self.tx_channel_swap,
            0x20,
        ) | flag(self.rx_channel_swap, 0x10) | flag(self.rx_frame_pulse_mode, 0x08) | flag(
            self.two_r_two_t_timing,
            0x04,
        ) | flag(self.invert_data_bus, 0x02) | flag(self.invert_data_clk, 0x01)
    }
}

/// Second configuration register of the parallel port.
#[derive(Debug, Clone, Copy, PartialEq, Eq, Structural)]
pub struct ParallelPortConf2 {
    pub fdd_alt_word_order: bool,
    pub invert_rx1: bool,
    pub invert_rx2: bool,
    pub invert_tx1: bool,
    pub invert_tx2: bool,
    pub invert_rx_frame: bool,
    /// RX data delay in cycles, two bits
    pub delay_rx_data: u8,
}

impl ParallelPortConf2 {
    /// The register byte.
    #[verifier::allow_in_spec]
    pub fn byte(&self) -> u8
        returns
            flag(self.fdd_alt_word_order, 0x80) | flag(self.invert_rx1, 0x40) | flag(
                self.invert_rx2,
                0x20,
            ) | flag(self.invert_tx1, 0x10) | flag(self.invert_tx2, 0x08) | flag(
                self.invert_rx_frame,
                0x04,
            ) | (self.delay_rx_data & 0x03),
    {
        flag(self.fdd_alt_word_order, 0x80) | flag(self.invert_rx1, 0x40) | flag(
            self.invert_rx2,
            0x20,
        ) | flag(self.invert_tx1, 0x10) | flag(self.invert_tx2, 0x08) | flag(
            self.invert_rx_frame,
            0x04,
        ) | (self.delay_rx_data & 0x03)
    }
}

/// Third configuration register of the parallel port.
#[derive(Debug, Clone, Copy, PartialEq, Eq, Structural)]
pub struct ParallelPortConf3 {
    /// RX at twice the TX rate in FDD
    pub fdd_rx_rate_2tx_rate: bool,
    pub swap_ports: bool,
    pub single_data_rate: bool,
    pub lvds_mode: bool,
    pub half_duplex_mode: bool,
    pub single_port_mode: bool,
    pub full_port: bool,
    pub full_duplex_swap_bits: bool,
}

impl ParallelPortConf3 {
    /// The register byte.
    #[verifier::allow_in_spec]
    pub fn byte(&self) -> u8
        returns
            flag(self.fdd_rx_rate_2tx_rate, 0x80) | flag(self.swap_ports, 0x40) | flag(
                self.single_data_rate,
                0x20,
            ) | flag(self.lvds_mode, 0x10) | flag(self.half_duplex_mode, 0x08) | flag(
                self.single_port_mode,
                0x04,
            ) | flag(self.full_port, 0x02) | flag(self.full_duplex_swap_bits, 0x01),
    {
        flag(self.fdd_rx_rate_2tx_rate, 0x80) | flag(self.swap_ports, 0x40) | flag(
            self.single_data_rate,
            0x20,
        ) | flag(self.lvds_mode, 0x10) | flag(self.half_duplex_mode, 0x08) | flag(
            self.single_port_mode,
            0x04,
        ) | flag(self.full_port, 0x02) | flag(self.full_duplex_swap_bits, 0x01)
    }

    pub fn with_lvds_mode(self, on: bool) -> (conf3: Self)
        ensures
            conf3 == (ParallelPortConf3 { lvds_mode: on, ..self }),
    {
        ParallelPortConf3 { lvds_mode: on, ..self }
    }

    pub fn with_half_duplex_mode(self, on: bool) -> (conf3: Self)
        ensures
            conf3 == (ParallelPortConf3 { half_duplex_mode: on, ..self }),
    {
        ParallelPortConf3 { half_duplex_mode: on, ..self }
    }

    pub fn with_single_port_mode(self, on: bool) -> (conf3: Self)
        ensures
            conf3 == (ParallelPortConf3 { single_port_mode: on, ..self }),
    {
        ParallelPortConf3 { single_port_mode: on, ..self }
    }

    pub fn with_single_data_rate(self, on: bool) -> (conf3: Self)
        ensures
            conf3 == (ParallelPortConf3 { single_data_rate: on, ..self }),
    {
        ParallelPortConf3 { single_data_rate: on, ..self }
    }

    /// The combinations the chip can't do, fixed up: LVDS is always full duplex, dual port and
    /// double data rate, and the full port needs full duplex and both ports.
    #[verifier::allow_in_spec]
    pub fn sanitized(self) -> Self
        returns
            (ParallelPortConf3 {
                half_duplex_mode: self.half_duplex_mode && !self.lvds_mode && !self.full_port,
                single_port_mode: self.single_port_mode && !self.lvds_mode && !self.full_port,
                single_data_rate: self.single_data_rate && !self.lvds_mode,
                ..self
            }),
    {
        let mut conf3 = self;
        if conf3.lvds_mode {
            conf3 = conf3.with_half_duplex_mode(false).with_single_data_rate(
                false,
            ).with_single_port_mode(false);
        }
        if conf3.full_port {
            conf3 = conf3.with_half_duplex_mode(false).with_single_port_mode(false);
        }
        conf3
    }
}

/// RX data clock and data delay, four bits each.
#[derive(Debug, Clone, Copy, PartialEq, Eq, Structural)]
pub struct RxClockDataDelay {
    pub raw: u8,
}

impl RxClockDataDelay {
    pub fn new(data_clk_delay: U4, rx_data_delay: U4) -> (delay: Self)
        ensures
            delay.raw == (data_clk_delay.bits() << 4) | rx_data_delay.bits(),
    {
        RxClockDataDelay { raw: (data_clk_delay.value() << 4) | rx_data_delay.value() }
    }
}

/// TX feedback clock and data delay, four bits each.
#[derive(Debug, Clone, Copy, PartialEq, Eq, Structural)]
pub struct TxClockDataDelay {
    pub raw: u8,
}

impl TxClockDataDelay {
    pub fn new(fb_clk_delay: U4, tx_data_delay: U4) -> (delay: Self)
        ensures
            delay.raw == (fb_clk_delay.bits() << 4) | tx_data_delay.bits(),
    {
        TxClockDataDelay { raw: (fb_clk_delay.value() << 4) | tx_data_delay.value() }
    }
}

/// LVDS driver and receiver.
#[derive(Debug, Clone, Copy, PartialEq, Eq, Structural)]
pub struct LvdsBiasControl {
    /// CLKOUT slew, two bits
    pub clk_out_slew: u8,
    pub rx_on_chip_term: bool,
    pub bypass_bias_r: bool,
    pub tx_lo_vcm: bool,
    /// Bias, 75 mV plus 75 mV per step, three bits
    pub lvds_bias: u8,
}

impl LvdsBiasControl {
    /// The register byte.
    #[verifier::allow_in_spec]
    pub fn byte(&self) -> u8
        returns
            ((self.clk_out_slew & 0x03) << 6) | flag(self.rx_on_chip_term, 0x20) | flag(
                self.bypass_bias_r,
                0x10,
            ) | flag(self.tx_lo_vcm, 0x08) | (self.lvds_bias & 0x07),
    {
        ((self.clk_out_slew & 0x03) << 6) | flag(self.rx_on_chip_term, 0x20) | flag(
            self.bypass_bias_r,
            0x10,
        ) | flag(self.tx_lo_vcm, 0x08) | (self.lvds_bias & 0x07)
    }
}

/// Parallel port (the digital data interface).
#[derive(Debug, Clone, Copy, PartialEq, Eq, Structural)]
pub struct PortConfig {
    pub conf1: ParallelPortConf1,
    pub conf2: ParallelPortConf2,
    pub conf3: ParallelPortConf3,
    pub rx_clk_data_delay: RxClockDataDelay,
    pub tx_clk_data_delay: TxClockDataDelay,
    pub lvds_bias: LvdsBiasControl,
    pub lvds_invert1: u8,
    pub lvds_invert2: u8,
    pub rx1rx2_phase_inversion: bool,
}

impl PortConfig {
    /// conf 3 with the combinations the chip can't do fixed up.
    #[verifier::allow_in_spec]
    pub fn sanitized_conf3(&self) -> ParallelPortConf3
        returns
            self.conf3.sanitized(),
    {
        self.conf3.sanitized()
    }
}

/// LVDS, 150 mV bias, on-chip RX termination.
pub open spec fn default_port() -> PortConfig {
    PortConfig {
        conf1: ParallelPortConf1 {
            pp_tx_swap_iq: true,
            pp_rx_swap_iq: true,
            tx_channel_swap: false,
            rx_channel_swap: false,
            rx_frame_pulse_mode: true,
            two_r_two_t_timing: false,
            invert_data_bus: false,
            invert_data_clk: false,
        },
        conf2: ParallelPortConf2 {
            fdd_alt_word_order: false,
            invert_rx1: false,
            invert_rx2: false,
            invert_tx1: false,
            invert_tx2: false,
            invert_rx_frame: false,
            delay_rx_data: 0,
        },
        conf3: ParallelPortConf3 {
            fdd_rx_rate_2tx_rate: false,
            swap_ports: false,
            single_data_rate: false,
            lvds_mode: true,
            half_duplex_mode: false,
            single_port_mode: false,
            full_port: false,
            full_duplex_swap_bits: false,
        },
        rx_clk_data_delay: RxClockDataDelay { raw: 0x04 },
        tx_clk_data_delay: TxClockDataDelay { raw: 0x70 },
        lvds_bias: LvdsBiasControl {
            clk_out_slew: 0,
            rx_on_chip_term: true,
            bypass_bias_r: false,
            tx_lo_vcm: false,
            lvds_bias: 1,
        },
        lvds_invert1: 0xFF,
        lvds_invert2: 0x0F,
        rx1rx2_phase_inversion: false,
    }
}

impl Default for PortConfig {
    fn default() -> (port: Self)
        ensures
            port == default_port(),
    {
        PortConfig {
            conf1: ParallelPortConf1 {
                pp_tx_swap_iq: true,
                pp_rx_swap_iq: true,
                tx_channel_swap: false,
                rx_channel_swap: false,
                rx_frame_pulse_mode: true,
                two_r_two_t_timing: false,
                invert_data_bus: false,
                invert_data_clk: false,
            },
            conf2: ParallelPortConf2 {
                fdd_alt_word_order: false,
                invert_rx1: false,
                invert_rx2: false,
                invert_tx1: false,
                invert_tx2: false,
                invert_rx_frame: false,
                delay_rx_data: 0,
            },
            conf3: ParallelPortConf3 {
                fdd_rx_rate_2tx_rate: false,
                swap_ports: false,
                single_data_rate: false,
                lvds_mode: true,
                half_duplex_mode: false,
                single_port_mode: false,
                full_port: false,
                full_duplex_swap_bits: false,
            },
            rx_clk_data_delay: RxClockDataDelay { raw: 0x04 },
            tx_clk_data_delay: TxClockDataDelay { raw: 0x70 },
            // 75 mV + 75 mV
            lvds_bias: LvdsBiasControl {
                clk_out_slew: 0,
                rx_on_chip_term: true,
                bypass_bias_r: false,
                tx_lo_vcm: false,
                lvds_bias: 1,
            },
            lvds_invert1: 0xFF,
            lvds_invert2: 0x0F,
            rx1rx2_phase_inversion: false,
        }
    }
}

/// General purpose outputs.
#[derive(Debug, Clone, Copy, PartialEq, Eq, Structural)]
pub struct GpoConfig {
    pub gpo_manual_mode_en: bool,
    pub gpo0_slave_rx_en: bool,
    pub gpo1_slave_rx_en: bool,
    pub gpo2_slave_rx_en: bool,
    pub gpo3_slave_rx_en: bool,
    pub gpo0_slave_tx_en: bool,
    pub gpo1_slave_tx_en: bool,
    pub gpo2_slave_tx_en: bool,
    pub gpo3_slave_tx_en: bool,
    pub gpo_manual_mode_enable_mask: U4,
    pub gpo0_inactive_state_high_en: bool,
    pub gpo1_inactive_state_high_en: bool,
    pub gpo2_inactive_state_high_en: bool,
    pub gpo3_inactive_state_high_en: bool,
    pub gpo0_rx_delay_us: u8,
    pub gpo0_tx_delay_us: u8,
    pub gpo1_rx_delay_us: u8,
    pub gpo1_tx_delay_us: u8,
    pub gpo2_rx_delay_us: u8,
    pub gpo2_tx_delay_us: u8,
    pub gpo3_rx_delay_us: u8,
    pub gpo3_tx_delay_us: u8,
}

impl GpoConfig {
    /// Everything off, no delays.
    pub open spec fn is_off(self) -> bool {
        &&& self.gpo_manual_mode_enable_mask.bits() == 0
        &&& self == (GpoConfig {
            gpo_manual_mode_en: false,
            gpo0_slave_rx_en: false,
            gpo1_slave_rx_en: false,
            gpo2_slave_rx_en: false,
            gpo3_slave_rx_en: false,
            gpo0_slave_tx_en: false,
            gpo1_slave_tx_en: false,
            gpo2_slave_tx_en: false,
            gpo3_slave_tx_en: false,
            gpo_manual_mode_enable_mask: self.gpo_manual_mode_enable_mask,
            gpo0_inactive_state_high_en: false,
            gpo1_inactive_state_high_en: false,
            gpo2_inactive_state_high_en: false,
            gpo3_inactive_state_high_en: false,
            gpo0_rx_delay_us: 0,
            gpo0_tx_delay_us: 0,
            gpo1_rx_delay_us: 0,
            gpo1_tx_delay_us: 0,
            gpo2_rx_delay_us: 0,
            gpo2_tx_delay_us: 0,
            gpo3_rx_delay_us: 0,
            gpo3_tx_delay_us: 0,
        })
    }
}

impl Default for GpoConfig {
    fn default() -> (config: Self)
        ensures
            config.is_off(),
    {
        GpoConfig {
            gpo_manual_mode_en: false,
            gpo0_slave_rx_en: false,
            gpo1_slave_rx_en: false,
            gpo2_slave_rx_en: false,
            gpo3_slave_rx_en: false,
            gpo0_slave_tx_en: false,
            gpo1_slave_tx_en: false,
            gpo2_slave_tx_en: false,
            gpo3_slave_tx_en: false,
            gpo_manual_mode_enable_mask: U4::new(0),
            gpo0_inactive_state_high_en: false,
            gpo1_inactive_state_high_en: false,
            gpo2_inactive_state_high_en: false,
            gpo3_inactive_state_high_en: false,
            gpo0_rx_delay_us: 0,
            gpo0_tx_delay_us: 0,
            gpo1_rx_delay_us: 0,
            gpo1_tx_delay_us: 0,
            gpo2_rx_delay_us: 0,
            gpo2_tx_delay_us: 0,
            gpo3_rx_delay_us: 0,
            gpo3_tx_delay_us: 0,
        }
    }
}

/// AuxDACs.
#[derive(Debug, Clone, Copy, PartialEq, Eq, Structural)]
pub struct AuxDacConfig {
    /// Default value for DAC 1 (mV)
    pub dac1_default_value: u16,
    /// Default value for DAC 2 (mV)
    pub dac2_default_value: u16,
    /// Enable DAC2 TX Auto Bar
    pub dac2_in_tx_en: bool,
    /// Enable DAC1 TX Auto Bar
    pub dac1_in_tx_en: bool,
    /// Enable DAC2 RX Auto Bar
    pub dac2_in_rx_en: bool,
    /// Enable DAC1 RX Auto Bar
    pub dac1_in_rx_en: bool,
    pub dac2_in_alert_en: bool,
    pub dac1_in_alert_en: bool,
    pub auxdac_manual_mode_en: bool,
    pub dac1_rx_delay_us: u8,
    pub dac2_rx_delay_us: u8,
    pub dac1_tx_delay_us: u8,
    pub dac2_tx_delay_us: u8,
}

/// Both DACs 0 mV, manual mode.
pub open spec fn default_auxdac() -> AuxDacConfig {
    AuxDacConfig {
        dac1_default_value: 0,
        dac2_default_value: 0,
        dac2_in_tx_en: false,
        dac1_in_tx_en: false,
        dac2_in_rx_en: false,
        dac1_in_rx_en: false,
        dac2_in_alert_en: false,
        dac1_in_alert_en: false,
        auxdac_manual_mode_en: true,
        dac1_rx_delay_us: 0,
        dac2_rx_delay_us: 0,
        dac1_tx_delay_us: 0,
        dac2_tx_delay_us: 0,
    }
}

impl Default for AuxDacConfig {
    fn default() -> (config: Self)
        ensures
            config == default_auxdac(),
    {
        AuxDacConfig {
            dac1_default_value: 0,
            dac2_default_value: 0,
            dac2_in_tx_en: false,
            dac1_in_tx_en: false,
            dac2_in_rx_en: false,
            dac1_in_rx_en: false,
            dac2_in_alert_en: false,
            dac1_in_alert_en: false,
            auxdac_manual_mode_en: true,
            dac1_rx_delay_us: 0,
            dac2_rx_delay_us: 0,
            dac1_tx_delay_us: 0,
            dac2_tx_delay_us: 0,
        }
    }
}

/// Manual bar bit of an AuxDAC.
#[verifier::allow_in_spec]
pub fn manual_bar(dac: Dac) -> u8
    returns
        (match dac {
            Dac::Dac1 => 0x40u8,
            Dac::Dac2 => 0x80,
        }),
{
    match dac {
        Dac::Dac1 => 0x40,
        Dac::Dac2 => 0x80,
    }
}

/// Word register of an AuxDAC.
#[verifier::allow_in_spec]
pub fn auxdac_word_addr(dac: Dac) -> u16
    returns
        (match dac {
            Dac::Dac1 => AUXDAC1_WORD,
            Dac::Dac2 => AUXDAC2_WORD,
        }),
{
    match dac {
        Dac::Dac1 => AUXDAC1_WORD,
        Dac::Dac2 => AUXDAC2_WORD,
    }
}

/// Configuration register of an AuxDAC.
#[verifier::allow_in_spec]
pub fn auxdac_config_addr(dac: Dac) -> u16
    returns
        (match dac {
            Dac::Dac1 => AUXDAC1_CONFIG,
            Dac::Dac2 => AUXDAC2_CONFIG,
        }),
{
    match dac {
        Dac::Dac1 => AUXDAC1_CONFIG,
        Dac::Dac2 => AUXDAC2_CONFIG,
    }
}

/// Reference select of an AuxDAC: 1 V below 1888 mV, 2.5 V from there on.
#[verifier::allow_in_spec]
pub fn auxdac_vref(val_mv: u16) -> u8
    returns
        (if val_mv < 1888 {
            0u8
        } else {
            3
        }),
{
    if val_mv < 1888 {
        0
    } else {
        3
    }
}

/// Ten bit word of an AuxDAC. The output starts at 306 mV.
#[verifier::allow_in_spec]
pub fn auxdac_word(val_mv: u16) -> u16
    returns
        least(
            (if val_mv < 306 {
                0
            } else if val_mv < 1888 {
                (val_mv - 306) * 1000 / 1469
            } else {
                (val_mv - 1761) * 1000 / 1512
            }) as u32,
            1023,
        ) as u16,
{
    let word: u32 = if val_mv < 306 {
        0
    } else if val_mv < 1888 {
        (val_mv as u32 - 306) * 1000 / 1469
    } else {
        (val_mv as u32 - 1761) * 1000 / 1512
    };
    least(word, 1023) as u16
}

/// Two bar bits, active low. DAC1 is bit 0.
#[verifier::allow_in_spec]
pub fn bars(dac1: bool, dac2: bool) -> u8
    returns
        flag(!dac1, 1) | flag(!dac2, 2),
{
    flag(!dac1, 1) | flag(!dac2, 2)
}

/// Four bits, one for each GPO.
#[verifier::allow_in_spec]
pub fn four_bits(bit3: bool, bit2: bool, bit1: bool, bit0: bool) -> u8
    returns
        flag(bit3, 8) | flag(bit2, 4) | flag(bit1, 2) | flag(bit0, 1),
{
    flag(bit3, 8) | flag(bit2, 4) | flag(bit1, 2) | flag(bit0, 1)
}

/// Temperature measurement interval in units of 2^29 BBPLL cycles, rounded.
#[verifier::allow_in_spec]
pub fn temp_interval_units(interval_ms: u32, bbpll: u32) -> u32
    returns
        ((interval_ms * (bbpll / 1000) + 0x1000_0000) / 0x2000_0000) as u32,
{
    proof {
        assert(interval_ms * (bbpll as int / 1000) <= 0xFFFF_FFFF * 0x41_8937)
            by (nonlinear_arith)
            requires
                0 <= interval_ms <= 0xFFFF_FFFF,
                0 <= bbpll <= 0xFFFF_FFFF,
        ;
    }
    ((interval_ms as u64 * (bbpll / 1000) as u64 + 0x1000_0000) / 0x2000_0000) as u32
}

/// The interval as it goes into its field of seven bits.
#[verifier::allow_in_spec]
pub fn temp_interval(interval_ms: u32, bbpll: u32) -> u8
    returns
        (temp_interval_units(interval_ms, bbpll) % 128) as u8,
{
    (temp_interval_units(interval_ms, bbpll) % 128) as u8
}

impl EngineView {
    /// Sets an AuxDAC in mV. The manual bar bits are active low, set = DAC off.
    #[verifier::opaque]
    pub open spec fn auxdac_set(self, dac: Dac, val_mv: u16) -> Flow {
        self.run(
            [
                update(
                    AUXDAC_ENABLE_CONTROL,
                    manual_bar(dac),
                    flag(val_mv == 0, manual_bar(dac)),
                ),
                // 10 bits: top 8 in the word register, low 2 in the config register
                put(auxdac_word_addr(dac), (auxdac_word(val_mv) / 4) as u8),
                put(
                    auxdac_config_addr(dac),
                    (auxdac_word(val_mv) % 4) as u8 | (auxdac_vref(val_mv) << 2),
                ),
            ]@,
        )
    }

    /// AuxDAC setup.
    #[verifier::opaque]
    pub open spec fn auxdac_setup(self, config: AuxDacConfig) -> Flow {
        self.auxdac_set(Dac::Dac1, config.dac1_default_value).auxdac_set(
            Dac::Dac2,
            config.dac2_default_value,
        ).run(
            [
                update(
                    AUXDAC_ENABLE_CONTROL,
                    AUXDAC_AUTO_TX_BAR | AUXDAC_AUTO_RX_BAR | AUXDAC_INIT_BAR,
                    (bars(config.dac1_in_tx_en, config.dac2_in_tx_en) << 4) | (bars(
                        config.dac1_in_rx_en,
                        config.dac2_in_rx_en,
                    ) << 2) | bars(config.dac1_in_alert_en, config.dac2_in_alert_en),
                ),
                update(
                    EXTERNAL_LNA_CONTROL,
                    AUXDAC_MANUAL_SELECT,
                    flag(config.auxdac_manual_mode_en, AUXDAC_MANUAL_SELECT),
                ),
                put(AUXDAC1_RX_DELAY, config.dac1_rx_delay_us),
                put(AUXDAC1_TX_DELAY, config.dac1_tx_delay_us),
                put(AUXDAC2_RX_DELAY, config.dac2_rx_delay_us),
                put(AUXDAC2_TX_DELAY, config.dac2_tx_delay_us),
            ]@,
        )
    }

    /// GPO setup.
    #[verifier::opaque]
    pub open spec fn gpo_setup(self, config: GpoConfig) -> Flow {
        self.run(
            [
                put(
                    AUTO_GPO,
                    (four_bits(
                        config.gpo3_slave_rx_en,
                        config.gpo2_slave_rx_en,
                        config.gpo1_slave_rx_en,
                        config.gpo0_slave_rx_en,
                    ) << 4) | four_bits(
                        config.gpo3_slave_tx_en,
                        config.gpo2_slave_tx_en,
                        config.gpo1_slave_tx_en,
                        config.gpo0_slave_tx_en,
                    ),
                ),
                put(
                    GPO_FORCE_AND_INIT,
                    (config.gpo_manual_mode_enable_mask.bits() << 4) | four_bits(
                        config.gpo3_inactive_state_high_en,
                        config.gpo2_inactive_state_high_en,
                        config.gpo1_inactive_state_high_en,
                        config.gpo0_inactive_state_high_en,
                    ),
                ),
                put(GPO0_RX_DELAY, config.gpo0_rx_delay_us),
                put(GPO0_TX_DELAY, config.gpo0_tx_delay_us),
                put(GPO1_RX_DELAY, config.gpo1_rx_delay_us),
                put(GPO1_TX_DELAY, config.gpo1_tx_delay_us),
                put(GPO2_RX_DELAY, config.gpo2_rx_delay_us),
                put(GPO2_TX_DELAY, config.gpo2_tx_delay_us),
                put(GPO3_RX_DELAY, config.gpo3_rx_delay_us),
                put(GPO3_TX_DELAY, config.gpo3_tx_delay_us),
                // manual mode clashes with ENSM slave and eLNA auto mode
                update(
                    EXTERNAL_LNA_CONTROL,
                    GPO_MANUAL_SELECT,
                    flag(config.gpo_manual_mode_en, GPO_MANUAL_SELECT),
                ),
            ]@,
        )
    }

    /// TX channels on or off.
    #[verifier::opaque]
    pub open spec fn set_tx_channels(self, tx1: bool, tx2: bool) -> Flow {
        self.run(
            [
                update(
                    TX_ENABLE_FILTER_CONTROL,
                    TX_CHANNEL_ENABLE,
                    flag(tx1, 0x40) | flag(tx2, 0x80),
                ),
            ]@,
        )
    }

    /// RX channels on or off.
    #[verifier::opaque]
    pub open spec fn set_rx_channels(self, rx1: bool, rx2: bool) -> Flow {
        self.run(
            [
                update(
                    RX_ENABLE_FILTER_CONTROL,
                    RX_CHANNEL_ENABLE,
                    flag(rx1, 0x40) | flag(rx2, 0x80),
                ),
            ]@,
        )
    }

    /// RX input and TX output pins.
    #[verifier::opaque]
    pub open spec fn rf_port_setup(self, rx_input: RxInput, tx_output_b: bool) -> Flow {
        self.run([put(INPUT_SELECT, rx_input.select() | flag(tx_output_b, TX_OUTPUT))]@)
    }

    /// Parallel port setup. The third configuration register comes from the state, where it is
    /// already corrected.
    #[verifier::opaque]
    pub open spec fn pp_port_setup(self, port: PortConfig) -> Flow {
        let written = self.run(
            [
                put(PARALLEL_PORT_CONF1, port.conf1.byte()),
                put(PARALLEL_PORT_CONF2, port.conf2.byte()),
                put(PARALLEL_PORT_CONF3, self.state.v.mode.pp_conf3.byte()),
                put(RX_CLOCK_DATA_DELAY, port.rx_clk_data_delay.raw),
                put(TX_CLOCK_DATA_DELAY, port.tx_clk_data_delay.raw),
                put(LVDS_BIAS_CONTROL, port.lvds_bias.byte()),
                put(LVDS_INVERT_CTRL1, port.lvds_invert1),
                put(LVDS_INVERT_CTRL2, port.lvds_invert2),
            ]@,
        );
        if port.rx1rx2_phase_inversion || port.conf2.invert_rx2 {
            written.run(
                [
                    update(PARALLEL_PORT_CONF2, INVERT_RX2, INVERT_RX2),
                    update(INVERT_BITS, INVERT_RX2_RF_DC_CGOUT_WORD, 0),
                ]@,
            )
        } else {
            written
        }
    }

    /// Puts the third parallel port configuration register back.
    #[verifier::opaque]
    pub open spec fn pp_port_restore_conf3(self) -> Flow {
        self.run([put(PARALLEL_PORT_CONF3, self.state.v.mode.pp_conf3.byte())]@)
    }

    /// AuxADC setup off the cached BBPLL rate, which has to divide down to the AuxADC clock by
    /// less than 64.
    #[verifier::opaque]
    pub open spec fn auxadc_setup(self, config: AuxAdcConfig) -> Flow {
        let bbpll = self.state.v.clk.rates.bbpll.raw;
        let rate = config.auxadc_clock_rate.raw;
        if rate == 0 || bbpll / rate >= 64 {
            self.fail(Ad9361Error::InvalidRate)
        } else {
            self.run(
                [
                    put(TEMP_OFFSET, config.offset as u8),
                    put(START_TEMP_READING, 0),
                    put(
                        TEMP_SENSE2,
                        (temp_interval(config.temp_time_interval_ms, bbpll) << 1) | flag(
                            config.periodic_temp_measurement,
                            TEMP_SENSE_PERIODIC_ENABLE,
                        ),
                    ),
                    put(TEMP_SENSOR_CONFIG, config.temp_sensor_decimation.code()),
                    put(AUXADC_CLOCK_DIVIDER, (bbpll / rate) as u8),
                    put(AUXADC_CONFIG, config.auxadc_decimation.code() << 1),
                ]@,
            )
        }
    }

    /// Control outputs.
    #[verifier::opaque]
    pub open spec fn ctrl_outs_setup(self, config: CtrlOutsConfig) -> Flow {
        self.run(
            [
                put(CONTROL_OUTPUT_POINTER, config.index),
                put(CONTROL_OUTPUT_ENABLE, config.en_mask),
            ]@,
        )
    }

    /// Reference clock cycles per microsecond, minus one.
    #[verifier::opaque]
    pub open spec fn set_ref_clk_cycles(self, ref_clk: ReferenceClock) -> Flow {
        self.run([put(REFERENCE_CLOCK_CYCLES, (ref_clk.hz() / 1_000_000 - 1) as u8)]@)
    }

    /// External LNA setup.
    #[verifier::opaque]
    pub open spec fn setup_ext_lna(self, config: ElnaConfig) -> Flow {
        self.run(
            [
                update(
                    EXTERNAL_LNA_CONTROL,
                    EXTERNAL_LNA1_CTRL | EXTERNAL_LNA2_CTRL,
                    flag(config.elna_1_control_en, EXTERNAL_LNA1_CTRL) | flag(
                        config.elna_2_control_en,
                        EXTERNAL_LNA2_CTRL,
                    ),
                ),
                put(EXT_LNA_HIGH_GAIN, config.gain.steps()),
                put(EXT_LNA_LOW_GAIN, config.bypass_loss.steps()),
            ]@,
        )
    }
}

/// The same steps, after others.
impl Flow {
    pub open spec fn auxdac_set(self, dac: Dac, val_mv: u16) -> Flow {
        if self.err is Some {
            self
        } else {
            self.e.auxdac_set(dac, val_mv)
        }
    }

    pub open spec fn auxdac_setup(self, config: AuxDacConfig) -> Flow {
        if self.err is Some {
            self
        } else {
            self.e.auxdac_setup(config)
        }
    }

    pub open spec fn gpo_setup(self, config: GpoConfig) -> Flow {
        if self.err is Some {
            self
        } else {
            self.e.gpo_setup(config)
        }
    }

    pub open spec fn set_tx_channels(self, tx1: bool, tx2: bool) -> Flow {
        if self.err is Some {
            self
        } else {
            self.e.set_tx_channels(tx1, tx2)
        }
    }

    pub open spec fn set_rx_channels(self, rx1: bool, rx2: bool) -> Flow {
        if self.err is Some {
            self
        } else {
            self.e.set_rx_channels(rx1, rx2)
        }
    }

    pub open spec fn rf_port_setup(self, rx_input: RxInput, tx_output_b: bool) -> Flow {
        if self.err is Some {
            self
        } else {
            self.e.rf_port_setup(rx_input, tx_output_b)
        }
    }

    pub open spec fn pp_port_setup(self, port: PortConfig) -> Flow {
        if self.err is Some {
            self
        } else {
            self.e.pp_port_setup(port)
        }
    }

    pub open spec fn pp_port_restore_conf3(self) -> Flow {
        if self.err is Some {
            self
        } else {
            self.e.pp_port_restore_conf3()
        }
    }

    pub open spec fn auxadc_setup(self, config: AuxAdcConfig) -> Flow {
        if self.err is Some {
            self
        } else {
            self.e.auxadc_setup(config)
        }
    }

    pub open spec fn ctrl_outs_setup(self, config: CtrlOutsConfig) -> Flow {
        if self.err is Some {
            self
        } else {
            self.e.ctrl_outs_setup(config)
        }
    }

    pub open spec fn set_ref_clk_cycles(self, ref_clk: ReferenceClock) -> Flow {
        if self.err is Some {
            self
        } else {
            self.e.set_ref_clk_cycles(ref_clk)
        }
    }

    pub open spec fn setup_ext_lna(self, config: ElnaConfig) -> Flow {
        if self.err is Some {
            self
        } else {
            self.e.setup_ext_lna(config)
        }
    }
}

impl<'a> Engine<'a> {
    /// Sets an AuxDAC in mV.
    pub fn auxdac_set(&mut self, dac: Dac, val_mv: u16) -> (r: Result<(), Fault>)
        ensures
            flow(final(self)@, r) == old(self)@.auxdac_set(dac, val_mv),
    {
        reveal(EngineView::auxdac_set);
        let word: u16 = auxdac_word(val_mv);
        let lsb: u8 = low_2_bits(word);
        self.run(
            &[
                update(
                    AUXDAC_ENABLE_CONTROL,
                    manual_bar(dac),
                    flag(val_mv == 0, manual_bar(dac)),
                ),
                put(auxdac_word_addr(dac), (word / 4) as u8),
                put(auxdac_config_addr(dac), lsb | (auxdac_vref(val_mv) << 2)),
            ],
        )
    }

    /// Sets up the AuxDACs.
    pub fn auxdac_setup(&mut self, config: &AuxDacConfig) -> (r: Result<(), Fault>)
        ensures
            flow(final(self)@, r) == old(self)@.auxdac_setup(*config),
    {
        reveal(EngineView::auxdac_setup);
        self.auxdac_set(Dac::Dac1, config.dac1_default_value)?;
        self.auxdac_set(Dac::Dac2, config.dac2_default_value)?;
        self.run(&[
            update(
                AUXDAC_ENABLE_CONTROL,
                AUXDAC_AUTO_TX_BAR | AUXDAC_AUTO_RX_BAR | AUXDAC_INIT_BAR,
                (bars(config.dac1_in_tx_en, config.dac2_in_tx_en) << 4) | (bars(
                    config.dac1_in_rx_en,
                    config.dac2_in_rx_en,
                ) << 2) | bars(config.dac1_in_alert_en, config.dac2_in_alert_en),
            ),
            update(
                EXTERNAL_LNA_CONTROL,
                AUXDAC_MANUAL_SELECT,
                flag(config.auxdac_manual_mode_en, AUXDAC_MANUAL_SELECT),
            ),
            put(AUXDAC1_RX_DELAY, config.dac1_rx_delay_us),
            put(AUXDAC1_TX_DELAY, config.dac1_tx_delay_us),
            put(AUXDAC2_RX_DELAY, config.dac2_rx_delay_us),
            put(AUXDAC2_TX_DELAY, config.dac2_tx_delay_us),
        ])
    }

    /// Sets up the GPOs.
    pub fn gpo_setup(&mut self, config: &GpoConfig) -> (r: Result<(), Fault>)
        ensures
            flow(final(self)@, r) == old(self)@.gpo_setup(*config),
    {
        reveal(EngineView::gpo_setup);
        self.run(&[
            put(
                AUTO_GPO,
                (four_bits(
                    config.gpo3_slave_rx_en,
                    config.gpo2_slave_rx_en,
                    config.gpo1_slave_rx_en,
                    config.gpo0_slave_rx_en,
                ) << 4) | four_bits(
                    config.gpo3_slave_tx_en,
                    config.gpo2_slave_tx_en,
                    config.gpo1_slave_tx_en,
                    config.gpo0_slave_tx_en,
                ),
            ),
            put(
                GPO_FORCE_AND_INIT,
                (config.gpo_manual_mode_enable_mask.value() << 4) | four_bits(
                    config.gpo3_inactive_state_high_en,
                    config.gpo2_inactive_state_high_en,
                    config.gpo1_inactive_state_high_en,
                    config.gpo0_inactive_state_high_en,
                ),
            ),
            put(GPO0_RX_DELAY, config.gpo0_rx_delay_us),
            put(GPO0_TX_DELAY, config.gpo0_tx_delay_us),
            put(GPO1_RX_DELAY, config.gpo1_rx_delay_us),
            put(GPO1_TX_DELAY, config.gpo1_tx_delay_us),
            put(GPO2_RX_DELAY, config.gpo2_rx_delay_us),
            put(GPO2_TX_DELAY, config.gpo2_tx_delay_us),
            put(GPO3_RX_DELAY, config.gpo3_rx_delay_us),
            put(GPO3_TX_DELAY, config.gpo3_tx_delay_us),
            // manual mode clashes with ENSM slave and eLNA auto mode
            update(
                EXTERNAL_LNA_CONTROL,
                GPO_MANUAL_SELECT,
                flag(config.gpo_manual_mode_en, GPO_MANUAL_SELECT),
            ),
        ])
    }

    /// Switches the TX channels on or off.
    pub fn set_tx_channels(&mut self, tx1: bool, tx2: bool) -> (r: Result<(), Fault>)
        ensures
            flow(final(self)@, r) == old(self)@.set_tx_channels(tx1, tx2),
    {
        reveal(EngineView::set_tx_channels);
        self.run(&[
            update(
                TX_ENABLE_FILTER_CONTROL,
                TX_CHANNEL_ENABLE,
                flag(tx1, 0x40) | flag(tx2, 0x80),
            ),
        ])
    }

    /// Switches the RX channels on or off.
    pub fn set_rx_channels(&mut self, rx1: bool, rx2: bool) -> (r: Result<(), Fault>)
        ensures
            flow(final(self)@, r) == old(self)@.set_rx_channels(rx1, rx2),
    {
        reveal(EngineView::set_rx_channels);
        self.run(&[
            update(
                RX_ENABLE_FILTER_CONTROL,
                RX_CHANNEL_ENABLE,
                flag(rx1, 0x40) | flag(rx2, 0x80),
            ),
        ])
    }

    /// Selects the RX input and TX output pins. The TX monitor inputs aren't supported.
    pub fn rf_port_setup(&mut self, rx_input: RxInput, tx_output_b: bool) -> (r: Result<(), Fault>)
        ensures
            flow(final(self)@, r) == old(self)@.rf_port_setup(rx_input, tx_output_b),
    {
        reveal(EngineView::rf_port_setup);
        self.run(&[put(INPUT_SELECT, rx_input.select_bits() | flag(tx_output_b, TX_OUTPUT))])
    }

    /// Sets up the parallel port.
    pub fn pp_port_setup(&mut self, port: &PortConfig) -> (r: Result<(), Fault>)
        ensures
            flow(final(self)@, r) == old(self)@.pp_port_setup(*port),
    {
        reveal(EngineView::pp_port_setup);
        self.run(&[
            put(PARALLEL_PORT_CONF1, port.conf1.byte()),
            put(PARALLEL_PORT_CONF2, port.conf2.byte()),
            put(PARALLEL_PORT_CONF3, self.state.v.mode.pp_conf3.byte()),
            put(RX_CLOCK_DATA_DELAY, port.rx_clk_data_delay.raw),
            put(TX_CLOCK_DATA_DELAY, port.tx_clk_data_delay.raw),
            put(LVDS_BIAS_CONTROL, port.lvds_bias.byte()),
            put(LVDS_INVERT_CTRL1, port.lvds_invert1),
            put(LVDS_INVERT_CTRL2, port.lvds_invert2),
        ])?;
        if port.rx1rx2_phase_inversion || port.conf2.invert_rx2 {
            self.run(&[
                update(PARALLEL_PORT_CONF2, INVERT_RX2, INVERT_RX2),
                update(INVERT_BITS, INVERT_RX2_RF_DC_CGOUT_WORD, 0),
            ])?;
        }
        Ok(())
    }

    /// Puts the third parallel port configuration register back.
    pub fn pp_port_restore_conf3(&mut self) -> (r: Result<(), Fault>)
        ensures
            flow(final(self)@, r) == old(self)@.pp_port_restore_conf3(),
    {
        reveal(EngineView::pp_port_restore_conf3);
        self.run(&[put(PARALLEL_PORT_CONF3, self.state.v.mode.pp_conf3.byte())])
    }

    /// Sets up the AuxADC off the cached BBPLL rate. `InvalidRate` if that can't be divided down
    /// to the AuxADC clock. The config already checks the initial rate.
    pub fn auxadc_setup(&mut self, config: &AuxAdcConfig) -> (r: Result<(), Fault>)
        ensures
            flow(final(self)@, r) == old(self)@.auxadc_setup(*config),
    {
        reveal(EngineView::auxadc_setup);
        let bbpll: u32 = self.state.v.clk.rates.bbpll.raw;
        let rate: u32 = config.auxadc_clock_rate.raw;
        if rate == 0 || bbpll / rate >= 64 {
            return Err(Ad9361Error::InvalidRate);
        }
        self.run(&[
            put(TEMP_OFFSET, config.offset as u8),
            put(START_TEMP_READING, 0),
            put(
                TEMP_SENSE2,
                (temp_interval(config.temp_time_interval_ms, bbpll) << 1) | flag(
                    config.periodic_temp_measurement,
                    TEMP_SENSE_PERIODIC_ENABLE,
                ),
            ),
            put(TEMP_SENSOR_CONFIG, config.temp_sensor_decimation.field()),
            put(AUXADC_CLOCK_DIVIDER, (bbpll / rate) as u8),
            put(AUXADC_CONFIG, config.auxadc_decimation.field() << 1),
        ])
    }

    /// Sets up the control outputs.
    pub fn ctrl_outs_setup(&mut self, config: &CtrlOutsConfig) -> (r: Result<(), Fault>)
        ensures
            flow(final(self)@, r) == old(self)@.ctrl_outs_setup(*config),
    {
        reveal(EngineView::ctrl_outs_setup);
        self.run(&[
            put(CONTROL_OUTPUT_POINTER, config.index),
            put(CONTROL_OUTPUT_ENABLE, config.en_mask),
        ])
    }

    /// Tells the chip how fast the reference clock is.
    pub fn set_ref_clk_cycles(&mut self, ref_clk: ReferenceClock) -> (r: Result<(), Fault>)
        ensures
            flow(final(self)@, r) == old(self)@.set_ref_clk_cycles(ref_clk),
    {
        reveal(EngineView::set_ref_clk_cycles);
        // 10 to 80 MHz, ReferenceClock guarantees it
        let mhz: u32 = ref_clk.get().raw / 1_000_000;
        self.run(&[put(REFERENCE_CLOCK_CYCLES, (mhz - 1) as u8)])
    }

    /// Sets up the external LNA.
    pub fn setup_ext_lna(&mut self, config: &ElnaConfig) -> (r: Result<(), Fault>)
        ensures
            flow(final(self)@, r) == old(self)@.setup_ext_lna(*config),
    {
        reveal(EngineView::setup_ext_lna);
        self.run(&[
            update(
                EXTERNAL_LNA_CONTROL,
                EXTERNAL_LNA1_CTRL | EXTERNAL_LNA2_CTRL,
                flag(config.elna_1_control_en, EXTERNAL_LNA1_CTRL) | flag(
                    config.elna_2_control_en,
                    EXTERNAL_LNA2_CTRL,
                ),
            ),
            put(EXT_LNA_HIGH_GAIN, config.gain.field()),
            put(EXT_LNA_LOW_GAIN, config.bypass_loss.field()),
        ])
    }
}

} // verus!
