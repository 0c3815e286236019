//! What the operations of [`crate::ports`] leave alone.
use vstd::prelude::*;

use crate::config::ReferenceClock;
use crate::engine::EngineView;
use crate::kept::{calms, leaves, none, same_bandwidths, same_chip, same_los, same_table, Parts};
use crate::ports::{
    AuxAdcConfig, AuxDacConfig, CtrlOutsConfig, Dac, ElnaConfig, GpoConfig, PortConfig,
};
use crate::units::RxInput;

verus! {

pub broadcast proof fn leaves_auxadc_setup(e: EngineView, config: AuxAdcConfig)
    ensures
        #![trigger e.auxadc_setup(config)]
        leaves(e.link, e.auxadc_setup(config).e.link, none()),
        calms(e.link, e.auxadc_setup(config).e.link),
        same_los(e.state.v, e.auxadc_setup(config).e.state.v),
        same_table(e.state.v, e.auxadc_setup(config).e.state.v),
        same_bandwidths(e.state.v, e.auxadc_setup(config).e.state.v),
        same_chip(e, e.auxadc_setup(config).e),
{
    broadcast use crate::kept::leaves_run;

    reveal(EngineView::auxadc_setup);
}

pub broadcast proof fn leaves_set_tx_channels(e: EngineView, tx1: bool, tx2: bool)
    ensures
        #![trigger e.set_tx_channels(tx1, tx2)]
        leaves(e.link, e.set_tx_channels(tx1, tx2).e.link, Parts { channels: true, ..none() }),
        calms(e.link, e.set_tx_channels(tx1, tx2).e.link),
        same_los(e.state.v, e.set_tx_channels(tx1, tx2).e.state.v),
        same_table(e.state.v, e.set_tx_channels(tx1, tx2).e.state.v),
        same_bandwidths(e.state.v, e.set_tx_channels(tx1, tx2).e.state.v),
        same_chip(e, e.set_tx_channels(tx1, tx2).e),
{
    broadcast use {
        crate::kept::leaves_run,
        crate::kept::lemma_fields_apart,
    };

    reveal(EngineView::set_tx_channels);
}

pub broadcast proof fn leaves_auxdac_set(e: EngineView, dac: Dac, val_mv: u16)
    ensures
        #![trigger e.auxdac_set(dac, val_mv)]
        leaves(e.link, e.auxdac_set(dac, val_mv).e.link, none()),
        calms(e.link, e.auxdac_set(dac, val_mv).e.link),
        same_los(e.state.v, e.auxdac_set(dac, val_mv).e.state.v),
        same_table(e.state.v, e.auxdac_set(dac, val_mv).e.state.v),
        same_bandwidths(e.state.v, e.auxdac_set(dac, val_mv).e.state.v),
        same_chip(e, e.auxdac_set(dac, val_mv).e),
{
    broadcast use crate::kept::leaves_run;

    reveal(EngineView::auxdac_set);
}

pub broadcast proof fn leaves_auxdac_setup(e: EngineView, config: AuxDacConfig)
    ensures
        #![trigger e.auxdac_setup(config)]
        leaves(e.link, e.auxdac_setup(config).e.link, none()),
        calms(e.link, e.auxdac_setup(config).e.link),
        same_los(e.state.v, e.auxdac_setup(config).e.state.v),
        same_table(e.state.v, e.auxdac_setup(config).e.state.v),
        same_bandwidths(e.state.v, e.auxdac_setup(config).e.state.v),
        same_chip(e, e.auxdac_setup(config).e),
{
    broadcast use {
        crate::kept::leaves_run,
        leaves_auxdac_set,
    };

    reveal(EngineView::auxdac_setup);
}

pub broadcast proof fn leaves_gpo_setup(e: EngineView, config: GpoConfig)
    ensures
        #![trigger e.gpo_setup(config)]
        leaves(e.link, e.gpo_setup(config).e.link, none()),
        calms(e.link, e.gpo_setup(config).e.link),
        same_los(e.state.v, e.gpo_setup(config).e.state.v),
        same_table(e.state.v, e.gpo_setup(config).e.state.v),
        same_bandwidths(e.state.v, e.gpo_setup(config).e.state.v),
        same_chip(e, e.gpo_setup(config).e),
{
    broadcast use crate::kept::leaves_run;

    reveal(EngineView::gpo_setup);
}

pub broadcast proof fn leaves_set_rx_channels(e: EngineView, rx1: bool, rx2: bool)
    ensures
        #![trigger e.set_rx_channels(rx1, rx2)]
        leaves(e.link, e.set_rx_channels(rx1, rx2).e.link, Parts { channels: true, ..none() }),
        calms(e.link, e.set_rx_channels(rx1, rx2).e.link),
        same_los(e.state.v, e.set_rx_channels(rx1, rx2).e.state.v),
        same_table(e.state.v, e.set_rx_channels(rx1, rx2).e.state.v),
        same_bandwidths(e.state.v, e.set_rx_channels(rx1, rx2).e.state.v),
        same_chip(e, e.set_rx_channels(rx1, rx2).e),
{
    broadcast use {
        crate::kept::leaves_run,
        crate::kept::lemma_fields_apart,
    };

    reveal(EngineView::set_rx_channels);
}

pub broadcast proof fn leaves_rf_port_setup(e: EngineView, rx_input: RxInput, tx_output_b: bool)
    ensures
        #![trigger e.rf_port_setup(rx_input, tx_output_b)]
        leaves(
            e.link,
            e.rf_port_setup(rx_input, tx_output_b).e.link,
            Parts { input: true, ..none() },
        ),
        calms(e.link, e.rf_port_setup(rx_input, tx_output_b).e.link),
        same_los(e.state.v, e.rf_port_setup(rx_input, tx_output_b).e.state.v),
        same_table(e.state.v, e.rf_port_setup(rx_input, tx_output_b).e.state.v),
        same_bandwidths(e.state.v, e.rf_port_setup(rx_input, tx_output_b).e.state.v),
        same_chip(e, e.rf_port_setup(rx_input, tx_output_b).e),
{
    broadcast use crate::kept::leaves_run;

    reveal(EngineView::rf_port_setup);
}

pub broadcast proof fn leaves_pp_port_setup(e: EngineView, port: PortConfig)
    ensures
        #![trigger e.pp_port_setup(port)]
        leaves(e.link, e.pp_port_setup(port).e.link, none()),
        calms(e.link, e.pp_port_setup(port).e.link),
        same_los(e.state.v, e.pp_port_setup(port).e.state.v),
        same_table(e.state.v, e.pp_port_setup(port).e.state.v),
        same_bandwidths(e.state.v, e.pp_port_setup(port).e.state.v),
        same_chip(e, e.pp_port_setup(port).e),
{
    broadcast use crate::kept::leaves_run;

    reveal(EngineView::pp_port_setup);
}

pub broadcast proof fn leaves_ctrl_outs_setup(e: EngineView, config: CtrlOutsConfig)
    ensures
        #![trigger e.ctrl_outs_setup(config)]
        leaves(e.link, e.ctrl_outs_setup(config).e.link, none()),
        calms(e.link, e.ctrl_outs_setup(config).e.link),
        same_los(e.state.v, e.ctrl_outs_setup(config).e.state.v),
        same_table(e.state.v, e.ctrl_outs_setup(config).e.state.v),
        same_bandwidths(e.state.v, e.ctrl_outs_setup(config).e.state.v),
        same_chip(e, e.ctrl_outs_setup(config).e),
{
    broadcast use crate::kept::leaves_run;

    reveal(EngineView::ctrl_outs_setup);
}

pub broadcast proof fn leaves_set_ref_clk_cycles(e: EngineView, ref_clk: ReferenceClock)
    ensures
        #![trigger e.set_ref_clk_cycles(ref_clk)]
        leaves(e.link, e.set_ref_clk_cycles(ref_clk).e.link, none()),
        calms(e.link, e.set_ref_clk_cycles(ref_clk).e.link),
        same_los(e.state.v, e.set_ref_clk_cycles(ref_clk).e.state.v),
        same_table(e.state.v, e.set_ref_clk_cycles(ref_clk).e.state.v),
        same_bandwidths(e.state.v, e.set_ref_clk_cycles(ref_clk).e.state.v),
        same_chip(e, e.set_ref_clk_cycles(ref_clk).e),
{
    broadcast use crate::kept::leaves_run;

    reveal(EngineView::set_ref_clk_cycles);
}

pub broadcast proof fn leaves_setup_ext_lna(e: EngineView, config: ElnaConfig)
    ensures
        #![trigger e.setup_ext_lna(config)]
        leaves(e.link, e.setup_ext_lna(config).e.link, none()),
        calms(e.link, e.setup_ext_lna(config).e.link),
        same_los(e.state.v, e.setup_ext_lna(config).e.state.v),
        same_table(e.state.v, e.setup_ext_lna(config).e.state.v),
        same_bandwidths(e.state.v, e.setup_ext_lna(config).e.state.v),
        same_chip(e, e.setup_ext_lna(config).e),
{
    broadcast use crate::kept::leaves_run;

    reveal(EngineView::setup_ext_lna);
}

pub broadcast proof fn leaves_pp_port_restore_conf3(e: EngineView)
    ensures
        #![trigger e.pp_port_restore_conf3()]
        leaves(e.link, e.pp_port_restore_conf3().e.link, none()),
        calms(e.link, e.pp_port_restore_conf3().e.link),
        same_los(e.state.v, e.pp_port_restore_conf3().e.state.v),
        same_table(e.state.v, e.pp_port_restore_conf3().e.state.v),
        same_bandwidths(e.state.v, e.pp_port_restore_conf3().e.state.v),
        same_chip(e, e.pp_port_restore_conf3().e),
{
    broadcast use crate::kept::leaves_run;

    reveal(EngineView::pp_port_restore_conf3);
}

} // verus!
