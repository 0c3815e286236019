//! Repetition of the operations of [`crate::ports`].
use vstd::prelude::*;

use crate::config::ReferenceClock;
use crate::engine::EngineView;
use crate::link::goes_on;
use crate::ports::{
    AuxAdcConfig, AuxDacConfig, CtrlOutsConfig, Dac, ElnaConfig, GpoConfig, PortConfig,
};
use crate::replay::{alike, together};
use crate::units::RxInput;

verus! {

pub broadcast proof fn keeps_auxadc_setup(e: EngineView, config: AuxAdcConfig)
    ensures
        goes_on(e.link, (#[trigger] e.auxadc_setup(config)).e.link),
{
    broadcast use crate::replay::engine::keeps_run;

    reveal(EngineView::auxadc_setup);
}

pub broadcast proof fn repeats_auxadc_setup(a: EngineView, b: EngineView, config: AuxAdcConfig)
    requires
        together(a, b),
    ensures
        #![trigger a.auxadc_setup(config), b.auxadc_setup(config)]
        alike(a.auxadc_setup(config), b.auxadc_setup(config)),
{
    broadcast use {
        crate::replay::engine::keeps_run,
        crate::replay::engine::repeats_run,
    };

    reveal(EngineView::auxadc_setup);
}

pub broadcast proof fn keeps_set_tx_channels(e: EngineView, tx1: bool, tx2: bool)
    ensures
        goes_on(e.link, (#[trigger] e.set_tx_channels(tx1, tx2)).e.link),
{
    broadcast use crate::replay::engine::keeps_run;

    reveal(EngineView::set_tx_channels);
}

pub broadcast proof fn repeats_set_tx_channels(a: EngineView, b: EngineView, tx1: bool, tx2: bool)
    requires
        together(a, b),
    ensures
        #![trigger a.set_tx_channels(tx1, tx2), b.set_tx_channels(tx1, tx2)]
        alike(a.set_tx_channels(tx1, tx2), b.set_tx_channels(tx1, tx2)),
{
    broadcast use {
        crate::replay::engine::keeps_run,
        crate::replay::engine::repeats_run,
    };

    reveal(EngineView::set_tx_channels);
}

pub broadcast proof fn keeps_auxdac_set(e: EngineView, dac: Dac, val_mv: u16)
    ensures
        goes_on(e.link, (#[trigger] e.auxdac_set(dac, val_mv)).e.link),
{
    broadcast use crate::replay::engine::keeps_run;

    reveal(EngineView::auxdac_set);
}

pub broadcast proof fn repeats_auxdac_set(a: EngineView, b: EngineView, dac: Dac, val_mv: u16)
    requires
        together(a, b),
    ensures
        #![trigger a.auxdac_set(dac, val_mv), b.auxdac_set(dac, val_mv)]
        alike(a.auxdac_set(dac, val_mv), b.auxdac_set(dac, val_mv)),
{
    broadcast use {
        crate::replay::engine::keeps_run,
        crate::replay::engine::repeats_run,
    };

    reveal(EngineView::auxdac_set);
}

pub broadcast proof fn keeps_auxdac_setup(e: EngineView, config: AuxDacConfig)
    ensures
        goes_on(e.link, (#[trigger] e.auxdac_setup(config)).e.link),
{
    broadcast use {
        crate::replay::engine::keeps_run,
        keeps_auxdac_set,
    };

    reveal(EngineView::auxdac_setup);
}

pub broadcast proof fn repeats_auxdac_setup(a: EngineView, b: EngineView, config: AuxDacConfig)
    requires
        together(a, b),
    ensures
        #![trigger a.auxdac_setup(config), b.auxdac_setup(config)]
        alike(a.auxdac_setup(config), b.auxdac_setup(config)),
{
    broadcast use {
        crate::replay::engine::keeps_run,
        keeps_auxdac_set,
        crate::replay::engine::repeats_run,
        repeats_auxdac_set,
    };

    reveal(EngineView::auxdac_setup);
}

pub broadcast proof fn keeps_gpo_setup(e: EngineView, config: GpoConfig)
    ensures
        goes_on(e.link, (#[trigger] e.gpo_setup(config)).e.link),
{
    broadcast use crate::replay::engine::keeps_run;

    reveal(EngineView::gpo_setup);
}

pub broadcast proof fn repeats_gpo_setup(a: EngineView, b: EngineView, config: GpoConfig)
    requires
        together(a, b),
    ensures
        #![trigger a.gpo_setup(config), b.gpo_setup(config)]
        alike(a.gpo_setup(config), b.gpo_setup(config)),
{
    broadcast use {
        crate::replay::engine::keeps_run,
        crate::replay::engine::repeats_run,
    };

    reveal(EngineView::gpo_setup);
}

pub broadcast proof fn keeps_set_rx_channels(e: EngineView, rx1: bool, rx2: bool)
    ensures
        goes_on(e.link, (#[trigger] e.set_rx_channels(rx1, rx2)).e.link),
{
    broadcast use crate::replay::engine::keeps_run;

    reveal(EngineView::set_rx_channels);
}

pub broadcast proof fn repeats_set_rx_channels(a: EngineView, b: EngineView, rx1: bool, rx2: bool)
    requires
        together(a, b),
    ensures
        #![trigger a.set_rx_channels(rx1, rx2), b.set_rx_channels(rx1, rx2)]
        alike(a.set_rx_channels(rx1, rx2), b.set_rx_channels(rx1, rx2)),
{
    broadcast use {
        crate::replay::engine::keeps_run,
        crate::replay::engine::repeats_run,
    };

    reveal(EngineView::set_rx_channels);
}

pub broadcast proof fn keeps_rf_port_setup(e: EngineView, rx_input: RxInput, tx_output_b: bool)
    ensures
        goes_on(e.link, (#[trigger] e.rf_port_setup(rx_input, tx_output_b)).e.link),
{
    broadcast use crate::replay::engine::keeps_run;

    reveal(EngineView::rf_port_setup);
}

pub broadcast proof fn repeats_rf_port_setup(
    a: EngineView,
    b: EngineView,
    rx_input: RxInput,
    tx_output_b: bool,
)
    requires
        together(a, b),
    ensures
        #![trigger a.rf_port_setup(rx_input, tx_output_b), b.rf_port_setup(rx_input, tx_output_b)]
        alike(a.rf_port_setup(rx_input, tx_output_b), b.rf_port_setup(rx_input, tx_output_b)),
{
    broadcast use {
        crate::replay::engine::keeps_run,
        crate::replay::engine::repeats_run,
    };

    reveal(EngineView::rf_port_setup);
}

pub broadcast proof fn keeps_pp_port_setup(e: EngineView, port: PortConfig)
    ensures
        goes_on(e.link, (#[trigger] e.pp_port_setup(port)).e.link),
{
    broadcast use crate::replay::engine::keeps_run;

    reveal(EngineView::pp_port_setup);
}

pub broadcast proof fn repeats_pp_port_setup(a: EngineView, b: EngineView, port: PortConfig)
    requires
        together(a, b),
    ensures
        #![trigger a.pp_port_setup(port), b.pp_port_setup(port)]
        alike(a.pp_port_setup(port), b.pp_port_setup(port)),
{
    broadcast use {
        crate::replay::engine::keeps_run,
        crate::replay::engine::repeats_run,
    };

    reveal(EngineView::pp_port_setup);
}

pub broadcast proof fn keeps_ctrl_outs_setup(e: EngineView, config: CtrlOutsConfig)
    ensures
        goes_on(e.link, (#[trigger] e.ctrl_outs_setup(config)).e.link),
{
    broadcast use crate::replay::engine::keeps_run;

    reveal(EngineView::ctrl_outs_setup);
}

pub broadcast proof fn repeats_ctrl_outs_setup(a: EngineView, b: EngineView, config: CtrlOutsConfig)
    requires
        together(a, b),
    ensures
        #![trigger a.ctrl_outs_setup(config), b.ctrl_outs_setup(config)]
        alike(a.ctrl_outs_setup(config), b.ctrl_outs_setup(config)),
{
    broadcast use {
        crate::replay::engine::keeps_run,
        crate::replay::engine::repeats_run,
    };

    reveal(EngineView::ctrl_outs_setup);
}

pub broadcast proof fn keeps_set_ref_clk_cycles(e: EngineView, ref_clk: ReferenceClock)
    ensures
        goes_on(e.link, (#[trigger] e.set_ref_clk_cycles(ref_clk)).e.link),
{
    broadcast use crate::replay::engine::keeps_run;

    reveal(EngineView::set_ref_clk_cycles);
}

pub broadcast proof fn repeats_set_ref_clk_cycles(
    a: EngineView,
    b: EngineView,
    ref_clk: ReferenceClock,
)
    requires
        together(a, b),
    ensures
        #![trigger a.set_ref_clk_cycles(ref_clk), b.set_ref_clk_cycles(ref_clk)]
        alike(a.set_ref_clk_cycles(ref_clk), b.set_ref_clk_cycles(ref_clk)),
{
    broadcast use {
        crate::replay::engine::keeps_run,
        crate::replay::engine::repeats_run,
    };

    reveal(EngineView::set_ref_clk_cycles);
}

pub broadcast proof fn keeps_setup_ext_lna(e: EngineView, config: ElnaConfig)
    ensures
        goes_on(e.link, (#[trigger] e.setup_ext_lna(config)).e.link),
{
    broadcast use crate::replay::engine::keeps_run;

    reveal(EngineView::setup_ext_lna);
}

pub broadcast proof fn repeats_setup_ext_lna(a: EngineView, b: EngineView, config: ElnaConfig)
    requires
        together(a, b),
    ensures
        #![trigger a.setup_ext_lna(config), b.setup_ext_lna(config)]
        alike(a.setup_ext_lna(config), b.setup_ext_lna(config)),
{
    broadcast use {
        crate::replay::engine::keeps_run,
        crate::replay::engine::repeats_run,
    };

    reveal(EngineView::setup_ext_lna);
}

pub broadcast proof fn keeps_pp_port_restore_conf3(e: EngineView)
    ensures
        goes_on(e.link, (#[trigger] e.pp_port_restore_conf3()).e.link),
{
    broadcast use crate::replay::engine::keeps_run;

    reveal(EngineView::pp_port_restore_conf3);
}

pub broadcast proof fn repeats_pp_port_restore_conf3(a: EngineView, b: EngineView)
    requires
        together(a, b),
    ensures
        #![trigger a.pp_port_restore_conf3(), b.pp_port_restore_conf3()]
        alike(a.pp_port_restore_conf3(), b.pp_port_restore_conf3()),
{
    broadcast use {
        crate::replay::engine::keeps_run,
        crate::replay::engine::repeats_run,
    };

    reveal(EngineView::pp_port_restore_conf3);
}

} // verus!
