//! Repetition of the operations of [`crate::api`].
use vstd::prelude::*;

use crate::config::{Ad9361Config, Ad9361Settings};
use crate::engine::EngineView;
use crate::link::goes_on;
use crate::replay::{alike, together};

verus! {

pub broadcast proof fn keeps_load_firs(e: EngineView, settings: Ad9361Settings)
    ensures
        goes_on(e.link, (#[trigger] e.load_firs(settings)).e.link),
{
    broadcast use {
        crate::replay::fir::keeps_set_rx_fir_config,
        crate::replay::fir::keeps_set_tx_fir_config,
    };

    reveal(EngineView::load_firs);
}

pub broadcast proof fn repeats_load_firs(a: EngineView, b: EngineView, settings: Ad9361Settings)
    requires
        together(a, b),
    ensures
        #![trigger a.load_firs(settings), b.load_firs(settings)]
        alike(a.load_firs(settings), b.load_firs(settings)),
{
    broadcast use {
        crate::replay::fir::keeps_set_rx_fir_config,
        crate::replay::fir::keeps_set_tx_fir_config,
        crate::replay::fir::repeats_set_rx_fir_config,
        crate::replay::fir::repeats_set_tx_fir_config,
    };

    reveal(EngineView::load_firs);
}

pub broadcast proof fn keeps_bring_up(e: EngineView, config: Ad9361Config)
    ensures
        goes_on(e.link, (#[trigger] e.bring_up(config)).e.link),
{
    broadcast use {
        keeps_load_firs,
        crate::replay::axi_init::keeps_dac_init,
        crate::replay::clocks::keeps_init_clocks,
        crate::replay::setup::keeps_init,
    };

    reveal(EngineView::bring_up);
}

pub broadcast proof fn repeats_bring_up(a: EngineView, b: EngineView, config: Ad9361Config)
    requires
        together(a, b),
    ensures
        #![trigger a.bring_up(config), b.bring_up(config)]
        alike(a.bring_up(config), b.bring_up(config)),
{
    broadcast use {
        keeps_load_firs,
        crate::replay::axi_init::keeps_dac_init,
        crate::replay::clocks::keeps_init_clocks,
        crate::replay::setup::keeps_init,
        repeats_load_firs,
        crate::replay::axi_init::repeats_dac_init,
        crate::replay::clocks::repeats_init_clocks,
        crate::replay::setup::repeats_init,
    };

    reveal(EngineView::bring_up);
}

} // verus!
