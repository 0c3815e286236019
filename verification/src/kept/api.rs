//! What the operations of [`crate::api`] leave alone.
use vstd::prelude::*;

use crate::config::{Ad9361Config, Ad9361Settings};
use crate::engine::EngineView;
use crate::kept::{calms, leaves, none, same_bandwidths, same_chip, same_los, same_table, Parts};

verus! {

pub broadcast proof fn leaves_load_firs(e: EngineView, settings: Ad9361Settings)
    ensures
        #![trigger e.load_firs(settings)]
        leaves(
            e.link,
            e.load_firs(settings).e.link,
            Parts { rx_fir: true, tx_fir: true, ..none() },
        ),
        calms(e.link, e.load_firs(settings).e.link),
        same_los(e.state.v, e.load_firs(settings).e.state.v),
        same_table(e.state.v, e.load_firs(settings).e.state.v),
        same_bandwidths(e.state.v, e.load_firs(settings).e.state.v),
        same_chip(e, e.load_firs(settings).e),
{
    broadcast use {
        crate::kept::fir::leaves_set_rx_fir_config,
        crate::kept::fir::leaves_set_tx_fir_config,
    };

    reveal(EngineView::load_firs);
}

pub broadcast proof fn leaves_bring_up(e: EngineView, config: Ad9361Config)
    ensures
        #![trigger e.bring_up(config)]
        leaves(
            e.link,
            e.bring_up(config).e.link,
            Parts {
                rx_lo: true,
                tx_lo: true,
                rx_fir: true,
                tx_fir: true,
                rx_filter: true,
                tx_filter: true,
                modes: true,
                attenuation: true,
                channels: true,
                tracking: true,
                input: true,
                clkout: true,
                dcxo: true,
                table_size: true,
                ..none()
            },
        ),
        same_bandwidths(e.state.v, e.bring_up(config).e.state.v),
        same_chip(e, e.bring_up(config).e),
{
    broadcast use {
        leaves_load_firs,
        crate::kept::axi_init::leaves_dac_init,
        crate::kept::clocks::leaves_init_clocks,
        crate::kept::setup::leaves_init,
    };

    reveal(EngineView::bring_up);
}

} // verus!
