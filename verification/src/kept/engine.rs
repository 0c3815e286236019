//! What the operations of [`crate::engine`] leave alone.
use vstd::prelude::*;

use crate::engine::EngineView;
use crate::kept::{calms, leaves, none, same_bandwidths, same_chip, same_los, same_table};
use crate::link::wait;

verus! {

pub broadcast proof fn leaves_poll(
    e: EngineView,
    addr: u16,
    mask: u8,
    value: u8,
    period_us: u64,
    polls: nat,
)
    ensures
        #![trigger e.poll(addr, mask, value, period_us, polls)]
        leaves(e.link, e.poll(addr, mask, value, period_us, polls).e.link, none()),
        calms(e.link, e.poll(addr, mask, value, period_us, polls).e.link),
        same_los(e.state.v, e.poll(addr, mask, value, period_us, polls).e.state.v),
        same_table(e.state.v, e.poll(addr, mask, value, period_us, polls).e.state.v),
        same_bandwidths(e.state.v, e.poll(addr, mask, value, period_us, polls).e.state.v),
        same_chip(e, e.poll(addr, mask, value, period_us, polls).e),
    decreases polls,
{
    broadcast use {
        crate::kept::leaves_read,
        crate::kept::leaves_run,
    };

    reveal(EngineView::poll);
    if polls > 0 {
        let mid = e.read(addr).e.run([wait(period_us)]@);
        leaves_poll(mid.e, addr, mask, value, period_us, (polls - 1) as nat);
    }
}

} // verus!
