//! Repetition of the operations of [`crate::engine`].
use vstd::prelude::*;

use crate::engine::EngineView;
use crate::link::{
    Op, Request, goes_on, law_replay, lemma_exchange_goes_on, lemma_exchange_repeats,
    lemma_run_goes_on, wait,
};
use crate::replay::{alike, alike_reply, together};

verus! {

pub broadcast proof fn keeps_exchange(e: EngineView, request: Request)
    ensures
        goes_on(e.link, (#[trigger] e.exchange(request)).e.link),
{
    reveal(EngineView::exchange);
    lemma_exchange_goes_on(e.link, request);
}

pub broadcast proof fn repeats_exchange(a: EngineView, b: EngineView, request: Request)
    requires
        together(a, b),
        request.is_question(),
    ensures
        #![trigger a.exchange(request), b.exchange(request)]
        alike_reply(a.exchange(request), b.exchange(request)),
{
    reveal(EngineView::exchange);
    lemma_exchange_repeats(a.link, b.link, request);
}

pub broadcast proof fn keeps_read(e: EngineView, addr: u16)
    ensures
        goes_on(e.link, (#[trigger] e.read(addr)).e.link),
{
    broadcast use keeps_exchange;

    reveal(EngineView::read);
}

pub broadcast proof fn repeats_read(a: EngineView, b: EngineView, addr: u16)
    requires
        together(a, b),
    ensures
        #![trigger a.read(addr), b.read(addr)]
        alike_reply(a.read(addr), b.read(addr)),
{
    broadcast use {
        keeps_exchange,
        repeats_exchange,
    };

    reveal(EngineView::read);
}

pub broadcast proof fn keeps_run(e: EngineView, ops: Seq<Op>)
    ensures
        goes_on(e.link, (#[trigger] e.run(ops)).e.link),
{
    reveal(EngineView::run);
    lemma_run_goes_on(e.link, ops);
}

pub broadcast proof fn repeats_run(a: EngineView, b: EngineView, ops: Seq<Op>)
    requires
        together(a, b),
    ensures
        #![trigger a.run(ops), b.run(ops)]
        alike(a.run(ops), b.run(ops)),
{
    reveal(EngineView::run);
    law_replay(a.link, b.link, ops);
}

pub broadcast proof fn keeps_poll(
    e: EngineView,
    addr: u16,
    mask: u8,
    value: u8,
    period_us: u64,
    polls: nat,
)
    ensures
        goes_on(e.link, (#[trigger] e.poll(addr, mask, value, period_us, polls)).e.link),
    decreases polls,
{
    broadcast use {
        keeps_read,
        keeps_run,
    };

    reveal(EngineView::poll);
    if polls > 0 {
        let mid = e.read(addr).e.run([wait(period_us)]@);
        keeps_poll(mid.e, addr, mask, value, period_us, (polls - 1) as nat);
    }
}

pub broadcast proof fn repeats_poll(
    a: EngineView,
    b: EngineView,
    addr: u16,
    mask: u8,
    value: u8,
    period_us: u64,
    polls: nat,
)
    requires
        together(a, b),
    ensures
        #![trigger a.poll(addr, mask, value, period_us, polls),
            b.poll(addr, mask, value, period_us, polls)]
        alike(
            a.poll(addr, mask, value, period_us, polls),
            b.poll(addr, mask, value, period_us, polls),
        ),
    decreases polls,
{
    broadcast use {
        keeps_read,
        keeps_run,
        repeats_read,
        repeats_run,
    };

    reveal(EngineView::poll);
    if polls > 0 {
        let mid_a = a.read(addr).e.run([wait(period_us)]@);
        let mid_b = b.read(addr).e.run([wait(period_us)]@);
        keeps_poll(mid_a.e, addr, mask, value, period_us, (polls - 1) as nat);
        keeps_poll(mid_b.e, addr, mask, value, period_us, (polls - 1) as nat);
        if together(mid_a.e, mid_b.e) {
            repeats_poll(mid_a.e, mid_b.e, addr, mask, value, period_us, (polls - 1) as nat);
        }
    }
}

} // verus!
