//! Register-level driver core plus the state it needs.
//!
//! Every operation has a model: a function from the conversation and the state before it to the
//! conversation, the state and the error after it. The models are the spec methods of
//! [`EngineView`]. Each has a twin on [`Flow`], the outcome of the steps so far, which does nothing
//! after an error. So the model of an operation reads like the list of its steps.
use vstd::prelude::*;

use crate::config::Ad9361Config;
use crate::error::Ad9361Error;
use crate::link::{wait, AxiRequest, BusFault, Fault, Link, Op, Request, Trace};
use crate::state::EngineState;
use crate::tables::ChipTables;

verus! {

/// Holds a value in one piece.
#[derive(Debug, Clone, Copy)]
pub struct Held<T> {
    pub v: T,
}

/// Register-level driver core.
#[derive(Debug, Clone)]
pub struct Engine<'a> {
    pub link: Link,
    pub state: Held<EngineState>,
    pub tables: &'a ChipTables,
}

/// Model of an [`Engine`].
pub struct EngineView {
    pub link: Trace,
    pub state: Held<EngineState>,
    pub tables: ChipTables,
}

impl<'a> View for Engine<'a> {
    type V = EngineView;

    open spec fn view(&self) -> EngineView {
        EngineView { link: self.link@, state: self.state, tables: *self.tables }
    }
}

/// An operation in progress: where it is, and the error it stopped at.
pub struct Flow {
    pub e: EngineView,
    pub err: Option<Fault>,
}

/// Outcome of an operation that returns a value.
pub struct Reply<T> {
    pub e: EngineView,
    pub r: Result<T, Fault>,
}

/// Outcome of an operation, from the state it left and its result.
pub open spec fn flow(e: EngineView, r: Result<(), Fault>) -> Flow {
    Flow { e, err: crate::link::error_of(r) }
}

/// A bus fault as an error of the driver.
pub open spec fn spi_error(fault: Option<BusFault>) -> Option<Fault> {
    match fault {
        None => None,
        Some(fault) => Some(Ad9361Error::Spi(fault)),
    }
}

impl EngineView {
    /// An operation that starts here.
    pub open spec fn start(self) -> Flow {
        Flow { e: self, err: None }
    }

    /// An operation that stops here with an error.
    pub open spec fn fail(self, error: Fault) -> Flow {
        Flow { e: self, err: Some(error) }
    }

    /// Puts one request.
    #[verifier::opaque]
    pub open spec fn exchange(self, request: Request) -> Reply<u64> {
        let (link, r) = crate::link::exchange(self.link, request);
        Reply {
            e: EngineView { link, ..self },
            r: match r {
                Ok(value) => Ok(value),
                Err(fault) => Err(Ad9361Error::Spi(fault)),
            },
        }
    }

    /// Reads `len` registers, addresses count down from `addr`.
    pub open spec fn read_word(self, addr: u16, len: u8) -> Reply<u64> {
        self.exchange(Request::Read { addr, len })
    }

    /// Reads a register.
    #[verifier::opaque]
    pub open spec fn read(self, addr: u16) -> Reply<u8> {
        let reply = self.exchange(Request::Read { addr, len: 1 });
        Reply {
            e: reply.e,
            r: match reply.r {
                Ok(value) => Ok(value as u8),
                Err(error) => Err(error),
            },
        }
    }

    /// Reads a register of the AXI core.
    pub open spec fn axi(self, request: AxiRequest) -> Reply<u64> {
        self.exchange(Request::Axi { request })
    }

    /// Runs a register program.
    #[verifier::opaque]
    pub open spec fn run(self, ops: Seq<Op>) -> Flow {
        let (link, fault) = crate::link::run(self.link, ops);
        Flow { e: EngineView { link, ..self }, err: spi_error(fault) }
    }

    /// Changes the state.
    pub open spec fn set(self, state: EngineState) -> Flow {
        Flow { e: EngineView { state: Held { v: state }, ..self }, err: None }
    }

    /// Reads a register until its bits under `mask` are `value`, `polls` times at most, and waits
    /// `period_us` after each time they are not.
    #[verifier::opaque]
    pub open spec fn poll(
        self,
        addr: u16,
        mask: u8,
        value: u8,
        period_us: u64,
        polls: nat,
    ) -> Flow
        decreases polls,
    {
        if polls == 0 {
            self.fail(Ad9361Error::Timeout)
        } else {
            let reply = self.read(addr);
            match reply.r {
                Err(error) => reply.e.fail(error),
                Ok(byte) => if byte & mask == value {
                    reply.e.start()
                } else {
                    let waited = reply.e.run([wait(period_us)]@);
                    if waited.err is Some {
                        waited
                    } else {
                        waited.e.poll(addr, mask, value, period_us, (polls - 1) as nat)
                    }
                },
            }
        }
    }

    /// Waits until the bits of a register under `mask` are `value`.
    pub open spec fn wait_until(self, addr: u16, mask: u8, value: u8, period_us: u64) -> Flow {
        self.poll(addr, mask, value, period_us, MAX_POLLS as nat)
    }
}

/// Most reads while waiting for the chip.
pub const MAX_POLLS: u32 = 20_000;

impl Flow {
    pub open spec fn run(self, ops: Seq<Op>) -> Flow {
        if self.err is Some {
            self
        } else {
            self.e.run(ops)
        }
    }

    pub open spec fn set(self, state: EngineState) -> Flow {
        if self.err is Some {
            self
        } else {
            self.e.set(state)
        }
    }

    pub open spec fn fail(self, error: Fault) -> Flow {
        if self.err is Some {
            self
        } else {
            self.e.fail(error)
        }
    }

    pub open spec fn read(self, addr: u16) -> Reply<u8> {
        match self.err {
            Some(error) => Reply { e: self.e, r: Err(error) },
            None => self.e.read(addr),
        }
    }

    pub open spec fn read_word(self, addr: u16, len: u8) -> Reply<u64> {
        match self.err {
            Some(error) => Reply { e: self.e, r: Err(error) },
            None => self.e.read_word(addr, len),
        }
    }

    pub open spec fn axi(self, request: AxiRequest) -> Reply<u64> {
        match self.err {
            Some(error) => Reply { e: self.e, r: Err(error) },
            None => self.e.axi(request),
        }
    }

    pub open spec fn wait_until(self, addr: u16, mask: u8, value: u8, period_us: u64) -> Flow {
        if self.err is Some {
            self
        } else {
            self.e.wait_until(addr, mask, value, period_us)
        }
    }

    /// This outcome, or else the error of an earlier step whose result was kept for later.
    pub open spec fn after(self, earlier: Option<Fault>) -> Flow {
        if self.err is Some {
            self
        } else {
            Flow { e: self.e, err: earlier }
        }
    }

    /// The outcome of an operation that came after this one and returned a value.
    pub open spec fn reply<T>(self, value: T) -> Reply<T> {
        Reply {
            e: self.e,
            r: match self.err {
                None => Ok(value),
                Some(error) => Err(error),
            },
        }
    }
}

impl<T> Reply<T> {
    /// The same outcome, with the value dropped.
    pub open spec fn done(self) -> Flow {
        Flow { e: self.e, err: crate::link::error_of(self.r) }
    }
}

/// Talking to the chip leaves the state and the tables alone.
pub proof fn law_run_keeps_state(e: EngineView, ops: Seq<Op>)
    ensures
        e.run(ops).e.state == e.state,
        e.run(ops).e.tables == e.tables,
{
    reveal(EngineView::run);
}

/// Reading from the chip leaves the state and the tables alone.
pub proof fn law_read_keeps_state(e: EngineView, addr: u16)
    ensures
        e.read(addr).e.state == e.state,
        e.read(addr).e.tables == e.tables,
{
    reveal(EngineView::read);
    reveal(EngineView::exchange);
}

/// Putting a request leaves the state and the tables alone.
pub proof fn law_exchange_keeps_state(e: EngineView, request: Request)
    ensures
        e.exchange(request).e.state == e.state,
        e.exchange(request).e.tables == e.tables,
{
    reveal(EngineView::exchange);
}

/// Waiting for the chip leaves the state and the tables alone.
pub proof fn law_poll_keeps_state(
    e: EngineView,
    addr: u16,
    mask: u8,
    value: u8,
    period_us: u64,
    polls: nat,
)
    ensures
        e.poll(addr, mask, value, period_us, polls).e.state == e.state,
        e.poll(addr, mask, value, period_us, polls).e.tables == e.tables,
    decreases polls,
{
    reveal(EngineView::poll);
    if polls > 0 {
        law_read_keeps_state(e, addr);
        let reply = e.read(addr);
        law_run_keeps_state(reply.e, [wait(period_us)]@);
        let waited = reply.e.run([wait(period_us)]@);
        law_poll_keeps_state(waited.e, addr, mask, value, period_us, (polls - 1) as nat);
    }
}

/// Talking to the chip only fails on the bus.
pub proof fn law_run_fails_on_the_bus(e: EngineView, ops: Seq<Op>)
    ensures
        e.run(ops).err matches Some(error) ==> error is Spi,
{
    reveal(EngineView::run);
}

/// Reading from the chip only fails on the bus.
pub proof fn law_read_fails_on_the_bus(e: EngineView, addr: u16)
    ensures
        e.read(addr).r matches Err(error) ==> error is Spi,
{
    reveal(EngineView::read);
    reveal(EngineView::exchange);
}

/// Waiting for the chip fails on the bus or with a timeout.
pub proof fn law_poll_fails_or_times_out(
    e: EngineView,
    addr: u16,
    mask: u8,
    value: u8,
    period_us: u64,
    polls: nat,
)
    ensures
        e.poll(addr, mask, value, period_us, polls).err matches Some(error) ==> error is Spi
            || error is Timeout,
    decreases polls,
{
    reveal(EngineView::poll);
    if polls > 0 {
        law_read_fails_on_the_bus(e, addr);
        let reply = e.read(addr);
        law_run_fails_on_the_bus(reply.e, [wait(period_us)]@);
        let waited = reply.e.run([wait(period_us)]@);
        law_poll_fails_or_times_out(waited.e, addr, mask, value, period_us, (polls - 1) as nat);
    }
}

impl<'a> Engine<'a> {
    /// Builds the state for a chip that was just reset and identified. `ensm_state` is what the
    /// chip reported after the reset. The clock rates are not known yet, see
    /// [`Self::init_clocks`].
    pub fn new(
        link: Link,
        tables: &'a ChipTables,
        config: &Ad9361Config,
        core_id: u32,
        ensm_state: u8,
    ) -> (engine: Self)
        ensures
            engine@ == (EngineView {
                link: link@,
                state: Held { v: EngineState::fresh(*config, *tables, core_id, ensm_state) },
                tables: *tables,
            }),
    {
        Engine {
            link,
            state: Held { v: EngineState::new(config, tables, core_id, ensm_state) },
            tables,
        }
    }

    /// Runs a register program.
    pub fn run(&mut self, ops: &[Op]) -> (r: Result<(), Fault>)
        ensures
            flow(final(self)@, r) == old(self)@.run(ops@),
    {
        reveal(EngineView::run);
        match self.link.run(ops) {
            Ok(()) => Ok(()),
            Err(fault) => Err(Ad9361Error::Spi(fault)),
        }
    }

    /// Puts one request.
    pub fn exchange(&mut self, request: Request) -> (r: Result<u64, Fault>)
        ensures
            (Reply { e: final(self)@, r }) == old(self)@.exchange(request),
    {
        reveal(EngineView::exchange);
        match self.link.exchange(request) {
            Ok(value) => Ok(value),
            Err(fault) => Err(Ad9361Error::Spi(fault)),
        }
    }

    /// Reads `len` registers, addresses count down from `addr`.
    pub fn read_word(&mut self, addr: u16, len: u8) -> (r: Result<u64, Fault>)
        ensures
            (Reply { e: final(self)@, r }) == old(self)@.read_word(addr, len),
    {
        self.exchange(Request::Read { addr, len })
    }

    /// Reads a register.
    pub fn read(&mut self, addr: u16) -> (r: Result<u8, Fault>)
        ensures
            (Reply { e: final(self)@, r }) == old(self)@.read(addr),
    {
        reveal(EngineView::read);
        match self.exchange(Request::Read { addr, len: 1 }) {
            Ok(value) => Ok(value as u8),
            Err(error) => Err(error),
        }
    }

    /// Reads a register of the AXI core.
    pub fn axi(&mut self, request: AxiRequest) -> (r: Result<u64, Fault>)
        ensures
            (Reply { e: final(self)@, r }) == old(self)@.axi(request),
    {
        self.exchange(Request::Axi { request })
    }

    /// Polls until the bits of a register under `mask` are `value`.
    pub fn wait_until(&mut self, addr: u16, mask: u8, value: u8, period_us: u64) -> (r: Result<
        (),
        Fault,
    >)
        ensures
            flow(final(self)@, r) == old(self)@.wait_until(addr, mask, value, period_us),
    {
        let mut polls: u32 = MAX_POLLS;
        while polls > 0
            invariant
                old(self)@.poll(addr, mask, value, period_us, MAX_POLLS as nat) == self@.poll(
                    addr,
                    mask,
                    value,
                    period_us,
                    polls as nat,
                ),
            decreases polls,
        {
            proof {
                reveal(EngineView::poll);
            }
            let byte: u8 = self.read(addr)?;
            if byte & mask == value {
                return Ok(());
            }
            self.run(&[wait(period_us)])?;
            polls = polls - 1;
        }
        proof {
            reveal(EngineView::poll);
        }
        Err(Ad9361Error::Timeout)
    }
}

} // verus!
