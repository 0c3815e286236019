//! The conversation with the chip and the AXI core.
//!
//! The driver itself does no I/O. A [`Link`] holds the requests an operation has made so far and
//! what came of those that were performed. An operation runs against the answers that are there.
//! Where the next step needs an answer that is not there yet, it stops with
//! [`BusFault::Unanswered`]. The caller then performs the open requests, adds their answers, and
//! runs the operation again from the same state: it makes the same requests and gets further. Once
//! it has come to its end and every request has its answer, its result and its state are the ones
//! to keep.
//!
//! An answer is only ever used for the request it was given for.
use vstd::prelude::*;

use crate::error::Ad9361Error;

verus! {

/// Why a request gave no value.
#[derive(Debug, Clone, Copy, PartialEq, Eq, Structural)]
pub enum BusFault {
    /// The answer is not there yet
    Unanswered,
    /// The bus or the reset pin reported an error
    Failed,
    /// The operation asks for something else than when it ran before
    Diverged,
}

/// Error of an operation on the chip.
pub type Fault = Ad9361Error<BusFault>;

/// Request to the AXI core in the FPGA. `chan` counts I and Q separately.
#[derive(Debug, Clone, Copy, PartialEq, Eq, Structural)]
pub enum AxiRequest {
    /// Take the ADC core out of reset
    AdcEnable,
    /// Reset the ADC core and release it again
    AdcResetPulse,
    /// ADC status register, raw
    AdcReadStatus,
    AdcReadDataPath { chan: u8 },
    AdcWriteDataPath { chan: u8, raw: u32 },
    /// Expect the custom PN sequence instead of PN9
    AdcSelectPn { chan: u8, custom: bool },
    /// Clear the PN error and out of sync flags
    AdcClearPnStatus { chan: u8 },
    /// Channel status register, raw
    AdcReadChannelStatus { chan: u8 },
    AdcWriteDcFilter { chan: u8, raw: u32 },
    /// Enable the channel, with unit IQ correction
    AdcEnableChannel { chan: u8 },
    /// One channel instead of two
    AdcOneChannelMode { on: bool },
    /// Take the DAC core out of reset
    DacEnable,
    /// Release the DAC reset, nothing else
    DacReleaseReset,
    /// Pulse the DAC sync
    DacSynchronize,
    /// Write zero to the first control register, which arms the sync
    DacClearSync,
    /// Rate divider, 1 to 255
    DacRateDivider { divider: u8 },
    DacReadInterfaceStatus,
    DacReadClockFrequency,
    DacReadClockRatio,
    /// Data source of the first `channels` channels
    DacSelectSources { channels: u8, source: u8 },
    DacReadSource { chan: u8 },
    DacWriteSource { chan: u8, raw: u32 },
    DacReadLegacy { chan: u8 },
    DacWriteLegacy { chan: u8, raw: u32 },
    /// Scale register of one of the two DDS tones of a channel
    DacReadToneScale { chan: u8, second: bool },
    DacWriteToneScale { chan: u8, second: bool, raw: u32 },
    /// Phase and increment register of one of the two DDS tones of a channel
    DacReadTonePhase { chan: u8, second: bool },
    DacWriteTonePhase { chan: u8, second: bool, raw: u32 },
    /// One channel instead of two
    DacOneChannelMode { on: bool },
}

/// One request.
#[derive(Debug, Clone, Copy, PartialEq, Eq, Structural)]
pub enum Request {
    /// Write `len` bytes over SPI, addresses count down from `addr`. The first byte on the wire
    /// is the most significant of the `len` low bytes of `data`.
    Write { addr: u16, len: u8, data: u64 },
    /// Read `len` bytes over SPI, addresses count down from `addr`. The answer has the first byte
    /// on the wire as the most significant one.
    Read { addr: u16, len: u8 },
    /// Wait
    Wait { micros: u64 },
    /// Drive the reset pin
    Reset { high: bool },
    /// Access the AXI core
    Axi { request: AxiRequest },
}

impl AxiRequest {
    /// Whether the answer carries a value.
    pub open spec fn is_question(self) -> bool {
        match self {
            AxiRequest::AdcReadStatus => true,
            AxiRequest::AdcReadDataPath { .. } => true,
            AxiRequest::AdcReadChannelStatus { .. } => true,
            AxiRequest::DacReadInterfaceStatus => true,
            AxiRequest::DacReadClockFrequency => true,
            AxiRequest::DacReadClockRatio => true,
            AxiRequest::DacReadSource { .. } => true,
            AxiRequest::DacReadLegacy { .. } => true,
            AxiRequest::DacReadToneScale { .. } => true,
            AxiRequest::DacReadTonePhase { .. } => true,
            _ => false,
        }
    }

    pub fn needs_value(&self) -> (b: bool)
        ensures
            b == self.is_question(),
    {
        match self {
            AxiRequest::AdcReadStatus => true,
            AxiRequest::AdcReadDataPath { .. } => true,
            AxiRequest::AdcReadChannelStatus { .. } => true,
            AxiRequest::DacReadInterfaceStatus => true,
            AxiRequest::DacReadClockFrequency => true,
            AxiRequest::DacReadClockRatio => true,
            AxiRequest::DacReadSource { .. } => true,
            AxiRequest::DacReadLegacy { .. } => true,
            AxiRequest::DacReadToneScale { .. } => true,
            AxiRequest::DacReadTonePhase { .. } => true,
            _ => false,
        }
    }
}

impl Request {
    /// Whether the answer carries a value.
    pub open spec fn is_question(self) -> bool {
        match self {
            Request::Read { .. } => true,
            Request::Axi { request } => request.is_question(),
            _ => false,
        }
    }

    pub fn needs_value(&self) -> (b: bool)
        ensures
            b == self.is_question(),
    {
        match self {
            Request::Read { .. } => true,
            Request::Axi { request } => request.needs_value(),
            _ => false,
        }
    }
}

/// Answer to one request.
#[derive(Debug, Clone, Copy, PartialEq, Eq, Structural)]
pub enum Answer {
    /// It went through. The number is what was read, and means nothing for the other requests.
    Value(u64),
    /// The bus or the pin reported an error
    Failed,
}

/// A request that was performed, and its answer.
#[derive(Debug, Clone, Copy, PartialEq, Eq, Structural)]
pub struct Performed {
    pub request: Request,
    pub answer: Answer,
}

/// Model of a [`Link`].
pub struct Trace {
    /// Requests, in order
    pub sent: Seq<Request>,
    /// The first of them, as they were performed
    pub done: Seq<Performed>,
    /// A value was needed that has not been answered
    pub stalled: bool,
}

/// Puts one request: what the conversation is afterwards, and what came back.
#[verifier::opaque]
pub open spec fn exchange(t: Trace, request: Request) -> (Trace, Result<u64, BusFault>) {
    if t.stalled {
        (t, Err(BusFault::Unanswered))
    } else {
        let sent = t.sent.push(request);
        if t.sent.len() < t.done.len() {
            let known = t.done[t.sent.len() as int];
            if known.request != request {
                (Trace { stalled: true, ..t }, Err(BusFault::Diverged))
            } else {
                (
                    Trace { sent, ..t },
                    match known.answer {
                        Answer::Value(value) => Ok(value),
                        Answer::Failed => Err(BusFault::Failed),
                    },
                )
            }
        } else if request.is_question() {
            (Trace { sent, stalled: true, ..t }, Err(BusFault::Unanswered))
        } else {
            (Trace { sent, ..t }, Ok(0))
        }
    }
}

/// Requests made and answers received.
#[derive(Debug)]
pub struct Link {
    sent: Vec<Request>,
    done: Vec<Performed>,
    stalled: bool,
}

impl View for Link {
    type V = Trace;

    closed spec fn view(&self) -> Trace {
        Trace { sent: self.sent@, done: self.done@, stalled: self.stalled }
    }
}

impl Clone for Link {
    fn clone(&self) -> (link: Self)
        ensures
            link@ == self@,
    {
        proof {
            use_type_invariant(self);
        }
        let sent: Vec<Request> = self.sent.clone();
        let done: Vec<Performed> = self.done.clone();
        assert(sent@ =~= self.sent@);
        assert(done@ =~= self.done@);
        Link { sent, done, stalled: self.stalled }
    }
}

/// Whether a request came that is not the one that was performed.
pub open spec fn stuck(t: Trace) -> bool {
    t.stalled && t.sent.len() <= t.done.len()
}

/// What was performed is what was asked for.
pub open spec fn matched(t: Trace) -> bool {
    forall|i: int|
        0 <= i < t.sent.len() && i < t.done.len() ==> t.sent[i] == (#[trigger] t.done[i]).request
}

impl Link {
    #[verifier::type_invariant]
    spec fn in_order(self) -> bool {
        matched(self@)
    }

    /// Nothing sent yet, with the requests that were performed before.
    pub fn new(done: Vec<Performed>) -> (link: Self)
        ensures
            link@ == (Trace { sent: Seq::empty(), done: done@, stalled: false }),
    {
        let link = Link { sent: Vec::new(), done, stalled: false };
        assert(link@.sent =~= Seq::empty());
        link
    }

    /// Puts one request.
    pub fn exchange(&mut self, request: Request) -> (r: Result<u64, BusFault>)
        ensures
            (final(self)@, r) == exchange(old(self)@, request),
    {
        reveal(exchange);
        proof {
            use_type_invariant(&*self);
        }
        if self.stalled {
            return Err(BusFault::Unanswered);
        }
        let index: usize = self.sent.len();
        if index < self.done.len() {
            let known: Performed = self.done[index];
            if known.request != request {
                self.stalled = true;
                return Err(BusFault::Diverged);
            }
            self.note(request);
            return match known.answer {
                Answer::Value(value) => Ok(value),
                Answer::Failed => Err(BusFault::Failed),
            };
        }
        self.note(request);
        if request.needs_value() {
            self.stalled = true;
            Err(BusFault::Unanswered)
        } else {
            Ok(0)
        }
    }

    /// Adds a request.
    fn note(&mut self, request: Request)
        requires
            old(self)@.sent.len() < old(self)@.done.len() ==> old(
                self,
            )@.done[old(self)@.sent.len() as int].request == request,
        ensures
            final(self)@ == (Trace { sent: old(self)@.sent.push(request), ..old(self)@ }),
    {
        proof {
            use_type_invariant(&*self);
        }
        let mut sent: Vec<Request> = Vec::new();
        core::mem::swap(&mut self.sent, &mut sent);
        sent.push(request);
        self.sent = sent;
    }

    /// The requests made so far. Those that were performed come first, as they were performed.
    pub fn requests(&self) -> (sent: &Vec<Request>)
        ensures
            sent@ == self@.sent,
            matched(self@),
    {
        proof {
            use_type_invariant(self);
        }
        &self.sent
    }

    /// Whether the conversation is over: every request was performed, as it was made, and none is
    /// waited for.
    pub fn is_complete(&self) -> (b: bool)
        ensures
            b == (!self@.stalled && self@.sent.len() <= self@.done.len()),
            b ==> forall|i: int|
                0 <= i < self@.sent.len() ==> #[trigger] self@.sent[i] == self@.done[i].request,
    {
        proof {
            use_type_invariant(self);
        }
        !self.stalled && self.sent.len() <= self.done.len()
    }

    /// Whether the conversation can't go on, since the operation asked for something else than when
    /// it ran before. One that is run again from the same state, with answers to the requests it
    /// made, doesn't.
    pub fn is_stuck(&self) -> (b: bool)
        ensures
            b == stuck(self@),
    {
        self.stalled && self.sent.len() <= self.done.len()
    }
}

/// A step of a register program.
#[derive(Debug, Clone, Copy, PartialEq, Eq, Structural)]
pub enum Op {
    /// Write a register
    Write { addr: u16, value: u8 },
    /// Read a register, replace the bits of `mask` by those of `value`, write it back
    Update { addr: u16, mask: u8, value: u8 },
    /// Write `len` registers in one transaction, like [`Request::Write`]
    Burst { addr: u16, len: u8, data: u64 },
    /// Wait
    Wait { micros: u64 },
    /// Access the AXI core
    Axi { request: AxiRequest },
}

/// Writes a register.
#[verifier::allow_in_spec]
pub fn put(addr: u16, value: u8) -> Op
    returns
        (Op::Write { addr, value }),
{
    Op::Write { addr, value }
}

/// Replaces the bits of a register under `mask`.
#[verifier::allow_in_spec]
pub fn update(addr: u16, mask: u8, value: u8) -> Op
    returns
        (Op::Update { addr, mask, value }),
{
    Op::Update { addr, mask, value }
}

/// Waits.
#[verifier::allow_in_spec]
pub fn wait(micros: u64) -> Op
    returns
        (Op::Wait { micros }),
{
    Op::Wait { micros }
}

/// Writes a register of the AXI core, or triggers something there.
#[verifier::allow_in_spec]
pub fn axi(request: AxiRequest) -> Op
    returns
        (Op::Axi { request }),
{
    Op::Axi { request }
}

/// The bits of `mask` from `value`, the other ones from `current`.
pub open spec fn merged(current: u8, mask: u8, value: u8) -> u8 {
    (current & !mask) | (value & mask)
}

pub fn merge(current: u8, mask: u8, value: u8) -> (byte: u8)
    ensures
        byte == merged(current, mask, value),
{
    (current & !mask) | (value & mask)
}

/// Replacing bits sets the bits of the mask and keeps the others. Doing it twice is the same as
/// doing it once.
pub proof fn law_merge_keeps_other_bits(current: u8, mask: u8, value: u8)
    ensures
        merged(current, mask, value) & mask == value & mask,
        merged(current, mask, value) & !mask == current & !mask,
        merged(merged(current, mask, value), mask, value) == merged(current, mask, value),
{
    assert(((current & !mask) | (value & mask)) & mask == value & mask) by (bit_vector);
    assert(((current & !mask) | (value & mask)) & !mask == current & !mask) by (bit_vector);
}

/// The error of a result, if it is one.
pub open spec fn error_of<T, E>(r: Result<T, E>) -> Option<E> {
    match r {
        Ok(_) => None,
        Err(error) => Some(error),
    }
}

/// One step of a register program.
#[verifier::opaque]
pub open spec fn step(t: Trace, op: Op) -> (Trace, Option<BusFault>) {
    match op {
        Op::Write { addr, value } => {
            let (t1, r) = exchange(t, Request::Write { addr, len: 1, data: value as u64 });
            (t1, error_of(r))
        },
        Op::Update { addr, mask, value } => {
            let (t1, r) = exchange(t, Request::Read { addr, len: 1 });
            match r {
                Err(fault) => (t1, Some(fault)),
                Ok(current) => {
                    let byte = merged(current as u8, mask, value);
                    let (t2, r2) = exchange(
                        t1,
                        Request::Write { addr, len: 1, data: byte as u64 },
                    );
                    (t2, error_of(r2))
                },
            }
        },
        Op::Burst { addr, len, data } => {
            let (t1, r) = exchange(t, Request::Write { addr, len, data });
            (t1, error_of(r))
        },
        Op::Wait { micros } => {
            let (t1, r) = exchange(t, Request::Wait { micros });
            (t1, error_of(r))
        },
        Op::Axi { request } => {
            let (t1, r) = exchange(t, Request::Axi { request });
            (t1, error_of(r))
        },
    }
}

/// A register program: its steps in order, up to the first that fails.
#[verifier::opaque]
pub open spec fn run(t: Trace, ops: Seq<Op>) -> (Trace, Option<BusFault>)
    decreases ops.len(),
{
    if ops.len() == 0 {
        (t, None)
    } else {
        let (t1, r) = run(t, ops.drop_last());
        if r is Some {
            (t1, r)
        } else {
            step(t1, ops.last())
        }
    }
}

/// A conversation that went on from another one: nothing is taken back, and a stalled one doesn't
/// move.
pub open spec fn extends(t: Trace, u: Trace) -> bool {
    &&& u.done == t.done
    &&& t.sent.is_prefix_of(u.sent)
    &&& t.stalled ==> u == t
}

/// Putting a request only ever adds it to the conversation.
pub proof fn law_exchange_extends(t: Trace, request: Request)
    ensures
        extends(t, exchange(t, request).0),
{
    reveal(exchange);
    assert(t.sent.is_prefix_of(t.sent.push(request)));
}

proof fn lemma_extends_on(t: Trace, u: Trace, v: Trace)
    requires
        extends(t, u),
        extends(u, v),
    ensures
        extends(t, v),
{
    assert forall|i: int| 0 <= i < t.sent.len() implies t.sent[i] == v.sent[i] by {
        assert(t.sent[i] == u.sent[i]);
        assert(u.sent[i] == v.sent[i]);
    }
}

/// A step of a program only ever adds to the conversation.
pub proof fn law_step_extends(t: Trace, op: Op)
    ensures
        extends(t, step(t, op).0),
{
    reveal(step);
    match op {
        Op::Write { addr, value } => {
            law_exchange_extends(t, Request::Write { addr, len: 1, data: value as u64 });
        },
        Op::Update { addr, mask, value } => {
            let read = Request::Read { addr, len: 1 };
            law_exchange_extends(t, read);
            let (t1, r) = exchange(t, read);
            if let Ok(current) = r {
                let write = Request::Write {
                    addr,
                    len: 1,
                    data: merged(current as u8, mask, value) as u64,
                };
                law_exchange_extends(t1, write);
                lemma_extends_on(t, t1, exchange(t1, write).0);
            }
        },
        Op::Burst { addr, len, data } => {
            law_exchange_extends(t, Request::Write { addr, len, data });
        },
        Op::Wait { micros } => {
            law_exchange_extends(t, Request::Wait { micros });
        },
        Op::Axi { request } => {
            law_exchange_extends(t, Request::Axi { request });
        },
    }
}

/// A register program only ever adds to the conversation.
pub proof fn law_run_extends(t: Trace, ops: Seq<Op>)
    ensures
        extends(t, run(t, ops).0),
    decreases ops.len(),
{
    reveal(run);
    if ops.len() > 0 {
        law_run_extends(t, ops.drop_last());
        let (t1, r) = run(t, ops.drop_last());
        law_step_extends(t1, ops.last());
        lemma_extends_on(t, t1, step(t1, ops.last()).0);
    }
}

/// Whether the answers of a conversation were added to: those that were there stay, and none of the
/// new ones but the last is a failure.
pub open spec fn continues(first: Seq<Performed>, later: Seq<Performed>) -> bool {
    &&& first.is_prefix_of(later)
    &&& forall|i: int| first.len() <= i < later.len() - 1 ==> (#[trigger] later[i]).answer is Value
}

/// Two conversations at the same place, the second one with at least the answers of the first.
#[verifier::opaque]
pub open spec fn in_step(t: Trace, u: Trace) -> bool {
    &&& continues(t.done, u.done)
    &&& t.sent == u.sent
    &&& t.stalled == u.stalled
    // one that waits for an answer waits in the other one too
    &&& t.stalled ==> stuck(t) || t.sent.len() > u.done.len()
}

/// Whether `done` has answers to the first requests of a conversation.
pub open spec fn answers(done: Seq<Performed>, t: Trace) -> bool {
    &&& done.len() <= t.sent.len()
    &&& forall|i: int| 0 <= i < done.len() ==> (#[trigger] done[i]).request == t.sent[i]
}

/// Whether a conversation went the way another one had gone: if it has answers to the requests of
/// that one, none of the new ones but the last a failure, then it makes these requests again, uses
/// all of the answers and doesn't get stuck.
pub open spec fn repeated(first: Trace, again: Trace) -> bool {
    answers(again.done, first) && continues(first.done, again.done) && !stuck(first) ==> {
        &&& again.done.len() <= again.sent.len()
        &&& forall|i: int|
            0 <= i < again.done.len() ==> #[trigger] again.sent[i] == first.sent[i]
        &&& !stuck(again)
    }
}

/// What follows for a conversation from where it stands beside an earlier one.
pub(crate) proof fn lemma_repeated(first: Trace, again: Trace)
    requires
        in_step(first, again) || belies(first, again.done) || used_up(again),
        matched(again),
    ensures
        repeated(first, again),
{
    reveal(in_step);
    reveal(belies);
    reveal(used_up);
    if answers(again.done, first) {
        assert forall|i: int|
            0 <= i < again.done.len() && i < again.sent.len() implies #[trigger] again.sent[i]
            == first.sent[i] by {
            assert(again.done[i].request == first.sent[i]);
        }
    }
}

/// Whether the requests of a conversation are not the ones that `done` has answers for: one is
/// different, or there are answers after the one that it waits for.
#[verifier::opaque]
pub open spec fn belies(t: Trace, done: Seq<Performed>) -> bool {
    ||| exists|i: int|
        0 <= i < t.sent.len() && i < done.len() && #[trigger] t.sent[i] != done[i].request
    ||| t.stalled && t.sent.len() < done.len()
}

/// Whether every answer of a conversation has been used, each for the request it was given for.
#[verifier::opaque]
pub open spec fn used_up(t: Trace) -> bool {
    &&& t.sent.len() >= t.done.len()
    &&& t.stalled ==> t.sent.len() > t.done.len()
}

/// What a conversation keeps as it goes on.
pub open spec fn goes_on(t: Trace, u: Trace) -> bool {
    &&& u.done == t.done
    &&& matched(t) ==> matched(u)
    &&& used_up(t) ==> used_up(u)
    &&& forall|done: Seq<Performed>| #[trigger] belies(t, done) ==> belies(u, done)
}

/// A request keeps what was said and answered.
pub(crate) proof fn lemma_exchange_goes_on(t: Trace, request: Request)
    ensures
        goes_on(t, exchange(t, request).0),
{
    reveal(exchange);
    reveal(used_up);
    reveal(belies);
    let u = exchange(t, request).0;
    assert forall|done: Seq<Performed>| #[trigger] belies(t, done) implies belies(u, done) by {
        if !(t.stalled && t.sent.len() < done.len()) {
            let i = choose|i: int|
                0 <= i < t.sent.len() && i < done.len() && #[trigger] t.sent[i] != done[i].request;
            assert(u.sent[i] != done[i].request);
        }
    }
}

/// The same request in two conversations that are in step.
pub(crate) proof fn lemma_exchange_repeats(t: Trace, u: Trace, request: Request)
    requires
        in_step(t, u),
    ensures
        ({
            let (t1, r1) = exchange(t, request);
            let (u1, r2) = exchange(u, request);
            ||| in_step(t1, u1) && error_of(r1) == error_of(r2) && (request.is_question() ==> r1
                == r2)
            ||| belies(t1, u1.done)
            ||| used_up(u1)
        }),
{
    reveal(exchange);
    reveal(in_step);
    reveal(used_up);
    reveal(belies);
    let n = t.sent.len() as int;
    let t1 = exchange(t, request).0;
    if !t.stalled {
        if n < t.done.len() {
            assert(t.done[n] == u.done[n]);
        } else if n < u.done.len() {
            assert(t1.sent[n] == request);
            assert(n < u.done.len() - 1 ==> u.done[n].answer is Value);
        }
    }
}

pub(crate) proof fn lemma_step_goes_on(t: Trace, op: Op)
    ensures
        goes_on(t, step(t, op).0),
{
    reveal(step);
    match op {
        Op::Write { addr, value } => {
            lemma_exchange_goes_on(t, Request::Write { addr, len: 1, data: value as u64 });
        },
        Op::Update { addr, mask, value } => {
            let read = Request::Read { addr, len: 1 };
            lemma_exchange_goes_on(t, read);
            let (t1, r) = exchange(t, read);
            if let Ok(current) = r {
                lemma_exchange_goes_on(
                    t1,
                    Request::Write {
                        addr,
                        len: 1,
                        data: merged(current as u8, mask, value) as u64,
                    },
                );
            }
        },
        Op::Burst { addr, len, data } => {
            lemma_exchange_goes_on(t, Request::Write { addr, len, data });
        },
        Op::Wait { micros } => {
            lemma_exchange_goes_on(t, Request::Wait { micros });
        },
        Op::Axi { request } => {
            lemma_exchange_goes_on(t, Request::Axi { request });
        },
    }
}

pub(crate) proof fn lemma_run_goes_on(t: Trace, ops: Seq<Op>)
    ensures
        goes_on(t, run(t, ops).0),
    decreases ops.len(),
{
    reveal(run);
    if ops.len() > 0 {
        lemma_run_goes_on(t, ops.drop_last());
        lemma_step_goes_on(run(t, ops.drop_last()).0, ops.last());
    }
}

proof fn lemma_step_repeats(t: Trace, u: Trace, op: Op)
    requires
        in_step(t, u),
    ensures
        ({
            let (t1, r1) = step(t, op);
            let (u1, r2) = step(u, op);
            ||| in_step(t1, u1) && r1 == r2
            ||| belies(t1, u1.done)
            ||| used_up(u1)
        }),
{
    reveal(step);
    match op {
        Op::Write { addr, value } => {
            lemma_exchange_repeats(t, u, Request::Write { addr, len: 1, data: value as u64 });
        },
        Op::Update { addr, mask, value } => {
            let read = Request::Read { addr, len: 1 };
            lemma_exchange_repeats(t, u, read);
            let (t1, r1) = exchange(t, read);
            let (u1, r2) = exchange(u, read);
            lemma_exchange_goes_on(u, read);
            if let Ok(current) = r1 {
                let write = Request::Write {
                    addr,
                    len: 1,
                    data: merged(current as u8, mask, value) as u64,
                };
                lemma_exchange_goes_on(t1, write);
                if in_step(t1, u1) && r1 == r2 {
                    lemma_exchange_repeats(t1, u1, write);
                }
            }
            if let Ok(current) = r2 {
                lemma_exchange_goes_on(
                    u1,
                    Request::Write {
                        addr,
                        len: 1,
                        data: merged(current as u8, mask, value) as u64,
                    },
                );
            }
        },
        Op::Burst { addr, len, data } => {
            lemma_exchange_repeats(t, u, Request::Write { addr, len, data });
        },
        Op::Wait { micros } => {
            lemma_exchange_repeats(t, u, Request::Wait { micros });
        },
        Op::Axi { request } => {
            lemma_exchange_repeats(t, u, Request::Axi { request });
        },
    }
}

/// Running a program again with more answers repeats it: it stays in step with the first time and
/// ends in the same way, or it has used its answers up, unless they are for other requests.
pub proof fn law_replay(t: Trace, u: Trace, ops: Seq<Op>)
    requires
        in_step(t, u),
    ensures
        ({
            let (t1, r1) = run(t, ops);
            let (u1, r2) = run(u, ops);
            ||| in_step(t1, u1) && r1 == r2
            ||| belies(t1, u1.done)
            ||| used_up(u1)
        }),
    decreases ops.len(),
{
    reveal(run);
    if ops.len() > 0 {
        let rest = ops.drop_last();
        law_replay(t, u, rest);
        let (t1, r1) = run(t, rest);
        let (u1, r2) = run(u, rest);
        lemma_run_goes_on(u, rest);
        lemma_step_goes_on(t1, ops.last());
        lemma_step_goes_on(u1, ops.last());
        if in_step(t1, u1) && r1 == r2 && r1 is None {
            lemma_step_repeats(t1, u1, ops.last());
        }
    }
}

/// A program that fails in its first steps fails as a whole, in the same way.
proof fn lemma_run_stops(t: Trace, ops: Seq<Op>, n: int)
    requires
        0 <= n <= ops.len(),
        run(t, ops.take(n)).1 is Some,
    ensures
        run(t, ops) == run(t, ops.take(n)),
    decreases ops.len() - n,
{
    reveal(run);
    if n < ops.len() {
        assert(ops.take(n + 1).drop_last() =~= ops.take(n));
        lemma_run_stops(t, ops, n + 1);
    } else {
        assert(ops.take(n) =~= ops);
    }
}

impl Link {
    /// One step of a register program.
    pub fn step(&mut self, op: Op) -> (r: Result<(), BusFault>)
        ensures
            (final(self)@, error_of(r)) == step(old(self)@, op),
    {
        reveal(step);
        match op {
            Op::Write { addr, value } => {
                self.exchange(Request::Write { addr, len: 1, data: value as u64 })?;
            },
            Op::Update { addr, mask, value } => {
                let current = self.exchange(Request::Read { addr, len: 1 })?;
                let byte: u8 = merge(current as u8, mask, value);
                self.exchange(Request::Write { addr, len: 1, data: byte as u64 })?;
            },
            Op::Burst { addr, len, data } => {
                self.exchange(Request::Write { addr, len, data })?;
            },
            Op::Wait { micros } => {
                self.exchange(Request::Wait { micros })?;
            },
            Op::Axi { request } => {
                self.exchange(Request::Axi { request })?;
            },
        }
        Ok(())
    }

    /// Runs a register program.
    pub fn run(&mut self, ops: &[Op]) -> (r: Result<(), BusFault>)
        ensures
            (final(self)@, error_of(r)) == run(old(self)@, ops@),
    {
        let ghost t = self@;
        let mut i: usize = 0;
        proof {
            reveal(run);
            assert(ops@.take(0).len() == 0);
        }
        while i < ops.len()
            invariant
                i <= ops.len(),
                t == old(self)@,
                run(t, ops@.take(i as int)) == (self@, None::<BusFault>),
            decreases ops.len() - i,
        {
            let op: Op = ops[i];
            let r = self.step(op);
            proof {
                reveal(run);
                assert(ops@.take(i as int + 1).drop_last() =~= ops@.take(i as int));
            }
            if r.is_err() {
                proof {
                    lemma_run_stops(t, ops@, i as int + 1);
                }
                return r;
            }
            i = i + 1;
        }
        proof {
            assert(ops@.take(i as int) =~= ops@);
        }
        Ok(())
    }
}

} // verus!
