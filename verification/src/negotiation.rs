//! The bridge from a native completion callback to a result that is awaited.
//!
//! Creating an offer or an answer is asynchronous on the native side: the
//! call returns at once, and later, on a thread of its own, the native side
//! invokes a callback with the result. Two values carry this on the managed
//! side. A [`CreateSessionDescriptionContext`] is the slot that the callback
//! writes to. A [`CreateSessionDescription`] is the operation that is polled:
//! it says when the native call has to be made, reads the slot, and keeps
//! the result once there is one.
//!
//! Neither makes a native call. The driver does: it polls the operation,
//! makes the native call when told to, hands what the callback received to
//! the context, and frees what it is told to free. The context wakes the
//! polling task itself, through the waker that the last poll registered.

use futures::task::AtomicWaker;
use libc::c_int;
use std::task::Waker;
use vstd::multiset::Multiset;
use vstd::prelude::*;

use crate::error::RtcError;
use crate::session::{
    lemma_read_native_matches, read_native, RTCSessionDescription, SessionDescriptionView,
};

verus! {

/// Which description the native side is asked to create.
#[derive(Clone, Copy, Debug, PartialEq, Eq, PartialOrd, Structural)]
pub enum CreateSessionDescriptionKind {
    Offer,
    Answer,
}

/// A native call that the driver has to make: the entry point that creates
/// a description of `kind`, on the connection at `peer`.
#[derive(Clone, Copy, Debug, PartialEq, Eq, Structural)]
pub struct NativeCall {
    pub kind: CreateSessionDescriptionKind,
    pub peer: usize,
}

/// What a poll tells the driver.
#[derive(Clone, Copy, Debug, PartialEq, Eq, Structural)]
pub enum PollStep {
    /// Make this native call now, then report that the result is pending.
    Start(NativeCall),
    /// The native call was made and the callback has not been seen.
    Pending,
    /// The operation has its outcome.
    Ready,
}

/// What a completion slot holds.
pub enum SlotView {
    /// The callback has not been invoked.
    Empty,
    /// The callback reported failure.
    Failed,
    /// The callback delivered a description, which nobody has read yet.
    Delivered(SessionDescriptionView),
    /// The operation has taken what the callback left.
    Consumed,
}

/// How far an operation has come.
pub enum StageView {
    /// The native call has not been made.
    NotStarted,
    /// The native call was made; the outcome is not known.
    Started,
    /// The outcome is known and kept.
    Completed(Result<SessionDescriptionView, RtcError>),
}

/// What an operation holds.
pub struct OperationView {
    pub kind: CreateSessionDescriptionKind,
    pub peer: usize,
    pub stage: StageView,
}

/// The address to free where nobody takes a payload over: the payload's own
/// address, unless it is null.
pub open spec fn to_discard(address: usize) -> Option<usize> {
    if address != 0 {
        Some(address)
    } else {
        None
    }
}

/// What an invocation of the callback does to the slot, and the address that
/// has to be freed at once. Only the first invocation writes to the slot: a
/// readable description is stored, anything else is a failure. A payload
/// that is not stored has to be freed.
pub open spec fn complete_spec(slot: SlotView, address: usize, sdp_type: int, sdp: Seq<u8>) -> (
    SlotView,
    Option<usize>,
) {
    if slot is Empty {
        match read_native(address, sdp_type, sdp) {
            Some(d) => (SlotView::Delivered(d), None),
            None => (SlotView::Failed, to_discard(address)),
        }
    } else {
        (slot, to_discard(address))
    }
}

/// What a poll does to the operation and to the slot, and what it tells the
/// driver. The first poll asks for the native call. Later polls read the
/// slot until the callback has written to it, and take what it wrote: a
/// description is the outcome, and a reported failure is
/// `NegotiationFailed`, as is a slot that was emptied before, in which
/// nothing can arrive any more. Once the outcome is known a poll changes
/// nothing.
pub open spec fn poll_spec(op: OperationView, slot: SlotView) -> (
    OperationView,
    SlotView,
    PollStep,
) {
    match op.stage {
        StageView::NotStarted => (
            OperationView { stage: StageView::Started, ..op },
            slot,
            PollStep::Start(NativeCall { kind: op.kind, peer: op.peer }),
        ),
        StageView::Started => match slot {
            SlotView::Empty => (op, slot, PollStep::Pending),
            SlotView::Delivered(d) => (
                OperationView { stage: StageView::Completed(Ok(d)), ..op },
                SlotView::Consumed,
                PollStep::Ready,
            ),
            _ => (
                OperationView {
                    stage: StageView::Completed(Err(RtcError::NegotiationFailed)),
                    ..op
                },
                SlotView::Consumed,
                PollStep::Ready,
            ),
        },
        StageView::Completed(_) => (op, slot, PollStep::Ready),
    }
}

#[derive(Debug)]
enum Slot {
    Empty,
    Failed,
    Delivered(RTCSessionDescription),
    Consumed,
}

/// The slot that the native completion callback writes to, with the waker
/// of the task that awaits it. It is handed to the native side together with
/// the callback and shared with the operation that reads it.
#[derive(Debug)]
pub struct CreateSessionDescriptionContext {
    slot: Slot,
    waker: AtomicWaker,
}

impl View for CreateSessionDescriptionContext {
    type V = SlotView;

    closed spec fn view(&self) -> SlotView {
        match self.slot {
            Slot::Empty => SlotView::Empty,
            Slot::Failed => SlotView::Failed,
            Slot::Delivered(d) => SlotView::Delivered(d@),
            Slot::Consumed => SlotView::Consumed,
        }
    }
}

impl CreateSessionDescriptionContext {
    /// An empty slot, with no task to wake.
    pub fn new() -> (r: CreateSessionDescriptionContext)
        ensures
            r@ == SlotView::Empty,
    {
        CreateSessionDescriptionContext { slot: Slot::Empty, waker: AtomicWaker::new() }
    }

    /// Records what the callback received, then wakes the task that polled
    /// last: `address` is the pointer that the callback was given, null for
    /// failure, and `sdp_type` and `sdp` are what was read there, the text
    /// without its terminator. Returns the address that the driver has to
    /// free at once, if there is one.
    pub fn complete(&mut self, address: usize, sdp_type: c_int, sdp: &[u8]) -> (r: Option<usize>)
        ensures
            (final(self)@, r) == complete_spec(old(self)@, address, sdp_type as int, sdp@),
    {
        let empty = match &self.slot {
            Slot::Empty => true,
            _ => false,
        };
        let freed = if !empty {
            discard(address)
        } else {
            match RTCSessionDescription::from_raw(address, sdp_type, sdp) {
                Ok(d) => {
                    self.slot = Slot::Delivered(d);
                    None
                },
                Err(_) => {
                    self.slot = Slot::Failed;
                    discard(address)
                },
            }
        };
        self.waker.wake();
        freed
    }

    /// Hands out the address of a payload that the callback delivered and
    /// that no operation has taken, for freeing. Only the first call on a
    /// slot that holds such a payload returns an address.
    pub fn release(&mut self) -> (r: Option<usize>)
        ensures
            r == native_of_slot(old(self)@),
            final(self)@ == match old(self)@ {
                SlotView::Delivered(d) => SlotView::Delivered(d.released()),
                slot => slot,
            },
    {
        match &mut self.slot {
            Slot::Delivered(d) => d.release(),
            _ => None,
        }
    }
}

fn discard(address: usize) -> (r: Option<usize>)
    ensures
        r == to_discard(address),
{
    if address != 0 {
        Some(address)
    } else {
        None
    }
}

#[derive(Debug)]
enum Stage {
    NotStarted,
    Started,
    Completed(Result<RTCSessionDescription, RtcError>),
}

/// The creation of an offer or an answer, from the native call to its
/// outcome.
#[derive(Debug)]
pub struct CreateSessionDescription {
    kind: CreateSessionDescriptionKind,
    peer: usize,
    stage: Stage,
}

impl View for CreateSessionDescription {
    type V = OperationView;

    closed spec fn view(&self) -> OperationView {
        OperationView {
            kind: self.kind,
            peer: self.peer,
            stage: match self.stage {
                Stage::NotStarted => StageView::NotStarted,
                Stage::Started => StageView::Started,
                Stage::Completed(Ok(d)) => StageView::Completed(Ok(d@)),
                Stage::Completed(Err(e)) => StageView::Completed(Err(e)),
            },
        }
    }
}

impl CreateSessionDescription {
    /// An operation that has not started, for the connection at `peer`.
    pub fn new(peer: usize, kind: CreateSessionDescriptionKind) -> (r: CreateSessionDescription)
        ensures
            r@ == (OperationView { kind, peer, stage: StageView::NotStarted }),
    {
        CreateSessionDescription { kind, peer, stage: Stage::NotStarted }
    }

    /// Drives the operation one step. `context` is the slot that was, or
    /// will be, handed to the native side for this operation. `waker` is
    /// registered with it before the slot is read, so that a completion that
    /// comes after this poll wakes the task.
    pub fn poll(&mut self, context: &mut CreateSessionDescriptionContext, waker: &Waker) -> (r:
        PollStep)
        ensures
            (final(self)@, final(context)@, r) == poll_spec(old(self)@, old(context)@),
    {
        context.waker.register(waker);
        let started = match &self.stage {
            Stage::NotStarted => {
                self.stage = Stage::Started;
                return PollStep::Start(NativeCall { kind: self.kind, peer: self.peer });
            },
            Stage::Started => true,
            Stage::Completed(_) => false,
        };
        if !started {
            return PollStep::Ready;
        }
        let mut taken = Slot::Consumed;
        std::mem::swap(&mut taken, &mut context.slot);
        match taken {
            Slot::Empty => {
                context.slot = Slot::Empty;
                PollStep::Pending
            },
            Slot::Delivered(d) => {
                self.stage = Stage::Completed(Ok(d));
                PollStep::Ready
            },
            _ => {
                self.stage = Stage::Completed(Err(RtcError::NegotiationFailed));
                PollStep::Ready
            },
        }
    }

    /// Hands out the address of the native payload behind the outcome, for
    /// freeing. Only the first call on an operation that completed with a
    /// description returns an address; the outcome stays readable.
    pub fn release(&mut self) -> (r: Option<usize>)
        ensures
            r == native_of_stage(old(self)@.stage),
            final(self)@ == (OperationView {
                stage: match old(self)@.stage {
                    StageView::Completed(Ok(d)) => StageView::Completed(Ok(d.released())),
                    stage => stage,
                },
                ..old(self)@
            }),
    {
        match &mut self.stage {
            Stage::Completed(Ok(d)) => d.release(),
            _ => None,
        }
    }

    /// The outcome, once there is one. Every call after the operation has
    /// completed gives the same outcome.
    pub fn outcome(&self) -> (r: Option<Result<&RTCSessionDescription, RtcError>>)
        ensures
            match r {
                Some(Ok(d)) => self@.stage == StageView::Completed(Ok(d@)),
                Some(Err(e)) => self@.stage == StageView::Completed(Err(e)),
                None => !(self@.stage is Completed),
            },
    {
        match &self.stage {
            Stage::Completed(Ok(d)) => Some(Ok(d)),
            Stage::Completed(Err(e)) => Some(Err(*e)),
            _ => None,
        }
    }
}

/// The address that a slot holds and that has to be freed later.
pub open spec fn native_of_slot(slot: SlotView) -> Option<usize> {
    match slot {
        SlotView::Delivered(d) => d.native,
        _ => None,
    }
}

/// The address that an operation holds and that has to be freed later.
pub open spec fn native_of_stage(stage: StageView) -> Option<usize> {
    match stage {
        StageView::Completed(Ok(d)) => d.native,
        _ => None,
    }
}

/// The outcome that an invocation of the callback decides.
pub open spec fn resolve(address: usize, sdp_type: int, sdp: Seq<u8>) -> Result<
    SessionDescriptionView,
    RtcError,
> {
    match read_native(address, sdp_type, sdp) {
        Some(d) => Ok(d),
        None => Err(RtcError::NegotiationFailed),
    }
}

/// An operation and its slot, with a record of what the driver was told so
/// far: the native calls to make, in order, and the addresses to free.
pub struct Exchange {
    pub operation: OperationView,
    pub slot: SlotView,
    pub calls: Seq<NativeCall>,
    pub freed: Multiset<usize>,
}

/// What can happen to an exchange: the task polls, or the native side
/// invokes the callback.
pub enum Event {
    Poll,
    Callback { address: usize, sdp_type: int, sdp: Seq<u8> },
}

/// An exchange that has not begun.
pub open spec fn fresh(kind: CreateSessionDescriptionKind, peer: usize) -> Exchange {
    Exchange {
        operation: OperationView { kind, peer, stage: StageView::NotStarted },
        slot: SlotView::Empty,
        calls: Seq::empty(),
        freed: Multiset::empty(),
    }
}

/// The bag that holds `address`, if there is one, and nothing else.
pub open spec fn bag(address: Option<usize>) -> Multiset<usize> {
    match address {
        Some(a) => Multiset::singleton(a),
        None => Multiset::empty(),
    }
}

/// The exchange after one event.
pub open spec fn step(x: Exchange, event: Event) -> Exchange {
    match event {
        Event::Poll => {
            let (operation, slot, told) = poll_spec(x.operation, x.slot);
            Exchange {
                operation,
                slot,
                calls: match told {
                    PollStep::Start(call) => x.calls.push(call),
                    _ => x.calls,
                },
                freed: x.freed,
            }
        },
        Event::Callback { address, sdp_type, sdp } => {
            let (slot, discarded) = complete_spec(x.slot, address, sdp_type, sdp);
            Exchange { slot, freed: x.freed.add(bag(discarded)), ..x }
        },
    }
}

/// The exchange after a run of events.
pub open spec fn run(x: Exchange, events: Seq<Event>) -> Exchange
    decreases events.len(),
{
    if events.len() == 0 {
        x
    } else {
        run(step(x, events[0]), events.drop_first())
    }
}

/// Whether the task polls at least once in `events`.
pub open spec fn polled(events: Seq<Event>) -> bool {
    exists|i: int| 0 <= i < events.len() && events[i] is Poll
}

/// The payloads that the callback receives in `events`.
pub open spec fn received(events: Seq<Event>) -> Multiset<usize>
    decreases events.len(),
{
    if events.len() == 0 {
        Multiset::empty()
    } else {
        let first = match events[0] {
            Event::Callback { address, .. } => to_discard(address),
            Event::Poll => None,
        };
        bag(first).add(received(events.drop_first()))
    }
}

/// The payloads that an exchange holds: they were received, and have not
/// been handed out for freeing.
pub open spec fn held(x: Exchange) -> Multiset<usize> {
    bag(native_of_slot(x.slot)).add(bag(native_of_stage(x.operation.stage)))
}

proof fn lemma_polled_unfold(events: Seq<Event>)
    requires
        events.len() > 0,
    ensures
        polled(events) <==> events[0] is Poll || polled(events.drop_first()),
{
    let rest = events.drop_first();
    if polled(events) {
        let i = choose|i: int| 0 <= i < events.len() && events[i] is Poll;
        if i > 0 {
            assert(rest[i - 1] is Poll);
        }
    }
    if polled(rest) {
        let i = choose|i: int| 0 <= i < rest.len() && rest[i] is Poll;
        assert(events[i + 1] is Poll);
    }
}

/// Whatever happens, an operation stays what it was made as: an offer stays
/// an offer, on the same connection, and once started it never goes back to
/// not started.
pub proof fn lemma_identity_kept(x: Exchange, events: Seq<Event>)
    ensures
        run(x, events).operation.kind == x.operation.kind,
        run(x, events).operation.peer == x.operation.peer,
        !(x.operation.stage is NotStarted) ==> !(run(x, events).operation.stage is NotStarted),
    decreases events.len(),
{
    if events.len() > 0 {
        lemma_identity_kept(step(x, events[0]), events.drop_first());
    }
}

/// The native entry point is invoked at most once, and exactly once if the
/// task polls at all: whatever happens to an exchange from its beginning,
/// the driver is told to make one native call, the call that the operation
/// was made for, if the task polls at all, and none otherwise.
pub proof fn lemma_native_call_exactly_once(
    kind: CreateSessionDescriptionKind,
    peer: usize,
    events: Seq<Event>,
)
    ensures
        run(fresh(kind, peer), events).calls == if polled(events) {
            seq![NativeCall { kind, peer }]
        } else {
            Seq::<NativeCall>::empty()
        },
{
    lemma_native_call_once(fresh(kind, peer), events);
    assert(Seq::<NativeCall>::empty().push(NativeCall { kind, peer }) =~= seq![
        NativeCall { kind, peer },
    ]);
}

/// As [`lemma_native_call_exactly_once`], from any exchange whose operation
/// has not started: one call is added to those on record if the task polls,
/// and none otherwise.
pub proof fn lemma_native_call_once(x: Exchange, events: Seq<Event>)
    requires
        x.operation.stage is NotStarted,
    ensures
        run(x, events).calls == if polled(events) {
            x.calls.push(NativeCall { kind: x.operation.kind, peer: x.operation.peer })
        } else {
            x.calls
        },
        run(x, events).operation.stage is NotStarted <==> !polled(events),
    decreases events.len(),
{
    if events.len() > 0 {
        lemma_polled_unfold(events);
        let next = step(x, events[0]);
        let rest = events.drop_first();
        if events[0] is Poll {
            lemma_no_further_call(next, rest);
        } else {
            lemma_native_call_once(next, rest);
        }
    }
}

/// Once the native call has been asked for, it is never asked for again.
pub proof fn lemma_no_further_call(x: Exchange, events: Seq<Event>)
    requires
        !(x.operation.stage is NotStarted),
    ensures
        run(x, events).calls == x.calls,
        !(run(x, events).operation.stage is NotStarted),
    decreases events.len(),
{
    if events.len() > 0 {
        lemma_no_further_call(step(x, events[0]), events.drop_first());
    }
}

/// An outcome is final: once an operation has completed, no poll and no
/// further invocation of the callback changes it, and every poll reports
/// that it is ready.
pub proof fn lemma_outcome_is_final(x: Exchange, events: Seq<Event>)
    requires
        x.operation.stage is Completed,
    ensures
        run(x, events).operation == x.operation,
        run(x, events).calls == x.calls,
        poll_spec(run(x, events).operation, run(x, events).slot).2 == PollStep::Ready,
    decreases events.len(),
{
    if events.len() > 0 {
        lemma_outcome_is_final(step(x, events[0]), events.drop_first());
    }
}

/// A wake without a completion resolves nothing: while the callback has not
/// been invoked, a started operation stays as it is however often it is
/// polled, and each poll reports that the result is pending.
pub proof fn lemma_pending_until_callback(x: Exchange, events: Seq<Event>)
    requires
        x.operation.stage is Started,
        x.slot is Empty,
        forall|i: int| 0 <= i < events.len() ==> events[i] is Poll,
    ensures
        run(x, events) == x,
        poll_spec(x.operation, x.slot).2 == PollStep::Pending,
    decreases events.len(),
{
    if events.len() > 0 {
        let rest = events.drop_first();
        assert(forall|i: int| 0 <= i < rest.len() ==> rest[i] == events[i + 1]);
        lemma_pending_until_callback(x, rest);
    }
}

proof fn lemma_slot_decides(x: Exchange, events: Seq<Event>)
    requires
        x.operation.stage is Started,
        x.slot is Delivered || x.slot is Failed,
    ensures
        run(x, events).operation.stage == if polled(events) {
            StageView::Completed(
                match x.slot {
                    SlotView::Delivered(d) => Ok(d),
                    _ => Err(RtcError::NegotiationFailed),
                },
            )
        } else {
            StageView::Started
        },
    decreases events.len(),
{
    if events.len() > 0 {
        lemma_polled_unfold(events);
        let next = step(x, events[0]);
        let rest = events.drop_first();
        if events[0] is Poll {
            lemma_outcome_is_final(next, rest);
        } else {
            lemma_slot_decides(next, rest);
        }
    }
}

/// The first invocation of the callback decides the outcome, and the next
/// poll finds it: a null pointer, or a payload that cannot be read, gives
/// `NegotiationFailed`; a payload that can be read gives the description
/// whose type and text are those of the payload. Invocations that follow the
/// first change nothing.
pub proof fn lemma_first_callback_decides(
    x: Exchange,
    address: usize,
    sdp_type: int,
    sdp: Seq<u8>,
    events: Seq<Event>,
)
    requires
        x.operation.stage is Started,
        x.slot is Empty,
        polled(events),
    ensures
        run(step(x, Event::Callback { address, sdp_type, sdp }), events).operation.stage
            == StageView::Completed(resolve(address, sdp_type, sdp)),
        address == 0 ==> resolve(address, sdp_type, sdp) == Err::<SessionDescriptionView, RtcError>(
            RtcError::NegotiationFailed,
        ),
        resolve(address, sdp_type, sdp) matches Ok(d) ==> {
            &&& d.sdp_type.discriminant() == sdp_type
            &&& d.sdp == sdp
            &&& d.native == Some(address)
        },
{
    lemma_slot_decides(step(x, Event::Callback { address, sdp_type, sdp }), events);
    lemma_read_native_matches(address, sdp_type, sdp);
}

/// No payload is lost and none is freed twice: at any time, each payload
/// that the callback received is either held, by the slot or by the
/// outcome, or was handed out for freeing, and is counted once. From the
/// beginning of an exchange, what is held and what was freed are together
/// what was received.
pub proof fn lemma_payloads_accounted_for(x: Exchange, events: Seq<Event>)
    ensures
        held(run(x, events)).add(run(x, events).freed) == held(x).add(x.freed).add(
            received(events),
        ),
        held(x).add(x.freed) == Multiset::<usize>::empty() ==> held(run(x, events)).add(
            run(x, events).freed,
        ) == received(events),
    decreases events.len(),
{
    if events.len() == 0 {
        assert(held(x).add(x.freed).add(received(events)) =~= held(x).add(x.freed));
    } else {
        let next = step(x, events[0]);
        let rest = events.drop_first();
        lemma_payloads_accounted_for(next, rest);
        let first = match events[0] {
            Event::Callback { address, .. } => to_discard(address),
            Event::Poll => None,
        };
        assert(held(next).add(next.freed) =~= held(x).add(x.freed).add(bag(first)));
        assert(held(next).add(next.freed).add(received(rest)) =~= held(x).add(x.freed).add(
            received(events),
        ));
    }
}

} // verus!