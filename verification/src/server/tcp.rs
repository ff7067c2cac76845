use vstd::prelude::*;
use std::sync::mpsc::{Receiver, SyncSender};
use crate::channel::{ch_recv, ch_send_sync};
use crate::consts::{counter_after, dispatch_res, new_counter, reply_at, FnCall, FnRes};

verus! {

pub type StreamOutCh = SyncSender<(HandlerOutCh, FnCall)>;

pub type HandlerInCh = Receiver<(HandlerOutCh, FnCall)>;

pub type HandlerOutCh = SyncSender<FnRes>;

pub type StreamInCh = Receiver<FnRes>;

/// The call dispatcher owned by this server's hub: the single shared mutable
/// counter, and the mapping from an incoming call to its result.
pub struct State {
    n: i32,
}

impl State {
    /// The current counter value.
    pub closed spec fn counter(&self) -> i32 {
        self.n
    }

    pub fn new() -> (s: State)
        ensures
            s.counter() == 0,
    {
        State { n: 0 }
    }

    /// Maps one call to its result: `Add` accumulates into the counter and
    /// returns the post-increment value, `Echo` returns its operand and
    /// leaves the counter alone.
    pub fn dispatch(&mut self, fncall: FnCall) -> (r: FnRes)
        ensures
            final(self).counter() == new_counter(old(self).counter(), fncall),
            r == dispatch_res(old(self).counter(), fncall),
    {
        match fncall {
            FnCall::Add(x) => FnRes::Add(self.add(x)),
            FnCall::Echo(x) => FnRes::Echo(self.echo(x)),
        }
    }

    /// Adds the operand to the counter with wrapping arithmetic and returns
    /// the new counter value.
    fn add(&mut self, x: i32) -> (r: i32)
        ensures
            final(self).counter() == vstd::wrapping::i32_specs::wrapping_add(
                old(self).counter(),
                x,
            ),
            r == final(self).counter(),
    {
        self.n = self.n.wrapping_add(x);
        self.n
    }

    /// Returns the operand untouched.
    fn echo(&self, x: i32) -> (r: i32)
        ensures
            r == x,
    {
        x
    }
}

/// The dispatch hub: the single consumer of the submission queue that every
/// connection worker feeds. Each `(reply route, call)` pair is dispatched and
/// replied before the next is taken, so all counter mutation is serialized in
/// arrival order without locks.
pub struct WidowHandler {
    inbox: HandlerInCh,
    state: State,
    log: Ghost<Seq<FnCall>>,
    replies: Ghost<Seq<FnRes>>,
}

impl WidowHandler {
    /// Every call dispatched so far, in dispatch order.
    pub closed spec fn log(&self) -> Seq<FnCall> {
        self.log@
    }

    /// Every reply sent so far, aligned with `log`.
    pub closed spec fn replies(&self) -> Seq<FnRes> {
        self.replies@
    }

    /// The hub's counter.
    pub closed spec fn counter(&self) -> i32 {
        self.state.counter()
    }

    /// The hub invariant: at any observation point the counter equals the
    /// value that dispatching the logged calls in order produces from zero —
    /// the wrapped sum of every `Add` operand dispatched so far — and every
    /// reply equals the dispatch result at its position in arrival order: for
    /// `Add` traffic, the running prefix sum up to and including that call.
    pub open spec fn wf(&self) -> bool {
        &&& self.counter() == counter_after(0, self.log())
        &&& self.replies().len() == self.log().len()
        &&& forall|i: int| 0 <= i < self.log().len() ==> #[trigger] self.replies()[i] == reply_at(
            0,
            self.log(),
            i,
        )
    }

    pub fn new(inbox: HandlerInCh) -> (s: WidowHandler)
        ensures
            s.wf(),
            s.log() == Seq::<FnCall>::empty(),
    {
        WidowHandler {
            inbox,
            state: State::new(),
            log: Ghost(Seq::empty()),
            replies: Ghost(Seq::empty()),
        }
    }

    /// Serves at most `max_reqs` submissions: blocks for the next `(reply
    /// route, call)` pair, dispatches the call, and sends the result back on
    /// the submitted route. A reply whose worker died is dropped; it never
    /// stops the hub. Returns early once every submission handle is gone.
    /// The dispatch log only ever grows, and the hub invariant holds at every
    /// step.
    pub fn start(&mut self, max_reqs: usize)
        requires
            old(self).wf(),
        ensures
            final(self).wf(),
            final(self).log().len() >= old(self).log().len(),
            final(self).log().subrange(0, old(self).log().len() as int) == old(self).log(),
    {
        let ghost entry_log = old(self).log();
        let mut served: usize = 0;
        while served < max_reqs
            invariant
                entry_log == old(self).log(),
                self.wf(),
                self.log().len() >= entry_log.len(),
                self.log().subrange(0, entry_log.len() as int) == entry_log,
            decreases max_reqs - served,
        {
            match ch_recv(&self.inbox) {
                Some((outbox, fncall)) => {
                    let ghost prev = self.log@;
                    let ghost prev_replies = self.replies@;
                    let res = self.state.dispatch(fncall);
                    proof {
                        self.log@ = prev.push(fncall);
                        self.replies@ = prev_replies.push(res);
                        assert(self.log@.drop_last() =~= prev);
                        assert forall|i: int| 0 <= i < self.log@.len() implies #[trigger] self.replies@[i]
                            == reply_at(0, self.log@, i) by {
                            if i < prev.len() {
                                assert(self.log@.take(i) =~= prev.take(i));
                            } else {
                                assert(self.log@.take(i) =~= prev);
                            }
                        }
                        assert(self.log@.subrange(0, entry_log.len() as int) =~= prev.subrange(
                            0,
                            entry_log.len() as int,
                        ));
                    }
                    // A false reply send means the worker died; the reply is
                    // dropped and the hub carries on.
                    let _delivered = ch_send_sync(&outbox, res);
                }
                None => {
                    return;
                }
            }
            served = served + 1;
        }
    }
}

/// One connection worker's control state. A worker cycles reading a frame,
/// waiting on the hub, and writing the reply; any failure moves it to
/// `Closed`, a terminal state — connection death is final, and the worker
/// never retries.
#[derive(Copy, Clone, Debug, PartialEq, Eq, Structural)]
pub enum WorkerPhase {
    ReadingFrame,
    Dispatching(FnCall),
    WritingReply(FnRes),
    Closed,
}

/// What the worker's transport or hub channel reported back.
#[derive(Copy, Clone, Debug, PartialEq, Eq, Structural)]
pub enum WorkerEvent {
    FrameRead(FnCall),
    ReadFailed,
    HubReplied(FnRes),
    HubUnreachable,
    WroteReply,
    WriteFailed,
}

/// What the worker asks its transport to do next.
#[derive(Copy, Clone, Debug, PartialEq, Eq, Structural)]
pub enum WorkerAction {
    ReadFrame,
    Submit(FnCall),
    WriteReply(FnRes),
    CloseConnection,
}

/// The worker's transition table: a successfully read frame is submitted to
/// the hub, the hub's reply is written back, and a written reply starts the
/// next read. Every failure — and every event that does not belong to the
/// current phase — closes the connection.
pub open spec fn worker_next(phase: WorkerPhase, event: WorkerEvent) -> (WorkerPhase, WorkerAction) {
    match (phase, event) {
        (WorkerPhase::ReadingFrame, WorkerEvent::FrameRead(c)) => (
            WorkerPhase::Dispatching(c),
            WorkerAction::Submit(c),
        ),
        (WorkerPhase::Dispatching(_), WorkerEvent::HubReplied(r)) => (
            WorkerPhase::WritingReply(r),
            WorkerAction::WriteReply(r),
        ),
        (WorkerPhase::WritingReply(_), WorkerEvent::WroteReply) => (
            WorkerPhase::ReadingFrame,
            WorkerAction::ReadFrame,
        ),
        _ => (WorkerPhase::Closed, WorkerAction::CloseConnection),
    }
}

/// Advances one worker by one event. Only this worker's own phase moves:
/// a failure on one connection closes that connection and nothing else.
pub fn worker_step(phase: WorkerPhase, event: WorkerEvent) -> (r: (WorkerPhase, WorkerAction))
    ensures
        r == worker_next(phase, event),
{
    match (phase, event) {
        (WorkerPhase::ReadingFrame, WorkerEvent::FrameRead(c)) => (
            WorkerPhase::Dispatching(c),
            WorkerAction::Submit(c),
        ),
        (WorkerPhase::Dispatching(_), WorkerEvent::HubReplied(r)) => (
            WorkerPhase::WritingReply(r),
            WorkerAction::WriteReply(r),
        ),
        (WorkerPhase::WritingReply(_), WorkerEvent::WroteReply) => (
            WorkerPhase::ReadingFrame,
            WorkerAction::ReadFrame,
        ),
        _ => (WorkerPhase::Closed, WorkerAction::CloseConnection),
    }
}

/// Law: `Closed` is terminal — no event revives a closed worker.
pub proof fn lemma_closed_is_final(event: WorkerEvent)
    ensures
        worker_next(WorkerPhase::Closed, event).0 == WorkerPhase::Closed,
{
}

} // verus!
