use vstd::prelude::*;
use std::sync::mpsc::{Receiver, Sender};
use crate::channel::{ch_send, ch_try_recv};
use crate::consts::{counter_after, dispatch_res, new_counter, reply_at, FnCall, FnRes};

verus! {

pub type StreamOutCh = Sender<FnCall>;

pub type StreamInCh = Receiver<FnRes>;

pub type ServerOutCh = Sender<FnRes>;

pub type ServerInCh = Receiver<FnCall>;

pub type NewStreamCh = (ServerOutCh, ServerInCh);

pub type NewStreamOutCh = Sender<NewStreamCh>;

pub type NewStreamInCh = Receiver<NewStreamCh>;

/// The call dispatcher: the single shared mutable counter, and the mapping
/// from an incoming call to its result. It does no I/O of its own.
pub struct State {
    n: i32,
}

impl State {
    /// The current counter value.
    pub closed spec fn counter(&self) -> i32 {
        self.n
    }

    pub fn new() -> (s: State)
        ensures
            s.counter() == 0,
    {
        State { n: 0 }
    }

    /// Maps one call to its result: `Add` accumulates into the counter and
    /// returns the post-increment value, `Echo` returns its operand and
    /// leaves the counter alone.
    pub fn dispatch(&mut self, fncall: FnCall) -> (r: FnRes)
        ensures
            final(self).counter() == new_counter(old(self).counter(), fncall),
            r == dispatch_res(old(self).counter(), fncall),
    {
        match fncall {
            FnCall::Add(x) => FnRes::Add(self.add(x)),
            FnCall::Echo(x) => FnRes::Echo(self.echo(x)),
        }
    }

    /// Adds the operand to the counter with wrapping arithmetic and returns
    /// the new counter value.
    fn add(&mut self, x: i32) -> (r: i32)
        ensures
            final(self).counter() == vstd::wrapping::i32_specs::wrapping_add(
                old(self).counter(),
                x,
            ),
            r == final(self).counter(),
    {
        self.n = self.n.wrapping_add(x);
        self.n
    }

    /// Returns the operand untouched.
    fn echo(&self, x: i32) -> (r: i32)
        ensures
            r == x,
    {
        x
    }
}

/// The dispatch hub: the single owner of one `State`. Every connection worker
/// reaches the counter only by queueing calls here, so all mutation happens in
/// one place, serialized in arrival order, without locks.
pub struct WidowServer {
    new_stream_inbox: NewStreamInCh,
    streams: Vec<NewStreamCh>,
    state: State,
    log: Ghost<Seq<FnCall>>,
    replies: Ghost<Seq<FnRes>>,
}

impl WidowServer {
    /// Every call dispatched so far, in dispatch order.
    pub closed spec fn log(&self) -> Seq<FnCall> {
        self.log@
    }

    /// Every reply sent so far, aligned with `log`.
    pub closed spec fn replies(&self) -> Seq<FnRes> {
        self.replies@
    }

    /// The hub's counter.
    pub closed spec fn counter(&self) -> i32 {
        self.state.counter()
    }

    /// The hub invariant: at any observation point the counter equals the
    /// value that dispatching the logged calls in order produces from zero —
    /// the wrapped sum of every `Add` operand dispatched so far — and every
    /// reply equals the dispatch result at its position in arrival order: for
    /// `Add` traffic, the running prefix sum up to and including that call.
    pub open spec fn wf(&self) -> bool {
        &&& self.counter() == counter_after(0, self.log())
        &&& self.replies().len() == self.log().len()
        &&& forall|i: int| 0 <= i < self.log().len() ==> #[trigger] self.replies()[i] == reply_at(
            0,
            self.log(),
            i,
        )
    }

    pub fn new(new_stream_inbox: NewStreamInCh) -> (s: WidowServer)
        ensures
            s.wf(),
            s.log() == Seq::<FnCall>::empty(),
    {
        WidowServer {
            new_stream_inbox,
            streams: Vec::new(),
            state: State::new(),
            log: Ghost(Seq::empty()),
            replies: Ghost(Seq::empty()),
        }
    }

    /// Runs the hub for at most `rounds` polling rounds. Each round registers
    /// at most one newly accepted stream, then serves at most one pending call
    /// per registered stream: the call is dispatched and its result sent back
    /// on that stream's reply route. A reply whose worker is gone is dropped;
    /// it never stops the hub. The dispatch log only ever grows, and the hub
    /// invariant holds at every step.
    pub fn start(&mut self, rounds: usize)
        requires
            old(self).wf(),
        ensures
            final(self).wf(),
            final(self).log().len() >= old(self).log().len(),
            final(self).log().subrange(0, old(self).log().len() as int) == old(self).log(),
    {
        let ghost entry_log = old(self).log();
        let mut round: usize = 0;
        while round < rounds
            invariant
                self.wf(),
                self.log().len() >= entry_log.len(),
                self.log().subrange(0, entry_log.len() as int) == entry_log,
            decreases rounds - round,
        {
            if let Some(new_stream) = ch_try_recv(&self.new_stream_inbox) {
                self.streams.push(new_stream);
            }
            let n: usize = self.streams.len();
            let mut i: usize = 0;
            while i < n
                invariant
                    i <= n,
                    n == self.streams.len(),
                    self.wf(),
                    self.log().len() >= entry_log.len(),
                    self.log().subrange(0, entry_log.len() as int) == entry_log,
                decreases n - i,
            {
                let fncall_opt = ch_try_recv(&self.streams[i].1);
                if let Some(fncall) = fncall_opt {
                    let ghost prev = self.log@;
                    let ghost prev_replies = self.replies@;
                    let res = self.state.dispatch(fncall);
                    proof {
                        self.log@ = prev.push(fncall);
                        self.replies@ = prev_replies.push(res);
                        assert(self.log@.drop_last() =~= prev);
                        assert forall|k: int| 0 <= k < self.log@.len() implies #[trigger] self.replies@[k]
                            == reply_at(0, self.log@, k) by {
                            if k < prev.len() {
                                assert(self.log@.take(k) =~= prev.take(k));
                            } else {
                                assert(self.log@.take(k) =~= prev);
                            }
                        }
                        assert(self.log@.subrange(0, entry_log.len() as int) =~= prev.subrange(
                            0,
                            entry_log.len() as int,
                        ));
                    }
                    // A false reply send means the worker died; the reply is
                    // dropped and the hub carries on.
                    let _delivered = ch_send(&self.streams[i].0, res);
                }
                i = i + 1;
            }
            round = round + 1;
        }
    }
}

} // verus!
