use vstd::prelude::*;

verus! {

/// Default port the server listens on.
pub const SERVER_PORT: u16 = 9999;

/// Default client port; 0 lets the operating system pick an ephemeral port.
pub const CLIENT_PORT: u16 = 0;

/// Upper bound on the payload of one frame, in bytes. A frame whose length
/// prefix declares more than this is rejected as `FrameTooLarge`.
pub const MSG_BUF_SIZE: usize = 4096;

/// A client-issued operation request: the operation set is closed.
#[derive(Copy, Clone, Debug, PartialEq, Eq, Structural)]
pub enum FnCall {
    Add(i32),
    Echo(i32),
}

/// The server's response value for one call, tag-aligned with `FnCall`:
/// an `Add` call always yields an `Add` result, an `Echo` call an `Echo` result.
#[derive(Copy, Clone, Debug, PartialEq, Eq, Structural)]
pub enum FnRes {
    Add(i32),
    Echo(i32),
}

/// Every error the protocol or a transport can signal.
#[derive(Copy, Clone, Debug, PartialEq, Eq, Structural)]
pub enum WidowError {
    /// The peer closed or half-closed the stream.
    ConnectionClosed,
    /// A transport-level failure.
    IOError,
    /// A payload whose tag is not in the known set, or whose size is wrong.
    MalformedFrame,
    /// A length prefix declaring more bytes than the configured maximum.
    FrameTooLarge,
    /// A reply whose tag does not match the call that was sent (client side).
    ProtocolMismatch,
    /// The server could not bind its address at startup.
    BindFailure,
    /// The client could not establish its connection.
    ConnectFailure,
}

pub type ResultB<T> = Result<T, WidowError>;

/// The counter after dispatching one call at counter value `n`:
/// `Add` adds its operand with wrapping arithmetic, `Echo` leaves it alone.
pub open spec fn new_counter(n: i32, c: FnCall) -> i32 {
    match c {
        FnCall::Add(x) => vstd::wrapping::i32_specs::wrapping_add(n, x),
        FnCall::Echo(_) => n,
    }
}

/// The reply to one call dispatched at counter value `n`.
pub open spec fn dispatch_res(n: i32, c: FnCall) -> FnRes {
    match c {
        FnCall::Add(x) => FnRes::Add(vstd::wrapping::i32_specs::wrapping_add(n, x)),
        FnCall::Echo(x) => FnRes::Echo(x),
    }
}

/// The counter after dispatching `calls` in order, starting from `init`.
pub open spec fn counter_after(init: i32, calls: Seq<FnCall>) -> i32
    decreases calls.len(),
{
    if calls.len() == 0 {
        init
    } else {
        new_counter(counter_after(init, calls.drop_last()), calls.last())
    }
}

/// The reply to the call at position `i` of `calls`, when the whole sequence
/// is dispatched in order starting from `init`.
pub open spec fn reply_at(init: i32, calls: Seq<FnCall>, i: int) -> FnRes
    recommends
        0 <= i < calls.len(),
{
    dispatch_res(counter_after(init, calls.take(i)), calls[i])
}

/// The call sequence `Add(xs[0]), Add(xs[1]), ...`.
pub open spec fn adds_of(xs: Seq<i32>) -> Seq<FnCall> {
    Seq::new(xs.len(), |i: int| FnCall::Add(xs[i]))
}

/// The sum of the operands under the wrapping overflow policy.
pub open spec fn wrap_sum(xs: Seq<i32>) -> i32
    decreases xs.len(),
{
    if xs.len() == 0 {
        0i32
    } else {
        vstd::wrapping::i32_specs::wrapping_add(wrap_sum(xs.drop_last()), xs.last())
    }
}

/// Law: dispatching only `Add` calls drives the counter to the wrapped sum of
/// all their operands, in dispatch order.
pub proof fn lemma_adds_sum_up(xs: Seq<i32>)
    ensures
        counter_after(0, adds_of(xs)) == wrap_sum(xs),
    decreases xs.len(),
{
    if xs.len() > 0 {
        lemma_adds_sum_up(xs.drop_last());
        assert(adds_of(xs).drop_last() =~= adds_of(xs.drop_last()));
    }
}

/// Law: a hub that receives the calls `Add(xs[0]), ..., Add(xs[n - 1])`, in
/// arrival order, ends with its counter at the wrapped sum of every operand,
/// and replies to the call at each position `i` with the running prefix sum
/// up to and including that call.
pub proof fn lemma_adds_make_prefix_sums(xs: Seq<i32>)
    ensures
        counter_after(0, adds_of(xs)) == wrap_sum(xs),
        forall|i: int| 0 <= i < xs.len() ==> #[trigger] reply_at(0, adds_of(xs), i)
            == FnRes::Add(wrap_sum(xs.take(i + 1))),
{
    lemma_adds_sum_up(xs);
    assert forall|i: int| 0 <= i < xs.len() implies #[trigger] reply_at(0, adds_of(xs), i)
        == FnRes::Add(wrap_sum(xs.take(i + 1))) by {
        lemma_adds_sum_up(xs.take(i));
        assert(adds_of(xs).take(i) =~= adds_of(xs.take(i)));
        assert(xs.take(i + 1).drop_last() =~= xs.take(i));
        assert(xs.take(i + 1).last() == xs[i]);
    }
}

/// Law: `Echo` replies with its operand unchanged and leaves the counter
/// alone, whatever the counter holds — no coupling to prior `Add` calls.
pub proof fn lemma_echo_stateless(n: i32, x: i32)
    ensures
        dispatch_res(n, FnCall::Echo(x)) == FnRes::Echo(x),
        new_counter(n, FnCall::Echo(x)) == n,
{
}

/// The operands of the `Add` calls of `calls`, in order.
pub open spec fn add_operands(calls: Seq<FnCall>) -> Seq<i32>
    decreases calls.len(),
{
    if calls.len() == 0 {
        Seq::empty()
    } else {
        let rest = add_operands(calls.drop_last());
        match calls.last() {
            FnCall::Add(x) => rest.push(x),
            FnCall::Echo(_) => rest,
        }
    }
}

/// Law: the counter depends on the dispatched `Add` calls alone — `Echo`
/// calls interleaved anywhere in the traffic leave it untouched.
pub proof fn lemma_counter_ignores_echoes(calls: Seq<FnCall>)
    ensures
        counter_after(0, calls) == wrap_sum(add_operands(calls)),
    decreases calls.len(),
{
    if calls.len() > 0 {
        lemma_counter_ignores_echoes(calls.drop_last());
        if calls.last() is Add {
            assert(add_operands(calls).drop_last() =~= add_operands(calls.drop_last()));
        }
    }
}

} // verus!
