use vstd::prelude::*;
use crate::codec::{decode_call, encode_res, parse_call, res_bytes};
use crate::consts::{dispatch_res, new_counter, FnCall, FnRes, WidowError};

verus! {

/// The datagram server's private call dispatcher. The datagram loop is
/// single-threaded, so this state needs no hub and no serialization point:
/// it is never shared.
pub struct State {
    n: i32,
}

impl State {
    /// The current counter value.
    pub closed spec fn counter(&self) -> i32 {
        self.n
    }

    pub fn new() -> (s: State)
        ensures
            s.counter() == 0,
    {
        State { n: 0 }
    }

    /// Maps one call to its result: `Add` accumulates into the counter and
    /// returns the post-increment value, `Echo` returns its operand and
    /// leaves the counter alone.
    pub fn dispatch(&mut self, fncall: FnCall) -> (r: FnRes)
        ensures
            final(self).counter() == new_counter(old(self).counter(), fncall),
            r == dispatch_res(old(self).counter(), fncall),
    {
        match fncall {
            FnCall::Add(x) => FnRes::Add(self.add(x)),
            FnCall::Echo(x) => FnRes::Echo(self.echo(x)),
        }
    }

    /// Adds the operand to the counter with wrapping arithmetic and returns
    /// the new counter value.
    fn add(&mut self, x: i32) -> (r: i32)
        ensures
            final(self).counter() == vstd::wrapping::i32_specs::wrapping_add(
                old(self).counter(),
                x,
            ),
            r == final(self).counter(),
    {
        self.n = self.n.wrapping_add(x);
        self.n
    }

    /// Returns the operand untouched.
    fn echo(&self, x: i32) -> (r: i32)
        ensures
            r == x,
    {
        x
    }
}

/// Handles one datagram: decodes exactly one call from the whole payload (a
/// datagram needs no length prefix — the packet boundary is the frame
/// boundary), dispatches it, and hands back the encoded result to send to the
/// packet's source. A malformed payload fails without touching the counter,
/// so one bad packet never terminates the server loop around this function.
pub fn handle_datagram(state: &mut State, buf: &[u8]) -> (r: Result<Vec<u8>, WidowError>)
    ensures
        match parse_call(buf@) {
            Some(c) => {
                &&& final(state).counter() == new_counter(old(state).counter(), c)
                &&& r matches Ok(out) && out@ == res_bytes(dispatch_res(old(state).counter(), c))
            },
            None => {
                &&& final(state).counter() == old(state).counter()
                &&& r == Err::<Vec<u8>, WidowError>(WidowError::MalformedFrame)
            },
        },
{
    match decode_call(buf) {
        Ok(fncall) => {
            let res = state.dispatch(fncall);
            Ok(encode_res(res))
        }
        Err(e) => Err(e),
    }
}

} // verus!
