use vstd::prelude::*;
use crate::consts::{FnRes, WidowError};

verus! {

/// The value a client returns for an `Add` call's reply: the accumulated
/// counter where the reply is tag-aligned, and `ProtocolMismatch` where the
/// server answered with any other tag — a protocol-invariant violation the
/// caller can observe, not an abort.
pub fn match_add_reply(reply: FnRes) -> (r: Result<i32, WidowError>)
    ensures
        match reply {
            FnRes::Add(n) => r == Ok::<i32, WidowError>(n),
            FnRes::Echo(_) => r == Err::<i32, WidowError>(WidowError::ProtocolMismatch),
        },
{
    match reply {
        FnRes::Add(n) => Ok(n),
        FnRes::Echo(_) => Err(WidowError::ProtocolMismatch),
    }
}

/// The value a client returns for an `Echo` call's reply; as `match_add_reply`,
/// with the tags' roles swapped.
pub fn match_echo_reply(reply: FnRes) -> (r: Result<i32, WidowError>)
    ensures
        match reply {
            FnRes::Echo(n) => r == Ok::<i32, WidowError>(n),
            FnRes::Add(_) => r == Err::<i32, WidowError>(WidowError::ProtocolMismatch),
        },
{
    match reply {
        FnRes::Echo(n) => Ok(n),
        FnRes::Add(_) => Err(WidowError::ProtocolMismatch),
    }
}

} // verus!
