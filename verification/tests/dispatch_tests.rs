use widow::client::{match_add_reply, match_echo_reply};
use widow::consts::{FnCall, FnRes, WidowError};
use widow::server::general_server::State;
use widow::server::udp;

#[test]
fn adding_accumulates() {
    let mut state = State::new();
    for i in 1..32 {
        assert_eq!(state.dispatch(FnCall::Add(1)), FnRes::Add(i));
    }
}

#[test]
fn echo_returns_its_operand() {
    let mut state = State::new();
    for i in 1..32 {
        assert_eq!(state.dispatch(FnCall::Echo(i)), FnRes::Echo(i));
    }
}

#[test]
fn echo_ignores_prior_adds() {
    let mut state = State::new();
    assert_eq!(state.dispatch(FnCall::Add(100)), FnRes::Add(100));
    for x in [i32::MIN, -1, 0, 1, i32::MAX] {
        assert_eq!(state.dispatch(FnCall::Echo(x)), FnRes::Echo(x));
    }
    // No echo touched the counter.
    assert_eq!(state.dispatch(FnCall::Add(0)), FnRes::Add(100));
}

#[test]
fn adding_wraps_at_the_boundaries() {
    let mut state = State::new();
    assert_eq!(state.dispatch(FnCall::Add(i32::MAX)), FnRes::Add(i32::MAX));
    assert_eq!(state.dispatch(FnCall::Add(1)), FnRes::Add(i32::MIN));
    let mut below = State::new();
    assert_eq!(below.dispatch(FnCall::Add(i32::MIN)), FnRes::Add(i32::MIN));
    assert_eq!(below.dispatch(FnCall::Add(-1)), FnRes::Add(i32::MAX));
}

#[test]
fn adding_takes_negative_operands() {
    let mut state = State::new();
    assert_eq!(state.dispatch(FnCall::Add(5)), FnRes::Add(5));
    assert_eq!(state.dispatch(FnCall::Add(-8)), FnRes::Add(-3));
}

#[test]
fn prefix_sum_scenario() {
    // Client A's calls, then a later client's, all through one dispatcher.
    let mut state = State::new();
    assert_eq!(state.dispatch(FnCall::Add(5)), FnRes::Add(5));
    assert_eq!(state.dispatch(FnCall::Add(3)), FnRes::Add(8));
    assert_eq!(state.dispatch(FnCall::Add(2)), FnRes::Add(10));
    // A datagram server's dispatcher is a separate instance: its echo neither
    // reads nor disturbs the stream-side counter.
    let mut datagram_state = udp::State::new();
    assert_eq!(datagram_state.dispatch(FnCall::Echo(42)), FnRes::Echo(42));
    assert_eq!(state.dispatch(FnCall::Add(0)), FnRes::Add(10));
}

#[test]
fn matching_replies_by_tag() {
    assert_eq!(match_add_reply(FnRes::Add(7)), Ok(7));
    assert_eq!(match_echo_reply(FnRes::Echo(-7)), Ok(-7));
}

#[test]
fn mismatched_reply_is_a_protocol_error() {
    assert_eq!(match_add_reply(FnRes::Echo(7)), Err(WidowError::ProtocolMismatch));
    assert_eq!(match_echo_reply(FnRes::Add(7)), Err(WidowError::ProtocolMismatch));
}
