use vstd::prelude::*;
use vstd::bytes::{
    lemma_auto_spec_u32_to_from_le_bytes, spec_u32_from_le_bytes, spec_u32_to_le_bytes,
    u32_from_le_bytes, u32_to_le_bytes,
};
use vstd::slice::slice_subrange;
use crate::consts::{FnCall, FnRes, WidowError};
use crate::utils::{be32_bytes, be32_val, lemma_be32_roundtrip, usize_to_u8_array, u8_array_to_usize};

verus! {

/// Wire tag of an `Add` call or result.
pub const TAG_ADD: u8 = 0;

/// Wire tag of an `Echo` call or result.
pub const TAG_ECHO: u8 = 1;

/// The operand's 32-bit two's-complement pattern, read as an unsigned value.
pub open spec fn i32_as_u32(x: i32) -> u32 {
    if x >= 0 {
        x as u32
    } else {
        (x + 0x1_0000_0000) as u32
    }
}

/// The signed reading of a 32-bit pattern.
pub open spec fn u32_as_i32(u: u32) -> i32 {
    if u <= 0x7fff_ffff {
        u as i32
    } else {
        (u - 0x1_0000_0000) as i32
    }
}

/// Law: reading an operand's bit pattern back as signed yields the operand.
pub proof fn lemma_i32_as_u32_roundtrip(x: i32)
    ensures
        u32_as_i32(i32_as_u32(x)) == x,
{
}

/// The payload encoding a call: one tag byte, then the four little-endian
/// bytes of the operand's two's-complement pattern.
pub open spec fn call_bytes(c: FnCall) -> Seq<u8> {
    match c {
        FnCall::Add(x) => seq![TAG_ADD] + spec_u32_to_le_bytes(i32_as_u32(x)),
        FnCall::Echo(x) => seq![TAG_ECHO] + spec_u32_to_le_bytes(i32_as_u32(x)),
    }
}

/// The payload encoding a result; tag-aligned with `call_bytes`.
pub open spec fn res_bytes(r: FnRes) -> Seq<u8> {
    match r {
        FnRes::Add(x) => seq![TAG_ADD] + spec_u32_to_le_bytes(i32_as_u32(x)),
        FnRes::Echo(x) => seq![TAG_ECHO] + spec_u32_to_le_bytes(i32_as_u32(x)),
    }
}

/// The call a payload decodes to, or `None` where the payload has the wrong
/// size or a tag outside the known set.
pub open spec fn parse_call(b: Seq<u8>) -> Option<FnCall> {
    if b.len() == 5 && b[0] == TAG_ADD {
        Some(FnCall::Add(u32_as_i32(spec_u32_from_le_bytes(b.subrange(1, 5)))))
    } else if b.len() == 5 && b[0] == TAG_ECHO {
        Some(FnCall::Echo(u32_as_i32(spec_u32_from_le_bytes(b.subrange(1, 5)))))
    } else {
        None
    }
}

/// The result a payload decodes to, or `None` on a malformed payload.
pub open spec fn parse_res(b: Seq<u8>) -> Option<FnRes> {
    if b.len() == 5 && b[0] == TAG_ADD {
        Some(FnRes::Add(u32_as_i32(spec_u32_from_le_bytes(b.subrange(1, 5)))))
    } else if b.len() == 5 && b[0] == TAG_ECHO {
        Some(FnRes::Echo(u32_as_i32(spec_u32_from_le_bytes(b.subrange(1, 5)))))
    } else {
        None
    }
}

/// A stream frame: the payload prefixed with its length as a four-byte
/// big-endian unsigned integer. Datagrams carry the bare payload instead.
pub open spec fn frame_bytes(payload: Seq<u8>) -> Seq<u8>
    recommends
        payload.len() < 0x1_0000_0000,
{
    be32_bytes(payload.len() as int) + payload
}

/// Law: encoding any call and decoding the payload reproduces the call.
pub proof fn lemma_call_roundtrip(c: FnCall)
    ensures
        parse_call(call_bytes(c)) == Some(c),
{
    lemma_auto_spec_u32_to_from_le_bytes();
    let b = call_bytes(c);
    match c {
        FnCall::Add(x) => {
            lemma_i32_as_u32_roundtrip(x);
            assert(b.subrange(1, 5) =~= spec_u32_to_le_bytes(i32_as_u32(x)));
        }
        FnCall::Echo(x) => {
            lemma_i32_as_u32_roundtrip(x);
            assert(b.subrange(1, 5) =~= spec_u32_to_le_bytes(i32_as_u32(x)));
        }
    }
}

/// Law: encoding any result and decoding the payload reproduces the result.
pub proof fn lemma_res_roundtrip(r: FnRes)
    ensures
        parse_res(res_bytes(r)) == Some(r),
{
    lemma_auto_spec_u32_to_from_le_bytes();
    let b = res_bytes(r);
    match r {
        FnRes::Add(x) => {
            lemma_i32_as_u32_roundtrip(x);
            assert(b.subrange(1, 5) =~= spec_u32_to_le_bytes(i32_as_u32(x)));
        }
        FnRes::Echo(x) => {
            lemma_i32_as_u32_roundtrip(x);
            assert(b.subrange(1, 5) =~= spec_u32_to_le_bytes(i32_as_u32(x)));
        }
    }
}

/// Law: a frame's length prefix reads back as the payload's length, and the
/// rest of the frame is the payload itself.
pub proof fn lemma_frame_roundtrip(payload: Seq<u8>)
    requires
        payload.len() < 0x1_0000_0000,
    ensures
        frame_bytes(payload).len() == 4 + payload.len(),
        be32_val(frame_bytes(payload).subrange(0, 4)) == payload.len(),
        frame_bytes(payload).subrange(4, frame_bytes(payload).len() as int) == payload,
{
    lemma_be32_roundtrip(payload.len() as int);
    assert(frame_bytes(payload).subrange(0, 4) =~= be32_bytes(payload.len() as int));
    assert(frame_bytes(payload).subrange(4, frame_bytes(payload).len() as int) =~= payload);
}

/// The operand's two's-complement pattern, as executable code.
fn i32_bits(x: i32) -> (u: u32)
    ensures
        u == i32_as_u32(x),
{
    if x >= 0 {
        x as u32
    } else {
        let w: i64 = (x as i64) + 0x1_0000_0000;
        w as u32
    }
}

/// The signed reading of a pattern, as executable code.
fn u32_signed(u: u32) -> (x: i32)
    ensures
        x == u32_as_i32(u),
{
    if u <= 0x7fff_ffff {
        u as i32
    } else {
        let w: i64 = (u as i64) - 0x1_0000_0000;
        w as i32
    }
}

/// Serializes a call to its payload bytes.
pub fn encode_call(c: FnCall) -> (r: Vec<u8>)
    ensures
        r@ == call_bytes(c),
        r@.len() == 5,
{
    let (tag, x): (u8, i32) = match c {
        FnCall::Add(x) => (TAG_ADD, x),
        FnCall::Echo(x) => (TAG_ECHO, x),
    };
    let mut r: Vec<u8> = Vec::new();
    r.push(tag);
    let mut operand = u32_to_le_bytes(i32_bits(x));
    r.append(&mut operand);
    proof {
        assert(r@ =~= call_bytes(c));
    }
    r
}

/// Serializes a result to its payload bytes.
pub fn encode_res(r: FnRes) -> (out: Vec<u8>)
    ensures
        out@ == res_bytes(r),
        out@.len() == 5,
{
    let (tag, x): (u8, i32) = match r {
        FnRes::Add(x) => (TAG_ADD, x),
        FnRes::Echo(x) => (TAG_ECHO, x),
    };
    let mut out: Vec<u8> = Vec::new();
    out.push(tag);
    let mut operand = u32_to_le_bytes(i32_bits(x));
    out.append(&mut operand);
    proof {
        assert(out@ =~= res_bytes(r));
    }
    out
}

/// Deserializes a call from a whole payload; a payload of the wrong size or
/// with an unknown tag fails with `MalformedFrame`.
pub fn decode_call(buf: &[u8]) -> (r: Result<FnCall, WidowError>)
    ensures
        match parse_call(buf@) {
            Some(c) => r == Ok::<FnCall, WidowError>(c),
            None => r == Err::<FnCall, WidowError>(WidowError::MalformedFrame),
        },
{
    if buf.len() != 5 {
        return Err(WidowError::MalformedFrame);
    }
    let tag: u8 = buf[0];
    if tag != TAG_ADD && tag != TAG_ECHO {
        return Err(WidowError::MalformedFrame);
    }
    let operand = slice_subrange(buf, 1, 5);
    let x: i32 = u32_signed(u32_from_le_bytes(operand));
    if tag == TAG_ADD {
        Ok(FnCall::Add(x))
    } else {
        Ok(FnCall::Echo(x))
    }
}

/// Deserializes a result from a whole payload; a payload of the wrong size or
/// with an unknown tag fails with `MalformedFrame`.
pub fn decode_res(buf: &[u8]) -> (r: Result<FnRes, WidowError>)
    ensures
        match parse_res(buf@) {
            Some(v) => r == Ok::<FnRes, WidowError>(v),
            None => r == Err::<FnRes, WidowError>(WidowError::MalformedFrame),
        },
{
    if buf.len() != 5 {
        return Err(WidowError::MalformedFrame);
    }
    let tag: u8 = buf[0];
    if tag != TAG_ADD && tag != TAG_ECHO {
        return Err(WidowError::MalformedFrame);
    }
    let operand = slice_subrange(buf, 1, 5);
    let x: i32 = u32_signed(u32_from_le_bytes(operand));
    if tag == TAG_ADD {
        Ok(FnRes::Add(x))
    } else {
        Ok(FnRes::Echo(x))
    }
}

/// Builds the stream frame carrying one call.
pub fn encode_call_frame(c: FnCall) -> (r: Vec<u8>)
    ensures
        r@ == frame_bytes(call_bytes(c)),
{
    let payload = encode_call(c);
    frame_payload(payload)
}

/// Builds the stream frame carrying one result.
pub fn encode_res_frame(res: FnRes) -> (r: Vec<u8>)
    ensures
        r@ == frame_bytes(res_bytes(res)),
{
    let payload = encode_res(res);
    frame_payload(payload)
}

/// Prefixes a payload with its length as four big-endian bytes.
fn frame_payload(payload: Vec<u8>) -> (r: Vec<u8>)
    ensures
        r@ == frame_bytes(payload@),
{
    let ghost orig = payload@;
    let prefix = usize_to_u8_array(payload.len());
    let mut r: Vec<u8> = Vec::new();
    r.push(prefix[0]);
    r.push(prefix[1]);
    r.push(prefix[2]);
    r.push(prefix[3]);
    let mut rest = payload;
    r.append(&mut rest);
    proof {
        assert(r@ =~= frame_bytes(orig));
    }
    r
}

/// Reads a frame's four-byte length prefix and checks it against the
/// configured maximum payload size: a prefix declaring more than `max` bytes
/// fails with `FrameTooLarge`, so no read beyond that bound is ever attempted.
pub fn frame_payload_len(n_buf: &[u8], max: usize) -> (r: Result<usize, WidowError>)
    requires
        n_buf@.len() == 4,
    ensures
        be32_val(n_buf@) <= max ==> r == Ok::<usize, WidowError>(be32_val(n_buf@) as usize),
        be32_val(n_buf@) > max ==> r == Err::<usize, WidowError>(WidowError::FrameTooLarge),
{
    let n: usize = u8_array_to_usize(n_buf, 0);
    proof {
        assert(n_buf@.subrange(0, 4) =~= n_buf@);
    }
    if n > max {
        Err(WidowError::FrameTooLarge)
    } else {
        Ok(n)
    }
}

} // verus!
