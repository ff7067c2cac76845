use widow::codec::{
    decode_call, decode_res, encode_call, encode_call_frame, encode_res, encode_res_frame,
    frame_payload_len, TAG_ADD, TAG_ECHO,
};
use widow::consts::{FnCall, FnRes, WidowError, MSG_BUF_SIZE};
use widow::utils::{u8_array_to_usize, usize_to_u8_array};

const BOUNDARY_OPERANDS: [i32; 5] = [i32::MIN, -1, 0, 1, i32::MAX];

#[test]
fn call_roundtrip_boundary_values() {
    for x in BOUNDARY_OPERANDS {
        let add = FnCall::Add(x);
        let echo = FnCall::Echo(x);
        assert_eq!(decode_call(&encode_call(add)).unwrap(), add);
        assert_eq!(decode_call(&encode_call(echo)).unwrap(), echo);
    }
}

#[test]
fn res_roundtrip_boundary_values() {
    for x in BOUNDARY_OPERANDS {
        let add = FnRes::Add(x);
        let echo = FnRes::Echo(x);
        assert_eq!(decode_res(&encode_res(add)).unwrap(), add);
        assert_eq!(decode_res(&encode_res(echo)).unwrap(), echo);
    }
}

#[test]
fn exact_payload_bytes() {
    assert_eq!(encode_call(FnCall::Add(5)), vec![TAG_ADD, 5, 0, 0, 0]);
    assert_eq!(encode_call(FnCall::Echo(-1)), vec![TAG_ECHO, 255, 255, 255, 255]);
    assert_eq!(encode_res(FnRes::Add(i32::MIN)), vec![TAG_ADD, 0, 0, 0, 0x80]);
    assert_eq!(encode_res(FnRes::Echo(0x0102_0304)), vec![TAG_ECHO, 4, 3, 2, 1]);
}

#[test]
fn operand_encoding_matches_bincode() {
    // The operand bytes are the same fixed-width little-endian encoding that
    // bincode's default configuration gives an i32.
    for x in BOUNDARY_OPERANDS {
        let ours = encode_call(FnCall::Add(x));
        let reference: Vec<u8> = bincode::serialize(&x).unwrap();
        assert_eq!(&ours[1..5], &reference[..]);
    }
}

#[test]
fn exact_frame_bytes() {
    assert_eq!(
        encode_call_frame(FnCall::Add(5)),
        vec![0, 0, 0, 5, TAG_ADD, 5, 0, 0, 0]
    );
    assert_eq!(
        encode_res_frame(FnRes::Echo(42)),
        vec![0, 0, 0, 5, TAG_ECHO, 42, 0, 0, 0]
    );
}

#[test]
fn framed_payload_decodes_back() {
    for x in BOUNDARY_OPERANDS {
        let frame = encode_call_frame(FnCall::Echo(x));
        let n = frame_payload_len(&frame[..4], MSG_BUF_SIZE).unwrap();
        assert_eq!(n, 5);
        assert_eq!(decode_call(&frame[4..4 + n]).unwrap(), FnCall::Echo(x));
    }
}

#[test]
fn unknown_tag_is_malformed() {
    assert_eq!(decode_call(&[2, 0, 0, 0, 0]), Err(WidowError::MalformedFrame));
    assert_eq!(decode_res(&[255, 1, 2, 3, 4]), Err(WidowError::MalformedFrame));
}

#[test]
fn wrong_payload_size_is_malformed() {
    assert_eq!(decode_call(&[]), Err(WidowError::MalformedFrame));
    assert_eq!(decode_call(&[TAG_ADD, 1, 2, 3]), Err(WidowError::MalformedFrame));
    assert_eq!(decode_res(&[TAG_ECHO, 1, 2, 3, 4, 5]), Err(WidowError::MalformedFrame));
}

#[test]
fn oversized_length_prefix_is_rejected() {
    // 4097 bytes declared, 4096 allowed.
    assert_eq!(
        frame_payload_len(&[0, 0, 16, 1], MSG_BUF_SIZE),
        Err(WidowError::FrameTooLarge)
    );
    // The largest representable declaration is rejected as well.
    assert_eq!(
        frame_payload_len(&[255, 255, 255, 255], MSG_BUF_SIZE),
        Err(WidowError::FrameTooLarge)
    );
}

#[test]
fn length_prefix_at_the_bound_is_accepted() {
    assert_eq!(frame_payload_len(&[0, 0, 16, 0], MSG_BUF_SIZE), Ok(4096));
    assert_eq!(frame_payload_len(&[0, 0, 0, 5], MSG_BUF_SIZE), Ok(5));
    assert_eq!(frame_payload_len(&[0, 0, 0, 0], MSG_BUF_SIZE), Ok(0));
}

#[test]
fn length_prefix_bytes_roundtrip() {
    for n in [0usize, 1, 5, 255, 256, 4096, 0xdead_beef, 0xffff_ffff] {
        let bytes = usize_to_u8_array(n);
        assert_eq!(u8_array_to_usize(&bytes, 0), n);
    }
    assert_eq!(usize_to_u8_array(4096), [0, 0, 16, 0]);
    assert_eq!(u8_array_to_usize(&[1, 2, 3, 4, 5, 6], 2), 0x0304_0506);
}

#[test]
fn length_prefix_keeps_low_bits_of_large_values() {
    assert_eq!(usize_to_u8_array(0x1_0000_0005), [0, 0, 0, 5]);
}
