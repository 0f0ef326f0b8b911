//! The length-prefixed frame format and the client's reply checks.

use vbench::ipc::client::{finish_exchange, ping_version, RequestIds};
use vbench::ipc::error::IpcClientError;
use vbench::ipc::types::{Output, Response};
use vbench::ipc::wire::{decode_frame, encode_frame, frame_header, frame_payload_len, FrameRead, MAX_FRAME_SIZE};

fn read_back(bytes: &[u8]) -> (Vec<u8>, usize) {
    match decode_frame(bytes).unwrap() {
        FrameRead::Complete { payload, consumed } => (payload, consumed),
        FrameRead::Incomplete => panic!("incomplete frame"),
    }
}

#[test]
fn round_trip_frame() {
    let payload = b"hello world";
    let bytes = encode_frame(payload).unwrap();
    let (got, consumed) = read_back(&bytes);
    assert_eq!(got, payload);
    assert_eq!(consumed, bytes.len());
}

#[test]
fn round_trip_empty_frame() {
    let bytes = encode_frame(b"").unwrap();
    let (got, _) = read_back(&bytes);
    assert!(got.is_empty());
}

#[test]
fn oversized_write_rejected() {
    let payload = vec![0u8; (MAX_FRAME_SIZE as usize) + 1];
    let err = encode_frame(&payload).unwrap_err();
    assert!(matches!(err, IpcClientError::FrameTooLarge { .. }));
}

#[test]
fn header_is_big_endian() {
    assert_eq!(frame_header(0x0102_0304).unwrap(), [1, 2, 3, 4]);
    assert_eq!(frame_payload_len([1, 2, 3, 4]).unwrap(), 0x0102_0304);
    assert_eq!(frame_header(MAX_FRAME_SIZE as usize).unwrap(), [4, 0, 0, 0]);
}

#[test]
fn oversized_header_rejected_on_read() {
    match frame_payload_len([4, 0, 0, 1]) {
        Err(IpcClientError::FrameTooLarge { bytes, max }) => {
            assert_eq!(bytes, 0x0400_0001);
            assert_eq!(max, 64 * 1024 * 1024);
        }
        _ => panic!("expected FrameTooLarge"),
    }
    // the header alone is enough to refuse the frame
    assert!(matches!(decode_frame(&[0xff, 0xff, 0xff, 0xff]), Err(IpcClientError::FrameTooLarge { .. })));
}

#[test]
fn partial_frames_are_incomplete() {
    assert!(matches!(decode_frame(&[0, 0]), Ok(FrameRead::Incomplete)));
    assert!(matches!(decode_frame(&[0, 0, 0, 3, b'a']), Ok(FrameRead::Incomplete)));
}

#[test]
fn frame_followed_by_more_bytes() {
    let mut bytes = encode_frame(b"abc").unwrap();
    bytes.extend_from_slice(&[9, 9, 9]);
    let (got, consumed) = read_back(&bytes);
    assert_eq!(got, b"abc");
    assert_eq!(consumed, 7);
}

#[test]
fn request_ids_count_up_from_one() {
    let mut ids = RequestIds::new();
    assert_eq!(ids.issue(), 1);
    assert_eq!(ids.issue(), 2);
    assert_eq!(ids.issue(), 3);
    for _ in 0..10 {
        ids.issue();
    }
    // after 13 requests the next carries id 14
    assert_eq!(ids.issue(), 14);
}

#[test]
fn responses_are_matched_to_requests() {
    let ok: Response<f32> = Response { id: 7, result: Ok(Output::Version(42)) };
    assert!(matches!(finish_exchange(7, ok), Ok(Output::Version(42))));
    let wrong: Response<f32> = Response { id: 8, result: Ok(Output::Bool(true)) };
    match finish_exchange(7, wrong) {
        Err(IpcClientError::ResponseIdMismatch { expected, got }) => {
            assert_eq!(expected, 7);
            assert_eq!(got, 8);
        }
        _ => panic!("expected an id mismatch"),
    }
    let failed: Response<f32> = Response {
        id: 3,
        result: Err(vbench::ipc::types::IpcError(rmpv::Value::String("boom".into()))),
    };
    assert!(matches!(finish_exchange(3, failed), Err(IpcClientError::ServerError(_))));
}

#[test]
fn ping_reads_the_version() {
    let pong: Output<f32> = Output::Pong { version: "0.6.1".to_string() };
    assert_eq!(ping_version(pong).unwrap(), "0.6.1");
    let other: Output<f32> = Output::Bool(false);
    assert!(matches!(ping_version(other), Err(Output::Bool(false))));
}
