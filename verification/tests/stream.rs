use docker_run::demux::{demux, Accumulator, Demux, StreamOutput};
use docker_run::docker::{
    attach_succeeded, be_u32, decode_frame, reply_detail, request_succeeded, Frame, FrameReader,
    ReadFailure, StreamError, StreamType, HEADER_LEN, TYPE_WORD_LEN,
};
use docker_run::run::Error;

fn frame(stream_type: u8, payload: &[u8]) -> Vec<u8> {
    let mut bytes = vec![stream_type, 0, 0, 0];
    bytes.extend_from_slice(&(payload.len() as u32).to_be_bytes());
    bytes.extend_from_slice(payload);
    bytes
}

#[test]
fn header_is_two_words() {
    assert_eq!(TYPE_WORD_LEN, 4);
    assert_eq!(HEADER_LEN, 8);
}

#[test]
fn stream_type_from_byte() {
    assert_eq!(StreamType::from_byte(0), Some(StreamType::Stdin));
    assert_eq!(StreamType::from_byte(1), Some(StreamType::Stdout));
    assert_eq!(StreamType::from_byte(2), Some(StreamType::Stderr));
    assert_eq!(StreamType::from_byte(3), None);
    assert_eq!(StreamType::from_byte(255), None);
}

#[test]
fn stream_type_round_trip() {
    for stream_type in [StreamType::Stdin, StreamType::Stdout, StreamType::Stderr] {
        assert_eq!(StreamType::from_byte(stream_type.to_byte()), Some(stream_type));
    }
    assert_eq!(StreamType::Stdout.to_byte(), 1);
}

#[test]
fn length_is_big_endian() {
    assert_eq!(be_u32(0, 0, 0, 11), 11);
    assert_eq!(be_u32(0, 0, 1, 0), 256);
    assert_eq!(be_u32(1, 2, 3, 4), 0x0102_0304);
    assert_eq!(be_u32(255, 255, 255, 255), u32::MAX);
    assert_eq!(be_u32(0x12, 0x34, 0x56, 0x78), u32::from_be_bytes([0x12, 0x34, 0x56, 0x78]));
}

#[test]
fn decode_frame_needs_the_type_word() {
    assert_eq!(decode_frame(&[]), Ok(None));
    assert_eq!(decode_frame(&[1]), Ok(None));
    assert_eq!(decode_frame(&[9, 0, 0]), Ok(None));
}

#[test]
fn decode_frame_judges_the_type_before_the_length() {
    assert_eq!(decode_frame(&[9, 0, 0, 0]), Err(StreamError::UnknownStreamType(9)));
    assert_eq!(decode_frame(&[3, 0, 0, 0, 0, 0, 0, 0]), Err(StreamError::UnknownStreamType(3)));
}

#[test]
fn decode_frame_waits_for_the_payload() {
    assert_eq!(decode_frame(&[1, 0, 0, 0, 0, 0]), Ok(None));
    assert_eq!(decode_frame(&[1, 0, 0, 0, 0, 0, 0, 2, 65]), Ok(None));
}

#[test]
fn decode_frame_takes_exactly_the_payload() {
    let mut bytes = frame(2, b"oops");
    bytes.extend_from_slice(&[1, 0, 0]);
    assert_eq!(
        decode_frame(&bytes),
        Ok(Some(Frame { stream_type: StreamType::Stderr, payload: b"oops".to_vec() }))
    );
}

#[test]
fn decode_frame_ignores_the_padding() {
    assert_eq!(
        decode_frame(&[1, 7, 8, 9, 0, 0, 0, 1, 65]),
        Ok(Some(Frame { stream_type: StreamType::Stdout, payload: vec![65] }))
    );
}

#[test]
fn decode_frame_of_no_payload() {
    assert_eq!(
        decode_frame(&frame(1, b"")),
        Ok(Some(Frame { stream_type: StreamType::Stdout, payload: vec![] }))
    );
}

#[test]
fn reader_cuts_frames_across_pushes() {
    let bytes = [frame(1, b"hello"), frame(2, b"x"), frame(1, b"")].concat();
    let mut reader = FrameReader::new();
    let mut frames = Vec::new();
    for byte in &bytes {
        reader.push(&[*byte]);
        while let Some(frame) = reader.next_frame().unwrap() {
            frames.push(frame);
        }
    }
    assert_eq!(
        frames,
        vec![
            Frame { stream_type: StreamType::Stdout, payload: b"hello".to_vec() },
            Frame { stream_type: StreamType::Stderr, payload: b"x".to_vec() },
            Frame { stream_type: StreamType::Stdout, payload: vec![] },
        ]
    );
    assert_eq!(reader.finish(), Ok(()));
}

#[test]
fn reader_keeps_an_invalid_header() {
    let mut reader = FrameReader::new();
    reader.push(&[7, 0, 0, 0, 0]);
    assert_eq!(reader.next_frame(), Err(StreamError::UnknownStreamType(7)));
    assert_eq!(reader.next_frame(), Err(StreamError::UnknownStreamType(7)));
}

#[test]
fn reader_end_of_stream_by_position() {
    let mut reader = FrameReader::new();
    assert_eq!(reader.finish(), Ok(()));
    reader.push(&[1]);
    assert_eq!(reader.finish(), Err(StreamError::ReadStreamType(ReadFailure::UnexpectedEof)));
    reader.push(&[0, 0, 0]);
    assert_eq!(reader.finish(), Err(StreamError::ReadStreamLength(ReadFailure::UnexpectedEof)));
    reader.push(&[0, 0, 0]);
    assert_eq!(reader.finish(), Err(StreamError::ReadStreamLength(ReadFailure::UnexpectedEof)));
    reader.push(&[3]);
    assert_eq!(reader.finish(), Err(StreamError::Read(ReadFailure::UnexpectedEof)));
    reader.push(&[1, 2]);
    assert_eq!(reader.finish(), Err(StreamError::Read(ReadFailure::UnexpectedEof)));
}

#[test]
fn reader_read_failure_by_position() {
    let io = || ReadFailure::Io("reset".to_string());
    let mut reader = FrameReader::new();
    assert_eq!(reader.read_failure(io()), StreamError::ReadStreamType(io()));
    reader.push(&[1, 0, 0, 0]);
    assert_eq!(reader.read_failure(io()), StreamError::ReadStreamLength(io()));
    reader.push(&[0, 0, 0, 9]);
    assert_eq!(reader.read_failure(io()), StreamError::Read(io()));
}

#[test]
fn demux_of_nothing() {
    assert_eq!(demux(&[], 0), Ok(StreamOutput { stdout: vec![], stderr: vec![] }));
}

#[test]
fn demux_reconstructs_both_channels_in_order() {
    let bytes = [
        frame(1, b"{\"a\":"),
        frame(2, b"warn"),
        frame(1, b"1"),
        frame(2, b"ing"),
        frame(1, b"}"),
    ]
    .concat();
    assert_eq!(
        demux(&bytes, 100),
        Ok(StreamOutput { stdout: b"{\"a\":1}".to_vec(), stderr: b"warning".to_vec() })
    );
}

#[test]
fn demux_accepts_output_up_to_the_ceiling() {
    let bytes = [frame(1, b"12345"), frame(1, b"67890")].concat();
    assert_eq!(
        demux(&bytes, 10),
        Ok(StreamOutput { stdout: b"1234567890".to_vec(), stderr: vec![] })
    );
}

#[test]
fn demux_rejects_the_frame_that_crosses_the_ceiling() {
    let bytes = frame(1, b"12345678901");
    assert_eq!(demux(&bytes, 10), Err(Error::ReadStream(StreamError::MaxReadSize(10))));
    let bytes = [frame(1, b"12345"), frame(1, b"678901")].concat();
    assert_eq!(demux(&bytes, 10), Err(Error::ReadStream(StreamError::MaxReadSize(10))));
}

#[test]
fn demux_does_not_count_the_error_channel() {
    let bytes = [frame(2, b"a long complaint"), frame(1, b"ok")].concat();
    assert_eq!(
        demux(&bytes, 2),
        Ok(StreamOutput { stdout: b"ok".to_vec(), stderr: b"a long complaint".to_vec() })
    );
}

#[test]
fn demux_fails_on_unknown_stream_type() {
    let bytes = [frame(1, b"ok"), vec![4, 0, 0, 0], frame(1, b"later")].concat();
    assert_eq!(demux(&bytes, 100), Err(Error::ReadStream(StreamError::UnknownStreamType(4))));
}

#[test]
fn demux_fails_on_input_echo() {
    let bytes = [frame(1, b"ok"), frame(0, b"echo"), vec![9, 9, 9, 9]].concat();
    assert_eq!(demux(&bytes, 100), Err(Error::StreamStdinUnexpected(b"echo".to_vec())));
    assert_eq!(demux(&frame(0, b""), 100), Err(Error::StreamStdinUnexpected(vec![])));
}

#[test]
fn demux_first_failure_wins() {
    let bytes = [frame(1, b"too long"), frame(0, b"echo")].concat();
    assert_eq!(demux(&bytes, 3), Err(Error::ReadStream(StreamError::MaxReadSize(3))));
    let bytes = [frame(0, b"echo"), frame(1, b"too long")].concat();
    assert_eq!(demux(&bytes, 3), Err(Error::StreamStdinUnexpected(b"echo".to_vec())));
}

#[test]
fn demux_fails_when_the_stream_ends_inside_a_frame() {
    let whole = frame(1, b"abc");
    assert_eq!(
        demux(&whole[..2], 100),
        Err(Error::ReadStream(StreamError::ReadStreamType(ReadFailure::UnexpectedEof)))
    );
    assert_eq!(
        demux(&whole[..6], 100),
        Err(Error::ReadStream(StreamError::ReadStreamLength(ReadFailure::UnexpectedEof)))
    );
    assert_eq!(
        demux(&whole[..10], 100),
        Err(Error::ReadStream(StreamError::Read(ReadFailure::UnexpectedEof)))
    );
    assert_eq!(
        demux(&whole[..8], 100),
        Err(Error::ReadStream(StreamError::Read(ReadFailure::UnexpectedEof)))
    );
}

#[test]
fn demux_a_cut_frame_over_the_ceiling_is_a_read_failure() {
    let whole = frame(1, b"12345678901");
    assert_eq!(
        demux(&whole[..12], 10),
        Err(Error::ReadStream(StreamError::Read(ReadFailure::UnexpectedEof)))
    );
}

#[test]
fn feeding_in_pieces_is_feeding_at_once() {
    let bytes = [frame(1, b"hello "), frame(2, b"e1"), frame(1, b"world"), frame(2, b"e2")].concat();
    let at_once = demux(&bytes, 11);
    for size in 1..bytes.len() {
        let mut fed = Demux::new(11);
        for chunk in bytes.chunks(size) {
            fed = fed.feed(chunk).unwrap();
        }
        assert_eq!(fed.finish(), at_once);
    }
    assert_eq!(
        at_once,
        Ok(StreamOutput { stdout: b"hello world".to_vec(), stderr: b"e1e2".to_vec() })
    );
}

#[test]
fn feeding_fails_at_the_chunk_that_completes_the_bad_frame() {
    let bytes = frame(1, b"123456");
    let fed = Demux::new(5).feed(&bytes[..13]).unwrap();
    assert_eq!(fed.output_len(), 0);
    assert_eq!(
        fed.feed(&bytes[13..]).err(),
        Some(Error::ReadStream(StreamError::MaxReadSize(5)))
    );
}

#[test]
fn output_held_never_passes_the_ceiling() {
    let mut fed = Demux::new(4);
    for payload in [&b"ab"[..], &b""[..], &b"cd"[..]] {
        fed = fed.feed(&frame(1, payload)).unwrap();
        assert!(fed.output_len() <= 4);
    }
    assert_eq!(fed.output_len(), 4);
    assert!(fed.feed(&frame(1, b"e")).is_err());
}

#[test]
fn read_failure_says_where_the_stream_was() {
    let io = || ReadFailure::Io("reset".to_string());
    let fed = Demux::new(10).feed(&frame(1, b"ab")).unwrap();
    assert_eq!(fed.read_failure(io()), StreamError::ReadStreamType(io()));
    let fed = fed.feed(&[1, 0, 0, 0, 0]).unwrap();
    assert_eq!(fed.read_failure(io()), StreamError::ReadStreamLength(io()));
    let fed = fed.feed(&[0, 0, 2, 7]).unwrap();
    assert_eq!(fed.read_failure(io()), StreamError::Read(io()));
}

#[test]
fn accumulator_takes_a_payload_whole_or_not_at_all() {
    let mut output = Accumulator::new(5);
    assert_eq!(output.len(), 0);
    assert_eq!(output.append(b"abc".to_vec()), Ok(()));
    assert_eq!(output.len(), 3);
    assert_eq!(output.append(b"def".to_vec()), Err(StreamError::MaxReadSize(5)));
    assert_eq!(output.len(), 3);
    assert_eq!(output.append(vec![]), Ok(()));
    assert_eq!(output.append(b"de".to_vec()), Ok(()));
    assert_eq!(output.append(b"f".to_vec()), Err(StreamError::MaxReadSize(5)));
    assert_eq!(output.into_bytes(), b"abcde".to_vec());
}

#[test]
fn accumulator_of_no_room() {
    let mut output = Accumulator::new(0);
    assert_eq!(output.append(vec![]), Ok(()));
    assert_eq!(output.append(vec![1]), Err(StreamError::MaxReadSize(0)));
    assert_eq!(output.into_bytes(), Vec::<u8>::new());
}

#[test]
fn reader_drops_what_was_taken() {
    let mut reader = FrameReader::new();
    let mut taken = 0;
    for round in 0..1000u32 {
        let mut bytes = frame(1, &round.to_be_bytes());
        bytes.extend_from_slice(&[2, 0]);
        if round > 0 {
            bytes.drain(..2);
        }
        reader.push(&bytes);
        while let Some(frame) = reader.next_frame().unwrap() {
            assert_eq!(frame.payload, (taken as u32).to_be_bytes().to_vec());
            taken += 1;
        }
    }
    assert_eq!(taken, 1000);
    assert_eq!(reader.finish(), Err(StreamError::ReadStreamType(ReadFailure::UnexpectedEof)));
}

#[test]
fn replies_of_success() {
    assert!(request_succeeded(200));
    assert!(request_succeeded(201));
    assert!(request_succeeded(204));
    assert!(request_succeeded(299));
    assert!(!request_succeeded(199));
    assert!(!request_succeeded(300));
    assert!(!request_succeeded(404));
    assert!(!request_succeeded(101));
    assert!(attach_succeeded(101));
    assert!(attach_succeeded(200));
    assert!(!attach_succeeded(201));
    assert!(!attach_succeeded(409));
}

#[test]
fn reply_detail_names_status_and_body() {
    assert_eq!(
        reply_detail(404, b"{\"message\":\"No such image: runner\"}"),
        "status 404: {\"message\":\"No such image: runner\"}"
    );
    assert_eq!(reply_detail(500, b""), "status 500: ");
}
