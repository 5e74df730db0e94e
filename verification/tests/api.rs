use docker_run::api::{
    answer, error_code, failure, frame_error_body, parse_failure, Error, ErrorBody, BAD_REQUEST,
};
use docker_run::demux::StreamOutput;
use docker_run::docker::{ReadFailure, StreamError};
use docker_run::run::{conclude, decoded, Limits, NANOS_PER_SEC};
use docker_run::text::decimal;
use docker_run::run;
use serde_json::Value;

fn eof() -> ReadFailure {
    ReadFailure::UnexpectedEof
}

fn text(s: &str) -> String {
    s.to_string()
}

#[test]
fn error_code_of_each_step() {
    assert_eq!(error_code(&run::Error::Connect(text("x"))), "docker.connect");
    assert_eq!(error_code(&run::Error::SetStreamTimeout(text("x"))), "docker.unixsocket");
    assert_eq!(error_code(&run::Error::CreateContainer(text("x"))), "docker.container.create");
    assert_eq!(error_code(&run::Error::StartContainer(text("x"))), "docker.container.start");
    assert_eq!(error_code(&run::Error::AttachContainer(text("x"))), "docker.container.attach");
    assert_eq!(
        error_code(&run::Error::SerializePayload(text("x"))),
        "docker.container.stream.payload.serialize"
    );
    assert_eq!(error_code(&run::Error::StreamStdinUnexpected(vec![1])), "coderunner.stdin");
    assert_eq!(error_code(&run::Error::StreamStderr(vec![1])), "coderunner.stderr");
    assert_eq!(error_code(&run::Error::StreamStdoutDecode(text("x"))), "coderunner.stdout.decode");
}

#[test]
fn error_code_of_each_stream_error() {
    let code = |e: StreamError| error_code(&run::Error::ReadStream(e));
    assert_eq!(code(StreamError::Read(eof())), "docker.container.stream.read");
    assert_eq!(code(StreamError::ReadStreamType(eof())), "docker.container.stream.read");
    assert_eq!(code(StreamError::UnknownStreamType(3)), "docker.container.stream.type.unknown");
    assert_eq!(code(StreamError::ReadStreamLength(eof())), "docker.container.stream.read");
    assert_eq!(code(StreamError::InvalidStreamLength(7)), "docker.container.stream.read");
    assert_eq!(code(StreamError::MaxExecutionTime), "limits.execution_time");
    assert_eq!(code(StreamError::MaxReadSize(10)), "limits.read.size");
}

#[test]
fn message_of_each_step() {
    assert_eq!(
        run::Error::Connect(text("refused")).message(),
        "Failed to connect to docker unix socket: refused"
    );
    assert_eq!(
        run::Error::SetStreamTimeout(text("bad")).message(),
        "Failed to set stream timeout: bad"
    );
    assert_eq!(
        run::Error::CreateContainer(text("No such image")).message(),
        "Failed to create container: No such image"
    );
    assert_eq!(run::Error::StartContainer(text("x")).message(), "Failed to start container: x");
    assert_eq!(run::Error::AttachContainer(text("x")).message(), "Failed to attach to container: x");
    assert_eq!(run::Error::SerializePayload(text("x")).message(), "Failed to serialize payload: x");
    assert_eq!(
        run::Error::StreamStdinUnexpected(b"abc".to_vec()).message(),
        "Code runner returned unexpected stdin data: abc"
    );
    assert_eq!(
        run::Error::StreamStderr(b"panic!".to_vec()).message(),
        "Code runner failed with the following message: panic!"
    );
    assert_eq!(
        run::Error::StreamStdoutDecode(text("expected value")).message(),
        "Failed to decode json returned from code runner: expected value"
    );
}

#[test]
fn message_of_each_stream_error() {
    let message = |e: StreamError| run::Error::ReadStream(e).message();
    assert_eq!(
        message(StreamError::Read(eof())),
        "Failed to read stream: Failed to read payload: unexpected end of stream"
    );
    assert_eq!(
        message(StreamError::ReadStreamType(ReadFailure::Io(text("reset")))),
        "Failed to read stream: Failed to read stream type: reset"
    );
    assert_eq!(
        message(StreamError::ReadStreamLength(eof())),
        "Failed to read stream: Failed to read stream length: unexpected end of stream"
    );
    assert_eq!(
        message(StreamError::UnknownStreamType(200)),
        "Failed to read stream: Unknown stream type: 200"
    );
    assert_eq!(
        message(StreamError::InvalidStreamLength(4_000_000_000)),
        "Failed to read stream: Invalid stream length: 4000000000"
    );
    assert_eq!(
        message(StreamError::MaxExecutionTime),
        "Failed to read stream: Max execution time exceeded"
    );
    assert_eq!(
        message(StreamError::MaxReadSize(10)),
        "Failed to read stream: Max read size exceeded: 10"
    );
    assert_eq!(StreamError::MaxReadSize(0).message(), "Max read size exceeded: 0");
    assert_eq!(eof().message(), "unexpected end of stream");
}

#[test]
fn message_replaces_what_is_no_text() {
    assert_eq!(
        run::Error::StreamStderr(vec![b'a', 0xff, b'b']).message(),
        "Code runner failed with the following message: a\u{fffd}b"
    );
    assert_eq!(
        run::Error::StreamStdinUnexpected("h\u{e9}".as_bytes().to_vec()).message(),
        "Code runner returned unexpected stdin data: h\u{e9}"
    );
}

#[test]
fn decimal_of_numbers() {
    assert_eq!(decimal(0), "0");
    assert_eq!(decimal(7), "7");
    assert_eq!(decimal(10), "10");
    assert_eq!(decimal(255), "255");
    assert_eq!(decimal(1_234_567_890), "1234567890");
    assert_eq!(decimal(u64::MAX), "18446744073709551615");
}

#[test]
fn frame_error_body_is_an_object_of_two_members() {
    assert_eq!(
        frame_error_body(b"\"a\"", b"\"b\""),
        b"{\"error\":\"a\",\"message\":\"b\"}".to_vec()
    );
    assert_eq!(frame_error_body(b"", b""), b"{\"error\":,\"message\":}".to_vec());
}

#[test]
fn error_body_as_json() {
    let body = ErrorBody { error: text("limits.read.size"), message: text("too much") };
    assert_eq!(
        body.to_json(),
        Some(b"{\"error\":\"limits.read.size\",\"message\":\"too much\"}".to_vec())
    );
}

#[test]
fn error_body_escapes_its_strings() {
    let body = ErrorBody { error: text("a\"b"), message: text("line\nbreak \\ \u{e9}\u{1}") };
    let json = body.to_json().unwrap();
    assert_eq!(
        json,
        "{\"error\":\"a\\\"b\",\"message\":\"line\\nbreak \\\\ \u{e9}\\u0001\"}".as_bytes().to_vec()
    );
    let parsed: Value = serde_json::from_slice(&json).unwrap();
    assert_eq!(parsed.get("error"), Some(&Value::String(text("a\"b"))));
    assert_eq!(
        parsed.get("message"),
        Some(&Value::String(text("line\nbreak \\ \u{e9}\u{1}")))
    );
    assert_eq!(parsed.as_object().unwrap().len(), 2);
}

#[test]
fn failure_carries_code_and_message() {
    let error = run::Error::CreateContainer(text("No such image: \"runner\""));
    let answer = failure(&error).unwrap();
    assert_eq!(answer.status_code, 400);
    assert_eq!(BAD_REQUEST, 400);
    assert_eq!(
        answer.body,
        b"{\"error\":\"docker.container.create\",\"message\":\"Failed to create container: No such image: \\\"runner\\\"\"}".to_vec()
    );
    let parsed: Value = serde_json::from_slice(&answer.body).unwrap();
    assert_eq!(parsed.get("error"), Some(&Value::String(error_code(&error))));
    assert_eq!(parsed.get("message"), Some(&Value::String(error.message())));
}

#[test]
fn failure_of_a_ceiling() {
    let answer = failure(&run::Error::ReadStream(StreamError::MaxReadSize(10))).unwrap();
    assert_eq!(
        answer,
        Error {
            status_code: 400,
            body: b"{\"error\":\"limits.read.size\",\"message\":\"Failed to read stream: Max read size exceeded: 10\"}".to_vec(),
        }
    );
}

#[test]
fn parse_failure_has_its_own_code() {
    let answer = parse_failure("expected value at line 1 column 1").unwrap();
    assert_eq!(
        answer,
        Error {
            status_code: 400,
            body: b"{\"error\":\"request.parse\",\"message\":\"Failed to parse json from request: expected value at line 1 column 1\"}".to_vec(),
        }
    );
}

#[test]
fn answer_with_the_object() {
    let mut object = serde_json::Map::new();
    object.insert(text("stdout"), Value::String(text("hi\n")));
    object.insert(text("ok"), Value::Bool(true));
    assert_eq!(answer(&Ok(object)), Some(Ok(b"{\"ok\":true,\"stdout\":\"hi\\n\"}".to_vec())));
    assert_eq!(answer(&Ok(serde_json::Map::new())), Some(Ok(b"{}".to_vec())));
}

#[test]
fn answer_with_the_failure() {
    let error = run::Error::ReadStream(StreamError::MaxExecutionTime);
    assert_eq!(
        answer(&Err(error)),
        Some(Err(Error {
            status_code: 400,
            body: b"{\"error\":\"limits.execution_time\",\"message\":\"Failed to read stream: Max execution time exceeded\"}".to_vec(),
        }))
    );
}

#[test]
fn deadline_is_over_after_the_time_allowed() {
    assert_eq!(NANOS_PER_SEC, 1_000_000_000);
    let limits = Limits { max_execution_time: 3, max_output_size: 0 };
    assert!(!limits.expired(0));
    assert!(!limits.expired(2_999_999_999));
    assert!(!limits.expired(3_000_000_000));
    assert!(limits.expired(3_000_000_001));
    assert!(limits.expired(u128::MAX));
    assert_eq!(limits.check_deadline(3_000_000_000), Ok(()));
    assert_eq!(limits.check_deadline(3_000_000_001), Err(StreamError::MaxExecutionTime));
}

#[test]
fn deadline_of_the_longest_time() {
    let limits = Limits { max_execution_time: u64::MAX, max_output_size: 0 };
    let allowed = u64::MAX as u128 * 1_000_000_000;
    assert!(!limits.expired(allowed));
    assert!(limits.expired(allowed + 1));
}

#[test]
fn conclude_decodes_the_output() {
    let output = StreamOutput { stdout: b" {\"a\": [1, 2.5, null]} ".to_vec(), stderr: vec![] };
    let object = conclude(output).unwrap();
    assert_eq!(serde_json::to_string(&object).unwrap(), "{\"a\":[1,2.5,null]}");
}

#[test]
fn conclude_puts_the_error_channel_first() {
    let output = StreamOutput { stdout: b"not json".to_vec(), stderr: b"boom".to_vec() };
    assert_eq!(conclude(output), Err(run::Error::StreamStderr(b"boom".to_vec())));
}

#[test]
fn conclude_fails_on_what_is_no_object() {
    let of = |stdout: &[u8]| conclude(StreamOutput { stdout: stdout.to_vec(), stderr: vec![] });
    assert_eq!(
        of(b"{\"a\":1} x"),
        Err(run::Error::StreamStdoutDecode(text("trailing characters at line 1 column 9")))
    );
    assert_eq!(
        of(b"{\"a\""),
        Err(run::Error::StreamStdoutDecode(text("EOF while parsing an object at line 1 column 4")))
    );
    assert!(matches!(of(b"\"text\""), Err(run::Error::StreamStdoutDecode(_))));
    assert!(matches!(of(b"12"), Err(run::Error::StreamStdoutDecode(_))));
}

#[test]
fn decoded_maps_the_complaint() {
    assert_eq!(decoded(Err(text("bad"))), Err(run::Error::StreamStdoutDecode(text("bad"))));
    assert_eq!(decoded(Ok(serde_json::Map::new())), Ok(serde_json::Map::new()));
}
