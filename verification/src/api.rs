//! The face a run shows to its caller: a stable code for every failure and
//! the body that carries it.

use crate::docker::StreamErrorView;
use crate::docker;
use crate::json::{encode_object, encode_string, object_text, string_text};
use crate::lifecycle::{spec_failure, Phase, RunView};
use crate::run::{spec_message, ErrorView};
use crate::run;
use vstd::prelude::*;
use vstd::string::{StringExecFns, StringSliceAdditionalSpecFns};

verus! {

/// A failed request as it is answered: the status and the body to send.
#[derive(Debug, PartialEq, Eq)]
pub struct Error {
    pub status_code: u16,
    pub body: Vec<u8>,
}

/// What the body of a failed request says.
#[derive(Debug, PartialEq, Eq)]
pub struct ErrorBody {
    pub error: String,
    pub message: String,
}

/// The code of each failure. Codes under `docker.` blame the daemon's
/// protocol, those under `coderunner.` the code that ran, those under
/// `limits.` a ceiling that was hit.
pub open spec fn spec_error_code(error: ErrorView) -> Seq<char> {
    match error {
        ErrorView::Connect(_) => "docker.connect"@,
        ErrorView::SetStreamTimeout(_) => "docker.unixsocket"@,
        ErrorView::CreateContainer(_) => "docker.container.create"@,
        ErrorView::StartContainer(_) => "docker.container.start"@,
        ErrorView::AttachContainer(_) => "docker.container.attach"@,
        ErrorView::SerializePayload(_) => "docker.container.stream.payload.serialize"@,
        ErrorView::ReadStream(stream_error) => match stream_error {
            StreamErrorView::Read(_) => "docker.container.stream.read"@,
            StreamErrorView::ReadStreamType(_) => "docker.container.stream.read"@,
            StreamErrorView::UnknownStreamType(_) => "docker.container.stream.type.unknown"@,
            StreamErrorView::ReadStreamLength(_) => "docker.container.stream.read"@,
            StreamErrorView::InvalidStreamLength(_) => "docker.container.stream.read"@,
            StreamErrorView::MaxExecutionTime => "limits.execution_time"@,
            StreamErrorView::MaxReadSize(_) => "limits.read.size"@,
        },
        ErrorView::StreamStdinUnexpected(_) => "coderunner.stdin"@,
        ErrorView::StreamStderr(_) => "coderunner.stderr"@,
        ErrorView::StreamStdoutDecode(_) => "coderunner.stdout.decode"@,
    }
}

pub fn error_code(error: &run::Error) -> (code: String)
    ensures
        code@ == spec_error_code(error@),
{
    match error {
        run::Error::Connect(_) => { "docker.connect".to_string() },
        run::Error::SetStreamTimeout(_) => { "docker.unixsocket".to_string() },
        run::Error::CreateContainer(_) => { "docker.container.create".to_string() },
        run::Error::StartContainer(_) => { "docker.container.start".to_string() },
        run::Error::AttachContainer(_) => { "docker.container.attach".to_string() },
        run::Error::SerializePayload(_) => {
            "docker.container.stream.payload.serialize".to_string()
        },
        run::Error::ReadStream(stream_error) => {
            match stream_error {
                docker::StreamError::Read(_) => { "docker.container.stream.read".to_string() },
                docker::StreamError::ReadStreamType(_) => {
                    "docker.container.stream.read".to_string()
                },
                docker::StreamError::UnknownStreamType(_) => {
                    "docker.container.stream.type.unknown".to_string()
                },
                docker::StreamError::ReadStreamLength(_) => {
                    "docker.container.stream.read".to_string()
                },
                docker::StreamError::InvalidStreamLength(_) => {
                    "docker.container.stream.read".to_string()
                },
                docker::StreamError::MaxExecutionTime => { "limits.execution_time".to_string() },
                docker::StreamError::MaxReadSize(_) => { "limits.read.size".to_string() },
            }
        },
        run::Error::StreamStdinUnexpected(_) => { "coderunner.stdin".to_string() },
        run::Error::StreamStderr(_) => { "coderunner.stderr".to_string() },
        run::Error::StreamStdoutDecode(_) => { "coderunner.stdout.decode".to_string() },
    }
}

/// The code that a failure of each step is reported under.
pub open spec fn spec_phase_code(phase: Phase) -> Seq<char> {
    match phase {
        Phase::Connecting => "docker.connect"@,
        Phase::Creating => "docker.container.create"@,
        Phase::Starting => "docker.container.start"@,
        Phase::Attaching => "docker.container.attach"@,
        Phase::SettingTimeout => "docker.unixsocket"@,
        Phase::SendingPayload => "docker.container.stream.read"@,
        Phase::Draining => "docker.container.stream.read"@,
    }
}

/// The code of a step's failure depends on nothing but the step.
pub proof fn lemma_failure_code(run: RunView, detail: Seq<char>)
    ensures
        spec_error_code(spec_failure(run, detail)) == spec_phase_code(run.phase),
{
}

/// The status that every failed request is answered with.
pub const BAD_REQUEST: u16 = 400;

/// The body of a failed request as JSON text, from the JSON texts of its two
/// strings: an object with the members `error` and `message`, in this order.
pub open spec fn spec_error_body_text(error_text: Seq<u8>, message_text: Seq<u8>) -> Seq<u8> {
    "{\"error\":".spec_bytes() + error_text + ",\"message\":".spec_bytes() + message_text
        + "}".spec_bytes()
}

/// Puts the body of a failed request together from the JSON texts of its two
/// strings.
pub fn frame_error_body(error_text: &[u8], message_text: &[u8]) -> (body: Vec<u8>)
    ensures
        body@ == spec_error_body_text(error_text@, message_text@),
{
    let mut body: Vec<u8> = Vec::new();
    body.extend_from_slice("{\"error\":".as_bytes());
    body.extend_from_slice(error_text);
    body.extend_from_slice(",\"message\":".as_bytes());
    body.extend_from_slice(message_text);
    body.extend_from_slice("}".as_bytes());
    assert(body@ =~= spec_error_body_text(error_text@, message_text@));
    body
}

impl ErrorBody {
    /// The body as JSON text, where both of its strings have one.
    pub open spec fn spec_to_json(error: Seq<char>, message: Seq<char>) -> Option<Seq<u8>> {
        match (string_text(error), string_text(message)) {
            (Some(error_text), Some(message_text)) => Some(
                spec_error_body_text(error_text, message_text),
            ),
            _ => None,
        }
    }

    /// Writes the body down as JSON. `None` if a string cannot be written.
    pub fn to_json(&self) -> (r: Option<Vec<u8>>)
        ensures
            match Self::spec_to_json(self.error@, self.message@) {
                Some(text) => r matches Some(body) && body@ == text,
                None => r is None,
            },
    {
        let error_text = match encode_string(self.error.as_str()) {
            Some(text) => text,
            None => {
                return None;
            },
        };
        let message_text = match encode_string(self.message.as_str()) {
            Some(text) => text,
            None => {
                return None;
            },
        };
        Some(frame_error_body(error_text.as_slice(), message_text.as_slice()))
    }
}

/// The answer to a request whose run failed: the failure's code and what
/// it says of itself. `None` if that cannot be written down as JSON.
pub fn failure(error: &run::Error) -> (r: Option<Error>)
    ensures
        match ErrorBody::spec_to_json(spec_error_code(error@), spec_message(error@)) {
            Some(text) => r matches Some(e) && e.status_code == BAD_REQUEST && e.body@ == text,
            None => r is None,
        },
{
    let body = ErrorBody { error: error_code(error), message: error.message() };
    match body.to_json() {
        Some(body) => Some(Error { status_code: BAD_REQUEST, body }),
        None => None,
    }
}

/// What is said of a request that could not be read.
pub open spec fn spec_parse_failure_message(complaint: Seq<char>) -> Seq<char> {
    "Failed to parse json from request: "@ + complaint
}

/// The answer to a request that could not be read as JSON. `None` if the
/// answer cannot be written down as JSON itself.
pub fn parse_failure(complaint: &str) -> (r: Option<Error>)
    ensures
        match ErrorBody::spec_to_json("request.parse"@, spec_parse_failure_message(complaint@)) {
            Some(text) => r matches Some(e) && e.status_code == BAD_REQUEST && e.body@ == text,
            None => r is None,
        },
{
    let body = ErrorBody {
        error: "request.parse".to_string(),
        message: String::from_str("Failed to parse json from request: ").concat(complaint),
    };
    match body.to_json() {
        Some(body) => Some(Error { status_code: BAD_REQUEST, body }),
        None => None,
    }
}

/// What a run's result and the JSON text of its object amount to: the body
/// of the answer, or the failure to answer with.
pub open spec fn spec_answer(
    result: Result<serde_json::Map<String, serde_json::Value>, ErrorView>,
) -> Option<Result<Seq<u8>, (u16, Seq<u8>)>> {
    match result {
        Ok(object) => match object_text(object) {
            Ok(text) => Some(Ok(text)),
            Err(_) => None,
        },
        Err(error) => match ErrorBody::spec_to_json(spec_error_code(error), spec_message(error)) {
            Some(text) => Some(Err((BAD_REQUEST, text))),
            None => None,
        },
    }
}

/// Answers a request with what its run came to: the object as JSON text, or
/// the failure. `None` if the answer cannot be written down as JSON.
pub fn answer(result: &Result<serde_json::Map<String, serde_json::Value>, run::Error>) -> (r:
    Option<Result<Vec<u8>, Error>>)
    ensures
        match spec_answer(
            match result {
                Ok(object) => Ok(*object),
                Err(error) => Err(error@),
            },
        ) {
            None => r is None,
            Some(Ok(text)) => r matches Some(Ok(body)) && body@ == text,
            Some(Err((status_code, text))) => r matches Some(Err(e)) && e.status_code
                == status_code && e.body@ == text,
        },
{
    match result {
        Ok(object) => match encode_object(object) {
            Ok(body) => Some(Ok(body)),
            Err(_) => None,
        },
        Err(error) => match failure(error) {
            Some(e) => Some(Err(e)),
            None => None,
        },
    }
}

} // verus!
