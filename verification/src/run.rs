//! What a run is asked, what it may use, how it can fail and what it comes
//! to: the request and its limits, the errors, and the decoding of the result.

use crate::demux::{Channels, StreamOutput};
use crate::docker::{spec_stream_error_message, StreamError, StreamErrorView};
use crate::json::{parse_object, parsed_object};
use crate::text::{lossy, utf8_lossy};
use vstd::prelude::*;
use vstd::string::StringExecFns;

verus! {

/// Why a run failed. Each variant belongs to one step of the lifecycle.
#[derive(Debug, PartialEq, Eq)]
pub enum Error {
    /// The socket to the daemon could not be opened.
    Connect(String),
    /// The socket refused the read timeout.
    SetStreamTimeout(String),
    /// The daemon did not create the container.
    CreateContainer(String),
    /// The daemon did not start the container.
    StartContainer(String),
    /// The daemon did not hand over the container's streams.
    AttachContainer(String),
    /// The payload could not be written down as JSON.
    SerializePayload(String),
    /// The stream could not be read to its end.
    ReadStream(StreamError),
    /// The stream carried a frame of the input channel; its payload is kept.
    StreamStdinUnexpected(Vec<u8>),
    /// The code wrote to its error channel; what it wrote is kept.
    StreamStderr(Vec<u8>),
    /// What the code printed is not a JSON object.
    StreamStdoutDecode(String),
}

pub enum ErrorView {
    Connect(Seq<char>),
    SetStreamTimeout(Seq<char>),
    CreateContainer(Seq<char>),
    StartContainer(Seq<char>),
    AttachContainer(Seq<char>),
    SerializePayload(Seq<char>),
    ReadStream(StreamErrorView),
    StreamStdinUnexpected(Seq<u8>),
    StreamStderr(Seq<u8>),
    StreamStdoutDecode(Seq<char>),
}

impl View for Error {
    type V = ErrorView;

    open spec fn view(&self) -> ErrorView {
        match self {
            Error::Connect(detail) => ErrorView::Connect(detail@),
            Error::SetStreamTimeout(detail) => ErrorView::SetStreamTimeout(detail@),
            Error::CreateContainer(detail) => ErrorView::CreateContainer(detail@),
            Error::StartContainer(detail) => ErrorView::StartContainer(detail@),
            Error::AttachContainer(detail) => ErrorView::AttachContainer(detail@),
            Error::SerializePayload(detail) => ErrorView::SerializePayload(detail@),
            Error::ReadStream(error) => ErrorView::ReadStream(error@),
            Error::StreamStdinUnexpected(bytes) => ErrorView::StreamStdinUnexpected(bytes@),
            Error::StreamStderr(bytes) => ErrorView::StreamStderr(bytes@),
            Error::StreamStdoutDecode(detail) => ErrorView::StreamStdoutDecode(detail@),
        }
    }
}

/// What a failure says of itself: which step failed, and the detail.
pub open spec fn spec_message(error: ErrorView) -> Seq<char> {
    match error {
        ErrorView::Connect(detail) => "Failed to connect to docker unix socket: "@ + detail,
        ErrorView::SetStreamTimeout(detail) => "Failed to set stream timeout: "@ + detail,
        ErrorView::CreateContainer(detail) => "Failed to create container: "@ + detail,
        ErrorView::StartContainer(detail) => "Failed to start container: "@ + detail,
        ErrorView::AttachContainer(detail) => "Failed to attach to container: "@ + detail,
        ErrorView::SerializePayload(detail) => "Failed to serialize payload: "@ + detail,
        ErrorView::ReadStream(error) => "Failed to read stream: "@ + spec_stream_error_message(
            error,
        ),
        ErrorView::StreamStdinUnexpected(bytes) => "Code runner returned unexpected stdin data: "@
            + utf8_lossy(bytes),
        ErrorView::StreamStderr(bytes) => "Code runner failed with the following message: "@
            + utf8_lossy(bytes),
        ErrorView::StreamStdoutDecode(detail) => "Failed to decode json returned from code runner: "@
            + detail,
    }
}

impl Error {
    pub fn message(&self) -> (s: String)
        ensures
            s@ == spec_message(self@),
    {
        match self {
            Error::Connect(detail) => String::from_str(
                "Failed to connect to docker unix socket: ",
            ).concat(detail.as_str()),
            Error::SetStreamTimeout(detail) => String::from_str(
                "Failed to set stream timeout: ",
            ).concat(detail.as_str()),
            Error::CreateContainer(detail) => String::from_str(
                "Failed to create container: ",
            ).concat(detail.as_str()),
            Error::StartContainer(detail) => String::from_str(
                "Failed to start container: ",
            ).concat(detail.as_str()),
            Error::AttachContainer(detail) => String::from_str(
                "Failed to attach to container: ",
            ).concat(detail.as_str()),
            Error::SerializePayload(detail) => String::from_str(
                "Failed to serialize payload: ",
            ).concat(detail.as_str()),
            Error::ReadStream(error) => String::from_str("Failed to read stream: ").concat(
                error.message().as_str(),
            ),
            Error::StreamStdinUnexpected(bytes) => String::from_str(
                "Code runner returned unexpected stdin data: ",
            ).concat(lossy(bytes.as_slice()).as_str()),
            Error::StreamStderr(bytes) => String::from_str(
                "Code runner failed with the following message: ",
            ).concat(lossy(bytes.as_slice()).as_str()),
            Error::StreamStdoutDecode(detail) => String::from_str(
                "Failed to decode json returned from code runner: ",
            ).concat(detail.as_str()),
        }
    }
}

/// Nanoseconds in a second.
pub const NANOS_PER_SEC: u128 = 1_000_000_000;

/// The ceilings of a run. Both are hard: passing one ends the run.
#[derive(Clone, Copy, Debug, PartialEq, Eq, Structural)]
pub struct Limits {
    /// How long the run may take, in whole seconds.
    pub max_execution_time: u64,
    /// How many bytes of output the run may produce.
    pub max_output_size: usize,
}

impl Limits {
    /// The time allowed is over once more than it has passed.
    pub open spec fn spec_expired(self, elapsed_nanos: u128) -> bool {
        elapsed_nanos > self.max_execution_time * NANOS_PER_SEC
    }

    /// Whether a run that began `elapsed_nanos` ago has used up its time.
    pub fn expired(&self, elapsed_nanos: u128) -> (r: bool)
        ensures
            r == self.spec_expired(elapsed_nanos),
    {
        let allowed: u128 = self.max_execution_time as u128 * NANOS_PER_SEC;
        elapsed_nanos > allowed
    }

    /// The deadline's check: passes until the time allowed is over.
    pub fn check_deadline(&self, elapsed_nanos: u128) -> (r: Result<(), StreamError>)
        ensures
            match r {
                Ok(_) => !self.spec_expired(elapsed_nanos),
                Err(e) => self.spec_expired(elapsed_nanos) && e@
                    == StreamErrorView::MaxExecutionTime,
            },
    {
        if self.expired(elapsed_nanos) {
            Err(StreamError::MaxExecutionTime)
        } else {
            Ok(())
        }
    }
}

/// What a run is asked to do.
pub struct RunRequest {
    /// The parameters the container is created with, as the daemon takes them.
    pub container_config: Vec<u8>,
    /// What the code is given on its input.
    pub payload: serde_json::Map<String, serde_json::Value>,
    pub limits: Limits,
}

/// What a parsed output amounts to: the object, or a decode failure that
/// carries the parser's complaint.
pub open spec fn spec_decoded(
    parsed: Result<serde_json::Map<String, serde_json::Value>, Seq<char>>,
) -> Result<serde_json::Map<String, serde_json::Value>, ErrorView> {
    match parsed {
        Ok(object) => Ok(object),
        Err(complaint) => Err(ErrorView::StreamStdoutDecode(complaint)),
    }
}

/// What a stream that was read to its end amounts to.
///
/// Anything on the error channel fails the run and is handed back. Else the
/// output must be one JSON object, which is the result.
pub open spec fn spec_conclude(channels: Channels) -> Result<
    serde_json::Map<String, serde_json::Value>,
    ErrorView,
> {
    if channels.stderr.len() > 0 {
        Err(ErrorView::StreamStderr(channels.stderr))
    } else {
        spec_decoded(parsed_object(channels.stdout))
    }
}

/// Turns the parser's answer into the run's.
pub fn decoded(parsed: Result<serde_json::Map<String, serde_json::Value>, String>) -> (r: Result<
    serde_json::Map<String, serde_json::Value>,
    Error,
>)
    ensures
        match parsed {
            Ok(object) => r matches Ok(o) && o == object,
            Err(complaint) => r matches Err(e) && e@ == ErrorView::StreamStdoutDecode(
                complaint@,
            ),
        },
{
    match parsed {
        Ok(object) => Ok(object),
        Err(complaint) => Err(Error::StreamStdoutDecode(complaint)),
    }
}

/// Decodes the result of a run from what its stream held.
pub fn conclude(output: StreamOutput) -> (r: Result<
    serde_json::Map<String, serde_json::Value>,
    Error,
>)
    ensures
        match spec_conclude(output@) {
            Ok(object) => r matches Ok(o) && o == object,
            Err(error) => r matches Err(e) && e@ == error,
        },
{
    if output.stderr.len() > 0 {
        Err(Error::StreamStderr(output.stderr))
    } else {
        decoded(parse_object(output.stdout.as_slice()))
    }
}

} // verus!
