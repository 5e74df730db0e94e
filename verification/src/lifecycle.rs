//! The lifecycle of a run as a machine.
//!
//! The machine does no work at the socket. It says what is to be done next,
//! is told how that went, and decides what follows. The steps come in one
//! order and never go back; the first failure ends the run.

use crate::demux::{
    all_encodable, channel_bytes, encode_all, lemma_decode_encoded, lemma_demux_reconstructs,
    lemma_scan_frames, lemma_scan_not_deadline, none_on_stdin, route_all, scan, spec_demux, spec_pending, Channels, Demux, Scan,
};
use crate::docker::{
    spec_read_failure, FrameView, ReadFailure, ReadFailureView, StreamError, StreamErrorView,
    StreamType, TYPE_WORD_LEN,
};
use crate::json::{encode_object, object_text};
use crate::run::{
    conclude, spec_conclude, Error, ErrorView, Limits, RunRequest, NANOS_PER_SEC,
};
use vstd::pervasive::unreached;
use vstd::prelude::*;

verus! {

/// The timeout of a single read on the attached stream, in milliseconds.
///
/// It is what makes the deadline observable: a read that gets nothing comes
/// back after this long, and the time used is looked at again.
pub const READ_TIMEOUT_MILLIS: u64 = 100;

/// The step that is under way.
#[derive(Clone, Copy, Debug, PartialEq, Eq, Structural)]
pub enum Phase {
    /// The socket is being opened.
    Connecting,
    /// Connected; the container is being created.
    Creating,
    /// The container exists and is being started.
    Starting,
    /// The container runs; its streams are being attached.
    Attaching,
    /// The streams are attached; their read timeout is being set.
    SettingTimeout,
    /// Attached; the payload is being written to the container's input.
    SendingPayload,
    /// The payload is sent; the output is being read.
    Draining,
}

/// What the caller is to do next.
#[derive(Debug, PartialEq, Eq)]
pub enum Action {
    /// Open the socket to the daemon.
    Connect,
    /// Create a container from these parameters.
    CreateContainer(Vec<u8>),
    /// Start the container of this id.
    StartContainer(String),
    /// Attach to the streams of the container of this id.
    AttachContainer(String),
    /// Give the attached stream a read timeout of this many milliseconds.
    SetStreamTimeout(u64),
    /// Write these bytes to the stream, then close its writing side.
    SendPayload(Vec<u8>),
    /// Read once from the stream.
    Read,
}

pub enum ActionView {
    Connect,
    CreateContainer(Seq<u8>),
    StartContainer(Seq<char>),
    AttachContainer(Seq<char>),
    SetStreamTimeout(u64),
    SendPayload(Seq<u8>),
    Read,
}

impl View for Action {
    type V = ActionView;

    open spec fn view(&self) -> ActionView {
        match self {
            Action::Connect => ActionView::Connect,
            Action::CreateContainer(config) => ActionView::CreateContainer(config@),
            Action::StartContainer(id) => ActionView::StartContainer(id@),
            Action::AttachContainer(id) => ActionView::AttachContainer(id@),
            Action::SetStreamTimeout(millis) => ActionView::SetStreamTimeout(*millis),
            Action::SendPayload(bytes) => ActionView::SendPayload(bytes@),
            Action::Read => ActionView::Read,
        }
    }
}

/// How the action that was asked for went.
#[derive(Debug, PartialEq, Eq)]
pub enum Event {
    /// It succeeded and there is nothing to report.
    Done,
    /// The container was created and has this id.
    Created(String),
    /// It failed; the text says why.
    Failed(String),
    /// The read gave these bytes, this long after the run began.
    Data { bytes: Vec<u8>, elapsed_nanos: u128 },
    /// The read gave nothing before its timeout, this long after the run began.
    TimedOut { elapsed_nanos: u128 },
    /// The stream has ended.
    Eof,
}

pub enum EventView {
    Done,
    Created(Seq<char>),
    Failed(Seq<char>),
    Data { bytes: Seq<u8>, elapsed_nanos: u128 },
    TimedOut { elapsed_nanos: u128 },
    Eof,
}

impl View for Event {
    type V = EventView;

    open spec fn view(&self) -> EventView {
        match self {
            Event::Done => EventView::Done,
            Event::Created(id) => EventView::Created(id@),
            Event::Failed(detail) => EventView::Failed(detail@),
            Event::Data { bytes, elapsed_nanos } => EventView::Data {
                bytes: bytes@,
                elapsed_nanos: *elapsed_nanos,
            },
            Event::TimedOut { elapsed_nanos } => EventView::TimedOut {
                elapsed_nanos: *elapsed_nanos,
            },
            Event::Eof => EventView::Eof,
        }
    }
}

/// How a run ended.
#[derive(Debug, PartialEq, Eq)]
pub struct Outcome {
    /// The object that the code printed, or why there is none.
    pub result: Result<serde_json::Map<String, serde_json::Value>, Error>,
    /// The container to stop and remove, where the run failed after one was
    /// created. The socket is to be closed in every case.
    pub remove_container: Option<String>,
}

pub struct OutcomeView {
    pub result: Result<serde_json::Map<String, serde_json::Value>, ErrorView>,
    pub remove_container: Option<Seq<char>>,
}

impl View for Outcome {
    type V = OutcomeView;

    open spec fn view(&self) -> OutcomeView {
        OutcomeView {
            result: match self.result {
                Ok(object) => Ok(object),
                Err(error) => Err(error@),
            },
            remove_container: match self.remove_container {
                Some(id) => Some(id@),
                None => None,
            },
        }
    }
}

/// A run between two steps.
pub struct Run {
    phase: Phase,
    limits: Limits,
    container_config: Vec<u8>,
    payload: serde_json::Map<String, serde_json::Value>,
    container: Option<String>,
    demux: Demux,
}

pub struct RunView {
    pub phase: Phase,
    pub limits: Limits,
    pub container_config: Seq<u8>,
    pub payload: serde_json::Map<String, serde_json::Value>,
    /// The id of the container, once there is one.
    pub container: Option<Seq<char>>,
    /// What has been read from the stream.
    pub seen: Seq<u8>,
}

impl View for Run {
    type V = RunView;

    closed spec fn view(&self) -> RunView {
        RunView {
            phase: self.phase,
            limits: self.limits,
            container_config: self.container_config@,
            payload: self.payload,
            container: match self.container {
                Some(id) => Some(id@),
                None => None,
            },
            seen: self.demux.seen(),
        }
    }
}

/// What a step leads to.
pub enum Step {
    /// The run goes on: do this, then report back.
    Continue(Run, Action),
    /// The run is over.
    Finish(Outcome),
    /// The event is none that the step under way can end in. Nothing has
    /// changed and the same action is still awaited.
    Rejected(Run),
}

pub enum StepView {
    Continue(RunView, ActionView),
    Finish(OutcomeView),
    Rejected(RunView),
}

impl View for Step {
    type V = StepView;

    open spec fn view(&self) -> StepView {
        match self {
            Step::Continue(run, action) => StepView::Continue(run@, action@),
            Step::Finish(outcome) => StepView::Finish(outcome@),
            Step::Rejected(run) => StepView::Rejected(run@),
        }
    }
}

/// Whether the step under way can end in this event.
pub open spec fn spec_fits(phase: Phase, event: EventView) -> bool {
    match event {
        EventView::Failed(_) => true,
        EventView::Done => phase == Phase::Connecting || phase == Phase::Starting || phase
            == Phase::Attaching || phase == Phase::SettingTimeout || phase
            == Phase::SendingPayload,
        EventView::Created(_) => phase == Phase::Creating,
        EventView::Data { .. } => phase == Phase::Draining,
        EventView::TimedOut { .. } => phase == Phase::Draining,
        EventView::Eof => phase == Phase::Draining,
    }
}

/// The error of a step that failed. Each step has its own; a failure to
/// write or read the stream says how far into a frame the stream had come.
pub open spec fn spec_failure(run: RunView, detail: Seq<char>) -> ErrorView {
    match run.phase {
        Phase::Connecting => ErrorView::Connect(detail),
        Phase::Creating => ErrorView::CreateContainer(detail),
        Phase::Starting => ErrorView::StartContainer(detail),
        Phase::Attaching => ErrorView::AttachContainer(detail),
        Phase::SettingTimeout => ErrorView::SetStreamTimeout(detail),
        Phase::SendingPayload => ErrorView::ReadStream(
            StreamErrorView::Read(ReadFailureView::Io(detail)),
        ),
        Phase::Draining => ErrorView::ReadStream(
            spec_read_failure(
                spec_pending(run.seen, run.limits.max_output_size),
                ReadFailureView::Io(detail),
            ),
        ),
    }
}

/// A run that ends in failure. A container that exists by then is to be
/// removed.
pub open spec fn spec_fail(run: RunView, error: ErrorView) -> StepView {
    StepView::Finish(OutcomeView { result: Err(error), remove_container: run.container })
}

/// The run in its next phase, all else unchanged.
pub open spec fn spec_advance(run: RunView, phase: Phase) -> RunView {
    RunView {
        phase,
        limits: run.limits,
        container_config: run.container_config,
        payload: run.payload,
        container: run.container,
        seen: run.seen,
    }
}

/// What follows when the read timeout is set: the payload goes out, if it
/// can be written down.
pub open spec fn spec_payload_step(run: RunView, encoded: Result<Seq<u8>, Seq<char>>) -> StepView {
    match encoded {
        Ok(text) => StepView::Continue(
            spec_advance(run, Phase::SendingPayload),
            ActionView::SendPayload(text),
        ),
        Err(complaint) => spec_fail(run, ErrorView::SerializePayload(complaint)),
    }
}

/// What follows when a read comes back, with bytes or without.
///
/// The deadline is looked at first: once the time allowed is over the run
/// fails, whatever was read. Else the bytes are taken apart, and the run
/// fails with the first frame that does, or reads on.
pub open spec fn spec_read_step(run: RunView, bytes: Seq<u8>, elapsed_nanos: u128) -> StepView {
    if run.limits.spec_expired(elapsed_nanos) {
        spec_fail(run, ErrorView::ReadStream(StreamErrorView::MaxExecutionTime))
    } else {
        match scan(Channels::empty(), run.seen + bytes, run.limits.max_output_size) {
            Scan::Failed(error) => spec_fail(run, error),
            Scan::Open { .. } => StepView::Continue(
                RunView {
                    phase: run.phase,
                    limits: run.limits,
                    container_config: run.container_config,
                    payload: run.payload,
                    container: run.container,
                    seen: run.seen + bytes,
                },
                ActionView::Read,
            ),
        }
    }
}

/// What follows when the stream ends: the result, if the stream ended
/// between two frames and held one JSON object and no complaint.
pub open spec fn spec_end_step(run: RunView) -> StepView {
    match spec_demux(run.seen, run.limits.max_output_size) {
        Err(error) => spec_fail(run, error),
        Ok(channels) => match spec_conclude(channels) {
            Err(error) => spec_fail(run, error),
            Ok(object) => StepView::Finish(
                OutcomeView { result: Ok(object), remove_container: None },
            ),
        },
    }
}

/// The machine: what an event leads to from a state.
pub open spec fn spec_step(run: RunView, event: EventView) -> StepView {
    if !spec_fits(run.phase, event) {
        StepView::Rejected(run)
    } else {
        match event {
            EventView::Failed(detail) => spec_fail(run, spec_failure(run, detail)),
            EventView::Created(id) => StepView::Continue(
                RunView {
                    phase: Phase::Starting,
                    limits: run.limits,
                    container_config: run.container_config,
                    payload: run.payload,
                    container: Some(id),
                    seen: run.seen,
                },
                ActionView::StartContainer(id),
            ),
            EventView::Done => match run.phase {
                Phase::Connecting => StepView::Continue(
                    spec_advance(run, Phase::Creating),
                    ActionView::CreateContainer(run.container_config),
                ),
                Phase::Starting => StepView::Continue(
                    spec_advance(run, Phase::Attaching),
                    ActionView::AttachContainer(run.container->0),
                ),
                Phase::Attaching => StepView::Continue(
                    spec_advance(run, Phase::SettingTimeout),
                    ActionView::SetStreamTimeout(READ_TIMEOUT_MILLIS),
                ),
                Phase::SettingTimeout => spec_payload_step(run, object_text(run.payload)),
                Phase::SendingPayload => StepView::Continue(
                    spec_advance(run, Phase::Draining),
                    ActionView::Read,
                ),
                _ => StepView::Rejected(run),
            },
            EventView::Data { bytes, elapsed_nanos } => spec_read_step(run, bytes, elapsed_nanos),
            EventView::TimedOut { elapsed_nanos } => spec_read_step(
                run,
                Seq::empty(),
                elapsed_nanos,
            ),
            EventView::Eof => spec_end_step(run),
        }
    }
}

/// The state a run begins in.
pub open spec fn spec_start(request: RunRequest) -> RunView {
    RunView {
        phase: Phase::Connecting,
        limits: request.limits,
        container_config: request.container_config@,
        payload: request.payload,
        container: None,
        seen: Seq::empty(),
    }
}

/// What holds of every state that a run can be in: there is a container from
/// the moment one was created, nothing has been read before the reading
/// began, and what has been read has not failed.
pub open spec fn spec_reachable(run: RunView) -> bool {
    &&& run.container is Some <==> run.phase != Phase::Connecting && run.phase != Phase::Creating
    &&& run.phase != Phase::Draining ==> run.seen == Seq::<u8>::empty()
    &&& scan(Channels::empty(), run.seen, run.limits.max_output_size) is Open
}

/// The place of a step in the order of the lifecycle.
pub open spec fn spec_rank(phase: Phase) -> nat {
    match phase {
        Phase::Connecting => 0,
        Phase::Creating => 1,
        Phase::Starting => 2,
        Phase::Attaching => 3,
        Phase::SettingTimeout => 4,
        Phase::SendingPayload => 5,
        Phase::Draining => 6,
    }
}

/// A run that is reading, told of one timeout after the other until it ends
/// or the timeouts run out.
pub open spec fn spec_idle(run: RunView, ticks: Seq<u128>) -> StepView
    decreases ticks.len(),
{
    if ticks.len() == 0 {
        StepView::Continue(run, ActionView::Read)
    } else {
        match spec_step(run, EventView::TimedOut { elapsed_nanos: ticks[0] }) {
            StepView::Continue(next, _) => spec_idle(next, ticks.skip(1)),
            ended => ended,
        }
    }
}

/// The read timeout is shorter than any time limit of a second or more, so
/// that a run that gets nothing looks at the time again before its time is
/// over.
pub proof fn lemma_read_timeout_is_short(limits: Limits)
    requires
        limits.max_execution_time >= 1,
    ensures
        READ_TIMEOUT_MILLIS * 1_000_000 < limits.max_execution_time * NANOS_PER_SEC,
{
}

/// A run begins in a state that can be reached.
pub proof fn lemma_start_reachable(request: RunRequest)
    ensures
        spec_reachable(spec_start(request)),
{
}

/// A step leads from a state that can be reached to another such state.
pub proof fn lemma_step_reachable(run: RunView, event: EventView)
    requires
        spec_reachable(run),
    ensures
        spec_step(run, event) matches StepView::Continue(next, _) ==> spec_reachable(next),
{
}

/// The steps come in one order. A step that goes on enters the next phase,
/// or stays with the reading; it never goes back, and it leaves the request
/// as it was.
pub proof fn lemma_step_forward(run: RunView, event: EventView)
    ensures
        spec_step(run, event) matches StepView::Continue(next, action) ==> {
            &&& next.limits == run.limits
            &&& next.container_config == run.container_config
            &&& next.payload == run.payload
            &&& if run.phase == Phase::Draining {
                next.phase == Phase::Draining && action == ActionView::Read
            } else {
                spec_rank(next.phase) == spec_rank(run.phase) + 1
            }
        },
{
}

/// The first failure ends the run, with the error of the step that failed
/// and with the container to remove, if there is one by then.
pub proof fn lemma_failure_ends(run: RunView, detail: Seq<char>)
    ensures
        spec_step(run, EventView::Failed(detail)) == StepView::Finish(
            OutcomeView {
                result: Err(spec_failure(run, detail)),
                remove_container: run.container,
            },
        ),
{
}

/// A read that gives nothing before the time allowed is over changes
/// nothing: the run reads again.
pub proof fn lemma_timeout_in_time(run: RunView, elapsed_nanos: u128)
    requires
        spec_reachable(run),
        run.phase == Phase::Draining,
        !run.limits.spec_expired(elapsed_nanos),
    ensures
        spec_step(run, EventView::TimedOut { elapsed_nanos }) == StepView::Continue(
            run,
            ActionView::Read,
        ),
{
    assert(run.seen + Seq::<u8>::empty() =~= run.seen);
}

/// Once the time allowed is over, whatever a read gives fails the run with
/// the deadline's error.
pub proof fn lemma_deadline_ends(run: RunView, bytes: Seq<u8>, elapsed_nanos: u128)
    requires
        run.phase == Phase::Draining,
        run.limits.spec_expired(elapsed_nanos),
    ensures
        spec_step(run, EventView::TimedOut { elapsed_nanos }) == spec_fail(
            run,
            ErrorView::ReadStream(StreamErrorView::MaxExecutionTime),
        ),
        spec_step(run, EventView::Data { bytes, elapsed_nanos }) == spec_fail(
            run,
            ErrorView::ReadStream(StreamErrorView::MaxExecutionTime),
        ),
{
}

/// A run never fails with the deadline's error before the time allowed is
/// over: that error answers only a read that came back too late.
pub proof fn lemma_deadline_only_after(run: RunView, event: EventView)
    ensures
        spec_step(run, event) == spec_fail(
            run,
            ErrorView::ReadStream(StreamErrorView::MaxExecutionTime),
        ) ==> match event {
            EventView::Data { elapsed_nanos, .. } => run.limits.spec_expired(elapsed_nanos),
            EventView::TimedOut { elapsed_nanos } => run.limits.spec_expired(elapsed_nanos),
            _ => false,
        },
{
    let max = run.limits.max_output_size;
    match event {
        EventView::Data { bytes, .. } => {
            lemma_scan_not_deadline(Channels::empty(), run.seen + bytes, max);
        },
        EventView::TimedOut { .. } => {
            lemma_scan_not_deadline(Channels::empty(), run.seen + Seq::<u8>::empty(), max);
        },
        EventView::Eof => {
            lemma_scan_not_deadline(Channels::empty(), run.seen, max);
        },
        _ => {},
    }
}

/// A stream that gives nothing and does not end: the run reads on as long
/// as every timeout falls within the time allowed, and fails with the
/// deadline's error at the first that falls behind it.
pub proof fn lemma_idle_stream(run: RunView, ticks: Seq<u128>)
    requires
        spec_reachable(run),
        run.phase == Phase::Draining,
    ensures
        (forall|i: int| 0 <= i < ticks.len() ==> !run.limits.spec_expired(#[trigger] ticks[i]))
            ==> spec_idle(run, ticks) == StepView::Continue(run, ActionView::Read),
        (exists|i: int| 0 <= i < ticks.len() && run.limits.spec_expired(#[trigger] ticks[i]))
            ==> spec_idle(run, ticks) == spec_fail(
            run,
            ErrorView::ReadStream(StreamErrorView::MaxExecutionTime),
        ),
    decreases ticks.len(),
{
    if ticks.len() > 0 {
        let later = ticks.skip(1);
        if run.limits.spec_expired(ticks[0]) {
            lemma_deadline_ends(run, Seq::empty(), ticks[0]);
        } else {
            lemma_timeout_in_time(run, ticks[0]);
            lemma_idle_stream(run, later);
            assert forall|i: int| 0 <= i < later.len() implies later[i] == ticks[i + 1] by {}
            if exists|i: int| 0 <= i < ticks.len() && run.limits.spec_expired(#[trigger] ticks[i]) {
                let i = choose|i: int|
                    0 <= i < ticks.len() && run.limits.spec_expired(#[trigger] ticks[i]);
                assert(run.limits.spec_expired(later[i - 1]));
            }
            if forall|i: int|
                0 <= i < ticks.len() ==> !run.limits.spec_expired(#[trigger] ticks[i]) {
                assert forall|i: int| 0 <= i < later.len() implies !run.limits.spec_expired(
                    #[trigger] later[i],
                ) by {
                    assert(!run.limits.spec_expired(ticks[i + 1]));
                }
            }
        }
    }
}

/// A run whose stream holds well-formed frames, none on the input channel,
/// with output under the ceiling, and then ends in time: what the run comes
/// to is decided by the channels' bytes, each exactly as it was sent.
pub proof fn lemma_run_reconstructs(run: RunView, frames: Seq<FrameView>, elapsed_nanos: u128)
    requires
        run.phase == Phase::Draining,
        run.seen == Seq::<u8>::empty(),
        !run.limits.spec_expired(elapsed_nanos),
        all_encodable(frames),
        none_on_stdin(frames),
        channel_bytes(frames, StreamType::Stdout).len() <= run.limits.max_output_size,
    ensures
        spec_step(run, EventView::Data { bytes: encode_all(frames), elapsed_nanos })
            matches StepView::Continue(fed, ActionView::Read) && spec_step(fed, EventView::Eof)
            == match spec_conclude(
            Channels {
                stdout: channel_bytes(frames, StreamType::Stdout),
                stderr: channel_bytes(frames, StreamType::Stderr),
            },
        ) {
            Ok(object) => StepView::Finish(
                OutcomeView { result: Ok(object), remove_container: None },
            ),
            Err(error) => spec_fail(run, error),
        },
{
    assert(run.seen + encode_all(frames) =~= encode_all(frames));
    lemma_demux_reconstructs(frames, run.limits.max_output_size);
}

/// A frame that would carry the output past the ceiling fails the run with
/// the ceiling's error, if the frames before it were routed and the frame
/// has come in time.
pub proof fn lemma_run_over_ceiling(
    run: RunView,
    bytes: Seq<u8>,
    elapsed_nanos: u128,
    frames: Seq<FrameView>,
    frame: FrameView,
    rest: Seq<u8>,
)
    requires
        run.phase == Phase::Draining,
        !run.limits.spec_expired(elapsed_nanos),
        run.seen + bytes == encode_all(frames) + (frame.encode() + rest),
        all_encodable(frames),
        frame.encodable(),
        frame.stream_type == StreamType::Stdout,
        route_all(Channels::empty(), frames, run.limits.max_output_size) matches Ok(held)
            && held.stdout.len() + frame.payload.len() > run.limits.max_output_size,
    ensures
        spec_step(run, EventView::Data { bytes, elapsed_nanos }) == spec_fail(
            run,
            ErrorView::ReadStream(StreamErrorView::MaxReadSize(run.limits.max_output_size)),
        ),
{
    let max = run.limits.max_output_size;
    lemma_scan_frames(Channels::empty(), frames, frame.encode() + rest, max);
    lemma_decode_encoded(frame, rest);
}

/// A header with an unknown type byte fails the run with that byte, if the
/// frames before it were routed and the header has come in time. Nothing
/// behind the type word is looked at.
pub proof fn lemma_run_unknown_type(
    run: RunView,
    bytes: Seq<u8>,
    elapsed_nanos: u128,
    frames: Seq<FrameView>,
    tail: Seq<u8>,
)
    requires
        run.phase == Phase::Draining,
        !run.limits.spec_expired(elapsed_nanos),
        run.seen + bytes == encode_all(frames) + tail,
        all_encodable(frames),
        route_all(Channels::empty(), frames, run.limits.max_output_size) is Ok,
        tail.len() >= TYPE_WORD_LEN,
        StreamType::spec_from_byte(tail[0]) is None,
    ensures
        spec_step(run, EventView::Data { bytes, elapsed_nanos }) == spec_fail(
            run,
            ErrorView::ReadStream(StreamErrorView::UnknownStreamType(tail[0])),
        ),
{
    lemma_scan_frames(Channels::empty(), frames, tail, run.limits.max_output_size);
}

/// A frame on the input channel fails the run and is handed back, if the
/// frames before it were routed and the frame has come in time.
pub proof fn lemma_run_stdin_frame(
    run: RunView,
    bytes: Seq<u8>,
    elapsed_nanos: u128,
    frames: Seq<FrameView>,
    frame: FrameView,
    rest: Seq<u8>,
)
    requires
        run.phase == Phase::Draining,
        !run.limits.spec_expired(elapsed_nanos),
        run.seen + bytes == encode_all(frames) + (frame.encode() + rest),
        all_encodable(frames),
        route_all(Channels::empty(), frames, run.limits.max_output_size) is Ok,
        frame.encodable(),
        frame.stream_type == StreamType::Stdin,
    ensures
        spec_step(run, EventView::Data { bytes, elapsed_nanos }) == spec_fail(
            run,
            ErrorView::StreamStdinUnexpected(frame.payload),
        ),
{
    lemma_scan_frames(
        Channels::empty(),
        frames,
        frame.encode() + rest,
        run.limits.max_output_size,
    );
    lemma_decode_encoded(frame, rest);
}

impl Run {
    #[verifier::type_invariant]
    spec fn consistent(self) -> bool {
        &&& self.demux.max_output_size() == self.limits.max_output_size
        &&& self.phase != Phase::Connecting && self.phase != Phase::Creating
            ==> self.container is Some
        &&& self.phase == Phase::Connecting || self.phase == Phase::Creating
            ==> self.container is None
        &&& self.phase != Phase::Draining ==> self.demux.seen() == Seq::<u8>::empty()
    }

    /// Begins a run. The first thing to do is to connect.
    pub fn start(request: RunRequest) -> (r: (Run, Action))
        ensures
            r.0@ == spec_start(request),
            r.1@ == ActionView::Connect,
    {
        let run = Run {
            phase: Phase::Connecting,
            limits: request.limits,
            container_config: request.container_config,
            payload: request.payload,
            container: None,
            demux: Demux::new(request.limits.max_output_size),
        };
        (run, Action::Connect)
    }

    /// The step under way. A run is always in a state that can be reached.
    pub fn phase(&self) -> (phase: Phase)
        ensures
            phase == self@.phase,
            spec_reachable(self@),
    {
        proof {
            use_type_invariant(self);
        }
        let _ = self.demux.output_len();
        self.phase
    }

    /// Whether the step under way can end in this event.
    pub fn fits(&self, event: &Event) -> (r: bool)
        ensures
            r == spec_fits(self@.phase, event@),
    {
        match event {
            Event::Failed(_) => true,
            Event::Done => match self.phase {
                Phase::Connecting => true,
                Phase::Starting => true,
                Phase::Attaching => true,
                Phase::SettingTimeout => true,
                Phase::SendingPayload => true,
                _ => false,
            },
            Event::Created(_) => match self.phase {
                Phase::Creating => true,
                _ => false,
            },
            _ => match self.phase {
                Phase::Draining => true,
                _ => false,
            },
        }
    }

    fn advance(self, phase: Phase) -> (r: Run)
        requires
            self@.phase != Phase::Draining,
            phase != Phase::Connecting && phase != Phase::Creating ==> self@.container is Some,
            phase == Phase::Connecting || phase == Phase::Creating ==> self@.container is None,
        ensures
            r@ == spec_advance(self@, phase),
    {
        proof {
            use_type_invariant(&self);
        }
        Run {
            phase,
            limits: self.limits,
            container_config: self.container_config,
            payload: self.payload,
            container: self.container,
            demux: self.demux,
        }
    }

    fn fail(self, error: Error) -> (r: Step)
        ensures
            r@ == spec_fail(self@, error@),
    {
        Step::Finish(Outcome { result: Err(error), remove_container: self.container })
    }

    fn failure(&self, detail: String) -> (e: Error)
        ensures
            e@ == spec_failure(self@, detail@),
    {
        proof {
            use_type_invariant(self);
        }
        match self.phase {
            Phase::Connecting => Error::Connect(detail),
            Phase::Creating => Error::CreateContainer(detail),
            Phase::Starting => Error::StartContainer(detail),
            Phase::Attaching => Error::AttachContainer(detail),
            Phase::SettingTimeout => Error::SetStreamTimeout(detail),
            Phase::SendingPayload => Error::ReadStream(
                StreamError::Read(ReadFailure::Io(detail)),
            ),
            Phase::Draining => Error::ReadStream(
                self.demux.read_failure(ReadFailure::Io(detail)),
            ),
        }
    }

    /// Goes on once the payload was written down, or fails if it was not.
    /// The read timeout must just have been set.
    pub fn payload_step(self, encoded: Result<Vec<u8>, String>) -> (r: Step)
        ensures
            self@.phase == Phase::SettingTimeout ==> r@ == spec_payload_step(
                self@,
                match encoded {
                    Ok(text) => Ok(text@),
                    Err(complaint) => Err(complaint@),
                },
            ),
            self@.phase != Phase::SettingTimeout ==> r@ == StepView::Rejected(self@),
    {
        proof {
            use_type_invariant(&self);
        }
        match self.phase {
            Phase::SettingTimeout => match encoded {
                Ok(text) => {
                    let next = self.advance(Phase::SendingPayload);
                    Step::Continue(next, Action::SendPayload(text))
                },
                Err(complaint) => self.fail(Error::SerializePayload(complaint)),
            },
            _ => Step::Rejected(self),
        }
    }

    fn read_step(self, bytes: &[u8], elapsed_nanos: u128) -> (r: Step)
        requires
            self@.phase == Phase::Draining,
        ensures
            r@ == spec_read_step(self@, bytes@, elapsed_nanos),
    {
        proof {
            use_type_invariant(&self);
        }
        if self.limits.expired(elapsed_nanos) {
            return self.fail(Error::ReadStream(StreamError::MaxExecutionTime));
        }
        let Run { phase, limits, container_config, payload, container, demux } = self;
        match demux.feed(bytes) {
            Err(error) => Step::Finish(Outcome { result: Err(error), remove_container: container }),
            Ok(fed) => Step::Continue(
                Run { phase, limits, container_config, payload, container, demux: fed },
                Action::Read,
            ),
        }
    }

    fn end_step(self) -> (r: Step)
        ensures
            r@ == spec_end_step(self@),
    {
        proof {
            use_type_invariant(&self);
        }
        let Run { phase, limits, container_config, payload, container, demux } = self;
        match demux.finish() {
            Err(error) => Step::Finish(Outcome { result: Err(error), remove_container: container }),
            Ok(output) => match conclude(output) {
                Err(error) => Step::Finish(
                    Outcome { result: Err(error), remove_container: container },
                ),
                Ok(object) => Step::Finish(Outcome { result: Ok(object), remove_container: None }),
            },
        }
    }

    /// Takes the run one step on.
    pub fn step(self, event: Event) -> (r: Step)
        ensures
            r@ == spec_step(self@, event@),
    {
        proof {
            use_type_invariant(&self);
        }
        if !self.fits(&event) {
            return Step::Rejected(self);
        }
        match event {
            Event::Failed(detail) => {
                let error = self.failure(detail);
                self.fail(error)
            },
            Event::Created(id) => {
                let Run { phase, limits, container_config, payload, container, demux } = self;
                let next = Run {
                    phase: Phase::Starting,
                    limits,
                    container_config,
                    payload,
                    container: Some(id.clone()),
                    demux,
                };
                Step::Continue(next, Action::StartContainer(id))
            },
            Event::Done => match self.phase {
                Phase::Connecting => {
                    let config = self.container_config.clone();
                    Step::Continue(self.advance(Phase::Creating), Action::CreateContainer(config))
                },
                Phase::Starting => {
                    let id = match &self.container {
                        Some(id) => id.clone(),
                        None => unreached(),
                    };
                    Step::Continue(self.advance(Phase::Attaching), Action::AttachContainer(id))
                },
                Phase::Attaching => Step::Continue(
                    self.advance(Phase::SettingTimeout),
                    Action::SetStreamTimeout(READ_TIMEOUT_MILLIS),
                ),
                Phase::SettingTimeout => {
                    let encoded = encode_object(&self.payload);
                    self.payload_step(encoded)
                },
                Phase::SendingPayload => Step::Continue(
                    self.advance(Phase::Draining),
                    Action::Read,
                ),
                _ => Step::Rejected(self),
            },
            Event::Data { bytes, elapsed_nanos } => self.read_step(bytes.as_slice(), elapsed_nanos),
            Event::TimedOut { elapsed_nanos } => {
                let nothing: Vec<u8> = Vec::new();
                self.read_step(nothing.as_slice(), elapsed_nanos)
            },
            Event::Eof => self.end_step(),
        }
    }
}

} // verus!
