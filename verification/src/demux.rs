//! The demultiplexer: frames are routed to the channel they belong to, the
//! output channel under a ceiling.

use crate::docker::{
    spec_decode_frame, spec_end_of_stream, spec_read_failure, Decoded, FrameReader, FrameView,
    ReadFailure, StreamError, StreamErrorView, StreamType, HEADER_LEN, TYPE_WORD_LEN,
};
use crate::run::{Error, ErrorView};
use vstd::prelude::*;

verus! {

/// What the channels hold: the bytes of each, in the order they came.
pub struct Channels {
    pub stdout: Seq<u8>,
    pub stderr: Seq<u8>,
}

impl Channels {
    pub open spec fn empty() -> Channels {
        Channels { stdout: Seq::empty(), stderr: Seq::empty() }
    }
}

/// What a stream held when it ended.
#[derive(Debug, PartialEq, Eq)]
pub struct StreamOutput {
    pub stdout: Vec<u8>,
    pub stderr: Vec<u8>,
}

impl View for StreamOutput {
    type V = Channels;

    open spec fn view(&self) -> Channels {
        Channels { stdout: self.stdout@, stderr: self.stderr@ }
    }
}

/// Where one frame goes.
///
/// A frame of the input channel has no place on this path and fails the run.
/// A frame of the output channel is taken whole or not at all: if it would
/// carry the output past the ceiling, nothing of it is kept. The error
/// channel takes what comes.
pub open spec fn spec_route(channels: Channels, frame: FrameView, max_output_size: usize) -> Result<
    Channels,
    ErrorView,
> {
    match frame.stream_type {
        StreamType::Stdin => Err(ErrorView::StreamStdinUnexpected(frame.payload)),
        StreamType::Stdout => {
            if channels.stdout.len() + frame.payload.len() > max_output_size {
                Err(ErrorView::ReadStream(StreamErrorView::MaxReadSize(max_output_size)))
            } else {
                Ok(Channels { stdout: channels.stdout + frame.payload, stderr: channels.stderr })
            }
        },
        StreamType::Stderr => Ok(
            Channels { stdout: channels.stdout, stderr: channels.stderr + frame.payload },
        ),
    }
}

/// How far a stream has been taken apart.
pub enum Scan {
    /// Every whole frame was routed; `pending` is the start of the next one.
    Open { channels: Channels, pending: Seq<u8> },
    /// A frame failed; nothing behind it was looked at.
    Failed(ErrorView),
}

/// Takes whole frames from the front of `bytes` and routes them, until the
/// bytes run out or a frame fails.
pub open spec fn scan(channels: Channels, bytes: Seq<u8>, max_output_size: usize) -> Scan
    decreases bytes.len(),
{
    match spec_decode_frame(bytes) {
        Decoded::Incomplete => Scan::Open { channels, pending: bytes },
        Decoded::Invalid(error) => Scan::Failed(ErrorView::ReadStream(error)),
        Decoded::Complete(frame) => match spec_route(channels, frame, max_output_size) {
            Err(error) => Scan::Failed(error),
            Ok(routed) => scan(
                routed,
                bytes.skip(HEADER_LEN + frame.payload.len()),
                max_output_size,
            ),
        },
    }
}

/// What a stream that ends after `bytes` amounts to: the channels' contents,
/// or the first failure. The end must fall between two frames.
pub open spec fn spec_demux(bytes: Seq<u8>, max_output_size: usize) -> Result<
    Channels,
    ErrorView,
> {
    match scan(Channels::empty(), bytes, max_output_size) {
        Scan::Failed(error) => Err(error),
        Scan::Open { channels, pending } => match spec_end_of_stream(pending) {
            Some(error) => Err(ErrorView::ReadStream(error)),
            None => Ok(channels),
        },
    }
}

/// The bytes of a stream that are not yet part of a whole frame.
pub open spec fn spec_pending(bytes: Seq<u8>, max_output_size: usize) -> Seq<u8> {
    match scan(Channels::empty(), bytes, max_output_size) {
        Scan::Open { pending, .. } => pending,
        Scan::Failed(_) => Seq::empty(),
    }
}

/// A frame that can be judged stays what it is when more bytes follow.
pub proof fn lemma_decode_stable(bytes: Seq<u8>, more: Seq<u8>)
    requires
        !(spec_decode_frame(bytes) is Incomplete),
    ensures
        spec_decode_frame(bytes + more) == spec_decode_frame(bytes),
{
    let all = bytes + more;
    assert(all[0] == bytes[0]);
    if bytes.len() >= HEADER_LEN {
        assert(all[4] == bytes[4] && all[5] == bytes[5] && all[6] == bytes[6] && all[7]
            == bytes[7]);
        match spec_decode_frame(bytes) {
            Decoded::Complete(frame) => {
                assert(all.subrange(HEADER_LEN as int, HEADER_LEN + frame.payload.len())
                    =~= frame.payload);
            },
            _ => {},
        }
    }
}

/// Cutting a stream into pieces changes nothing: scanning `bytes + more` is
/// scanning `bytes`, then going on from where that stopped.
pub proof fn lemma_scan_in_pieces(
    channels: Channels,
    bytes: Seq<u8>,
    more: Seq<u8>,
    max_output_size: usize,
)
    ensures
        scan(channels, bytes + more, max_output_size) == match scan(
            channels,
            bytes,
            max_output_size,
        ) {
            Scan::Failed(error) => Scan::Failed(error),
            Scan::Open { channels: routed, pending } => scan(
                routed,
                pending + more,
                max_output_size,
            ),
        },
    decreases bytes.len(),
{
    match spec_decode_frame(bytes) {
        Decoded::Incomplete => {},
        Decoded::Invalid(_) => {
            lemma_decode_stable(bytes, more);
        },
        Decoded::Complete(frame) => {
            lemma_decode_stable(bytes, more);
            let taken = HEADER_LEN + frame.payload.len();
            assert((bytes + more).skip(taken) =~= bytes.skip(taken) + more);
            match spec_route(channels, frame, max_output_size) {
                Err(_) => {},
                Ok(routed) => {
                    lemma_scan_in_pieces(routed, bytes.skip(taken), more, max_output_size);
                },
            }
        },
    }
}

/// The output of a run as it grows. It never holds more than its ceiling:
/// a payload that would carry it past is refused whole.
pub struct Accumulator {
    bytes: Vec<u8>,
    max_size: usize,
}

impl View for Accumulator {
    type V = Seq<u8>;

    closed spec fn view(&self) -> Seq<u8> {
        self.bytes@
    }
}

impl Accumulator {
    #[verifier::type_invariant]
    spec fn under_ceiling(self) -> bool {
        self.bytes@.len() <= self.max_size
    }

    /// The ceiling that was set when the accumulator was made.
    pub closed spec fn max_size(&self) -> usize {
        self.max_size
    }

    pub fn new(max_size: usize) -> (r: Accumulator)
        ensures
            r@ == Seq::<u8>::empty(),
            r.max_size() == max_size,
    {
        Accumulator { bytes: Vec::new(), max_size }
    }

    /// How many bytes are held. They never pass the ceiling.
    pub fn len(&self) -> (n: usize)
        ensures
            n == self@.len(),
            n <= self.max_size(),
    {
        proof {
            use_type_invariant(self);
        }
        self.bytes.len()
    }

    /// Adds a payload behind what is held, if the whole of it fits under the
    /// ceiling. If it does not, nothing of it is kept and the error carries
    /// the ceiling.
    pub fn append(&mut self, payload: Vec<u8>) -> (r: Result<(), StreamError>)
        ensures
            final(self).max_size() == old(self).max_size(),
            match r {
                Ok(_) => old(self)@.len() + payload@.len() <= old(self).max_size() && final(self)@
                    == old(self)@ + payload@,
                Err(e) => old(self)@.len() + payload@.len() > old(self).max_size() && final(self)@
                    == old(self)@ && e@ == StreamErrorView::MaxReadSize(old(self).max_size()),
            },
    {
        proof {
            use_type_invariant(&*self);
        }
        if payload.len() > self.max_size - self.bytes.len() {
            return Err(StreamError::MaxReadSize(self.max_size));
        }
        let mut taken = Accumulator::new(self.max_size);
        core::mem::swap(self, &mut taken);
        let Accumulator { bytes, max_size } = taken;
        let mut bytes = bytes;
        let mut payload = payload;
        bytes.append(&mut payload);
        *self = Accumulator { bytes, max_size };
        Ok(())
    }

    /// Hands out what is held.
    pub fn into_bytes(self) -> (bytes: Vec<u8>)
        ensures
            bytes@ == self@,
    {
        self.bytes
    }
}

/// The demultiplexer of one stream.
///
/// It is fed the stream as it arrives and keeps the channels' contents. What
/// it holds is always what [`scan`] makes of everything it was fed. Feeding
/// takes the demultiplexer and gives it back only if no frame failed: a
/// failure ends it, and another stream needs another one.
pub struct Demux {
    reader: FrameReader,
    stdout: Accumulator,
    stderr: Vec<u8>,
    seen: Ghost<Seq<u8>>,
}

impl Demux {
    #[verifier::type_invariant]
    spec fn consistent(self) -> bool {
        scan(Channels::empty(), self.seen@, self.stdout.max_size()) == Scan::Open {
            channels: Channels { stdout: self.stdout@, stderr: self.stderr@ },
            pending: self.reader@,
        }
    }

    /// Every byte fed so far, in order.
    pub closed spec fn seen(&self) -> Seq<u8> {
        self.seen@
    }

    /// The ceiling on the output channel.
    pub closed spec fn max_output_size(&self) -> usize {
        self.stdout.max_size()
    }

    /// The output channel's bytes so far.
    pub closed spec fn output(&self) -> Seq<u8> {
        self.stdout@
    }

    pub fn new(max_output_size: usize) -> (r: Demux)
        ensures
            r.seen() == Seq::<u8>::empty(),
            r.max_output_size() == max_output_size,
    {
        Demux {
            reader: FrameReader::new(),
            stdout: Accumulator::new(max_output_size),
            stderr: Vec::new(),
            seen: Ghost(Seq::empty()),
        }
    }

    /// How many bytes of output are held. They never pass the ceiling.
    pub fn output_len(&self) -> (n: usize)
        ensures
            n == self.output().len(),
            n <= self.max_output_size(),
            scan(Channels::empty(), self.seen(), self.max_output_size()) matches Scan::Open {
                channels,
                ..
            } && channels.stdout == self.output(),
    {
        proof {
            use_type_invariant(self);
        }
        self.stdout.len()
    }

    /// Takes in the next piece of the stream and routes the frames that it
    /// completes.
    #[verifier::loop_isolation(false)]
    pub fn feed(self, chunk: &[u8]) -> (r: Result<Demux, Error>)
        ensures
            match scan(Channels::empty(), self.seen() + chunk@, self.max_output_size()) {
                Scan::Failed(error) => r matches Err(e) && e@ == error,
                Scan::Open { .. } => r matches Ok(next) && next.seen() == self.seen() + chunk@
                    && next.max_output_size() == self.max_output_size(),
            },
    {
        proof {
            use_type_invariant(&self);
            lemma_scan_in_pieces(Channels::empty(), self.seen@, chunk@, self.stdout.max_size());
        }
        let ghost seen = self.seen@ + chunk@;
        let ghost max_output_size = self.stdout.max_size();
        let mut reader = self.reader;
        let mut stdout = self.stdout;
        let mut stderr = self.stderr;
        reader.push(chunk);
        loop
            invariant
                stdout.max_size() == max_output_size,
                scan(Channels::empty(), seen, max_output_size) == scan(
                    Channels { stdout: stdout@, stderr: stderr@ },
                    reader@,
                    max_output_size,
                ),
            decreases reader@.len(),
        {
            let frame = match reader.next_frame() {
                Err(error) => {
                    return Err(Error::ReadStream(error));
                },
                Ok(None) => {
                    return Ok(Demux { reader, stdout, stderr, seen: Ghost(seen) });
                },
                Ok(Some(frame)) => frame,
            };
            let mut payload = frame.payload;
            match frame.stream_type {
                StreamType::Stdin => {
                    return Err(Error::StreamStdinUnexpected(payload));
                },
                StreamType::Stdout => {
                    match stdout.append(payload) {
                        Ok(()) => {},
                        Err(error) => {
                            return Err(Error::ReadStream(error));
                        },
                    }
                },
                StreamType::Stderr => {
                    stderr.append(&mut payload);
                },
            }
        }
    }

    /// The error to report when the next read fails: it says how far into a
    /// frame the stream had come.
    pub fn read_failure(&self, why: ReadFailure) -> (e: StreamError)
        ensures
            e@ == spec_read_failure(spec_pending(self.seen(), self.max_output_size()), why@),
    {
        proof {
            use_type_invariant(self);
        }
        self.reader.read_failure(why)
    }

    /// Ends the stream and hands out what the channels hold.
    pub fn finish(self) -> (r: Result<StreamOutput, Error>)
        ensures
            match spec_demux(self.seen(), self.max_output_size()) {
                Ok(channels) => r matches Ok(output) && output@ == channels,
                Err(error) => r matches Err(e) && e@ == error,
            },
    {
        proof {
            use_type_invariant(&self);
        }
        match self.reader.finish() {
            Err(error) => Err(Error::ReadStream(error)),
            Ok(()) => Ok(StreamOutput { stdout: self.stdout.into_bytes(), stderr: self.stderr }),
        }
    }
}

/// Takes a whole stream apart at once.
pub fn demux(bytes: &[u8], max_output_size: usize) -> (r: Result<StreamOutput, Error>)
    ensures
        match spec_demux(bytes@, max_output_size) {
            Ok(channels) => r matches Ok(output) && output@ == channels,
            Err(error) => r matches Err(e) && e@ == error,
        },
{
    assert(Seq::<u8>::empty() + bytes@ =~= bytes@);
    match Demux::new(max_output_size).feed(bytes) {
        Err(error) => Err(error),
        Ok(fed) => fed.finish(),
    }
}

/// A sequence of frames as it travels: one frame after the other.
pub open spec fn encode_all(frames: Seq<FrameView>) -> Seq<u8>
    decreases frames.len(),
{
    if frames.len() == 0 {
        Seq::empty()
    } else {
        frames[0].encode() + encode_all(frames.skip(1))
    }
}

/// Routes frames in order, up to the first that fails.
pub open spec fn route_all(
    channels: Channels,
    frames: Seq<FrameView>,
    max_output_size: usize,
) -> Result<Channels, ErrorView>
    decreases frames.len(),
{
    if frames.len() == 0 {
        Ok(channels)
    } else {
        match spec_route(channels, frames[0], max_output_size) {
            Err(error) => Err(error),
            Ok(routed) => route_all(routed, frames.skip(1), max_output_size),
        }
    }
}

/// The payloads of the frames of one channel, joined in order.
pub open spec fn channel_bytes(frames: Seq<FrameView>, stream_type: StreamType) -> Seq<u8>
    decreases frames.len(),
{
    if frames.len() == 0 {
        Seq::empty()
    } else if frames[0].stream_type == stream_type {
        frames[0].payload + channel_bytes(frames.skip(1), stream_type)
    } else {
        channel_bytes(frames.skip(1), stream_type)
    }
}

/// Every frame can be written down.
pub open spec fn all_encodable(frames: Seq<FrameView>) -> bool {
    forall|i: int| 0 <= i < frames.len() ==> (#[trigger] frames[i]).encodable()
}

/// No frame belongs to the input channel.
pub open spec fn none_on_stdin(frames: Seq<FrameView>) -> bool {
    forall|i: int| 0 <= i < frames.len() ==> (#[trigger] frames[i]).stream_type
        != StreamType::Stdin
}

/// A frame that was written down reads back as itself, whatever follows it.
pub proof fn lemma_decode_encoded(frame: FrameView, rest: Seq<u8>)
    requires
        frame.encodable(),
    ensures
        spec_decode_frame(frame.encode() + rest) == Decoded::Complete(frame),
        (frame.encode() + rest).skip(HEADER_LEN + frame.payload.len()) == rest,
{
    let bytes = frame.encode() + rest;
    let header = frame.header();
    let len = frame.payload.len() as int;
    assert(header.len() == HEADER_LEN);
    assert(forall|i: int| 0 <= i < HEADER_LEN ==> bytes[i] == header[i]);
    assert(bytes[0] == header[0] && bytes[4] == header[4] && bytes[5] == header[5] && bytes[6]
        == header[6] && bytes[7] == header[7]);
    assert(len <= usize::MAX);
    assert(bytes.subrange(HEADER_LEN as int, HEADER_LEN + len) =~= frame.payload);
    assert(bytes.skip(HEADER_LEN + len) =~= rest);
}

/// Scanning frames that were written down is routing them in order: the
/// scan fails where a frame fails to route, and else goes on behind them.
pub proof fn lemma_scan_frames(
    channels: Channels,
    frames: Seq<FrameView>,
    rest: Seq<u8>,
    max_output_size: usize,
)
    requires
        all_encodable(frames),
    ensures
        scan(channels, encode_all(frames) + rest, max_output_size) == match route_all(
            channels,
            frames,
            max_output_size,
        ) {
            Err(error) => Scan::Failed(error),
            Ok(routed) => scan(routed, rest, max_output_size),
        },
    decreases frames.len(),
{
    if frames.len() == 0 {
        assert(encode_all(frames) + rest =~= rest);
    } else {
        let frame = frames[0];
        let behind = encode_all(frames.skip(1)) + rest;
        assert(encode_all(frames) + rest =~= frame.encode() + behind);
        lemma_decode_encoded(frame, behind);
        match spec_route(channels, frame, max_output_size) {
            Err(_) => {},
            Ok(routed) => {
                assert(all_encodable(frames.skip(1))) by {
                    assert forall|i: int| 0 <= i < frames.skip(1).len() implies (
                    #[trigger] frames.skip(1)[i]).encodable() by {
                        assert(frames[i + 1].encodable());
                    }
                }
                lemma_scan_frames(routed, frames.skip(1), rest, max_output_size);
            },
        }
    }
}

/// Frames off the input channel whose output fits under the ceiling all
/// route, each payload behind what its channel held.
pub proof fn lemma_route_all_fits(
    channels: Channels,
    frames: Seq<FrameView>,
    max_output_size: usize,
)
    requires
        none_on_stdin(frames),
        channels.stdout.len() + channel_bytes(frames, StreamType::Stdout).len()
            <= max_output_size,
    ensures
        route_all(channels, frames, max_output_size) == Ok::<Channels, ErrorView>(
            Channels {
                stdout: channels.stdout + channel_bytes(frames, StreamType::Stdout),
                stderr: channels.stderr + channel_bytes(frames, StreamType::Stderr),
            },
        ),
    decreases frames.len(),
{
    if frames.len() == 0 {
        assert(channels.stdout + Seq::<u8>::empty() =~= channels.stdout);
        assert(channels.stderr + Seq::<u8>::empty() =~= channels.stderr);
    } else {
        let frame = frames[0];
        let later = frames.skip(1);
        assert(frame.stream_type != StreamType::Stdin);
        assert(none_on_stdin(later)) by {
            assert forall|i: int| 0 <= i < later.len() implies (#[trigger] later[i]).stream_type
                != StreamType::Stdin by {
                assert(frames[i + 1].stream_type != StreamType::Stdin);
            }
        }
        let routed = spec_route(channels, frame, max_output_size)->Ok_0;
        lemma_route_all_fits(routed, later, max_output_size);
        assert((channels.stdout + frame.payload) + channel_bytes(later, StreamType::Stdout)
            =~= channels.stdout + (frame.payload + channel_bytes(later, StreamType::Stdout)));
        assert((channels.stderr + frame.payload) + channel_bytes(later, StreamType::Stderr)
            =~= channels.stderr + (frame.payload + channel_bytes(later, StreamType::Stderr)));
    }
}

/// Frames off the input channel whose output does not fit under the ceiling
/// fail with the ceiling's error.
pub proof fn lemma_route_all_overflows(
    channels: Channels,
    frames: Seq<FrameView>,
    max_output_size: usize,
)
    requires
        none_on_stdin(frames),
        channels.stdout.len() + channel_bytes(frames, StreamType::Stdout).len()
            > max_output_size,
        channels.stdout.len() <= max_output_size,
    ensures
        route_all(channels, frames, max_output_size) == Err::<Channels, ErrorView>(
            ErrorView::ReadStream(StreamErrorView::MaxReadSize(max_output_size)),
        ),
    decreases frames.len(),
{
    if frames.len() > 0 {
        let frame = frames[0];
        let later = frames.skip(1);
        assert(frame.stream_type != StreamType::Stdin);
        assert(none_on_stdin(later)) by {
            assert forall|i: int| 0 <= i < later.len() implies (#[trigger] later[i]).stream_type
                != StreamType::Stdin by {
                assert(frames[i + 1].stream_type != StreamType::Stdin);
            }
        }
        match spec_route(channels, frame, max_output_size) {
            Err(_) => {},
            Ok(routed) => {
                lemma_route_all_overflows(routed, later, max_output_size);
            },
        }
    }
}

/// A stream of well-formed frames, none on the input channel, whose output
/// fits under the ceiling, gives back each channel's bytes exactly and in
/// order.
pub proof fn lemma_demux_reconstructs(frames: Seq<FrameView>, max_output_size: usize)
    requires
        all_encodable(frames),
        none_on_stdin(frames),
        channel_bytes(frames, StreamType::Stdout).len() <= max_output_size,
    ensures
        spec_demux(encode_all(frames), max_output_size) == Ok::<Channels, ErrorView>(
            Channels {
                stdout: channel_bytes(frames, StreamType::Stdout),
                stderr: channel_bytes(frames, StreamType::Stderr),
            },
        ),
{
    let empty = Seq::<u8>::empty();
    assert(encode_all(frames) + empty =~= encode_all(frames));
    lemma_scan_frames(Channels::empty(), frames, empty, max_output_size);
    lemma_route_all_fits(Channels::empty(), frames, max_output_size);
    assert(empty + channel_bytes(frames, StreamType::Stdout) =~= channel_bytes(
        frames,
        StreamType::Stdout,
    ));
    assert(empty + channel_bytes(frames, StreamType::Stderr) =~= channel_bytes(
        frames,
        StreamType::Stderr,
    ));
}

/// A stream of well-formed frames, none on the input channel, whose output
/// would pass the ceiling, fails with the ceiling's error.
pub proof fn lemma_demux_over_ceiling(frames: Seq<FrameView>, max_output_size: usize)
    requires
        all_encodable(frames),
        none_on_stdin(frames),
        channel_bytes(frames, StreamType::Stdout).len() > max_output_size,
    ensures
        spec_demux(encode_all(frames), max_output_size) == Err::<Channels, ErrorView>(
            ErrorView::ReadStream(StreamErrorView::MaxReadSize(max_output_size)),
        ),
{
    let empty = Seq::<u8>::empty();
    assert(encode_all(frames) + empty =~= encode_all(frames));
    lemma_scan_frames(Channels::empty(), frames, empty, max_output_size);
    lemma_route_all_overflows(Channels::empty(), frames, max_output_size);
}

/// However far a scan gets, the output it holds stays under the ceiling if
/// it started there.
pub proof fn lemma_scan_keeps_ceiling(channels: Channels, bytes: Seq<u8>, max_output_size: usize)
    requires
        channels.stdout.len() <= max_output_size,
    ensures
        scan(channels, bytes, max_output_size) matches Scan::Open { channels: held, .. }
            ==> held.stdout.len() <= max_output_size,
    decreases bytes.len(),
{
    match spec_decode_frame(bytes) {
        Decoded::Complete(frame) => match spec_route(channels, frame, max_output_size) {
            Ok(routed) => {
                lemma_scan_keeps_ceiling(
                    routed,
                    bytes.skip(HEADER_LEN + frame.payload.len()),
                    max_output_size,
                );
            },
            Err(_) => {},
        },
        _ => {},
    }
}

/// No stream yields more output than the ceiling allows.
pub proof fn lemma_demux_keeps_ceiling(bytes: Seq<u8>, max_output_size: usize)
    ensures
        spec_demux(bytes, max_output_size) matches Ok(channels) ==> channels.stdout.len()
            <= max_output_size,
{
    lemma_scan_keeps_ceiling(Channels::empty(), bytes, max_output_size);
}

/// Taking a stream apart never ends in the deadline's error: time is not
/// looked at here.
pub proof fn lemma_scan_not_deadline(channels: Channels, bytes: Seq<u8>, max_output_size: usize)
    ensures
        scan(channels, bytes, max_output_size) != Scan::Failed(
            ErrorView::ReadStream(StreamErrorView::MaxExecutionTime),
        ),
    decreases bytes.len(),
{
    match spec_decode_frame(bytes) {
        Decoded::Complete(frame) => match spec_route(channels, frame, max_output_size) {
            Ok(routed) => {
                lemma_scan_not_deadline(
                    routed,
                    bytes.skip(HEADER_LEN + frame.payload.len()),
                    max_output_size,
                );
            },
            Err(_) => {},
        },
        _ => {},
    }
}

/// A header with an unknown type byte fails the stream with that byte, if
/// the frames before it were routed. Nothing behind the type word matters.
pub proof fn lemma_unknown_type_fails(
    frames: Seq<FrameView>,
    tail: Seq<u8>,
    max_output_size: usize,
)
    requires
        all_encodable(frames),
        route_all(Channels::empty(), frames, max_output_size) is Ok,
        tail.len() >= TYPE_WORD_LEN,
        StreamType::spec_from_byte(tail[0]) is None,
    ensures
        spec_demux(encode_all(frames) + tail, max_output_size) == Err::<Channels, ErrorView>(
            ErrorView::ReadStream(StreamErrorView::UnknownStreamType(tail[0])),
        ),
{
    lemma_scan_frames(Channels::empty(), frames, tail, max_output_size);
}

/// A frame on the input channel fails the stream and is handed back, if the
/// frames before it were routed. Nothing behind the frame matters.
pub proof fn lemma_stdin_frame_fails(
    frames: Seq<FrameView>,
    frame: FrameView,
    rest: Seq<u8>,
    max_output_size: usize,
)
    requires
        all_encodable(frames),
        route_all(Channels::empty(), frames, max_output_size) is Ok,
        frame.encodable(),
        frame.stream_type == StreamType::Stdin,
    ensures
        spec_demux(encode_all(frames) + (frame.encode() + rest), max_output_size) == Err::<
            Channels,
            ErrorView,
        >(ErrorView::StreamStdinUnexpected(frame.payload)),
{
    lemma_scan_frames(Channels::empty(), frames, frame.encode() + rest, max_output_size);
    lemma_decode_encoded(frame, rest);
}

} // verus!
