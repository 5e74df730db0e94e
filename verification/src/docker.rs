//! The daemon's multiplexed stream: frame headers, payloads and the reader
//! that cuts a byte stream into frames.

use crate::text::{decimal, lossy, spec_decimal, utf8_lossy};
use vstd::prelude::*;
use vstd::slice::{slice_subrange, slice_to_vec};
use vstd::string::StringExecFns;

verus! {

/// Bytes of the first header word: the stream type and three bytes of padding.
pub const TYPE_WORD_LEN: usize = 4;

/// Bytes of a whole frame header: the type word and the length word.
pub const HEADER_LEN: usize = 8;

/// The channel a frame belongs to.
#[derive(Clone, Copy, Debug, PartialEq, Eq, Structural)]
pub enum StreamType {
    Stdin,
    Stdout,
    Stderr,
}

impl StreamType {
    /// The channel that a header's first byte names, if it names one.
    pub open spec fn spec_from_byte(byte: u8) -> Option<StreamType> {
        if byte == 0 {
            Some(StreamType::Stdin)
        } else if byte == 1 {
            Some(StreamType::Stdout)
        } else if byte == 2 {
            Some(StreamType::Stderr)
        } else {
            None
        }
    }

    /// The byte that names this channel in a header.
    pub open spec fn spec_to_byte(self) -> u8 {
        match self {
            StreamType::Stdin => 0,
            StreamType::Stdout => 1,
            StreamType::Stderr => 2,
        }
    }

    pub fn from_byte(byte: u8) -> (r: Option<StreamType>)
        ensures
            r == Self::spec_from_byte(byte),
    {
        match byte {
            0 => Some(StreamType::Stdin),
            1 => Some(StreamType::Stdout),
            2 => Some(StreamType::Stderr),
            _ => None,
        }
    }

    pub fn to_byte(self) -> (r: u8)
        ensures
            r == self.spec_to_byte(),
            Self::spec_from_byte(r) == Some(self),
    {
        match self {
            StreamType::Stdin => 0,
            StreamType::Stdout => 1,
            StreamType::Stderr => 2,
        }
    }
}

/// The number that four bytes spell, most significant byte first.
pub open spec fn spec_be_u32(b0: u8, b1: u8, b2: u8, b3: u8) -> int {
    b0 as int * 0x100_0000 + b1 as int * 0x1_0000 + b2 as int * 0x100 + b3 as int
}

pub fn be_u32(b0: u8, b1: u8, b2: u8, b3: u8) -> (r: u32)
    ensures
        r == spec_be_u32(b0, b1, b2, b3),
{
    let high: u32 = b0 as u32 * 0x100_0000 + b1 as u32 * 0x1_0000;
    let low: u32 = b2 as u32 * 0x100 + b3 as u32;
    high + low
}

/// The daemon did what a request asked for: its status is one of success.
pub open spec fn spec_request_succeeded(status: u16) -> bool {
    200 <= status < 300
}

/// The daemon handed the streams over: it switched protocols, or answered
/// with success and streams on.
pub open spec fn spec_attach_succeeded(status: u16) -> bool {
    status == 101 || status == 200
}

/// What is said of a reply that was no success: its status and its body.
pub open spec fn spec_reply_detail(status: u16, body: Seq<u8>) -> Seq<char> {
    "status "@ + spec_decimal(status as nat) + ": "@ + utf8_lossy(body)
}

pub fn request_succeeded(status: u16) -> (r: bool)
    ensures
        r == spec_request_succeeded(status),
{
    200 <= status && status < 300
}

pub fn attach_succeeded(status: u16) -> (r: bool)
    ensures
        r == spec_attach_succeeded(status),
{
    status == 101 || status == 200
}

/// The detail to report when the daemon's reply was no success.
pub fn reply_detail(status: u16, body: &[u8]) -> (detail: String)
    ensures
        detail@ == spec_reply_detail(status, body@),
{
    String::from_str("status ").concat(decimal(status as u64).as_str()).concat(": ").concat(
        lossy(body).as_str(),
    )
}

/// Why a read from the stream gave less than was asked for.
#[derive(Debug, PartialEq, Eq)]
pub enum ReadFailure {
    /// The stream ended inside a frame.
    UnexpectedEof,
    /// The socket reported an error; the text is the system's description.
    Io(String),
}

pub enum ReadFailureView {
    UnexpectedEof,
    Io(Seq<char>),
}

impl View for ReadFailure {
    type V = ReadFailureView;

    open spec fn view(&self) -> ReadFailureView {
        match self {
            ReadFailure::UnexpectedEof => ReadFailureView::UnexpectedEof,
            ReadFailure::Io(detail) => ReadFailureView::Io(detail@),
        }
    }
}

/// What can go wrong while the stream is read.
#[derive(Debug, PartialEq, Eq)]
pub enum StreamError {
    /// A payload could not be read to its declared length.
    Read(ReadFailure),
    /// The type word of a header could not be read.
    ReadStreamType(ReadFailure),
    /// A header names a channel that does not exist.
    UnknownStreamType(u8),
    /// The length word of a header could not be read.
    ReadStreamLength(ReadFailure),
    /// A declared length does not fit the machine's address width.
    InvalidStreamLength(u32),
    /// The run took longer than it was allowed to.
    MaxExecutionTime,
    /// The output grew past the ceiling, which is carried along.
    MaxReadSize(usize),
}

pub enum StreamErrorView {
    Read(ReadFailureView),
    ReadStreamType(ReadFailureView),
    UnknownStreamType(u8),
    ReadStreamLength(ReadFailureView),
    InvalidStreamLength(u32),
    MaxExecutionTime,
    MaxReadSize(usize),
}

impl View for StreamError {
    type V = StreamErrorView;

    open spec fn view(&self) -> StreamErrorView {
        match self {
            StreamError::Read(why) => StreamErrorView::Read(why@),
            StreamError::ReadStreamType(why) => StreamErrorView::ReadStreamType(why@),
            StreamError::UnknownStreamType(byte) => StreamErrorView::UnknownStreamType(*byte),
            StreamError::ReadStreamLength(why) => StreamErrorView::ReadStreamLength(why@),
            StreamError::InvalidStreamLength(len) => StreamErrorView::InvalidStreamLength(*len),
            StreamError::MaxExecutionTime => StreamErrorView::MaxExecutionTime,
            StreamError::MaxReadSize(max) => StreamErrorView::MaxReadSize(*max),
        }
    }
}

/// What a read failure says of itself.
pub open spec fn spec_read_failure_message(why: ReadFailureView) -> Seq<char> {
    match why {
        ReadFailureView::UnexpectedEof => "unexpected end of stream"@,
        ReadFailureView::Io(detail) => detail,
    }
}

/// What a stream error says of itself.
pub open spec fn spec_stream_error_message(error: StreamErrorView) -> Seq<char> {
    match error {
        StreamErrorView::Read(why) => "Failed to read payload: "@ + spec_read_failure_message(
            why,
        ),
        StreamErrorView::ReadStreamType(why) => "Failed to read stream type: "@
            + spec_read_failure_message(why),
        StreamErrorView::UnknownStreamType(byte) => "Unknown stream type: "@ + spec_decimal(
            byte as nat,
        ),
        StreamErrorView::ReadStreamLength(why) => "Failed to read stream length: "@
            + spec_read_failure_message(why),
        StreamErrorView::InvalidStreamLength(len) => "Invalid stream length: "@ + spec_decimal(
            len as nat,
        ),
        StreamErrorView::MaxExecutionTime => "Max execution time exceeded"@,
        StreamErrorView::MaxReadSize(max) => "Max read size exceeded: "@ + spec_decimal(
            max as nat,
        ),
    }
}

impl ReadFailure {
    pub fn message(&self) -> (s: String)
        ensures
            s@ == spec_read_failure_message(self@),
    {
        match self {
            ReadFailure::UnexpectedEof => String::from_str("unexpected end of stream"),
            ReadFailure::Io(detail) => detail.clone(),
        }
    }
}

impl StreamError {
    pub fn message(&self) -> (s: String)
        ensures
            s@ == spec_stream_error_message(self@),
    {
        match self {
            StreamError::Read(why) => String::from_str("Failed to read payload: ").concat(
                why.message().as_str(),
            ),
            StreamError::ReadStreamType(why) => String::from_str(
                "Failed to read stream type: ",
            ).concat(why.message().as_str()),
            StreamError::UnknownStreamType(byte) => String::from_str(
                "Unknown stream type: ",
            ).concat(decimal(*byte as u64).as_str()),
            StreamError::ReadStreamLength(why) => String::from_str(
                "Failed to read stream length: ",
            ).concat(why.message().as_str()),
            StreamError::InvalidStreamLength(len) => String::from_str(
                "Invalid stream length: ",
            ).concat(decimal(*len as u64).as_str()),
            StreamError::MaxExecutionTime => String::from_str("Max execution time exceeded"),
            StreamError::MaxReadSize(max) => String::from_str("Max read size exceeded: ").concat(
                decimal(*max as u64).as_str(),
            ),
        }
    }
}

/// One unit of the multiplexed stream.
#[derive(Debug, PartialEq, Eq)]
pub struct Frame {
    pub stream_type: StreamType,
    pub payload: Vec<u8>,
}

pub struct FrameView {
    pub stream_type: StreamType,
    pub payload: Seq<u8>,
}

impl View for Frame {
    type V = FrameView;

    open spec fn view(&self) -> FrameView {
        FrameView { stream_type: self.stream_type, payload: self.payload@ }
    }
}

impl FrameView {
    /// A frame can be written down only if its length fits the length word.
    pub open spec fn encodable(self) -> bool {
        self.payload.len() <= u32::MAX
    }

    /// The eight header bytes: type, padding, length with the high byte first.
    pub open spec fn header(self) -> Seq<u8> {
        let len = self.payload.len() as int;
        seq![
            self.stream_type.spec_to_byte(),
            0u8,
            0u8,
            0u8,
            (len / 0x100_0000) as u8,
            (len / 0x1_0000 % 0x100) as u8,
            (len / 0x100 % 0x100) as u8,
            (len % 0x100) as u8,
        ]
    }

    /// The frame as it travels: header, then payload.
    pub open spec fn encode(self) -> Seq<u8> {
        self.header() + self.payload
    }
}

/// What the front of a byte sequence holds.
pub enum Decoded {
    /// Too few bytes to say; more may still come.
    Incomplete,
    /// The header is wrong, whatever follows.
    Invalid(StreamErrorView),
    /// A whole frame, which takes up its header and its payload.
    Complete(FrameView),
}

/// Reads the front of `bytes` as a frame.
///
/// The type is judged as soon as the type word is there, the length as soon as
/// the length word is there, and the frame is whole once the payload is.
pub open spec fn spec_decode_frame(bytes: Seq<u8>) -> Decoded {
    if bytes.len() < TYPE_WORD_LEN {
        Decoded::Incomplete
    } else {
        match StreamType::spec_from_byte(bytes[0]) {
            None => Decoded::Invalid(StreamErrorView::UnknownStreamType(bytes[0])),
            Some(stream_type) => {
                if bytes.len() < HEADER_LEN {
                    Decoded::Incomplete
                } else {
                    let len = spec_be_u32(bytes[4], bytes[5], bytes[6], bytes[7]);
                    if len > usize::MAX {
                        Decoded::Invalid(StreamErrorView::InvalidStreamLength(len as u32))
                    } else if bytes.len() < HEADER_LEN + len {
                        Decoded::Incomplete
                    } else {
                        Decoded::Complete(
                            FrameView {
                                stream_type,
                                payload: bytes.subrange(HEADER_LEN as int, HEADER_LEN + len),
                            },
                        )
                    }
                }
            },
        }
    }
}

/// The error of a read that was cut short, by how far into a frame the bytes
/// held so far reach: into the type word, the length word or the payload.
pub open spec fn spec_read_failure(pending: Seq<u8>, why: ReadFailureView) -> StreamErrorView {
    if pending.len() < TYPE_WORD_LEN {
        StreamErrorView::ReadStreamType(why)
    } else if pending.len() < HEADER_LEN {
        StreamErrorView::ReadStreamLength(why)
    } else {
        StreamErrorView::Read(why)
    }
}

/// What the end of the stream means for the bytes not yet made into a frame:
/// nothing if there are none, else a read that was cut short.
pub open spec fn spec_end_of_stream(pending: Seq<u8>) -> Option<StreamErrorView> {
    if pending.len() == 0 {
        None
    } else {
        Some(spec_read_failure(pending, ReadFailureView::UnexpectedEof))
    }
}

/// Decodes the frame at the front of `bytes`, if a whole one is there.
///
/// `Ok(None)` asks for more bytes. A frame that is returned took up
/// `HEADER_LEN` bytes and its payload's length.
pub fn decode_frame(bytes: &[u8]) -> (r: Result<Option<Frame>, StreamError>)
    ensures
        match spec_decode_frame(bytes@) {
            Decoded::Incomplete => r matches Ok(None),
            Decoded::Invalid(error) => r matches Err(e) && e@ == error,
            Decoded::Complete(frame) => r matches Ok(Some(f)) && f@ == frame,
        },
{
    if bytes.len() < TYPE_WORD_LEN {
        return Ok(None);
    }
    let stream_type = match StreamType::from_byte(bytes[0]) {
        Some(stream_type) => stream_type,
        None => {
            return Err(StreamError::UnknownStreamType(bytes[0]));
        },
    };
    if bytes.len() < HEADER_LEN {
        return Ok(None);
    }
    let declared: u32 = be_u32(bytes[4], bytes[5], bytes[6], bytes[7]);
    if declared as u64 > usize::MAX as u64 {
        return Err(StreamError::InvalidStreamLength(declared));
    }
    let len: usize = declared as usize;
    if bytes.len() - HEADER_LEN < len {
        return Ok(None);
    }
    let payload = slice_to_vec(slice_subrange(bytes, HEADER_LEN, HEADER_LEN + len));
    Ok(Some(Frame { stream_type, payload }))
}

/// Cuts a stream that arrives in pieces into frames.
///
/// Bytes are pushed as they are read; whole frames are taken from the front.
/// What has been pushed and not yet taken is the reader's view.
pub struct FrameReader {
    buf: Vec<u8>,
    pos: usize,
}

impl View for FrameReader {
    type V = Seq<u8>;

    closed spec fn view(&self) -> Seq<u8> {
        self.buf@.skip(self.pos as int)
    }
}

impl FrameReader {
    #[verifier::type_invariant]
    spec fn in_bounds(self) -> bool {
        self.pos <= self.buf@.len()
    }

    pub fn new() -> (r: FrameReader)
        ensures
            r@ == Seq::<u8>::empty(),
    {
        FrameReader { buf: Vec::new(), pos: 0 }
    }

    /// Adds bytes that were read from the stream behind those already held.
    pub fn push(&mut self, chunk: &[u8])
        ensures
            final(self)@ == old(self)@ + chunk@,
    {
        let mut taken = FrameReader::new();
        core::mem::swap(self, &mut taken);
        proof {
            use_type_invariant(&taken);
        }
        let FrameReader { buf, pos } = taken;
        let mut buf = buf;
        let mut pos = pos;
        if pos >= buf.len() - pos {
            // What was taken outweighs what is held: drop it.
            let held = buf.split_off(pos);
            buf = held;
            pos = 0;
        }
        let ghost before = buf@;
        buf.extend_from_slice(chunk);
        assert(buf@ =~= before + chunk@);
        assert(buf@.skip(pos as int) =~= before.skip(pos as int) + chunk@);
        *self = FrameReader { buf, pos };
    }

    /// Takes the next whole frame from the front, if one is there.
    pub fn next_frame(&mut self) -> (r: Result<Option<Frame>, StreamError>)
        ensures
            match spec_decode_frame(old(self)@) {
                Decoded::Incomplete => r matches Ok(None) && final(self)@ == old(self)@,
                Decoded::Invalid(error) => r matches Err(e) && e@ == error && final(self)@ == old(
                    self,
                )@,
                Decoded::Complete(frame) => r matches Ok(Some(f)) && f@ == frame && final(self)@
                    == old(self)@.skip(HEADER_LEN + frame.payload.len()),
            },
    {
        proof {
            use_type_invariant(&*self);
        }
        let decoded = decode_frame(slice_subrange(self.buf.as_slice(), self.pos, self.buf.len()));
        match decoded {
            Ok(Some(frame)) => {
                self.pos = self.pos + HEADER_LEN + frame.payload.len();
                Ok(Some(frame))
            },
            other => other,
        }
    }

    /// The error to report when a read fails while these bytes are held.
    pub fn read_failure(&self, why: ReadFailure) -> (e: StreamError)
        ensures
            e@ == spec_read_failure(self@, why@),
    {
        proof {
            use_type_invariant(self);
        }
        let pending: usize = self.buf.len() - self.pos;
        if pending < TYPE_WORD_LEN {
            StreamError::ReadStreamType(why)
        } else if pending < HEADER_LEN {
            StreamError::ReadStreamLength(why)
        } else {
            StreamError::Read(why)
        }
    }

    /// Judges the end of the stream: it may fall between frames, not inside one.
    pub fn finish(&self) -> (r: Result<(), StreamError>)
        ensures
            match spec_end_of_stream(self@) {
                None => r is Ok,
                Some(error) => r matches Err(e) && e@ == error,
            },
    {
        proof {
            use_type_invariant(self);
        }
        if self.buf.len() - self.pos == 0 {
            Ok(())
        } else {
            Err(self.read_failure(ReadFailure::UnexpectedEof))
        }
    }
}

} // verus!
