use vstd::prelude::*;

verus! {

/// The error taxonomy of the decoder: every unrecoverable condition the
/// operation can report instead of returning output bytes.
#[derive(Clone, Copy, Debug, PartialEq, Eq, Structural)]
pub enum AudioError {
    /// The prober cannot identify the container format.
    UnsupportedFormat,
    /// No decoder is available for the identified track's codec.
    UnsupportedCodec,
    /// The signal discovery pass obtained no frame: the input holds no
    /// usable audio data.
    NoDecodableAudio,
    /// An input failure other than a clean end-of-stream signal.
    FatalIoError,
    /// A decoder error class that is not a recoverable per-packet failure.
    FatalDecodeError,
    /// The output container writer failed to accept a sample or to finalize.
    WriterError,
}

/// The failure classes that the demuxer and the decoder can report, one
/// variant per failure shape of the underlying stream machinery.
#[derive(Clone, Copy, Debug, PartialEq, Eq, Structural)]
pub enum StreamErrorKind {
    /// The transport ran out of bytes: an "unexpected end" condition.
    EndOfInput,
    /// Any other input/output failure.
    InputFailure,
    /// One packet could not be decoded; the stream itself is intact.
    MalformedPacket,
    /// A seek request could not be satisfied.
    SeekFailure,
    /// The stream uses a feature the machinery does not support.
    UnsupportedFeature,
    /// A resource limit was exceeded while reading the stream.
    LimitExceeded,
    /// The decoder must be reset before more packets are decoded.
    ResetRequired,
}

/// The fatal error that a stream failure of kind `k` propagates as: a
/// malformed-packet class failure is a decode failure, everything else is
/// reported as an input failure.
pub open spec fn fatal_error_of(k: StreamErrorKind) -> AudioError {
    if k == StreamErrorKind::MalformedPacket {
        AudioError::FatalDecodeError
    } else {
        AudioError::FatalIoError
    }
}

/// Executable form of `fatal_error_of`.
pub fn fatal_error(k: StreamErrorKind) -> (r: AudioError)
    ensures
        r == fatal_error_of(k),
{
    if k == StreamErrorKind::MalformedPacket {
        AudioError::FatalDecodeError
    } else {
        AudioError::FatalIoError
    }
}

/// What a failed packet read means for the stream as a whole.
#[derive(Clone, Copy, Debug, PartialEq, Eq, Structural)]
pub enum ReadDisposition {
    /// The stream is over; this is normal termination, not an error.
    EndOfStream,
    /// The operation must abort with this error.
    Fatal(AudioError),
}

/// What a failed packet decode means for the stream as a whole.
#[derive(Clone, Copy, Debug, PartialEq, Eq, Structural)]
pub enum DecodeDisposition {
    /// Discard this packet's output and continue with the next packet.
    SkipPacket,
    /// The operation must abort with this error.
    Fatal(AudioError),
}

/// The first half of the end-of-stream / recoverable / fatal trichotomy:
/// a packet-read failure is normal termination exactly when the transport
/// was exhausted; every other read failure is fatal.
pub fn classify_read_failure(k: StreamErrorKind) -> (r: ReadDisposition)
    ensures
        k == StreamErrorKind::EndOfInput ==> r == ReadDisposition::EndOfStream,
        k != StreamErrorKind::EndOfInput ==> r == ReadDisposition::Fatal(fatal_error_of(k)),
{
    match k {
        StreamErrorKind::EndOfInput => ReadDisposition::EndOfStream,
        StreamErrorKind::MalformedPacket => ReadDisposition::Fatal(AudioError::FatalDecodeError),
        _ => ReadDisposition::Fatal(AudioError::FatalIoError),
    }
}

/// The second half of the trichotomy: a per-packet decode failure is
/// recoverable and is skipped; every other decode failure is fatal. One
/// corrupt packet never aborts the whole stream.
pub fn classify_decode_failure(k: StreamErrorKind) -> (r: DecodeDisposition)
    ensures
        k == StreamErrorKind::MalformedPacket ==> r == DecodeDisposition::SkipPacket,
        k != StreamErrorKind::MalformedPacket ==> r == DecodeDisposition::Fatal(fatal_error_of(k)),
{
    match k {
        StreamErrorKind::MalformedPacket => DecodeDisposition::SkipPacket,
        _ => DecodeDisposition::Fatal(AudioError::FatalIoError),
    }
}

} // verus!
