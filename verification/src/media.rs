//! The boundary to the pluggable format prober and decoder bank. Everything
//! here that carries `#[verifier::external_body]` is trusted: its contract is
//! what the rest of the library believes about the media machinery.

use vstd::prelude::*;

use crate::errors::StreamErrorKind;

verus! {

/// A stateful cursor over the raw input that yields packets in stream order
/// and supports rewinding to the start. Opaque to verification; every use
/// goes through the trusted functions below.
#[verifier::external_body]
pub struct FormatHandle {
    inner: Box<dyn symphonia::core::formats::FormatReader>,
}

/// A decoder bound to one track's codec parameters. It consumes packets and
/// emits decoded frames, and supports an explicit reset of its internal
/// state. Opaque to verification.
#[verifier::external_body]
pub struct DecoderHandle {
    inner: Box<dyn symphonia::core::codecs::Decoder>,
}

/// One undecoded chunk of compressed data belonging to a specific track.
#[verifier::external_type_specification]
#[verifier::external_body]
pub struct ExPacket(symphonia::core::formats::Packet);

/// The codec parameters of one track, carried opaquely from the probe to
/// the decoder bank.
#[verifier::external_type_specification]
#[verifier::external_body]
pub struct ExCodecParameters(symphonia::core::codecs::CodecParameters);

/// The error type of the media machinery, told apart into the library's
/// own kinds by `kind_of_error`.
#[verifier::external_type_specification]
#[verifier::external_body]
pub struct ExError(symphonia::core::errors::Error);

/// Relies on `symphonia::core::formats::Packet::track_id`: the id of the
/// track this packet belongs to.
pub assume_specification[ symphonia::core::formats::Packet::track_id ](
    p: &symphonia::core::formats::Packet,
) -> u32;

/// The signal parameters discovered from the first decoded frame. Immutable
/// once set; every later frame of the stream is assumed to share them.
#[derive(Clone, Copy, Debug, PartialEq, Eq, Structural)]
pub struct SignalParams {
    /// Number of audio channels.
    pub channels: u16,
    /// Sample rate in Hz.
    pub rate: u32,
}

/// Relies on `symphonia::core::errors::Error`: maps each failure class of
/// the media machinery onto the library's own kinds, one arm per variant,
/// with an input failure of the unexpected-end kind told apart from every
/// other input failure.
#[verifier::external_body]
fn kind_of_error(e: symphonia::core::errors::Error) -> StreamErrorKind {
    match e {
        symphonia::core::errors::Error::IoError(io) => {
            if io.kind() == std::io::ErrorKind::UnexpectedEof {
                StreamErrorKind::EndOfInput
            } else {
                StreamErrorKind::InputFailure
            }
        },
        symphonia::core::errors::Error::DecodeError(_) => StreamErrorKind::MalformedPacket,
        symphonia::core::errors::Error::SeekError(_) => StreamErrorKind::SeekFailure,
        symphonia::core::errors::Error::Unsupported(_) => StreamErrorKind::UnsupportedFeature,
        symphonia::core::errors::Error::LimitError(_) => StreamErrorKind::LimitExceeded,
        symphonia::core::errors::Error::ResetRequired => StreamErrorKind::ResetRequired,
    }
}

/// Whether the prober recognizes these bytes as a known container format.
/// Probing an in-memory byte sequence with the default prober and default
/// options is deterministic in the bytes alone, which is all the library
/// assumes about this function.
pub uninterp spec fn probe_ok(bytes: Seq<u8>) -> bool;

/// Relies on `symphonia::default::get_probe` and `Probe::format`: probes the
/// raw input bytes for a known container format and, when one matches,
/// returns a format reader positioned at the start of the stream; it
/// succeeds exactly when the prober recognizes the bytes.
#[verifier::external_body]
pub(crate) fn probe_bytes(input: Vec<u8>) -> (r: Result<FormatHandle, StreamErrorKind>)
    ensures
        r is Ok <==> probe_ok(input@),
{
    let source = std::io::Cursor::new(input);
    let stream = symphonia::core::io::MediaSourceStream::new(Box::new(source), Default::default());
    let hint = symphonia::core::probe::Hint::new();
    let format_opts: symphonia::core::formats::FormatOptions = Default::default();
    let metadata_opts: symphonia::core::meta::MetadataOptions = Default::default();
    match symphonia::default::get_probe().format(&hint, stream, &format_opts, &metadata_opts) {
        Ok(probed) => Ok(FormatHandle { inner: probed.format }),
        Err(e) => Err(kind_of_error(e)),
    }
}

/// Relies on `FormatReader::default_track`: the container's declared default
/// track, as its id and its codec parameters, or `None` when the container
/// declares no track.
#[verifier::external_body]
pub(crate) fn default_track(f: &FormatHandle) -> Option<(u32, symphonia::core::codecs::CodecParameters)> {
    f.inner.default_track().map(|t| (t.id, t.codec_params.clone()))
}

/// Relies on `symphonia::default::get_codecs` and `CodecRegistry::make`:
/// builds a decoder for the given codec parameters, or fails when no known
/// codec matches.
#[verifier::external_body]
pub(crate) fn make_decoder(
    params: &symphonia::core::codecs::CodecParameters,
) -> Result<DecoderHandle, StreamErrorKind> {
    let opts: symphonia::core::codecs::DecoderOptions = Default::default();
    match symphonia::default::get_codecs().make(params, &opts) {
        Ok(d) => Ok(DecoderHandle { inner: d }),
        Err(e) => Err(kind_of_error(e)),
    }
}

/// Relies on `FormatReader::next_packet`: the next packet of the stream in
/// order, or the failure kind; an exhausted transport surfaces as
/// `EndOfInput`.
#[verifier::external_body]
pub(crate) fn read_packet(
    f: &mut FormatHandle,
) -> Result<symphonia::core::formats::Packet, StreamErrorKind> {
    match f.inner.next_packet() {
        Ok(p) => Ok(p),
        Err(e) => Err(kind_of_error(e)),
    }
}

/// Relies on `FormatReader::seek` with the accurate mode: repositions the
/// reader to time offset zero with unconstrained track scope, so the stream
/// can be traversed again from the absolute start.
#[verifier::external_body]
pub(crate) fn seek_to_start(f: &mut FormatHandle) -> Result<(), StreamErrorKind> {
    let target = symphonia::core::formats::SeekTo::Time {
        time: Default::default(),
        track_id: None,
    };
    match f.inner.seek(symphonia::core::formats::SeekMode::Accurate, target) {
        Ok(_) => Ok(()),
        Err(e) => Err(kind_of_error(e)),
    }
}

/// Relies on `Decoder::reset`: clears the decoder's internal prediction and
/// history state without recreating it.
#[verifier::external_body]
pub(crate) fn reset_decoder(d: &mut DecoderHandle) {
    d.inner.reset();
}

/// Relies on `Decoder::decode` and `AudioBufferRef::spec`: decodes one packet
/// and reports the frame's channel count and sample rate, discarding the
/// frame's content; this is the signal discovery step.
#[verifier::external_body]
pub(crate) fn decode_packet_params(
    d: &mut DecoderHandle,
    p: &symphonia::core::formats::Packet,
) -> Result<SignalParams, StreamErrorKind> {
    match d.inner.decode(p) {
        Ok(decoded) => {
            let spec = *decoded.spec();
            Ok(SignalParams { channels: spec.channels.count() as u16, rate: spec.rate })
        },
        Err(e) => Err(kind_of_error(e)),
    }
}

/// Relies on `Decoder::decode` and `SampleBuffer::copy_interleaved_ref`:
/// decodes one packet and hands its samples out interleaved, converted to
/// 32-bit floating point and carried as raw bit patterns. The sample buffer
/// is sized from the decoded frame's capacity, never its length. The
/// `Complex::new` call only settles the buffer's element type as the
/// 32-bit floating-point sample type; it computes nothing.
#[verifier::external_body]
pub(crate) fn decode_packet_bits(
    d: &mut DecoderHandle,
    p: &symphonia::core::formats::Packet,
) -> Result<Vec<u32>, StreamErrorKind> {
    match d.inner.decode(p) {
        Ok(decoded) => {
            let capacity = decoded.capacity() as u64;
            let mut buf = symphonia::core::audio::SampleBuffer::new(capacity, *decoded.spec());
            buf.copy_interleaved_ref(decoded);
            let _ = buf.samples().first().map(|s| {
                symphonia::core::dsp::complex::Complex::new(*s, *s)
            });
            Ok(buf.samples().iter().map(|s| s.to_bits()).collect())
        },
        Err(e) => Err(kind_of_error(e)),
    }
}

} // verus!
