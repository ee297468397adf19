//! Decodes a compressed audio byte stream (any container and codec the
//! pluggable probe and decoder bank recognize) into uncompressed linear PCM
//! and re-encodes it as a standard uncompressed audio container, so a
//! downstream consumer can play the sound without per-format decode logic.
//!
//! The decode runs in two passes over the same input: a signal discovery
//! pass that decodes one frame to learn the channel count and sample rate,
//! then, after rewinding the stream and resetting the decoder, a transcode
//! loop that interleaves every frame of the selected default track into the
//! output container. Sample values travel through the library as the raw
//! bit patterns of 32-bit floating-point samples.
//!
//! Known limitation: the signal parameters are assumed not to change after
//! the first frame, and an input that never reports end of stream keeps the
//! transcode loop running; neither condition is detected.

pub mod errors;
pub mod media;
pub mod model;
pub mod pipeline;
pub mod wav;

use vstd::prelude::*;

use crate::errors::{AudioError, StreamErrorKind, fatal_error, fatal_error_of};
use crate::media::{
    SignalParams, default_track, make_decoder, probe_bytes, probe_ok, reset_decoder, seek_to_start,
};
use crate::model::{ModelOutcome, TranscodeEvent, lemma_aborted_is_fatal, transcode_model};
use crate::pipeline::{
    DiscoveryEvent, discover_signal, discovery_verdict, transcode_into_container, writer_rejects,
};
use crate::wav::wav_bytes;

verus! {

/// The ghost record of one decode run: how far the operation got, and what
/// the collaborators reported along the way.
pub ghost enum DecodeRun {
    /// The prober did not recognize the container.
    NotProbed,
    /// The container was recognized but declares no default track.
    NoTrack,
    /// No decoder matched the default track's codec parameters.
    NoDecoder,
    /// The signal discovery pass ended the operation with this observation.
    Discovery(DiscoveryEvent),
    /// The stream rewind failed with this stream failure kind.
    ResetFailed(StreamErrorKind),
    /// The operation discovered these signal parameters and ran the
    /// transcode loop, which recorded this trace.
    Ran(SignalParams, Seq<TranscodeEvent>),
}

/// What a successful run's output bytes are: the run record shows the
/// transcode loop ran with the discovered signal parameters and finished,
/// and the bytes are exactly the writer's container for those parameters
/// and the finished run's samples, declared as 32-bit floating-point
/// samples.
pub open spec fn run_wrote(run: DecodeRun, bytes: Seq<u8>) -> bool {
    match run {
        DecodeRun::Ran(signal, trace) => transcode_model(trace) is Finished && bytes == wav_bytes(
            signal.channels,
            signal.rate,
            32,
            true,
            transcode_model(trace)->Finished_0,
        ),
        _ => false,
    }
}

/// Decode the whole compressed input into an uncompressed audio container.
///
/// The operation fails with `UnsupportedFormat` exactly when the prober
/// does not recognize the input bytes. On success the result is never
/// empty and is exactly the container the writer produces for the
/// discovered signal parameters and the samples of the finished run,
/// declared as 32-bit floating-point samples. Once the transcode loop ran,
/// a finished run is written out whenever the writer can express it, a
/// writer error is owed exactly when it cannot, and every other error is
/// the one the recorded trace aborted with; no partial output is ever
/// returned.
pub fn decode(input: Vec<u8>) -> (r: (Result<Vec<u8>, AudioError>, Ghost<DecodeRun>))
    ensures
        r.0 == Err::<Vec<u8>, AudioError>(AudioError::UnsupportedFormat) <==> !probe_ok(input@),
        r.0 matches Ok(bytes) ==> bytes@.len() > 0,
        r.0 matches Ok(bytes) ==> run_wrote(r.1@, bytes@),
        r.1@ matches DecodeRun::Ran(signal, trace) ==> (transcode_model(trace) matches
            ModelOutcome::Finished(samples) ==> (r.0 == Err::<Vec<u8>, AudioError>(AudioError::WriterError)
            <==> writer_rejects(signal, samples))),
        r.1@ matches DecodeRun::Ran(signal, trace) ==> (r.0 matches Err(e) ==> transcode_model(
            trace,
        ) == ModelOutcome::Aborted(e) || (transcode_model(trace) == ModelOutcome::Unfinished && e
            == AudioError::FatalIoError) || (e == AudioError::WriterError && transcode_model(trace)
            is Finished)),
        r.1@ matches DecodeRun::NotProbed ==> r.0 == Err::<Vec<u8>, AudioError>(AudioError::UnsupportedFormat),
        r.1@ matches DecodeRun::NoTrack ==> r.0 == Err::<Vec<u8>, AudioError>(AudioError::NoDecodableAudio),
        r.1@ matches DecodeRun::NoDecoder ==> r.0 == Err::<Vec<u8>, AudioError>(AudioError::UnsupportedCodec),
        r.1@ matches DecodeRun::Discovery(ev) ==> (r.0 matches Err(e) && discovery_verdict(ev)
            == Some(e)),
        r.1@ matches DecodeRun::ResetFailed(k) ==> r.0 == Err::<Vec<u8>, AudioError>(fatal_error_of(k)),
{
    let mut fmt = match probe_bytes(input) {
        Ok(f) => f,
        Err(_) => return (Err(AudioError::UnsupportedFormat), Ghost(DecodeRun::NotProbed)),
    };
    let (track_id, params) = match default_track(&fmt) {
        Some(t) => t,
        None => return (Err(AudioError::NoDecodableAudio), Ghost(DecodeRun::NoTrack)),
    };
    let mut dec = match make_decoder(&params) {
        Ok(d) => d,
        Err(_) => return (Err(AudioError::UnsupportedCodec), Ghost(DecodeRun::NoDecoder)),
    };

    let (discovered, observed) = discover_signal(&mut fmt, &mut dec, track_id);
    let signal: SignalParams = match discovered {
        Ok(s) => s,
        Err(e) => return (Err(e), Ghost(DecodeRun::Discovery(observed@))),
    };

    match seek_to_start(&mut fmt) {
        Ok(_) => {},
        Err(k) => return (Err(fatal_error(k)), Ghost(DecodeRun::ResetFailed(k))),
    }
    reset_decoder(&mut dec);

    let (transcoded, trace) = transcode_into_container(&mut fmt, &mut dec, track_id, signal);
    proof {
        lemma_aborted_is_fatal(trace@);
    }
    match transcoded {
        Ok(bytes) => {
            proof {
                assert(run_wrote(DecodeRun::Ran(signal, trace@), bytes@));
            }
            (Ok(bytes), Ghost(DecodeRun::Ran(signal, trace@)))
        },
        Err(e) => (Err(e), Ghost(DecodeRun::Ran(signal, trace@))),
    }
}

} // verus!
