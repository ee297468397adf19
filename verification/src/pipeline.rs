//! The two passes of the decode protocol: the signal discovery pass, which
//! drives the frame iterator exactly once to learn the stream's signal
//! parameters, and the transcode loop, which drives it to the end of the
//! stream and collects every decoded frame's samples in order.

use vstd::prelude::*;

use crate::errors::{
    AudioError, DecodeDisposition, ReadDisposition, StreamErrorKind, classify_decode_failure,
    classify_read_failure, fatal_error_of,
};
use crate::media::{
    DecoderHandle, FormatHandle, SignalParams, decode_packet_bits, decode_packet_params,
    read_packet,
};
use crate::wav::{wav_bytes, write_container};
use crate::model::{
    ModelOutcome, TranscodeEvent, all_progress, lemma_model_prepend, lemma_progress_unfinished,
    lemma_samples_push, samples_of, transcode_model, wf_trace,
};

verus! {

/// What the single frame-iterator call of the signal discovery pass
/// observed.
pub ghost enum DiscoveryEvent {
    /// The first packet belonged to the selected track and decoded; the
    /// signal parameters were captured from it.
    FirstFrame,
    /// The very first read already reported clean end of stream.
    StreamEmpty,
    /// The first packet belonged to this other track and was discarded.
    ForeignPacket(u32),
    /// The first packet failed to decode recoverably and was discarded.
    UndecodablePacket,
    /// The first read failed with this fatal kind (never `EndOfInput`).
    ReadFault(StreamErrorKind),
    /// The first decode failed with this fatal kind (never
    /// `MalformedPacket`).
    DecodeFault(StreamErrorKind),
}

/// The verdict the discovery pass owes for each observation: only a decoded
/// first frame lets the operation continue; a terminated stream, like a
/// first packet that yields no frame, means the input has no decodable
/// audio; a fatal fault propagates as the fatal error of its kind.
pub open spec fn discovery_verdict(ev: DiscoveryEvent) -> Option<AudioError> {
    match ev {
        DiscoveryEvent::FirstFrame => None,
        DiscoveryEvent::StreamEmpty => Some(AudioError::NoDecodableAudio),
        DiscoveryEvent::ForeignPacket(_) => Some(AudioError::NoDecodableAudio),
        DiscoveryEvent::UndecodablePacket => Some(AudioError::NoDecodableAudio),
        DiscoveryEvent::ReadFault(k) => Some(fatal_error_of(k)),
        DiscoveryEvent::DecodeFault(k) => Some(fatal_error_of(k)),
    }
}

/// A discovery observation as the frame iterator can actually produce it
/// for the selected track.
pub open spec fn wf_discovery_event(ev: DiscoveryEvent, track: u32) -> bool {
    match ev {
        DiscoveryEvent::ForeignPacket(t) => t != track,
        DiscoveryEvent::ReadFault(k) => k != StreamErrorKind::EndOfInput,
        DiscoveryEvent::DecodeFault(k) => k != StreamErrorKind::MalformedPacket,
        _ => true,
    }
}

/// The signal discovery pass: drive the frame iterator exactly once. On the
/// first decoded frame, report its signal parameters; on anything else,
/// fail with exactly the verdict that `discovery_verdict` assigns to what
/// was observed.
pub fn discover_signal(fmt: &mut FormatHandle, dec: &mut DecoderHandle, track_id: u32) -> (r: (
    Result<SignalParams, AudioError>,
    Ghost<DiscoveryEvent>,
))
    ensures
        wf_discovery_event(r.1@, track_id),
        r.0 matches Ok(_) ==> discovery_verdict(r.1@) is None,
        r.0 matches Err(e) ==> discovery_verdict(r.1@) == Some(e),
{
    match read_packet(fmt) {
        Err(k) => match classify_read_failure(k) {
            ReadDisposition::EndOfStream => (
                Err(AudioError::NoDecodableAudio),
                Ghost(DiscoveryEvent::StreamEmpty),
            ),
            ReadDisposition::Fatal(e) => (Err(e), Ghost(DiscoveryEvent::ReadFault(k))),
        },
        Ok(packet) => {
            let packet_track: u32 = packet.track_id();
            if packet_track != track_id {
                (Err(AudioError::NoDecodableAudio), Ghost(DiscoveryEvent::ForeignPacket(packet_track)))
            } else {
                match decode_packet_params(dec, &packet) {
                    Ok(params) => (Ok(params), Ghost(DiscoveryEvent::FirstFrame)),
                    Err(k) => match classify_decode_failure(k) {
                        DecodeDisposition::SkipPacket => (
                            Err(AudioError::NoDecodableAudio),
                            Ghost(DiscoveryEvent::UndecodablePacket),
                        ),
                        DecodeDisposition::Fatal(e) => (
                            Err(e),
                            Ghost(DiscoveryEvent::DecodeFault(k)),
                        ),
                    },
                }
            }
        },
    }
}

/// The transcode loop: drive the frame iterator until clean end of stream,
/// interleave every decoded frame of the selected track, and collect the
/// samples in order. The returned ghost trace records what the demuxer and
/// the decoder reported, and the result is exactly what the reference
/// semantics `transcode_model` assigns to that trace: the collected samples
/// on clean termination, or the first fatal error with all collected work
/// discarded.
///
/// The loop carries a packet budget so that it provably terminates. At one
/// packet per step the budget outlasts any physical stream; a source that
/// somehow exhausts it is reported as an input failure, with the trace
/// still unfinished.
pub fn run_transcode(fmt: &mut FormatHandle, dec: &mut DecoderHandle, track_id: u32) -> (r: (
    Result<Vec<u32>, AudioError>,
    Ghost<Seq<TranscodeEvent>>,
))
    ensures
        wf_trace(r.1@, track_id),
        r.0 matches Ok(samples) ==> transcode_model(r.1@) == ModelOutcome::Finished(samples@),
        r.0 matches Err(e) ==> transcode_model(r.1@) == ModelOutcome::Aborted(e)
            || (transcode_model(r.1@) == ModelOutcome::Unfinished && e
            == AudioError::FatalIoError),
{
    let mut out: Vec<u32> = Vec::new();
    let ghost mut trace: Seq<TranscodeEvent> = Seq::empty();
    let mut budget: u64 = u64::MAX;
    loop
        invariant
            all_progress(trace),
            wf_trace(trace, track_id),
            samples_of(trace) == out@,
        decreases budget,
    {
        if budget == 0 {
            proof {
                lemma_progress_unfinished(trace);
            }
            return (Err(AudioError::FatalIoError), Ghost(trace));
        }
        budget = budget - 1;
        match read_packet(fmt) {
            Err(k) => match classify_read_failure(k) {
                ReadDisposition::EndOfStream => {
                    proof {
                        lemma_model_prepend(trace, seq![TranscodeEvent::ReadEnd]);
                        assert(trace + seq![TranscodeEvent::ReadEnd] =~= trace.push(
                            TranscodeEvent::ReadEnd,
                        ));
                        assert(out@ + Seq::<u32>::empty() =~= out@);
                        trace = trace.push(TranscodeEvent::ReadEnd);
                    }
                    return (Ok(out), Ghost(trace));
                },
                ReadDisposition::Fatal(e) => {
                    proof {
                        lemma_model_prepend(trace, seq![TranscodeEvent::ReadFailed(k)]);
                        assert(trace + seq![TranscodeEvent::ReadFailed(k)] =~= trace.push(
                            TranscodeEvent::ReadFailed(k),
                        ));
                        trace = trace.push(TranscodeEvent::ReadFailed(k));
                    }
                    return (Err(e), Ghost(trace));
                },
            },
            Ok(packet) => {
                let packet_track: u32 = packet.track_id();
                if packet_track != track_id {
                    proof {
                        lemma_samples_push(trace, TranscodeEvent::OtherTrack(packet_track));
                        assert(out@ + Seq::<u32>::empty() =~= out@);
                        trace = trace.push(TranscodeEvent::OtherTrack(packet_track));
                    }
                } else {
                    match decode_packet_bits(dec, &packet) {
                        Ok(bits) => {
                            proof {
                                lemma_samples_push(trace, TranscodeEvent::FrameDecoded(bits@));
                                trace = trace.push(TranscodeEvent::FrameDecoded(bits@));
                            }
                            let mut frame = bits;
                            out.append(&mut frame);
                        },
                        Err(k) => match classify_decode_failure(k) {
                            DecodeDisposition::SkipPacket => {
                                proof {
                                    lemma_samples_push(trace, TranscodeEvent::DecodeSkipped);
                                    assert(out@ + Seq::<u32>::empty() =~= out@);
                                    trace = trace.push(TranscodeEvent::DecodeSkipped);
                                }
                            },
                            DecodeDisposition::Fatal(e) => {
                                proof {
                                    lemma_model_prepend(
                                        trace,
                                        seq![TranscodeEvent::DecodeFailed(k)],
                                    );
                                    assert(trace + seq![TranscodeEvent::DecodeFailed(k)]
                                        =~= trace.push(TranscodeEvent::DecodeFailed(k)));
                                    trace = trace.push(TranscodeEvent::DecodeFailed(k));
                                }
                                return (Err(e), Ghost(trace));
                            },
                        },
                    }
                }
            },
        }
    }
}

/// The conditions under which a finished run's samples cannot become an
/// output container declared with these signal parameters: parameters the
/// container cannot express (a zero rate, a zero channel count, a byte
/// rate or a data size beyond its 32-bit header fields), or a sample count
/// that is not a whole number of frames for the declared channel count.
pub open spec fn writer_rejects(signal: SignalParams, samples: Seq<u32>) -> bool {
    ||| signal.rate == 0
    ||| signal.channels == 0
    ||| samples.len() >= 0x3FFF_FFE0
    ||| (signal.rate as int) * 4 * (signal.channels as int) >= 0x1_0000_0000
    ||| (samples.len() as int) % (signal.channels as int) != 0
}

/// The transcode loop followed by the container boundary: transcode the
/// whole stream and write the output container declared with exactly the
/// given signal parameters, as 32-bit floating-point samples. On success
/// the bytes are never empty and are precisely the writer's output for
/// those very parameters and the samples the finished run collected; so
/// the output container always declares the channel count and sample rate
/// that the discovery pass handed in. On failure, either the run aborted
/// with the reported error, or the packet budget ran out, or the run
/// finished but the writer rejected the output; and for a finished run the
/// writer error is owed exactly when `writer_rejects` holds, so success is
/// owed whenever it does not.
pub fn transcode_into_container(
    fmt: &mut FormatHandle,
    dec: &mut DecoderHandle,
    track_id: u32,
    signal: SignalParams,
) -> (r: (Result<Vec<u8>, AudioError>, Ghost<Seq<TranscodeEvent>>))
    ensures
        wf_trace(r.1@, track_id),
        r.0 matches Ok(bytes) ==> bytes@.len() > 0 && transcode_model(r.1@) is Finished && bytes@
            == wav_bytes(
            signal.channels,
            signal.rate,
            32,
            true,
            transcode_model(r.1@)->Finished_0,
        ),
        r.0 matches Err(e) ==> transcode_model(r.1@) == ModelOutcome::Aborted(e) || (
        transcode_model(r.1@) == ModelOutcome::Unfinished && e == AudioError::FatalIoError) || (e
            == AudioError::WriterError && transcode_model(r.1@) is Finished),
        transcode_model(r.1@) matches ModelOutcome::Finished(samples) ==> (r.0 == Err::<
            Vec<u8>,
            AudioError,
        >(AudioError::WriterError) <==> writer_rejects(signal, samples)),
{
    let (transcoded, trace) = run_transcode(fmt, dec, track_id);
    let samples = match transcoded {
        Ok(s) => s,
        Err(e) => return (Err(e), trace),
    };
    let rate_wide: u64 = signal.rate as u64;
    let channels_wide: u64 = signal.channels as u64;
    proof {
        assert(rate_wide * 4 * channels_wide < 0x8_0000_0000_0000) by (nonlinear_arith)
            requires
                rate_wide <= 0xFFFF_FFFF,
                channels_wide <= 0xFFFF,
        ;
    }
    let byte_rate: u64 = rate_wide * 4 * channels_wide;
    if signal.rate == 0 || signal.channels == 0 || samples.len() >= 0x3FFF_FFE0 || byte_rate
        >= 0x1_0000_0000 || samples.len() % (signal.channels as usize) != 0 {
        return (Err(AudioError::WriterError), trace);
    }
    match write_container(signal.channels, signal.rate, 32, true, &samples) {
        Ok(bytes) => {
            proof {
                assert(transcode_model(trace@) == ModelOutcome::Finished(samples@) && bytes@
                    == wav_bytes(signal.channels, signal.rate, 32, true, samples@));
            }
            (Ok(bytes), trace)
        },
        Err(_) => (Err(AudioError::WriterError), trace),
    }
}

} // verus!
