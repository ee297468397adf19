use vstd::prelude::*;

use crate::errors::{AudioError, StreamErrorKind, fatal_error_of};

verus! {

/// One observed interaction of the frame iterator with the demuxer and the
/// decoder. A trace of these events is the mathematical record of a
/// transcoding run: what each packet read reported, and what became of each
/// obtained packet.
pub ghost enum TranscodeEvent {
    /// The packet read reported clean end of stream.
    ReadEnd,
    /// The packet read failed with this kind (never `EndOfInput`).
    ReadFailed(StreamErrorKind),
    /// A packet of this foreign track id was obtained and discarded.
    OtherTrack(u32),
    /// A packet of the selected track decoded to these interleaved
    /// 32-bit sample bit patterns.
    FrameDecoded(Seq<u32>),
    /// A packet of the selected track failed to decode recoverably and
    /// was discarded.
    DecodeSkipped,
    /// A packet of the selected track failed to decode with this fatal
    /// kind (never `MalformedPacket`).
    DecodeFailed(StreamErrorKind),
}

/// What a transcoding run amounts to.
pub ghost enum ModelOutcome {
    /// The stream terminated cleanly; these are the output samples, in order.
    Finished(Seq<u32>),
    /// The run aborted with this error; all accumulated work is discarded.
    Aborted(AudioError),
    /// The trace stops before the stream terminated.
    Unfinished,
}

/// The reference semantics of the transcode loop: folding the event trace
/// from the front, packets of other tracks and recoverably failed packets
/// contribute nothing, decoded frames contribute their samples in order,
/// clean end of stream finishes the run, and any fatal event aborts it,
/// discarding everything.
pub open spec fn transcode_model(events: Seq<TranscodeEvent>) -> ModelOutcome
    decreases events.len(),
{
    if events.len() == 0 {
        ModelOutcome::Unfinished
    } else {
        match events.first() {
            TranscodeEvent::ReadEnd => ModelOutcome::Finished(Seq::empty()),
            TranscodeEvent::ReadFailed(k) => ModelOutcome::Aborted(fatal_error_of(k)),
            TranscodeEvent::OtherTrack(_) => transcode_model(events.drop_first()),
            TranscodeEvent::DecodeSkipped => transcode_model(events.drop_first()),
            TranscodeEvent::DecodeFailed(k) => ModelOutcome::Aborted(fatal_error_of(k)),
            TranscodeEvent::FrameDecoded(bits) => match transcode_model(events.drop_first()) {
                ModelOutcome::Finished(rest) => ModelOutcome::Finished(bits + rest),
                other => other,
            },
        }
    }
}

/// The samples one event contributes to the output.
pub open spec fn frame_bits(ev: TranscodeEvent) -> Seq<u32> {
    match ev {
        TranscodeEvent::FrameDecoded(bits) => bits,
        _ => Seq::empty(),
    }
}

/// All samples a trace contributes, in order.
pub open spec fn samples_of(events: Seq<TranscodeEvent>) -> Seq<u32>
    decreases events.len(),
{
    if events.len() == 0 {
        Seq::empty()
    } else {
        frame_bits(events.first()) + samples_of(events.drop_first())
    }
}

/// An event that ends the run, one way or the other.
pub open spec fn is_terminal(ev: TranscodeEvent) -> bool {
    match ev {
        TranscodeEvent::ReadEnd => true,
        TranscodeEvent::ReadFailed(_) => true,
        TranscodeEvent::DecodeFailed(_) => true,
        _ => false,
    }
}

/// A trace in which the run is still going after every event.
pub open spec fn all_progress(events: Seq<TranscodeEvent>) -> bool {
    forall|i: int| 0 <= i < events.len() ==> !is_terminal(#[trigger] events[i])
}

/// A trace as the frame iterator can actually produce it for the selected
/// track: foreign packets really are foreign, a failed read is never the
/// end-of-input kind (that one is absorbed as clean termination), and a
/// fatally failed decode is never the recoverable kind (that one is skipped).
pub open spec fn wf_event(ev: TranscodeEvent, track: u32) -> bool {
    match ev {
        TranscodeEvent::OtherTrack(t) => t != track,
        TranscodeEvent::ReadFailed(k) => k != StreamErrorKind::EndOfInput,
        TranscodeEvent::DecodeFailed(k) => k != StreamErrorKind::MalformedPacket,
        _ => true,
    }
}

/// Every event of the trace is well-formed for the selected track.
pub open spec fn wf_trace(events: Seq<TranscodeEvent>, track: u32) -> bool {
    forall|i: int| 0 <= i < events.len() ==> wf_event(#[trigger] events[i], track)
}

/// `o` with the samples `s` prepended, when it finished.
pub open spec fn prepend_samples(s: Seq<u32>, o: ModelOutcome) -> ModelOutcome {
    match o {
        ModelOutcome::Finished(t) => ModelOutcome::Finished(s + t),
        _ => o,
    }
}

/// Appending one event at the back contributes that event's samples at
/// the back.
pub proof fn lemma_samples_push(events: Seq<TranscodeEvent>, ev: TranscodeEvent)
    ensures
        samples_of(events.push(ev)) == samples_of(events) + frame_bits(ev),
    decreases events.len(),
{
    if events.len() == 0 {
        assert(events.push(ev).first() == ev);
        assert(events.push(ev).drop_first() =~= Seq::<TranscodeEvent>::empty());
        assert(frame_bits(ev) + Seq::<u32>::empty() =~= frame_bits(ev));
        assert(samples_of(events) + frame_bits(ev) =~= frame_bits(ev));
        assert(samples_of(events.push(ev)) == frame_bits(ev) + samples_of(
            events.push(ev).drop_first(),
        ));
        assert(samples_of(events.push(ev)) == samples_of(events) + frame_bits(ev));
    } else {
        lemma_samples_push(events.drop_first(), ev);
        assert(events.push(ev).drop_first() =~= events.drop_first().push(ev));
        assert(events.push(ev).first() == events.first());
        assert(frame_bits(events.first()) + (samples_of(events.drop_first()) + frame_bits(ev))
            =~= (frame_bits(events.first()) + samples_of(events.drop_first())) + frame_bits(ev));
    }
}

/// A trace whose every event keeps the run going only adds its samples in
/// front of whatever the rest of the trace amounts to.
pub proof fn lemma_model_prepend(prefix: Seq<TranscodeEvent>, rest: Seq<TranscodeEvent>)
    requires
        all_progress(prefix),
    ensures
        transcode_model(prefix + rest) == prepend_samples(samples_of(prefix), transcode_model(rest)),
    decreases prefix.len(),
{
    if prefix.len() == 0 {
        assert(prefix + rest =~= rest);
        match transcode_model(rest) {
            ModelOutcome::Finished(t) => {
                assert(samples_of(prefix) + t =~= t);
            },
            _ => {},
        }
    } else {
        assert(!is_terminal(prefix[0]));
        assert((prefix + rest).len() > 0);
        assert((prefix + rest).first() == prefix.first());
        assert((prefix + rest).drop_first() =~= prefix.drop_first() + rest);
        assert forall|i: int| 0 <= i < prefix.drop_first().len() implies !is_terminal(
            #[trigger] prefix.drop_first()[i],
        ) by {
            assert(prefix.drop_first()[i] == prefix[i + 1]);
        }
        lemma_model_prepend(prefix.drop_first(), rest);
        match prefix.first() {
            TranscodeEvent::FrameDecoded(bits) => {
                match transcode_model(rest) {
                    ModelOutcome::Finished(t) => {
                        assert(bits + (samples_of(prefix.drop_first()) + t)
                            =~= (bits + samples_of(prefix.drop_first())) + t);
                    },
                    _ => {},
                }
            },
            _ => {
                match transcode_model(rest) {
                    ModelOutcome::Finished(t) => {
                        assert(samples_of(prefix) =~= samples_of(prefix.drop_first()));
                    },
                    _ => {},
                }
            },
        }
    }
}

/// Law of track filtering: a packet that belongs to another track
/// contributes no samples and does not change the outcome of the run,
/// wherever in the stream it appears.
pub proof fn lemma_track_filtering(
    pre: Seq<TranscodeEvent>,
    track: u32,
    post: Seq<TranscodeEvent>,
)
    ensures
        transcode_model(pre + seq![TranscodeEvent::OtherTrack(track)] + post) == transcode_model(
            pre + post,
        ),
    decreases pre.len(),
{
    lemma_neutral_event_elision(pre, TranscodeEvent::OtherTrack(track), post);
}

/// Law of corruption tolerance, elision form: a recoverably failed packet
/// of the selected track contributes no samples and does not change the
/// outcome of the run, wherever in the stream it appears.
pub proof fn lemma_skip_elision(pre: Seq<TranscodeEvent>, post: Seq<TranscodeEvent>)
    ensures
        transcode_model(pre + seq![TranscodeEvent::DecodeSkipped] + post) == transcode_model(
            pre + post,
        ),
{
    lemma_neutral_event_elision(pre, TranscodeEvent::DecodeSkipped, post);
}

/// A non-terminal event that contributes no samples can be dropped from a
/// trace without changing the outcome.
pub proof fn lemma_neutral_event_elision(
    pre: Seq<TranscodeEvent>,
    ev: TranscodeEvent,
    post: Seq<TranscodeEvent>,
)
    requires
        !is_terminal(ev),
        frame_bits(ev) == Seq::<u32>::empty(),
    ensures
        transcode_model(pre + seq![ev] + post) == transcode_model(pre + post),
    decreases pre.len(),
{
    if pre.len() == 0 {
        assert(pre + seq![ev] =~= seq![ev]);
        assert(seq![ev] + post =~= (pre + seq![ev]) + post);
        assert((seq![ev] + post).first() == ev);
        assert((seq![ev] + post).drop_first() =~= post);
        assert(pre + post =~= post);
    } else {
        assert((pre + seq![ev] + post).len() > 0);
        assert((pre + seq![ev] + post).first() == pre.first());
        assert((pre + post).first() == pre.first());
        assert((pre + seq![ev] + post).drop_first() =~= pre.drop_first() + seq![ev] + post);
        assert((pre + post).drop_first() =~= pre.drop_first() + post);
        lemma_neutral_event_elision(pre.drop_first(), ev, post);
    }
}

/// Law of corruption tolerance: with the same surrounding stream, a packet
/// that decodes to `bits` and a packet whose decode recoverably fails lead
/// to the same outcome class, and when the run finishes, the damaged run's
/// output is the intact run's output with exactly that packet's samples
/// absent.
pub proof fn lemma_corruption_tolerance(
    pre: Seq<TranscodeEvent>,
    bits: Seq<u32>,
    post: Seq<TranscodeEvent>,
)
    requires
        all_progress(pre),
    ensures
        transcode_model(pre + seq![TranscodeEvent::FrameDecoded(bits)] + post) == prepend_samples(
            samples_of(pre) + bits,
            transcode_model(post),
        ),
        transcode_model(pre + seq![TranscodeEvent::DecodeSkipped] + post) == prepend_samples(
            samples_of(pre),
            transcode_model(post),
        ),
{
    let framed = pre.push(TranscodeEvent::FrameDecoded(bits));
    let skipped = pre.push(TranscodeEvent::DecodeSkipped);
    assert forall|i: int| 0 <= i < framed.len() implies !is_terminal(#[trigger] framed[i]) by {
        if i < pre.len() {
            assert(framed[i] == pre[i]);
        }
    }
    assert forall|i: int| 0 <= i < skipped.len() implies !is_terminal(#[trigger] skipped[i]) by {
        if i < pre.len() {
            assert(skipped[i] == pre[i]);
        }
    }
    lemma_samples_push(pre, TranscodeEvent::FrameDecoded(bits));
    lemma_samples_push(pre, TranscodeEvent::DecodeSkipped);
    assert(samples_of(pre) + Seq::<u32>::empty() =~= samples_of(pre));
    assert(pre + seq![TranscodeEvent::FrameDecoded(bits)] + post =~= framed + post);
    assert(pre + seq![TranscodeEvent::DecodeSkipped] + post =~= skipped + post);
    lemma_model_prepend(framed, post);
    lemma_model_prepend(skipped, post);
}

/// A trace in which the run is still going after every event amounts to
/// nothing yet: the run is unfinished.
pub proof fn lemma_progress_unfinished(events: Seq<TranscodeEvent>)
    requires
        all_progress(events),
    ensures
        transcode_model(events) == ModelOutcome::Unfinished,
    decreases events.len(),
{
    if events.len() > 0 {
        assert(!is_terminal(events[0]));
        assert forall|i: int| 0 <= i < events.drop_first().len() implies !is_terminal(
            #[trigger] events.drop_first()[i],
        ) by {
            assert(events.drop_first()[i] == events[i + 1]);
        }
        lemma_progress_unfinished(events.drop_first());
    }
}

/// An aborted run carries a fatal stream error and nothing else: never a
/// probing, codec-selection, discovery or writer error.
pub proof fn lemma_aborted_is_fatal(events: Seq<TranscodeEvent>)
    ensures
        transcode_model(events) matches ModelOutcome::Aborted(e) ==> (e
            == AudioError::FatalIoError || e == AudioError::FatalDecodeError),
    decreases events.len(),
{
    if events.len() > 0 {
        lemma_aborted_is_fatal(events.drop_first());
    }
}

/// A run finishes only on a clean end-of-stream event: some event of the
/// trace is `ReadEnd`.
pub proof fn lemma_finished_needs_end(events: Seq<TranscodeEvent>)
    requires
        transcode_model(events) is Finished,
    ensures
        exists|i: int| 0 <= i < events.len() && #[trigger] events[i] == TranscodeEvent::ReadEnd,
    decreases events.len(),
{
    match events.first() {
        TranscodeEvent::ReadEnd => {
            assert(events[0] == TranscodeEvent::ReadEnd);
        },
        _ => {
            lemma_finished_needs_end(events.drop_first());
            let i = choose|i: int|
                0 <= i < events.drop_first().len() && #[trigger] events.drop_first()[i]
                    == TranscodeEvent::ReadEnd;
            assert(events[i + 1] == TranscodeEvent::ReadEnd);
        },
    }
}

} // verus!
