//! The pipeline coordinator: the decisions of one transcoding job, as a state
//! machine.
//!
//! The caller owns the container reader, decoder, filter graph, encoder and
//! container writer. It asks the pipeline what to do next, does it, and
//! reports what happened as an [`Event`]; the pipeline answers with the next
//! [`Action`]. The pipeline rescales timestamps at the stage boundaries,
//! drains each stage until it reports that it is empty, and runs the drain
//! sequence decoder, filter, encoder before the trailer is written.

use crate::error::Error;
use crate::mux::{MuxPhase, MuxState};
use crate::tags::{names_unique, TagMap};
use crate::timebase::{fits_i64, lemma_rescale_monotonic, rescale_opt, rescaled, Rational};
use vstd::prelude::*;

verus! {

/// Where the job stands in the drain sequence.
#[derive(Debug, Clone, Copy, PartialEq, Eq, Structural)]
pub enum Phase {
    /// Metadata and header are being written.
    Starting,
    /// Input packets are decoded, filtered, encoded and written.
    Streaming,
    /// The decoder was told that input ended; its buffered frames drain.
    DecoderDraining,
    /// The filter's source was flushed; its buffered frames drain.
    FilterDraining,
    /// The encoder was told that input ended; its buffered packets drain.
    EncoderDraining,
    /// The trailer is written; the job is over.
    Finalized,
}

/// What the caller is to do next.
#[derive(Debug, Clone, Copy, PartialEq, Eq, Structural)]
pub enum Action {
    /// Set the output container's metadata to [`Pipeline::metadata`].
    SetMetadata,
    /// Write the output container's header.
    WriteHeader,
    /// Read the next packet of the input container.
    ReadPacket,
    /// Send the packet just read to the decoder, with this timestamp, which
    /// is in the decoder's time base.
    SendPacket { pts: Option<i64> },
    /// Ask the decoder for a frame.
    ReceiveFrame,
    /// Push the frame just decoded into the filter's source.
    PushFrame,
    /// Ask the filter's sink for a frame.
    PullFrame,
    /// Send the frame just filtered to the encoder.
    SendFrame,
    /// Ask the encoder for a packet.
    ReceivePacket,
    /// Write the packet just encoded to output stream `stream`, with this
    /// timestamp, which is in the output time base.
    WritePacket { pts: Option<i64>, stream: usize },
    /// Tell the decoder that input has ended.
    SendDecoderEof,
    /// Tell the filter's source that input has ended.
    FlushFilter,
    /// Tell the encoder that input has ended.
    SendEncoderEof,
    /// Write the output container's trailer.
    WriteTrailer,
    /// Nothing is left to do.
    Finished,
}

/// What the caller observed when it carried out the last action.
#[derive(Debug, Clone, Copy, PartialEq, Eq, Structural)]
pub enum Event {
    /// The action was carried out.
    Done,
    /// A packet was read from input stream `stream`, stamped `pts` in the
    /// stream's `time_base`.
    Packet { stream: usize, pts: Option<i64>, time_base: Rational },
    /// The input container has no more packets.
    EndOfInput,
    /// The decoder gave a frame.
    Frame,
    /// The decoder has no frame to give now.
    NoFrame,
    /// The filter gave a frame.
    Filtered,
    /// The filter has no frame to give now.
    NoFiltered,
    /// The encoder gave a packet stamped `pts` in the decoder's time base.
    Encoded { pts: Option<i64> },
    /// The encoder has no packet to give now.
    NoEncoded,
}

/// What has flowed through the stages so far.
pub ghost struct Tally {
    /// Frames the decoder gave.
    pub decoded: nat,
    /// Frames pushed into the filter.
    pub pushed: nat,
    /// Frames the filter gave.
    pub filtered: nat,
    /// Frames sent to the encoder.
    pub sent: nat,
    /// Timestamps of the packets the encoder gave, in order.
    pub encoded: Seq<Option<i64>>,
    /// Timestamps of the packets written, in order.
    pub written: Seq<Option<i64>>,
    /// The decoder was told that input ended.
    pub decoder_eof: bool,
    /// After that, the decoder reported that it had no frame left.
    pub decoder_exhausted: bool,
    /// The filter's source was told that input ended.
    pub filter_flushed: bool,
    /// After that, the filter reported that it had no frame left.
    pub filter_exhausted: bool,
    /// The encoder was told that input ended.
    pub encoder_eof: bool,
    /// After that, the encoder reported that it had no packet left.
    pub encoder_exhausted: bool,
}

/// The model of a pipeline.
pub ghost struct PipelineView {
    /// Index of the input stream being transcoded.
    pub stream: usize,
    /// Time base of the decoder, in which frames and encoded packets are stamped.
    pub in_time_base: Rational,
    /// Time base of the output stream.
    pub out_time_base: Rational,
    pub phase: Phase,
    /// The action the pipeline waits on.
    pub pending: Action,
    /// The writer's protocol state.
    pub mux: MuxState,
    /// The metadata for the output container.
    pub tags: Seq<(Seq<char>, Seq<char>)>,
    pub tally: Tally,
}

/// Nothing has flowed yet.
pub open spec fn empty_tally() -> Tally {
    Tally {
        decoded: 0,
        pushed: 0,
        filtered: 0,
        sent: 0,
        encoded: Seq::empty(),
        written: Seq::empty(),
        decoder_eof: false,
        decoder_exhausted: false,
        filter_flushed: false,
        filter_exhausted: false,
        encoder_eof: false,
        encoder_exhausted: false,
    }
}

/// A new pipeline for input stream `stream`.
pub open spec fn initial(
    stream: usize,
    in_time_base: Rational,
    out_time_base: Rational,
    tags: Seq<(Seq<char>, Seq<char>)>,
) -> PipelineView {
    PipelineView {
        stream,
        in_time_base,
        out_time_base,
        phase: Phase::Starting,
        pending: Action::SetMetadata,
        mux: MuxState::spec_new(),
        tags,
        tally: empty_tally(),
    }
}

/// Whether a timestamp, if present, still fits in an `i64` once rescaled.
pub open spec fn pts_fits(pts: Option<i64>, from: Rational, to: Rational) -> bool {
    pts.is_none() || fits_i64(rescaled(pts.unwrap() as int, from, to))
}

/// A timestamp rescaled from `from` to `to`; a missing one stays missing.
pub open spec fn rescaled_pts(pts: Option<i64>, from: Rational, to: Rational) -> Option<i64> {
    match pts {
        Some(t) => Some(rescaled(t as int, from, to) as i64),
        None => None,
    }
}

/// The pipeline after event `e`, or the error that ends the job.
pub open spec fn next(s: PipelineView, e: Event) -> Result<PipelineView, Error> {
    let t = s.tally;
    match s.pending {
        Action::SetMetadata => match e {
            Event::Done => Ok(
                PipelineView {
                    pending: Action::WriteHeader,
                    mux: MuxState { metadata_set: true, ..s.mux },
                    ..s
                },
            ),
            _ => Err(Error::UnexpectedEvent),
        },
        Action::WriteHeader => match e {
            Event::Done => Ok(
                PipelineView {
                    phase: Phase::Streaming,
                    pending: Action::ReadPacket,
                    mux: MuxState { phase: MuxPhase::HeaderWritten, ..s.mux },
                    ..s
                },
            ),
            _ => Err(Error::UnexpectedEvent),
        },
        Action::ReadPacket => match e {
            Event::Packet { stream, pts, time_base } => {
                if stream != s.stream {
                    Ok(s)
                } else if !time_base.valid() {
                    Err(Error::DemuxFailed)
                } else if !pts_fits(pts, time_base, s.in_time_base) {
                    Err(Error::TimestampOverflow)
                } else {
                    Ok(
                        PipelineView {
                            pending: Action::SendPacket {
                                pts: rescaled_pts(pts, time_base, s.in_time_base),
                            },
                            ..s
                        },
                    )
                }
            },
            Event::EndOfInput => Ok(
                PipelineView { phase: Phase::DecoderDraining, pending: Action::SendDecoderEof, ..s },
            ),
            _ => Err(Error::UnexpectedEvent),
        },
        Action::SendPacket { .. } => match e {
            Event::Done => Ok(PipelineView { pending: Action::ReceiveFrame, ..s }),
            _ => Err(Error::UnexpectedEvent),
        },
        Action::ReceiveFrame => match e {
            Event::Frame => Ok(
                PipelineView {
                    pending: Action::PushFrame,
                    tally: Tally { decoded: t.decoded + 1, ..t },
                    ..s
                },
            ),
            Event::NoFrame => {
                if s.phase == Phase::DecoderDraining {
                    Ok(
                        PipelineView {
                            phase: Phase::FilterDraining,
                            pending: Action::FlushFilter,
                            tally: Tally { decoder_exhausted: true, ..t },
                            ..s
                        },
                    )
                } else {
                    Ok(PipelineView { pending: Action::ReadPacket, ..s })
                }
            },
            _ => Err(Error::UnexpectedEvent),
        },
        Action::PushFrame => match e {
            Event::Done => Ok(
                PipelineView {
                    pending: Action::PullFrame,
                    tally: Tally { pushed: t.pushed + 1, ..t },
                    ..s
                },
            ),
            _ => Err(Error::UnexpectedEvent),
        },
        Action::PullFrame => match e {
            Event::Filtered => Ok(
                PipelineView {
                    pending: Action::SendFrame,
                    tally: Tally { filtered: t.filtered + 1, ..t },
                    ..s
                },
            ),
            Event::NoFiltered => {
                if s.phase == Phase::FilterDraining {
                    Ok(
                        PipelineView {
                            phase: Phase::EncoderDraining,
                            pending: Action::SendEncoderEof,
                            tally: Tally { filter_exhausted: true, ..t },
                            ..s
                        },
                    )
                } else {
                    Ok(PipelineView { pending: Action::ReceiveFrame, ..s })
                }
            },
            _ => Err(Error::UnexpectedEvent),
        },
        Action::SendFrame => match e {
            Event::Done => Ok(
                PipelineView {
                    pending: Action::ReceivePacket,
                    tally: Tally { sent: t.sent + 1, ..t },
                    ..s
                },
            ),
            _ => Err(Error::UnexpectedEvent),
        },
        Action::ReceivePacket => match e {
            Event::Encoded { pts } => {
                if !pts_fits(pts, s.in_time_base, s.out_time_base) {
                    Err(Error::TimestampOverflow)
                } else {
                    Ok(
                        PipelineView {
                            pending: Action::WritePacket {
                                pts: rescaled_pts(pts, s.in_time_base, s.out_time_base),
                                stream: 0,
                            },
                            tally: Tally { encoded: t.encoded.push(pts), ..t },
                            ..s
                        },
                    )
                }
            },
            Event::NoEncoded => {
                if s.phase == Phase::EncoderDraining {
                    Ok(
                        PipelineView {
                            pending: Action::WriteTrailer,
                            tally: Tally { encoder_exhausted: true, ..t },
                            ..s
                        },
                    )
                } else {
                    Ok(PipelineView { pending: Action::PullFrame, ..s })
                }
            },
            _ => Err(Error::UnexpectedEvent),
        },
        Action::WritePacket { pts, .. } => match e {
            Event::Done => Ok(
                PipelineView {
                    pending: Action::ReceivePacket,
                    tally: Tally { written: t.written.push(pts), ..t },
                    ..s
                },
            ),
            _ => Err(Error::UnexpectedEvent),
        },
        Action::SendDecoderEof => match e {
            Event::Done => Ok(
                PipelineView {
                    pending: Action::ReceiveFrame,
                    tally: Tally { decoder_eof: true, ..t },
                    ..s
                },
            ),
            _ => Err(Error::UnexpectedEvent),
        },
        Action::FlushFilter => match e {
            Event::Done => Ok(
                PipelineView {
                    pending: Action::PullFrame,
                    tally: Tally { filter_flushed: true, ..t },
                    ..s
                },
            ),
            _ => Err(Error::UnexpectedEvent),
        },
        Action::SendEncoderEof => match e {
            Event::Done => Ok(
                PipelineView {
                    pending: Action::ReceivePacket,
                    tally: Tally { encoder_eof: true, ..t },
                    ..s
                },
            ),
            _ => Err(Error::UnexpectedEvent),
        },
        Action::WriteTrailer => match e {
            Event::Done => Ok(
                PipelineView {
                    phase: Phase::Finalized,
                    pending: Action::Finished,
                    mux: MuxState { phase: MuxPhase::Closed, ..s.mux },
                    ..s
                },
            ),
            _ => Err(Error::UnexpectedEvent),
        },
        Action::Finished => Err(Error::UnexpectedEvent),
    }
}

/// Whether `phase` is one of the three drain phases or the end.
pub open spec fn past_streaming(phase: Phase) -> bool {
    phase == Phase::DecoderDraining || phase == Phase::FilterDraining || phase
        == Phase::EncoderDraining || phase == Phase::Finalized
}

/// Which actions can be pending in which phase, and the writer's state there.
pub open spec fn phase_consistent(s: PipelineView) -> bool {
    match s.phase {
        Phase::Starting => (s.pending == Action::SetMetadata && s.mux == MuxState::spec_new()) || (
        s.pending == Action::WriteHeader && s.mux == MuxState {
            phase: MuxPhase::Open,
            metadata_set: true,
        }),
        Phase::Finalized => s.pending == Action::Finished && s.mux == MuxState {
            phase: MuxPhase::Closed,
            metadata_set: true,
        },
        _ => {
            &&& s.mux == MuxState { phase: MuxPhase::HeaderWritten, metadata_set: true }
            &&& s.pending != Action::SetMetadata
            &&& s.pending != Action::WriteHeader
            &&& s.pending != Action::Finished
            &&& (s.pending == Action::ReadPacket || s.pending is SendPacket) ==> s.phase
                == Phase::Streaming
            &&& s.pending == Action::SendDecoderEof ==> s.phase == Phase::DecoderDraining
            &&& s.pending == Action::FlushFilter ==> s.phase == Phase::FilterDraining
            &&& (s.pending == Action::SendEncoderEof || s.pending == Action::WriteTrailer)
                ==> s.phase == Phase::EncoderDraining
            &&& (s.pending == Action::ReceiveFrame || s.pending == Action::PushFrame) ==> (
            s.phase == Phase::Streaming || s.phase == Phase::DecoderDraining)
            &&& (s.pending == Action::PullFrame || s.pending == Action::SendFrame) ==> s.phase
                != Phase::EncoderDraining
        },
    }
}

/// What has flowed agrees with what is pending: a frame or packet in hand is
/// the only one not yet passed on, and every written timestamp is the
/// rescaled encoder timestamp.
pub open spec fn flow_consistent(s: PipelineView) -> bool {
    let t = s.tally;
    &&& t.pushed + (if s.pending == Action::PushFrame {
        1int
    } else {
        0int
    }) == t.decoded
    &&& t.sent + (if s.pending == Action::SendFrame {
        1int
    } else {
        0int
    }) == t.filtered
    &&& t.written.len() + (if s.pending is WritePacket {
        1int
    } else {
        0int
    }) == t.encoded.len()
    &&& forall|i: int|
        0 <= i < t.written.len() ==> #[trigger] t.written[i] == rescaled_pts(
            t.encoded[i],
            s.in_time_base,
            s.out_time_base,
        ) && pts_fits(t.encoded[i], s.in_time_base, s.out_time_base)
    &&& s.pending is WritePacket ==> {
        &&& s.pending->WritePacket_pts == rescaled_pts(
            t.encoded.last(),
            s.in_time_base,
            s.out_time_base,
        )
        &&& pts_fits(t.encoded.last(), s.in_time_base, s.out_time_base)
        &&& s.pending->WritePacket_stream == 0
    }
}

/// Each stage is told of the end of input before it is drained, and drained
/// before the next one is told.
pub open spec fn drain_consistent(s: PipelineView) -> bool {
    let t = s.tally;
    &&& t.decoder_exhausted ==> t.decoder_eof
    &&& t.filter_exhausted ==> t.filter_flushed
    &&& t.encoder_exhausted ==> t.encoder_eof
    &&& t.decoder_eof ==> past_streaming(s.phase)
    &&& (s.phase == Phase::DecoderDraining && s.pending != Action::SendDecoderEof)
        ==> t.decoder_eof
    &&& (s.phase == Phase::FilterDraining || s.phase == Phase::EncoderDraining || s.phase
        == Phase::Finalized) ==> t.decoder_exhausted
    &&& (s.phase == Phase::FilterDraining && s.pending != Action::FlushFilter) ==> t.filter_flushed
    &&& (s.phase == Phase::EncoderDraining || s.phase == Phase::Finalized) ==> t.filter_exhausted
    &&& (s.phase == Phase::EncoderDraining && s.pending != Action::SendEncoderEof)
        ==> t.encoder_eof
    &&& (s.phase == Phase::Finalized || s.pending == Action::WriteTrailer) ==> t.encoder_exhausted
}

/// The invariant of every pipeline.
pub open spec fn inv(s: PipelineView) -> bool {
    &&& s.in_time_base.valid()
    &&& s.out_time_base.valid()
    &&& names_unique(s.tags)
    &&& phase_consistent(s)
    &&& flow_consistent(s)
    &&& drain_consistent(s)
}

/// Every step keeps the invariant.
pub proof fn lemma_next_keeps_inv(s: PipelineView, e: Event)
    requires
        inv(s),
        next(s, e).is_ok(),
    ensures
        inv(next(s, e).unwrap()),
{
    let v = next(s, e).unwrap();
    let t = s.tally;
    if s.pending is ReceivePacket && e is Encoded {
        assert(v.tally.encoded.last() == e->Encoded_pts);
        assert forall|i: int| 0 <= i < v.tally.written.len() implies #[trigger] v.tally.written[i]
            == rescaled_pts(v.tally.encoded[i], s.in_time_base, s.out_time_base) && pts_fits(
            v.tally.encoded[i],
            s.in_time_base,
            s.out_time_base,
        ) by {
            assert(v.tally.encoded[i] == t.encoded[i]);
        }
    }
    if s.pending is WritePacket && e is Done {
        assert forall|i: int| 0 <= i < v.tally.written.len() implies #[trigger] v.tally.written[i]
            == rescaled_pts(v.tally.encoded[i], s.in_time_base, s.out_time_base) && pts_fits(
            v.tally.encoded[i],
            s.in_time_base,
            s.out_time_base,
        ) by {
            if i < t.written.len() {
                assert(v.tally.written[i] == t.written[i]);
            } else {
                assert(i == t.encoded.len() - 1);
            }
        }
    }
}

/// The pipeline after the events `events`, taken one after the other,
/// with the actions it answered them with; or the first error.
pub open spec fn run(s: PipelineView, events: Seq<Event>) -> Result<
    (PipelineView, Seq<Action>),
    Error,
>
    decreases events.len(),
{
    if events.len() == 0 {
        Ok((s, Seq::empty()))
    } else {
        match next(s, events[0]) {
            Ok(v) => match run(v, events.drop_first()) {
                Ok(rest) => Ok((rest.0, seq![v.pending] + rest.1)),
                Err(x) => Err(x),
            },
            Err(x) => Err(x),
        }
    }
}

/// Any run of events keeps the invariant.
pub proof fn lemma_run_keeps_inv(s: PipelineView, events: Seq<Event>)
    requires
        inv(s),
        run(s, events).is_ok(),
    ensures
        inv(run(s, events).unwrap().0),
    decreases events.len(),
{
    if events.len() > 0 {
        lemma_next_keeps_inv(s, events[0]);
        lemma_run_keeps_inv(next(s, events[0]).unwrap(), events.drop_first());
    }
}

/// A new pipeline satisfies the invariant.
pub proof fn lemma_initial_inv(
    stream: usize,
    in_time_base: Rational,
    out_time_base: Rational,
    tags: Seq<(Seq<char>, Seq<char>)>,
)
    requires
        in_time_base.valid(),
        out_time_base.valid(),
        names_unique(tags),
    ensures
        inv(initial(stream, in_time_base, out_time_base, tags)),
{
}

/// A job that finishes has drained every stage. The decoder, the filter and
/// the encoder were each told that input ended and afterwards reported that
/// nothing was left; every frame the decoder gave entered the filter, every
/// frame the filter gave entered the encoder, every packet the encoder gave
/// was written; and the writer is closed.
pub proof fn lemma_finish_drains_every_stage(
    stream: usize,
    in_time_base: Rational,
    out_time_base: Rational,
    tags: Seq<(Seq<char>, Seq<char>)>,
    events: Seq<Event>,
)
    requires
        in_time_base.valid(),
        out_time_base.valid(),
        names_unique(tags),
        run(initial(stream, in_time_base, out_time_base, tags), events).is_ok(),
        run(initial(stream, in_time_base, out_time_base, tags), events).unwrap().0.pending
            == Action::Finished,
    ensures
        ({
            let v = run(initial(stream, in_time_base, out_time_base, tags), events).unwrap().0;
            let t = v.tally;
            &&& t.decoder_eof && t.decoder_exhausted
            &&& t.filter_flushed && t.filter_exhausted
            &&& t.encoder_eof && t.encoder_exhausted
            &&& t.pushed == t.decoded
            &&& t.sent == t.filtered
            &&& t.written.len() == t.encoded.len()
            &&& v.mux.phase == MuxPhase::Closed
        }),
{
    let s = initial(stream, in_time_base, out_time_base, tags);
    lemma_initial_inv(stream, in_time_base, out_time_base, tags);
    lemma_run_keeps_inv(s, events);
}

/// The metadata written into the output container is the metadata the job
/// was given, verbatim: no step changes it.
pub proof fn lemma_tags_pass_through(s: PipelineView, events: Seq<Event>)
    requires
        run(s, events).is_ok(),
    ensures
        run(s, events).unwrap().0.tags == s.tags,
    decreases events.len(),
{
    if events.len() > 0 {
        lemma_tags_pass_through(next(s, events[0]).unwrap(), events.drop_first());
    }
}

/// Whether the timestamps present in `s` never decrease.
pub open spec fn nondecreasing(s: Seq<Option<i64>>) -> bool {
    forall|i: int, j: int|
        0 <= i < j < s.len() && (#[trigger] s[i]).is_some() && (#[trigger] s[j]).is_some()
            ==> s[i].unwrap() <= s[j].unwrap()
}

/// Packets are written in timestamp order whenever the encoder hands them
/// out in timestamp order: rescaling into the output time base keeps order.
pub proof fn lemma_written_in_order(s: PipelineView)
    requires
        inv(s),
        nondecreasing(s.tally.encoded),
    ensures
        nondecreasing(s.tally.written),
{
    let t = s.tally;
    assert forall|i: int, j: int|
        0 <= i < j < t.written.len() && (#[trigger] t.written[i]).is_some() && (
        #[trigger] t.written[j]).is_some() implies t.written[i].unwrap()
        <= t.written[j].unwrap() by {
        assert(t.written[i] == rescaled_pts(t.encoded[i], s.in_time_base, s.out_time_base));
        assert(t.written[j] == rescaled_pts(t.encoded[j], s.in_time_base, s.out_time_base));
        assert(pts_fits(t.encoded[i], s.in_time_base, s.out_time_base));
        assert(pts_fits(t.encoded[j], s.in_time_base, s.out_time_base));
        lemma_rescale_monotonic(
            t.encoded[i].unwrap() as int,
            t.encoded[j].unwrap() as int,
            s.in_time_base,
            s.out_time_base,
        );
    }
}

/// Two pipelines built with the same parameters and fed the same events
/// answer with the same actions and end in the same state: a job's output
/// depends on its inputs alone.
pub proof fn lemma_same_inputs_same_run(
    stream: usize,
    in_time_base: Rational,
    out_time_base: Rational,
    tags_a: Seq<(Seq<char>, Seq<char>)>,
    tags_b: Seq<(Seq<char>, Seq<char>)>,
    events: Seq<Event>,
)
    requires
        tags_a == tags_b,
    ensures
        run(initial(stream, in_time_base, out_time_base, tags_a), events) == run(
            initial(stream, in_time_base, out_time_base, tags_b),
            events,
        ),
{
}

/// A job: the pipeline's state, the decisions at each boundary, and the
/// writer's protocol.
pub struct Pipeline {
    stream: usize,
    in_time_base: Rational,
    out_time_base: Rational,
    phase: Phase,
    pending: Action,
    mux: MuxState,
    metadata: TagMap,
    tally: Ghost<Tally>,
}

impl View for Pipeline {
    type V = PipelineView;

    closed spec fn view(&self) -> PipelineView {
        PipelineView {
            stream: self.stream,
            in_time_base: self.in_time_base,
            out_time_base: self.out_time_base,
            phase: self.phase,
            pending: self.pending,
            mux: self.mux,
            tags: self.metadata@,
            tally: self.tally@,
        }
    }
}

impl Pipeline {
    /// Well-formed: the pipeline's invariant holds of its model.
    pub open spec fn wf(&self) -> bool {
        inv(self@)
    }

    /// A pipeline that transcodes input stream `stream`, whose decoder stamps
    /// frames in `in_time_base`, into an output stream stamped in
    /// `out_time_base`, with `metadata` for the output container. Its first
    /// action is [`Action::SetMetadata`].
    ///
    /// Fails with `DecodeRejected` when `in_time_base` has a part that is not
    /// positive, and with `EncodeRejected` when `out_time_base` has one.
    pub fn new(stream: usize, in_time_base: Rational, out_time_base: Rational, metadata: TagMap) -> (r:
        Result<Pipeline, Error>)
        requires
            metadata.wf(),
        ensures
            !in_time_base.valid() ==> r == Err::<Pipeline, Error>(Error::DecodeRejected),
            in_time_base.valid() && !out_time_base.valid() ==> r == Err::<Pipeline, Error>(
                Error::EncodeRejected,
            ),
            in_time_base.valid() && out_time_base.valid() ==> r.is_ok() && r.unwrap().wf()
                && r.unwrap()@ == initial(stream, in_time_base, out_time_base, metadata@),
    {
        if !in_time_base.is_valid() {
            return Err(Error::DecodeRejected);
        }
        if !out_time_base.is_valid() {
            return Err(Error::EncodeRejected);
        }
        Ok(
            Pipeline {
                stream,
                in_time_base,
                out_time_base,
                phase: Phase::Starting,
                pending: Action::SetMetadata,
                mux: MuxState::new(),
                metadata,
                tally: Ghost(empty_tally()),
            },
        )
    }

    /// The action the pipeline waits on.
    pub fn pending(&self) -> (r: Action)
        ensures
            r == self@.pending,
    {
        self.pending
    }

    /// The phase of the drain sequence.
    pub fn phase(&self) -> (r: Phase)
        ensures
            r == self@.phase,
    {
        self.phase
    }

    /// Index of the input stream being transcoded.
    pub fn stream(&self) -> (r: usize)
        ensures
            r == self@.stream,
    {
        self.stream
    }

    /// The writer's protocol state.
    pub fn mux(&self) -> (r: MuxState)
        ensures
            r == self@.mux,
    {
        self.mux
    }

    /// The metadata for the output container, as given to [`Pipeline::new`].
    pub fn metadata(&self) -> (r: &TagMap)
        requires
            self.wf(),
        ensures
            r@ == self@.tags,
            r.wf(),
    {
        &self.metadata
    }

    /// Takes the outcome of the pending action and returns the next action.
    /// An event that does not answer the pending action fails with
    /// `UnexpectedEvent`; a packet of the transcoded stream whose time base
    /// has a part that is not positive fails with `DemuxFailed`; a timestamp
    /// that does not fit once rescaled fails with `TimestampOverflow`. On
    /// failure the pipeline is unchanged.
    pub fn step(&mut self, e: Event) -> (r: Result<Action, Error>)
        requires
            old(self).wf(),
        ensures
            final(self).wf(),
            match next(old(self)@, e) {
                Ok(v) => r == Ok::<Action, Error>(v.pending) && final(self)@ == v,
                Err(x) => r == Err::<Action, Error>(x) && final(self)@ == old(self)@,
            },
    {
        let ghost before = self@;
        let ghost t = self.tally@;
        match self.pending {
            Action::SetMetadata => match e {
                Event::Done => {
                    let _ = self.mux.set_metadata();
                    self.pending = Action::WriteHeader;
                },
                _ => {
                    return Err(Error::UnexpectedEvent);
                },
            },
            Action::WriteHeader => match e {
                Event::Done => {
                    let _ = self.mux.write_header();
                    self.phase = Phase::Streaming;
                    self.pending = Action::ReadPacket;
                },
                _ => {
                    return Err(Error::UnexpectedEvent);
                },
            },
            Action::ReadPacket => match e {
                Event::Packet { stream, pts, time_base } => {
                    if stream == self.stream {
                        if !time_base.is_valid() {
                            return Err(Error::DemuxFailed);
                        }
                        match rescale_opt(pts, time_base, self.in_time_base) {
                            Ok(p) => {
                                self.pending = Action::SendPacket { pts: p };
                            },
                            Err(_) => {
                                return Err(Error::TimestampOverflow);
                            },
                        }
                    }
                },
                Event::EndOfInput => {
                    self.phase = Phase::DecoderDraining;
                    self.pending = Action::SendDecoderEof;
                },
                _ => {
                    return Err(Error::UnexpectedEvent);
                },
            },
            Action::SendPacket { .. } => match e {
                Event::Done => {
                    self.pending = Action::ReceiveFrame;
                },
                _ => {
                    return Err(Error::UnexpectedEvent);
                },
            },
            Action::ReceiveFrame => match e {
                Event::Frame => {
                    self.pending = Action::PushFrame;
                    self.tally = Ghost(Tally { decoded: t.decoded + 1, ..t });
                },
                Event::NoFrame => {
                    if self.phase == Phase::DecoderDraining {
                        self.phase = Phase::FilterDraining;
                        self.pending = Action::FlushFilter;
                        self.tally = Ghost(Tally { decoder_exhausted: true, ..t });
                    } else {
                        self.pending = Action::ReadPacket;
                    }
                },
                _ => {
                    return Err(Error::UnexpectedEvent);
                },
            },
            Action::PushFrame => match e {
                Event::Done => {
                    self.pending = Action::PullFrame;
                    self.tally = Ghost(Tally { pushed: t.pushed + 1, ..t });
                },
                _ => {
                    return Err(Error::UnexpectedEvent);
                },
            },
            Action::PullFrame => match e {
                Event::Filtered => {
                    self.pending = Action::SendFrame;
                    self.tally = Ghost(Tally { filtered: t.filtered + 1, ..t });
                },
                Event::NoFiltered => {
                    if self.phase == Phase::FilterDraining {
                        self.phase = Phase::EncoderDraining;
                        self.pending = Action::SendEncoderEof;
                        self.tally = Ghost(Tally { filter_exhausted: true, ..t });
                    } else {
                        self.pending = Action::ReceiveFrame;
                    }
                },
                _ => {
                    return Err(Error::UnexpectedEvent);
                },
            },
            Action::SendFrame => match e {
                Event::Done => {
                    self.pending = Action::ReceivePacket;
                    self.tally = Ghost(Tally { sent: t.sent + 1, ..t });
                },
                _ => {
                    return Err(Error::UnexpectedEvent);
                },
            },
            Action::ReceivePacket => match e {
                Event::Encoded { pts } => {
                    match rescale_opt(pts, self.in_time_base, self.out_time_base) {
                        Ok(p) => {
                            self.pending = Action::WritePacket { pts: p, stream: 0 };
                            self.tally = Ghost(Tally { encoded: t.encoded.push(pts), ..t });
                        },
                        Err(_) => {
                            return Err(Error::TimestampOverflow);
                        },
                    }
                },
                Event::NoEncoded => {
                    if self.phase == Phase::EncoderDraining {
                        self.pending = Action::WriteTrailer;
                        self.tally = Ghost(Tally { encoder_exhausted: true, ..t });
                    } else {
                        self.pending = Action::PullFrame;
                    }
                },
                _ => {
                    return Err(Error::UnexpectedEvent);
                },
            },
            Action::WritePacket { pts, .. } => match e {
                Event::Done => {
                    self.pending = Action::ReceivePacket;
                    self.tally = Ghost(Tally { written: t.written.push(pts), ..t });
                },
                _ => {
                    return Err(Error::UnexpectedEvent);
                },
            },
            Action::SendDecoderEof => match e {
                Event::Done => {
                    self.pending = Action::ReceiveFrame;
                    self.tally = Ghost(Tally { decoder_eof: true, ..t });
                },
                _ => {
                    return Err(Error::UnexpectedEvent);
                },
            },
            Action::FlushFilter => match e {
                Event::Done => {
                    self.pending = Action::PullFrame;
                    self.tally = Ghost(Tally { filter_flushed: true, ..t });
                },
                _ => {
                    return Err(Error::UnexpectedEvent);
                },
            },
            Action::SendEncoderEof => match e {
                Event::Done => {
                    self.pending = Action::ReceivePacket;
                    self.tally = Ghost(Tally { encoder_eof: true, ..t });
                },
                _ => {
                    return Err(Error::UnexpectedEvent);
                },
            },
            Action::WriteTrailer => match e {
                Event::Done => {
                    let _ = self.mux.write_trailer();
                    self.phase = Phase::Finalized;
                    self.pending = Action::Finished;
                },
                _ => {
                    return Err(Error::UnexpectedEvent);
                },
            },
            Action::Finished => {
                return Err(Error::UnexpectedEvent);
            },
        }
        proof {
            assert(self@ == next(before, e).unwrap());
            lemma_next_keeps_inv(before, e);
        }
        Ok(self.pending)
    }
}

} // verus!
