//! The strategy that captures on the caller's own thread.

use crate::assembler::{
    assemble_outcome, frames_of, lemma_sequence_consecutive, outcome_view, outcomes,
    produced_after, produced_along, AssembleError, FrameAssembler, Sample, SampleView,
};
use crate::frame::{CaptureFrame, CaptureFrameView};
use crate::sink::SinkAdapter;
use vstd::prelude::*;

verus! {

/// The mathematical value of a [`SequentialCapture`].
pub ghost struct SequentialView {
    /// Frames produced so far.
    pub produced: nat,
    /// Whether frames are offered to the sink.
    pub obs_capture: bool,
}

/// The state that one poll leaves behind.
pub open spec fn after_poll(state: SequentialView, sample: SampleView) -> SequentialView {
    SequentialView { produced: produced_after(state.produced, sample), ..state }
}

/// The state that a run of polls leaves behind.
pub open spec fn after_polls(state: SequentialView, samples: Seq<SampleView>) -> SequentialView
    decreases samples.len(),
{
    if samples.len() == 0 {
        state
    } else {
        after_poll(after_polls(state, samples.drop_last()), samples.last())
    }
}

/// What each poll of a run hands back: one result for each poll.
pub open spec fn poll_outcomes(state: SequentialView, samples: Seq<SampleView>) -> Seq<
    Result<CaptureFrameView, AssembleError>,
> {
    Seq::new(
        samples.len(),
        |i: int| assemble_outcome(after_polls(state, samples.take(i)).produced, samples[i]),
    )
}

/// Captures in lock step with its consumer: every poll assembles one sample
/// and hands the outcome straight back. Nothing is kept between polls but the
/// count of frames.
///
/// A poll does not try again by itself. Where the display had nothing new
/// the poll reports [`AssembleError::Timeout`], and the consumer polls again
/// when it next wants a frame.
#[derive(Debug)]
pub struct SequentialCapture {
    assembler: FrameAssembler,
    sink: SinkAdapter,
}

impl View for SequentialCapture {
    type V = SequentialView;

    closed spec fn view(&self) -> SequentialView {
        SequentialView {
            produced: self.assembler.frames_produced(),
            obs_capture: self.sink.enabled(),
        }
    }
}

impl SequentialCapture {
    /// A strategy that has produced nothing yet and offers nothing to the sink.
    pub fn new() -> (capture: Self)
        ensures
            capture@ == (SequentialView { produced: 0, obs_capture: false }),
    {
        Self { assembler: FrameAssembler::new(), sink: SinkAdapter::new(false) }
    }

    /// Whether frames are offered to the sink.
    pub fn obs_capture(&self) -> (on: bool)
        ensures
            on == self@.obs_capture,
    {
        self.sink.is_enabled()
    }

    /// Switches the sink on or off. Meant for the start of a session.
    pub fn set_obs_capture(&mut self, obs_capture: bool)
        ensures
            final(self)@ == (SequentialView { obs_capture, ..old(self)@ }),
    {
        self.sink = SinkAdapter::new(obs_capture);
    }

    /// The adapter that decides what reaches the sink.
    pub fn sink(&self) -> (sink: SinkAdapter)
        ensures
            sink.enabled() == self@.obs_capture,
    {
        self.sink
    }

    /// The number of frames produced so far.
    pub fn produced(&self) -> (count: u64)
        ensures
            count == self@.produced,
    {
        self.assembler.produced()
    }

    /// Whether every frame number has been given out.
    pub fn is_exhausted(&self) -> (exhausted: bool)
        ensures
            exhausted == (self@.produced >= u64::MAX),
    {
        self.assembler.is_exhausted()
    }

    /// Assembles the sample that the caller has just taken and hands the
    /// outcome back: the frame, a timeout, or the loss of the source.
    ///
    /// One poll is one assembly, of this sample and no other.
    pub fn poll_latest(&mut self, sample: Sample) -> (outcome: Result<CaptureFrame, AssembleError>)
        requires
            sample@.pixels is Ok ==> old(self)@.produced < u64::MAX,
        ensures
            outcome_view(outcome) == assemble_outcome(old(self)@.produced, sample@),
            final(self)@ == after_poll(old(self)@, sample@),
            outcome is Ok <==> sample@.pixels is Ok,
    {
        self.assembler.assemble(sample)
    }
}

/// Polls and assemblies go one for one: a run of polls hands back exactly
/// what assembling the same samples in the same order gives, one result for
/// each poll. Nothing is held over, left out or handed back twice, and the
/// sink's switch stays as it was.
pub proof fn lemma_polls_are_assemblies(state: SequentialView, samples: Seq<SampleView>)
    ensures
        poll_outcomes(state, samples).len() == samples.len(),
        poll_outcomes(state, samples) == outcomes(state.produced, samples),
        after_polls(state, samples).produced == produced_along(state.produced, samples),
        after_polls(state, samples).obs_capture == state.obs_capture,
{
    lemma_count_follows_assembler(state, samples);
    assert forall|i: int| 0 <= i < samples.len() implies poll_outcomes(state, samples)[i]
        == outcomes(state.produced, samples)[i] by {
        lemma_count_follows_assembler(state, samples.take(i));
    }
    assert(poll_outcomes(state, samples) =~= outcomes(state.produced, samples));
}

/// The frames that a run of polls hands back are numbered without gaps: the
/// first is numbered one past the frames before the run, each later one is
/// numbered one past its predecessor, and polls that hand back no frame use
/// up no number.
pub proof fn lemma_polled_frames_consecutive(state: SequentialView, samples: Seq<SampleView>)
    ensures
        after_polls(state, samples).produced == state.produced + frames_of(
            poll_outcomes(state, samples),
        ).len(),
        forall|i: int|
            0 <= i < frames_of(poll_outcomes(state, samples)).len() ==> (#[trigger] frames_of(
                poll_outcomes(state, samples),
            )[i]).sequence == state.produced + 1 + i,
{
    lemma_polls_are_assemblies(state, samples);
    lemma_sequence_consecutive(state.produced, samples);
}

proof fn lemma_count_follows_assembler(state: SequentialView, samples: Seq<SampleView>)
    ensures
        after_polls(state, samples).produced == produced_along(state.produced, samples),
        after_polls(state, samples).obs_capture == state.obs_capture,
    decreases samples.len(),
{
    if samples.len() > 0 {
        lemma_count_follows_assembler(state, samples.drop_last());
    }
}

} // verus!
