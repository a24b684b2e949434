//! Turning samples into numbered frames.

use crate::cursor::{Cursor, CursorError, CursorView};
use crate::frame::{CaptureFrame, CaptureFrameView, PixelBuffer, PixelBufferView};
use vstd::prelude::*;

verus! {

/// Why a display gave no pixels.
#[derive(Clone, Copy, Debug, PartialEq, Eq, Structural)]
pub enum SourceError {
    /// Nothing new has been drawn since the last sample.
    Pending,
    /// The display or its device is gone.
    Lost,
}

/// Why no frame was assembled.
#[derive(Clone, Copy, Debug, PartialEq, Eq, Structural)]
pub enum AssembleError {
    /// The display had nothing new. Trying again later is in order.
    Timeout,
    /// The display is gone. Whoever owns the session has to open it anew.
    SourceLost,
}

/// The mathematical value of a [`Sample`].
pub ghost struct SampleView {
    pub pixels: Result<PixelBufferView, SourceError>,
    pub cursor: Result<CursorView, CursorError>,
    pub at: u64,
}

/// What one cycle read from the outside: the display's answer, the cursor
/// query's answer, and the clock.
#[derive(Debug)]
pub struct Sample {
    /// What the display handed back.
    pub pixels: Result<PixelBuffer, SourceError>,
    /// What the cursor query handed back.
    pub cursor: Result<Cursor, CursorError>,
    /// The clock, read in the same cycle.
    pub at: u64,
}

impl View for Sample {
    type V = SampleView;

    open spec fn view(&self) -> SampleView {
        SampleView {
            pixels: match self.pixels {
                Ok(p) => Ok(p@),
                Err(e) => Err(e),
            },
            cursor: match self.cursor {
                Ok(c) => Ok(c@),
                Err(e) => Err(e),
            },
            at: self.at,
        }
    }
}

/// The value of what an assembly handed back.
pub open spec fn outcome_view(outcome: Result<CaptureFrame, AssembleError>) -> Result<
    CaptureFrameView,
    AssembleError,
> {
    match outcome {
        Ok(frame) => Ok(frame@),
        Err(e) => Err(e),
    }
}

/// What assembling `sample` gives after `produced` frames.
///
/// Pixels make a frame, numbered one past the frames before it and stamped
/// with the sample's clock. A failed cursor query leaves the frame without a
/// cursor and is no failure of the assembly. A display with nothing new is a
/// timeout; a display that is gone is a lost source.
pub open spec fn assemble_outcome(produced: nat, sample: SampleView) -> Result<
    CaptureFrameView,
    AssembleError,
> {
    match sample.pixels {
        Ok(pixels) => Ok(
            CaptureFrameView {
                pixels,
                cursor: match sample.cursor {
                    Ok(c) => Some(c),
                    Err(_) => None,
                },
                sequence: produced + 1,
                captured_at: sample.at,
            },
        ),
        Err(SourceError::Pending) => Err(AssembleError::Timeout),
        Err(SourceError::Lost) => Err(AssembleError::SourceLost),
    }
}

/// How many frames have been produced once `sample` is assembled after
/// `produced` frames: one more where it had pixels, as many otherwise.
pub open spec fn produced_after(produced: nat, sample: SampleView) -> nat {
    if sample.pixels is Ok {
        produced + 1
    } else {
        produced
    }
}

/// How many frames have been produced once all of `samples` are assembled in
/// order, starting after `start` frames.
pub open spec fn produced_along(start: nat, samples: Seq<SampleView>) -> nat
    decreases samples.len(),
{
    if samples.len() == 0 {
        start
    } else {
        produced_after(produced_along(start, samples.drop_last()), samples.last())
    }
}

/// What each of `samples` gives when they are assembled in order, starting
/// after `start` frames: one outcome for each sample.
pub open spec fn outcomes(start: nat, samples: Seq<SampleView>) -> Seq<
    Result<CaptureFrameView, AssembleError>,
> {
    Seq::new(
        samples.len(),
        |i: int| assemble_outcome(produced_along(start, samples.take(i)), samples[i]),
    )
}

/// The frames among a run of outcomes, in order.
pub open spec fn frames_of(results: Seq<Result<CaptureFrameView, AssembleError>>) -> Seq<
    CaptureFrameView,
>
    decreases results.len(),
{
    if results.len() == 0 {
        Seq::empty()
    } else {
        let before = frames_of(results.drop_last());
        match results.last() {
            Ok(frame) => before.push(frame),
            Err(_) => before,
        }
    }
}

/// The frames that come of assembling `samples` in order, starting after
/// `start` frames.
pub open spec fn frames(start: nat, samples: Seq<SampleView>) -> Seq<CaptureFrameView> {
    frames_of(outcomes(start, samples))
}

/// Assembles frames and numbers them.
#[derive(Debug)]
pub struct FrameAssembler {
    produced: u64,
}

impl FrameAssembler {
    /// The number of frames this assembler has produced, which is also the
    /// number of the last one.
    pub closed spec fn frames_produced(&self) -> nat {
        self.produced as nat
    }

    /// An assembler that has produced nothing yet.
    pub fn new() -> (assembler: Self)
        ensures
            assembler.frames_produced() == 0,
    {
        Self { produced: 0 }
    }

    /// The number of frames produced so far.
    pub fn produced(&self) -> (count: u64)
        ensures
            count == self.frames_produced(),
    {
        self.produced
    }

    /// Whether every frame number has been given out, so that no further
    /// frame can be assembled.
    pub fn is_exhausted(&self) -> (exhausted: bool)
        ensures
            exhausted == (self.frames_produced() >= u64::MAX),
    {
        self.produced == u64::MAX
    }

    /// Assembles one sample.
    ///
    /// The outcome is [`assemble_outcome`] of the sample, and the count of
    /// frames goes up by one exactly when a frame comes out. In particular a
    /// sample with pixels always gives a frame, whatever became of the
    /// cursor query.
    ///
    /// A sample with pixels needs a free frame number.
    pub fn assemble(&mut self, sample: Sample) -> (outcome: Result<CaptureFrame, AssembleError>)
        requires
            sample@.pixels is Ok ==> old(self).frames_produced() < u64::MAX,
        ensures
            outcome_view(outcome) == assemble_outcome(old(self).frames_produced(), sample@),
            final(self).frames_produced() == produced_after(old(self).frames_produced(), sample@),
            outcome is Ok <==> sample@.pixels is Ok,
            outcome matches Ok(frame) ==> {
                &&& frame@.sequence == old(self).frames_produced() + 1
                &&& final(self).frames_produced() == frame@.sequence
                &&& frame@.cursor is Some <==> sample@.cursor is Ok
            },
            outcome is Err ==> final(self).frames_produced() == old(self).frames_produced(),
    {
        match sample.pixels {
            Ok(pixels) => {
                let cursor = match sample.cursor {
                    Ok(c) => Some(c),
                    Err(_) => None,
                };
                self.produced = self.produced + 1;
                Ok(CaptureFrame::new(pixels, cursor, self.produced, sample.at))
            },
            Err(SourceError::Pending) => Err(AssembleError::Timeout),
            Err(SourceError::Lost) => Err(AssembleError::SourceLost),
        }
    }
}

/// The outcomes of a run without its last sample are the outcomes of the
/// run without the last of them.
proof fn lemma_outcomes_drop_last(start: nat, samples: Seq<SampleView>)
    requires
        samples.len() > 0,
    ensures
        outcomes(start, samples).drop_last() == outcomes(start, samples.drop_last()),
        outcomes(start, samples).last() == assemble_outcome(
            produced_along(start, samples.drop_last()),
            samples.last(),
        ),
{
    let shorter = samples.drop_last();
    assert(samples.take(samples.len() - 1) =~= shorter);
    assert forall|i: int| 0 <= i < shorter.len() implies outcomes(start, samples)[i] == outcomes(
        start,
        shorter,
    )[i] by {
        assert(shorter.take(i) =~= samples.take(i));
    }
    assert(outcomes(start, samples).drop_last() =~= outcomes(start, shorter));
}

/// Frames are numbered without gaps: of the frames that a run of samples
/// gives, the first is numbered one past the frames before the run and each
/// later one is numbered one past its predecessor. The count of frames after
/// the run is the number of the last.
pub proof fn lemma_sequence_consecutive(start: nat, samples: Seq<SampleView>)
    ensures
        produced_along(start, samples) == start + frames(start, samples).len(),
        forall|i: int|
            0 <= i < frames(start, samples).len() ==> (#[trigger] frames(
                start,
                samples,
            )[i]).sequence == start + 1 + i,
        forall|i: int, j: int|
            0 <= i < j < frames(start, samples).len() ==> (#[trigger] frames(
                start,
                samples,
            )[i]).sequence < (#[trigger] frames(start, samples)[j]).sequence,
    decreases samples.len(),
{
    if samples.len() > 0 {
        lemma_sequence_consecutive(start, samples.drop_last());
        lemma_outcomes_drop_last(start, samples);
    }
}

/// A prefix of a run gives a prefix of the run's count: the count never goes
/// down, and it never resets.
pub proof fn lemma_produced_monotone(start: nat, samples: Seq<SampleView>, n: int)
    requires
        0 <= n <= samples.len(),
    ensures
        start <= produced_along(start, samples.take(n)) <= produced_along(start, samples),
    decreases samples.len(),
{
    if n == samples.len() {
        assert(samples.take(n) =~= samples);
        if samples.len() > 0 {
            lemma_produced_monotone(start, samples.drop_last(), n - 1);
        }
    } else {
        lemma_produced_monotone(start, samples.drop_last(), n);
        assert(samples.drop_last().take(n) =~= samples.take(n));
    }
}

/// A cursor that cannot be had never holds a frame back: where every sample
/// of a run has pixels, every sample gives a frame, and a frame is without a
/// cursor exactly when its sample's cursor query failed.
pub proof fn lemma_cursor_never_blocks(start: nat, samples: Seq<SampleView>)
    requires
        forall|i: int| 0 <= i < samples.len() ==> (#[trigger] samples[i]).pixels is Ok,
    ensures
        frames(start, samples).len() == samples.len(),
        forall|i: int|
            0 <= i < samples.len() ==> {
                &&& (#[trigger] outcomes(start, samples)[i]) == Ok::<
                    CaptureFrameView,
                    AssembleError,
                >(frames(start, samples)[i])
                &&& frames(start, samples)[i].pixels == samples[i].pixels->Ok_0
                &&& frames(start, samples)[i].cursor is None <==> samples[i].cursor is Err
            },
    decreases samples.len(),
{
    if samples.len() > 0 {
        let shorter = samples.drop_last();
        lemma_cursor_never_blocks(start, shorter);
        lemma_outcomes_drop_last(start, samples);
        assert forall|i: int| 0 <= i < samples.len() implies {
            &&& (#[trigger] outcomes(start, samples)[i]) == Ok::<CaptureFrameView, AssembleError>(
                frames(start, samples)[i],
            )
            &&& frames(start, samples)[i].pixels == samples[i].pixels->Ok_0
            &&& frames(start, samples)[i].cursor is None <==> samples[i].cursor is Err
        } by {
            if i < shorter.len() {
                assert(outcomes(start, shorter)[i] == outcomes(start, samples).drop_last()[i]);
                assert(shorter[i] == samples[i]);
            }
        }
    }
}

} // verus!
