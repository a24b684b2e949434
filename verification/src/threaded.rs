//! The strategy that captures on a worker of its own.
//!
//! The worker and the consumer share one value of [`ThreadedCapture`]. The
//! worker takes a sample while nobody holds that value, then hands the sample
//! in with [`ThreadedCapture::worker_step`]; the consumer reads with
//! [`ThreadedCapture::poll_latest`]. Neither call waits for the display, so
//! holding the value under a lock never holds the consumer up for longer than
//! a copy of the frame takes.

use crate::assembler::{
    assemble_outcome, AssembleError, FrameAssembler, Sample, SampleView,
};
use crate::frame::{CaptureFrame, CaptureFrameView};
use crate::sink::{SinkAction, SinkAdapter};
use vstd::prelude::*;

verus! {

/// Where a threaded strategy is in its life.
#[derive(Clone, Copy, Debug, PartialEq, Eq, Structural)]
pub enum Lifecycle {
    /// No worker is capturing.
    Stopped,
    /// A worker is capturing.
    Running,
    /// The display went away while a worker was capturing. This is final.
    Lost,
}

/// What became of one cycle of the worker.
#[derive(Clone, Copy, Debug, PartialEq, Eq, Structural)]
pub enum WorkerStep {
    /// A frame was assembled and is now the latest.
    Published,
    /// The display had nothing new. The worker tries again.
    Retry,
    /// The display is gone. The worker ends.
    Lost,
    /// The strategy was not running. Nothing was written; the worker ends.
    Halted,
}

impl WorkerStep {
    /// Whether the worker goes on to another cycle.
    pub open spec fn goes_on(self) -> bool {
        self is Published || self is Retry
    }

    /// Whether the worker goes on to another cycle.
    pub fn keeps_going(&self) -> (again: bool)
        ensures
            again == self.goes_on(),
    {
        match self {
            WorkerStep::Published => true,
            WorkerStep::Retry => true,
            WorkerStep::Lost => false,
            WorkerStep::Halted => false,
        }
    }
}

/// The mathematical value of a [`ThreadedCapture`].
pub ghost struct ThreadedView {
    /// Frames produced so far.
    pub produced: nat,
    /// The one frame that is kept: the last that was published.
    pub latest: Option<CaptureFrameView>,
    /// Where the strategy is in its life.
    pub lifecycle: Lifecycle,
    /// Whether frames are offered to the sink.
    pub obs_capture: bool,
}

/// What can happen to a threaded strategy.
pub ghost enum Event {
    /// The owner starts it.
    Start,
    /// The owner stops it.
    Stop,
    /// The worker hands in a sample.
    Cycle(SampleView),
}

/// A strategy as it is made: stopped, with no frame.
pub open spec fn fresh() -> ThreadedView {
    ThreadedView { produced: 0, latest: None, lifecycle: Lifecycle::Stopped, obs_capture: false }
}

/// The state after a start: a stopped strategy runs, any other stays as it is.
pub open spec fn started(state: ThreadedView) -> ThreadedView {
    if state.lifecycle is Stopped {
        ThreadedView { lifecycle: Lifecycle::Running, ..state }
    } else {
        state
    }
}

/// The state after a stop: a running strategy is stopped, any other stays as
/// it is.
pub open spec fn stopped(state: ThreadedView) -> ThreadedView {
    if state.lifecycle is Running {
        ThreadedView { lifecycle: Lifecycle::Stopped, ..state }
    } else {
        state
    }
}

/// What one cycle of the worker comes to.
pub open spec fn step_of(state: ThreadedView, sample: SampleView) -> WorkerStep {
    if state.lifecycle is Running {
        match assemble_outcome(state.produced, sample) {
            Ok(_) => WorkerStep::Published,
            Err(AssembleError::Timeout) => WorkerStep::Retry,
            Err(AssembleError::SourceLost) => WorkerStep::Lost,
        }
    } else {
        WorkerStep::Halted
    }
}

/// The state after one cycle of the worker.
///
/// Only a running strategy takes the sample. A frame replaces the latest
/// one; a timeout changes nothing; a lost source ends the strategy for good.
pub open spec fn cycled(state: ThreadedView, sample: SampleView) -> ThreadedView {
    if state.lifecycle is Running {
        match assemble_outcome(state.produced, sample) {
            Ok(frame) => ThreadedView {
                produced: state.produced + 1,
                latest: Some(frame),
                ..state
            },
            Err(AssembleError::Timeout) => state,
            Err(AssembleError::SourceLost) => ThreadedView { lifecycle: Lifecycle::Lost, ..state },
        }
    } else {
        state
    }
}

/// The frame that one cycle publishes, if it publishes one.
pub open spec fn published_by(state: ThreadedView, sample: SampleView) -> Option<
    CaptureFrameView,
> {
    if state.lifecycle is Running {
        match assemble_outcome(state.produced, sample) {
            Ok(frame) => Some(frame),
            Err(_) => None,
        }
    } else {
        None
    }
}

/// What a consumer is handed when it polls.
pub open spec fn polled(state: ThreadedView) -> Result<Option<CaptureFrameView>, AssembleError> {
    if state.lifecycle is Lost {
        Err(AssembleError::SourceLost)
    } else {
        Ok(state.latest)
    }
}

/// The state after one event.
pub open spec fn apply(state: ThreadedView, event: Event) -> ThreadedView {
    match event {
        Event::Start => started(state),
        Event::Stop => stopped(state),
        Event::Cycle(sample) => cycled(state, sample),
    }
}

/// The state after a run of events.
pub open spec fn run(state: ThreadedView, events: Seq<Event>) -> ThreadedView
    decreases events.len(),
{
    if events.len() == 0 {
        state
    } else {
        apply(run(state, events.drop_last()), events.last())
    }
}

/// The frames that a run of events publishes, in order.
pub open spec fn published(state: ThreadedView, events: Seq<Event>) -> Seq<CaptureFrameView>
    decreases events.len(),
{
    if events.len() == 0 {
        Seq::empty()
    } else {
        let before = published(state, events.drop_last());
        match events.last() {
            Event::Cycle(sample) => match published_by(run(state, events.drop_last()), sample) {
                Some(frame) => before.push(frame),
                None => before,
            },
            _ => before,
        }
    }
}

/// Whether the kept frame is the last one produced: no frame is kept before
/// the first is produced, and afterwards the kept frame bears the number of
/// the last.
pub open spec fn coherent(state: ThreadedView) -> bool {
    match state.latest {
        Some(frame) => state.produced > 0 && frame.sequence == state.produced,
        None => state.produced == 0,
    }
}

/// The value of what a poll handed back.
pub open spec fn poll_view(outcome: Result<Option<CaptureFrame>, AssembleError>) -> Result<
    Option<CaptureFrameView>,
    AssembleError,
> {
    match outcome {
        Ok(Some(frame)) => Ok(Some(frame@)),
        Ok(None) => Ok(None),
        Err(e) => Err(e),
    }
}

/// Captures apart from its consumer: a worker assembles frames at the
/// display's pace and publishes each as the latest, and the consumer reads
/// the latest at its own pace.
///
/// One frame is kept, never a queue: a frame that is not read before the
/// next is published is gone, and a consumer that polls faster than the
/// worker publishes reads the same frame again.
#[derive(Debug)]
pub struct ThreadedCapture {
    assembler: FrameAssembler,
    latest: Option<CaptureFrame>,
    lifecycle: Lifecycle,
    sink: SinkAdapter,
}

impl View for ThreadedCapture {
    type V = ThreadedView;

    closed spec fn view(&self) -> ThreadedView {
        ThreadedView {
            produced: self.assembler.frames_produced(),
            latest: match self.latest {
                Some(frame) => Some(frame@),
                None => None,
            },
            lifecycle: self.lifecycle,
            obs_capture: self.sink.enabled(),
        }
    }
}

impl ThreadedCapture {
    /// A stopped strategy with no frame, which offers nothing to the sink.
    pub fn new() -> (capture: Self)
        ensures
            capture@ == fresh(),
    {
        Self {
            assembler: FrameAssembler::new(),
            latest: None,
            lifecycle: Lifecycle::Stopped,
            sink: SinkAdapter::new(false),
        }
    }

    /// Whether frames are offered to the sink.
    pub fn obs_capture(&self) -> (on: bool)
        ensures
            on == self@.obs_capture,
    {
        self.sink.is_enabled()
    }

    /// Switches the sink on or off. Meant for the start of a session.
    pub fn set_obs_capture(&mut self, obs_capture: bool)
        ensures
            final(self)@ == (ThreadedView { obs_capture, ..old(self)@ }),
    {
        self.sink = SinkAdapter::new(obs_capture);
    }

    /// The adapter that decides what reaches the sink.
    pub fn sink(&self) -> (sink: SinkAdapter)
        ensures
            sink.enabled() == self@.obs_capture,
    {
        self.sink
    }

    /// Where the strategy is in its life.
    pub fn lifecycle(&self) -> (lifecycle: Lifecycle)
        ensures
            lifecycle == self@.lifecycle,
    {
        self.lifecycle
    }

    /// Whether a worker is to be capturing. The worker asks this before every
    /// cycle and ends when the answer is no.
    pub fn is_running(&self) -> (running: bool)
        ensures
            running == (self@.lifecycle is Running),
    {
        match self.lifecycle {
            Lifecycle::Running => true,
            _ => false,
        }
    }

    /// The number of frames produced so far.
    pub fn produced(&self) -> (count: u64)
        ensures
            count == self@.produced,
    {
        self.assembler.produced()
    }

    /// Whether every frame number has been given out.
    pub fn is_exhausted(&self) -> (exhausted: bool)
        ensures
            exhausted == (self@.produced >= u64::MAX),
    {
        self.assembler.is_exhausted()
    }

    /// Starts a stopped strategy. The answer says whether it did: on `true`
    /// the caller brings up the worker. A strategy that runs already, or has
    /// lost its source, stays as it is.
    pub fn start(&mut self) -> (spawn: bool)
        ensures
            final(self)@ == started(old(self)@),
            spawn == (old(self)@.lifecycle is Stopped),
    {
        match self.lifecycle {
            Lifecycle::Stopped => {
                self.lifecycle = Lifecycle::Running;
                true
            },
            _ => false,
        }
    }

    /// Stops a running strategy. The answer says whether it did: on `true`
    /// the caller waits for the worker to end. From here on the strategy
    /// takes no sample, whatever the worker still hands in.
    pub fn stop(&mut self) -> (join: bool)
        ensures
            final(self)@ == stopped(old(self)@),
            join == (old(self)@.lifecycle is Running),
            !(final(self)@.lifecycle is Running),
    {
        match self.lifecycle {
            Lifecycle::Running => {
                self.lifecycle = Lifecycle::Stopped;
                true
            },
            _ => false,
        }
    }

    /// Takes the sample of one cycle of the worker.
    ///
    /// A running strategy assembles it: a frame becomes the latest, in place
    /// of the one before; a timeout changes nothing; a lost source ends the
    /// strategy. A strategy that is not running drops the sample and writes
    /// nothing.
    ///
    /// A sample with pixels, handed to a running strategy, needs a free frame
    /// number.
    pub fn worker_step(&mut self, sample: Sample) -> (step: WorkerStep)
        requires
            old(self)@.lifecycle is Running && sample@.pixels is Ok ==> old(self)@.produced
                < u64::MAX,
        ensures
            final(self)@ == cycled(old(self)@, sample@),
            step == step_of(old(self)@, sample@),
            !(old(self)@.lifecycle is Running) ==> final(self)@ == old(self)@ && step is Halted,
            step is Published ==> final(self)@.latest == published_by(old(self)@, sample@)
                && final(self)@.latest is Some,
    {
        match self.lifecycle {
            Lifecycle::Running => match self.assembler.assemble(sample) {
                Ok(frame) => {
                    self.latest = Some(frame);
                    WorkerStep::Published
                },
                Err(AssembleError::Timeout) => WorkerStep::Retry,
                Err(AssembleError::SourceLost) => {
                    self.lifecycle = Lifecycle::Lost;
                    WorkerStep::Lost
                },
            },
            _ => WorkerStep::Halted,
        }
    }

    /// Decides what the sink gets after one cycle of the worker: the frame
    /// that the cycle published is offered as [`SinkAdapter::on_frame`] says,
    /// once, and a cycle that published nothing offers nothing.
    pub fn offer_latest(&self, step: WorkerStep, would_block: bool) -> (action: SinkAction<'_>)
        ensures
            action is Skip <==> !self@.obs_capture || !(step is Published) || self@.latest is None,
            action is Drop <==> self@.obs_capture && step is Published && self@.latest is Some
                && would_block,
            action is Forward <==> self@.obs_capture && step is Published && self@.latest is Some
                && !would_block,
            action matches SinkAction::Forward(pixels) ==> pixels@ == self@.latest->Some_0.pixels,
    {
        match step {
            WorkerStep::Published => match &self.latest {
                Some(frame) => self.sink.on_frame(frame, would_block),
                None => SinkAction::Skip,
            },
            _ => SinkAction::Skip,
        }
    }

    /// Reads the latest frame, as a copy, without waiting for anything.
    ///
    /// A strategy that has lost its source says so, every time. Any other
    /// hands back the last frame that was published, whole, or nothing where
    /// none has been published yet. The strategy itself is left as it was.
    pub fn poll_latest(&self) -> (outcome: Result<Option<CaptureFrame>, AssembleError>)
        ensures
            poll_view(outcome) == polled(self@),
            outcome is Err <==> self@.lifecycle is Lost,
    {
        match self.lifecycle {
            Lifecycle::Lost => Err(AssembleError::SourceLost),
            _ => match &self.latest {
                Some(frame) => Ok(Some(frame.clone())),
                None => Ok(None),
            },
        }
    }
}

/// Whether no event of a run is a start.
pub open spec fn no_start(events: Seq<Event>) -> bool {
    forall|i: int| 0 <= i < events.len() ==> !(#[trigger] events[i] is Start)
}

/// A strategy that does not run writes nothing: until it is started again,
/// no event changes it, so the frame that a consumer reads stays the same.
pub proof fn lemma_stopped_stays_silent(state: ThreadedView, events: Seq<Event>)
    requires
        !(state.lifecycle is Running),
        no_start(events),
    ensures
        run(state, events) == state,
        published(state, events).len() == 0,
        polled(run(state, events)) == polled(state),
    decreases events.len(),
{
    if events.len() > 0 {
        let shorter = events.drop_last();
        assert(no_start(shorter)) by {
            assert forall|i: int| 0 <= i < shorter.len() implies !(#[trigger] shorter[i]
                is Start) by {
                assert(shorter[i] == events[i]);
            }
        }
        lemma_stopped_stays_silent(state, shorter);
        assert(!(events[events.len() - 1] is Start));
    }
}

/// A stop silences the strategy whatever state it was in: after it, a run
/// without a start leaves the strategy as the stop left it.
pub proof fn lemma_stop_silences(state: ThreadedView, events: Seq<Event>)
    requires
        no_start(events),
    ensures
        run(stopped(state), events) == stopped(state),
        published(stopped(state), events).len() == 0,
{
    lemma_stopped_stays_silent(stopped(state), events);
}

/// A lost source is final: no event, a start included, brings the strategy
/// back, and every poll from then on reports the loss.
pub proof fn lemma_lost_is_final(state: ThreadedView, events: Seq<Event>)
    requires
        state.lifecycle is Lost,
    ensures
        run(state, events) == state,
        published(state, events).len() == 0,
        polled(run(state, events)) == Err::<Option<CaptureFrameView>, AssembleError>(
            AssembleError::SourceLost,
        ),
    decreases events.len(),
{
    if events.len() > 0 {
        lemma_lost_is_final(state, events.drop_last());
    }
}

/// The kept frame is always a published one, whole: after any run it is the
/// last frame that the run published, or, where the run published none, the
/// frame that was kept before.
pub proof fn lemma_latest_is_last_published(state: ThreadedView, events: Seq<Event>)
    ensures
        run(state, events).latest == if published(state, events).len() > 0 {
            Some(published(state, events).last())
        } else {
            state.latest
        },
        run(state, events).obs_capture == state.obs_capture,
    decreases events.len(),
{
    if events.len() > 0 {
        lemma_latest_is_last_published(state, events.drop_last());
    }
}

/// What a run has published by any moment is the beginning of what it
/// publishes in all: a frame, once published, is never taken back or changed.
pub proof fn lemma_published_grows(state: ThreadedView, events: Seq<Event>, n: int)
    requires
        0 <= n <= events.len(),
    ensures
        published(state, events.take(n)).len() <= published(state, events).len(),
        forall|i: int|
            0 <= i < published(state, events.take(n)).len() ==> (#[trigger] published(
                state,
                events.take(n),
            )[i]) == published(state, events)[i],
    decreases events.len(),
{
    if n == events.len() {
        assert(events.take(n) =~= events);
    } else {
        lemma_published_grows(state, events.drop_last(), n);
        assert(events.drop_last().take(n) =~= events.take(n));
    }
}

/// A consumer only ever reads frames that were published, whole: at whatever
/// moment of a run it polls, the frame it reads is one of the frames that the
/// run publishes, or the frame that was kept before the run. It reads nothing
/// only where nothing was kept before and nothing has been published yet.
pub proof fn lemma_every_read_is_published(state: ThreadedView, events: Seq<Event>, n: int)
    requires
        0 <= n <= events.len(),
    ensures
        match run(state, events.take(n)).latest {
            Some(frame) => state.latest == Some(frame) || published(state, events).contains(
                frame,
            ),
            None => state.latest is None && published(state, events.take(n)).len() == 0,
        },
{
    let so_far = events.take(n);
    lemma_latest_is_last_published(state, so_far);
    lemma_published_grows(state, events, n);
    if published(state, so_far).len() > 0 {
        let last = published(state, so_far).len() - 1;
        assert(published(state, so_far)[last] == published(state, events)[last]);
    }
}

/// Published frames are numbered without gaps, across stops and starts: the
/// first is numbered one past the frames before the run and each later one
/// is numbered one past its predecessor.
pub proof fn lemma_published_consecutive(state: ThreadedView, events: Seq<Event>)
    ensures
        run(state, events).produced == state.produced + published(state, events).len(),
        forall|i: int|
            0 <= i < published(state, events).len() ==> (#[trigger] published(
                state,
                events,
            )[i]).sequence == state.produced + 1 + i,
        forall|i: int, j: int|
            0 <= i < j < published(state, events).len() ==> (#[trigger] published(
                state,
                events,
            )[i]).sequence < (#[trigger] published(state, events)[j]).sequence,
    decreases events.len(),
{
    if events.len() > 0 {
        lemma_published_consecutive(state, events.drop_last());
    }
}

/// The kept frame is the newest there is: a strategy as it is made keeps the
/// rule of [`coherent`], and every event keeps it.
pub proof fn lemma_run_keeps_coherent(state: ThreadedView, events: Seq<Event>)
    requires
        coherent(state),
    ensures
        coherent(fresh()),
        coherent(run(state, events)),
    decreases events.len(),
{
    if events.len() > 0 {
        lemma_run_keeps_coherent(state, events.drop_last());
    }
}

/// A consumer never reads a frame with a lower number than one it has read
/// before: along any run, the number of the kept frame only grows.
pub proof fn lemma_latest_never_goes_back(state: ThreadedView, events: Seq<Event>)
    requires
        coherent(state),
    ensures
        state.produced <= run(state, events).produced,
        match (state.latest, run(state, events).latest) {
            (Some(before), Some(after)) => before.sequence <= after.sequence,
            (Some(_), None) => false,
            _ => true,
        },
{
    lemma_published_consecutive(state, events);
    lemma_run_keeps_coherent(state, events);
}

} // verus!
