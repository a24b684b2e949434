//! Choosing between the two strategies at the start of a session.

use crate::sequential::{SequentialCapture, SequentialView};
use crate::threaded::{fresh, ThreadedCapture, ThreadedView};
use vstd::prelude::*;

verus! {

/// The strategy of one session: the one or the other, chosen once. To change
/// the strategy, stop this one and make another.
#[derive(Debug)]
pub enum Capture {
    /// Capture on the consumer's thread.
    Sequential(SequentialCapture),
    /// Capture on a worker.
    Threaded(ThreadedCapture),
}

impl Capture {
    /// Whether frames are offered to the sink.
    pub open spec fn sink_enabled(&self) -> bool {
        match self {
            Capture::Sequential(s) => s@.obs_capture,
            Capture::Threaded(t) => t@.obs_capture,
        }
    }

    /// Frames produced so far.
    pub open spec fn frames_produced(&self) -> nat {
        match self {
            Capture::Sequential(s) => s@.produced,
            Capture::Threaded(t) => t@.produced,
        }
    }

    /// The strategy that the two switches of a session's configuration ask
    /// for: threaded or sequential, with the sink on or off. Either way it has
    /// produced nothing yet, and a threaded one is stopped.
    pub fn new(multithreading: bool, obs_capture: bool) -> (capture: Self)
        ensures
            capture is Threaded <==> multithreading,
            match capture {
                Capture::Sequential(s) => s@ == (SequentialView { produced: 0, obs_capture }),
                Capture::Threaded(t) => t@ == (ThreadedView { obs_capture, ..fresh() }),
            },
    {
        if multithreading {
            let mut threaded = ThreadedCapture::new();
            threaded.set_obs_capture(obs_capture);
            Capture::Threaded(threaded)
        } else {
            let mut sequential = SequentialCapture::new();
            sequential.set_obs_capture(obs_capture);
            Capture::Sequential(sequential)
        }
    }

    /// Whether this is the threaded strategy.
    pub fn multithreading(&self) -> (threaded: bool)
        ensures
            threaded == (self is Threaded),
    {
        match self {
            Capture::Sequential(_) => false,
            Capture::Threaded(_) => true,
        }
    }

    /// Whether frames are offered to the sink.
    pub fn obs_capture(&self) -> (on: bool)
        ensures
            on == self.sink_enabled(),
    {
        match self {
            Capture::Sequential(s) => s.obs_capture(),
            Capture::Threaded(t) => t.obs_capture(),
        }
    }

    /// Switches the sink on or off and changes nothing else.
    pub fn set_obs_capture(&mut self, obs_capture: bool)
        ensures
            match (*old(self), *final(self)) {
                (Capture::Sequential(before), Capture::Sequential(after)) => after@ == (
                SequentialView { obs_capture, ..before@ }),
                (Capture::Threaded(before), Capture::Threaded(after)) => after@ == (ThreadedView {
                    obs_capture,
                    ..before@
                }),
                _ => false,
            },
    {
        match self {
            Capture::Sequential(s) => s.set_obs_capture(obs_capture),
            Capture::Threaded(t) => t.set_obs_capture(obs_capture),
        }
    }
}

} // verus!
