//! The optional second consumer of the frame stream.

use crate::assembler::AssembleError;
use crate::frame::{CaptureFrame, PixelBuffer};
use vstd::prelude::*;

verus! {

/// What is to be done with one frame on behalf of the sink.
#[derive(Debug)]
pub enum SinkAction<'a> {
    /// The sink is switched off: nothing is to be done.
    Skip,
    /// Handing the frame over would hold the capture up: the frame is let go.
    Drop,
    /// These pixels are to be handed over.
    Forward(&'a PixelBuffer),
}

/// Decides, frame by frame, what reaches the sink.
///
/// The adapter only decides. Whoever hands the pixels over keeps what
/// becomes of that to itself: no outcome of the sink is an input to any
/// function of this crate, so a failing sink cannot fail a capture.
#[derive(Clone, Copy, Debug, PartialEq, Eq, Structural)]
pub struct SinkAdapter {
    enabled: bool,
}

impl SinkAdapter {
    /// Whether frames are offered to the sink at all.
    pub closed spec fn enabled(&self) -> bool {
        self.enabled
    }

    /// An adapter that is switched on or off for good.
    pub fn new(enabled: bool) -> (adapter: Self)
        ensures
            adapter.enabled() == enabled,
    {
        Self { enabled }
    }

    /// Whether frames are offered to the sink at all.
    pub fn is_enabled(&self) -> (enabled: bool)
        ensures
            enabled == self.enabled(),
    {
        self.enabled
    }

    /// Decides what to do with a frame that has just been produced.
    ///
    /// `would_block` says whether the sink could not take the frame at once.
    /// A switched-off adapter skips every frame. A switched-on adapter lets
    /// the frame go where the sink would block, and forwards the frame's own
    /// pixels otherwise.
    pub fn on_frame<'a>(&self, frame: &'a CaptureFrame, would_block: bool) -> (action: SinkAction<
        'a,
    >)
        ensures
            action is Skip <==> !self.enabled(),
            action is Drop <==> self.enabled() && would_block,
            action is Forward <==> self.enabled() && !would_block,
            action matches SinkAction::Forward(pixels) ==> pixels@ == frame@.pixels,
    {
        if !self.enabled {
            SinkAction::Skip
        } else if would_block {
            SinkAction::Drop
        } else {
            SinkAction::Forward(frame.pixels())
        }
    }

    /// Decides what to do after one assembly: a frame is offered as
    /// [`SinkAdapter::on_frame`] says, once, and a cycle that gave no frame
    /// offers nothing.
    pub fn on_outcome<'a>(
        &self,
        outcome: &'a Result<CaptureFrame, AssembleError>,
        would_block: bool,
    ) -> (action: SinkAction<'a>)
        ensures
            action is Skip <==> !self.enabled() || outcome is Err,
            action is Drop <==> self.enabled() && outcome is Ok && would_block,
            action is Forward <==> self.enabled() && outcome is Ok && !would_block,
            action matches SinkAction::Forward(pixels) ==> pixels@ == outcome->Ok_0@.pixels,
    {
        match outcome {
            Ok(frame) => self.on_frame(frame, would_block),
            Err(_) => SinkAction::Skip,
        }
    }
}

} // verus!
