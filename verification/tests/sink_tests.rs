use mirror_capture::assembler::{AssembleError, FrameAssembler, Sample};
use mirror_capture::cursor::CursorError;
use mirror_capture::frame::{CaptureFrame, PixelBuffer, PixelFormat};
use mirror_capture::sink::{SinkAction, SinkAdapter};

fn frame() -> CaptureFrame {
    let pixels = PixelBuffer::new(vec![4, 3, 2, 1], 1, 1, 4, PixelFormat::Bgra32);
    let mut assembler = FrameAssembler::new();
    assembler
        .assemble(Sample { pixels: Ok(pixels), cursor: Err(CursorError::Unavailable), at: 0 })
        .unwrap()
}

#[test]
fn disabled_sink_skips() {
    let sink = SinkAdapter::new(false);
    assert!(!sink.is_enabled());
    assert!(matches!(sink.on_frame(&frame(), false), SinkAction::Skip));
    assert!(matches!(sink.on_frame(&frame(), true), SinkAction::Skip));
}

#[test]
fn blocked_sink_drops() {
    let sink = SinkAdapter::new(true);
    assert!(sink.is_enabled());
    assert!(matches!(sink.on_frame(&frame(), true), SinkAction::Drop));
}

#[test]
fn ready_sink_forwards_the_frames_pixels() {
    let sink = SinkAdapter::new(true);
    let frame = frame();
    match sink.on_frame(&frame, false) {
        SinkAction::Forward(pixels) => {
            assert_eq!(pixels.data(), &vec![4, 3, 2, 1]);
            assert_eq!(pixels, frame.pixels());
        }
        other => panic!("expected the pixels, got {:?}", other),
    }
}

#[test]
fn sink_decision_leaves_the_frame_alone() {
    let sink = SinkAdapter::new(true);
    let frame = frame();
    let before = frame.clone();
    let _ = sink.on_frame(&frame, false);
    let _ = sink.on_frame(&frame, true);
    assert_eq!(frame, before);
}

#[test]
fn outcome_without_a_frame_offers_nothing() {
    let timeout: Result<CaptureFrame, AssembleError> = Err(AssembleError::Timeout);
    let lost: Result<CaptureFrame, AssembleError> = Err(AssembleError::SourceLost);
    let sink = SinkAdapter::new(true);
    assert!(matches!(sink.on_outcome(&timeout, false), SinkAction::Skip));
    assert!(matches!(sink.on_outcome(&timeout, true), SinkAction::Skip));
    assert!(matches!(sink.on_outcome(&lost, false), SinkAction::Skip));
}

#[test]
fn outcome_with_a_frame_is_offered_like_the_frame() {
    let produced: Result<CaptureFrame, AssembleError> = Ok(frame());
    let on = SinkAdapter::new(true);
    let off = SinkAdapter::new(false);
    assert!(matches!(off.on_outcome(&produced, false), SinkAction::Skip));
    assert!(matches!(on.on_outcome(&produced, true), SinkAction::Drop));
    match on.on_outcome(&produced, false) {
        SinkAction::Forward(pixels) => assert_eq!(pixels.data(), &vec![4, 3, 2, 1]),
        other => panic!("expected the pixels, got {:?}", other),
    }
}
