use mirror_capture::assembler::{FrameAssembler, Sample};
use mirror_capture::cursor::{Cursor, CursorError};
use mirror_capture::frame::{CaptureFrame, PixelBuffer, PixelFormat};

fn one_frame(at: u64) -> CaptureFrame {
    let mut assembler = FrameAssembler::new();
    let pixels = PixelBuffer::new(vec![1, 2, 3, 4, 5, 6, 7, 8], 1, 2, 4, PixelFormat::Rgba32);
    let sample = Sample { pixels: Ok(pixels), cursor: Ok(Cursor::from_parts(true, 7, 3, 4)), at };
    assembler.assemble(sample).unwrap()
}

#[test]
fn pixel_buffer_keeps_bytes_and_geometry() {
    let buffer = PixelBuffer::new(vec![9, 8, 7, 6], 1, 1, 4, PixelFormat::Bgra32);
    assert_eq!(buffer.data(), &vec![9, 8, 7, 6]);
    assert_eq!(buffer.width(), 1);
    assert_eq!(buffer.height(), 1);
    assert_eq!(buffer.stride(), 4);
    assert_eq!(buffer.format(), PixelFormat::Bgra32);
}

#[test]
fn pixel_buffer_may_be_empty() {
    let buffer = PixelBuffer::new(Vec::new(), 0, 0, 0, PixelFormat::Bgra32);
    assert!(buffer.data().is_empty());
    assert_eq!(buffer.width(), 0);
}

#[test]
fn pixel_buffer_clone_is_equal_and_apart() {
    let buffer = PixelBuffer::new(vec![1, 2, 3, 4, 5, 6, 7, 8], 2, 1, 8, PixelFormat::Rgba32);
    let copy = buffer.clone();
    assert_eq!(copy, buffer);
    drop(buffer);
    assert_eq!(copy.data(), &vec![1, 2, 3, 4, 5, 6, 7, 8]);
    assert_eq!(copy.format(), PixelFormat::Rgba32);
}

#[test]
fn pixel_formats_differ() {
    assert_ne!(PixelFormat::Bgra32, PixelFormat::Rgba32);
}

#[test]
fn frame_getters_give_what_was_assembled() {
    let frame = one_frame(1234);
    assert_eq!(frame.pixels().data(), &vec![1, 2, 3, 4, 5, 6, 7, 8]);
    assert_eq!(frame.pixels().width(), 1);
    assert_eq!(frame.pixels().height(), 2);
    assert_eq!(frame.pixels().stride(), 4);
    assert_eq!(frame.cursor(), Some(Cursor::from_parts(true, 7, 3, 4)));
    assert_eq!(frame.sequence(), 1);
    assert_eq!(frame.captured_at(), 1234);
}

#[test]
fn frame_clone_is_equal() {
    let frame = one_frame(5);
    let copy = frame.clone();
    assert_eq!(copy, frame);
    assert_eq!(copy.sequence(), 1);
    assert_eq!(copy.captured_at(), 5);
    assert_eq!(copy.cursor(), frame.cursor());
    assert_eq!(copy.pixels(), frame.pixels());
}

#[test]
fn first_frame_is_newer_than_nothing() {
    let frame = one_frame(0);
    assert!(frame.is_newer_than(0));
    assert!(!frame.is_newer_than(1));
    assert!(!frame.is_newer_than(2));
}

#[test]
fn frame_without_cursor_has_none() {
    let mut assembler = FrameAssembler::new();
    let pixels = PixelBuffer::new(vec![0; 4], 1, 1, 4, PixelFormat::Bgra32);
    let sample = Sample { pixels: Ok(pixels), cursor: Err(CursorError::Unavailable), at: 1 };
    let frame = assembler.assemble(sample).unwrap();
    assert_eq!(frame.cursor(), None);
}

#[test]
fn bgra_rows_are_repacked_as_rgba() {
    let data = vec![
        1, 2, 3, 4, 5, 6, 7, 8, 90, 91, 92, 93, // row 0, four bytes of padding
        11, 12, 13, 14, 15, 16, 17, 18, 94, 95, 96, 97, // row 1, four bytes of padding
    ];
    let buffer = PixelBuffer::new(data, 2, 2, 12, PixelFormat::Bgra32);
    assert!(buffer.is_complete());
    assert_eq!(
        buffer.to_rgba(),
        Some(vec![3, 2, 1, 4, 7, 6, 5, 8, 13, 12, 11, 14, 17, 16, 15, 18])
    );
}

#[test]
fn rgba_rows_are_only_packed() {
    let data = vec![1, 2, 3, 4, 0, 0, 5, 6, 7, 8, 0, 0, 9, 10, 11, 12];
    let buffer = PixelBuffer::new(data, 1, 3, 6, PixelFormat::Rgba32);
    assert_eq!(buffer.to_rgba(), Some(vec![1, 2, 3, 4, 5, 6, 7, 8, 9, 10, 11, 12]));
}

#[test]
fn last_row_needs_no_padding() {
    let data = vec![1, 2, 3, 4, 0, 0, 0, 0, 5, 6, 7, 8];
    let buffer = PixelBuffer::new(data, 1, 2, 8, PixelFormat::Bgra32);
    assert!(buffer.is_complete());
    assert_eq!(buffer.to_rgba(), Some(vec![3, 2, 1, 4, 7, 6, 5, 8]));
}

#[test]
fn short_buffer_gives_no_rgba() {
    let buffer = PixelBuffer::new(vec![1, 2, 3, 4, 5, 6, 7], 2, 1, 8, PixelFormat::Bgra32);
    assert!(!buffer.is_complete());
    assert_eq!(buffer.to_rgba(), None);
    let buffer = PixelBuffer::new(vec![0; 11], 1, 2, 8, PixelFormat::Bgra32);
    assert!(!buffer.is_complete());
    assert_eq!(buffer.to_rgba(), None);
}

#[test]
fn stride_shorter_than_a_row_gives_no_rgba() {
    let buffer = PixelBuffer::new(vec![0; 64], 2, 2, 7, PixelFormat::Rgba32);
    assert!(!buffer.is_complete());
    assert_eq!(buffer.to_rgba(), None);
}

#[test]
fn buffer_without_pixels_gives_empty_rgba() {
    let buffer = PixelBuffer::new(Vec::new(), 0, 0, 0, PixelFormat::Bgra32);
    assert!(buffer.is_complete());
    assert_eq!(buffer.to_rgba(), Some(Vec::new()));
    let buffer = PixelBuffer::new(vec![1, 2, 3], 0, 5, 0, PixelFormat::Bgra32);
    assert_eq!(buffer.to_rgba(), Some(Vec::new()));
    let buffer = PixelBuffer::new(vec![1, 2, 3], 5, 0, 1, PixelFormat::Rgba32);
    assert_eq!(buffer.to_rgba(), Some(Vec::new()));
}

#[test]
fn huge_geometry_on_a_small_buffer_is_incomplete() {
    let buffer = PixelBuffer::new(vec![0; 16], u32::MAX, u32::MAX, u32::MAX, PixelFormat::Bgra32);
    assert!(!buffer.is_complete());
    assert_eq!(buffer.to_rgba(), None);
}
