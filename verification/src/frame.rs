//! Pixel buffers and the frames that carry them.

use crate::cursor::{Cursor, CursorView};
use vstd::arithmetic::div_mod::lemma_fundamental_div_mod_converse;
use vstd::prelude::*;

verus! {

/// How the bytes of a pixel are laid out.
#[derive(Clone, Copy, Debug, PartialEq, Eq, Structural)]
pub enum PixelFormat {
    /// Blue, green, red, alpha: one byte each.
    Bgra32,
    /// Red, green, blue, alpha: one byte each.
    Rgba32,
}

/// The mathematical value of a [`PixelBuffer`].
pub ghost struct PixelBufferView {
    pub data: Seq<u8>,
    pub width: u32,
    pub height: u32,
    pub stride: u32,
    pub format: PixelFormat,
}

/// Where, among the four bytes of a pixel in `format`, channel `channel` lies.
/// Channels go red, green, blue, alpha.
pub open spec fn source_channel(format: PixelFormat, channel: int) -> int {
    match format {
        PixelFormat::Rgba32 => channel,
        PixelFormat::Bgra32 => if channel == 0 {
            2
        } else if channel == 2 {
            0
        } else {
            channel
        },
    }
}

impl PixelBufferView {
    /// Whether the bytes hold every row in full: a row is `width` pixels of
    /// four bytes, and rows start `stride` bytes apart. A buffer without
    /// pixels is complete whatever it holds.
    pub open spec fn is_complete(self) -> bool {
        self.width > 0 && self.height > 0 ==> {
            &&& 4 * self.width <= self.stride
            &&& (self.height - 1) * self.stride + 4 * self.width <= self.data.len()
        }
    }

    /// One channel of the pixel in column `x` of row `y`.
    pub open spec fn channel(self, x: int, y: int, channel: int) -> u8 {
        self.data[y * self.stride + 4 * x + source_channel(self.format, channel)]
    }

    /// The pixels row by row without gaps between the rows, each as red,
    /// green, blue, alpha.
    pub open spec fn rgba(self) -> Seq<u8> {
        Seq::new(
            (4 * self.width * self.height) as nat,
            |i: int| self.channel((i / 4) % (self.width as int), (i / 4) / (self.width as int), i % 4),
        )
    }
}

/// Where channel `channel` of the pixel in column `x` of row `y` lies among
/// the packed bytes of an image `width` pixels wide, and that this place
/// belongs to no other channel or pixel.
proof fn lemma_packed_place(width: int, x: int, y: int, channel: int)
    requires
        0 <= x < width,
        0 <= y,
        0 <= channel < 4,
    ensures
        (4 * (y * width + x) + channel) % 4 == channel,
        ((4 * (y * width + x) + channel) / 4) % width == x,
        ((4 * (y * width + x) + channel) / 4) / width == y,
{
    let pixel = y * width + x;
    let place = 4 * pixel + channel;
    assert(place == pixel * 4 + channel);
    lemma_fundamental_div_mod_converse(place, 4, pixel, channel);
    lemma_fundamental_div_mod_converse(pixel, width, y, x);
}

/// What the packed bytes hold, pixel by pixel: they are four bytes for each
/// pixel, and channel `channel` of the pixel in column `x` of row `y` is the
/// byte that the buffer holds for it.
pub proof fn lemma_rgba_pixel(buffer: PixelBufferView, x: int, y: int, channel: int)
    requires
        0 <= x < buffer.width,
        0 <= y < buffer.height,
        0 <= channel < 4,
    ensures
        buffer.rgba().len() == 4 * buffer.width * buffer.height,
        0 <= 4 * (y * buffer.width + x) + channel < buffer.rgba().len(),
        buffer.rgba()[4 * (y * buffer.width + x) + channel] == buffer.channel(x, y, channel),
{
    let width = buffer.width as int;
    let height = buffer.height as int;
    lemma_packed_place(width, x, y, channel);
    assert(0 <= y * width && 4 * (y * width + x) + 4 <= 4 * width * height) by (nonlinear_arith)
        requires
            0 <= x < width,
            0 <= y < height,
    ;
}

/// The raw pixels of one display sample, with their geometry.
///
/// The bytes are opaque here: nothing in this crate reads or changes them. A
/// buffer has one owner at a time and is handed on by move.
#[derive(Debug, PartialEq, Eq)]
pub struct PixelBuffer {
    data: Vec<u8>,
    width: u32,
    height: u32,
    stride: u32,
    format: PixelFormat,
}

impl View for PixelBuffer {
    type V = PixelBufferView;

    closed spec fn view(&self) -> PixelBufferView {
        PixelBufferView {
            data: self.data@,
            width: self.width,
            height: self.height,
            stride: self.stride,
            format: self.format,
        }
    }
}

impl PixelBuffer {
    /// Wraps raw bytes with their geometry.
    pub fn new(data: Vec<u8>, width: u32, height: u32, stride: u32, format: PixelFormat) -> (buffer:
        Self)
        ensures
            buffer@ == (PixelBufferView { data: data@, width, height, stride, format }),
    {
        Self { data, width, height, stride, format }
    }

    /// The raw bytes.
    pub fn data(&self) -> (bytes: &Vec<u8>)
        ensures
            bytes@ == self@.data,
    {
        &self.data
    }

    /// Pixels in a row.
    pub fn width(&self) -> (width: u32)
        ensures
            width == self@.width,
    {
        self.width
    }

    /// Rows.
    pub fn height(&self) -> (height: u32)
        ensures
            height == self@.height,
    {
        self.height
    }

    /// Bytes from the start of one row to the start of the next.
    pub fn stride(&self) -> (stride: u32)
        ensures
            stride == self@.stride,
    {
        self.stride
    }

    /// The layout of a pixel's bytes.
    pub fn format(&self) -> (format: PixelFormat)
        ensures
            format == self@.format,
    {
        self.format
    }

    /// Whether the bytes hold every row in full.
    pub fn is_complete(&self) -> (complete: bool)
        ensures
            complete == self@.is_complete(),
    {
        if self.width == 0 || self.height == 0 {
            return true;
        }
        let row: u128 = 4 * (self.width as u128);
        if row > self.stride as u128 {
            return false;
        }
        assert((self.height - 1) * self.stride <= 0xFFFF_FFFF * 0xFFFF_FFFF) by (nonlinear_arith)
            requires
                0 <= self.height - 1 <= 0xFFFF_FFFF,
                0 <= self.stride <= 0xFFFF_FFFF,
        ;
        let need: u128 = (self.height as u128 - 1) * (self.stride as u128) + row;
        need <= self.data.len() as u128
    }

    /// The pixels as packed rows of red, green, blue, alpha, for a consumer
    /// that takes no other layout. A buffer that does not hold all its rows
    /// gives nothing.
    pub fn to_rgba(&self) -> (packed: Option<Vec<u8>>)
        ensures
            packed is Some <==> self@.is_complete(),
            packed matches Some(bytes) ==> bytes@ == self@.rgba(),
    {
        if !self.is_complete() {
            return None;
        }
        let width: usize = self.width as usize;
        let height: usize = self.height as usize;
        let stride: usize = self.stride as usize;
        assert(self.data@.len() == self.data.len());
        let (red, blue): (usize, usize) = match self.format {
            PixelFormat::Rgba32 => (0, 2),
            PixelFormat::Bgra32 => (2, 0),
        };
        let mut bytes: Vec<u8> = Vec::new();
        let mut y: usize = 0;
        while y < height
            invariant
                y <= height,
                width == self.width,
                height == self.height,
                stride == self.stride,
                self.data@.len() <= usize::MAX,
                self@.is_complete(),
                red == source_channel(self.format, 0),
                blue == source_channel(self.format, 2),
                bytes@.len() == 4 * (y * width),
                forall|i: int| 0 <= i < bytes@.len() ==> bytes@[i] == self@.rgba()[i],
            decreases height - y,
        {
            let mut x: usize = 0;
            while x < width
                invariant
                    y < height,
                    x <= width,
                    width == self.width,
                    height == self.height,
                    stride == self.stride,
                    self.data@.len() <= usize::MAX,
                    self@.is_complete(),
                    red == source_channel(self.format, 0),
                    blue == source_channel(self.format, 2),
                    bytes@.len() == 4 * (y * width + x),
                    forall|i: int| 0 <= i < bytes@.len() ==> bytes@[i] == self@.rgba()[i],
                decreases width - x,
            {
                proof {
                    lemma_row_in_reach(
                        width as int,
                        height as int,
                        stride as int,
                        self.data@.len() as int,
                        x as int,
                        y as int,
                    );
                    lemma_packed_place(width as int, x as int, y as int, 0);
                    lemma_packed_place(width as int, x as int, y as int, 1);
                    lemma_packed_place(width as int, x as int, y as int, 2);
                    lemma_packed_place(width as int, x as int, y as int, 3);
                }
                let at: usize = y * stride + 4 * x;
                bytes.push(self.data[at + red]);
                bytes.push(self.data[at + 1]);
                bytes.push(self.data[at + blue]);
                bytes.push(self.data[at + 3]);
                x = x + 1;
            }
            y = y + 1;
            assert(y * width == (y - 1) * width + width) by (nonlinear_arith);
        }
        assert(4 * (height * width) == 4 * self.width * self.height) by (nonlinear_arith)
            requires
                width == self.width,
                height == self.height,
        ;
        assert(bytes@ =~= self@.rgba());
        Some(bytes)
    }
}

/// In a complete buffer the four bytes of every pixel lie within the bytes,
/// and so does the pixel's place among the packed bytes.
proof fn lemma_row_in_reach(width: int, height: int, stride: int, len: int, x: int, y: int)
    requires
        0 <= x < width,
        0 <= y < height,
        4 * width <= stride,
        (height - 1) * stride + 4 * width <= len,
    ensures
        0 <= y * stride,
        y * stride + 4 * x + 4 <= len,
        0 <= y * width,
        4 * (y * width + x) + 4 <= len,
        4 * (y * width + x) + 4 <= 4 * width * height,
{
    assert(0 <= y * stride && y * stride <= (height - 1) * stride) by (nonlinear_arith)
        requires
            0 <= y <= height - 1,
            0 <= stride,
    ;
    assert(0 <= y * width && 4 * (y * width) <= y * stride) by (nonlinear_arith)
        requires
            0 <= y,
            0 <= width,
            4 * width <= stride,
    ;
    assert(4 * (y * width + x) + 4 <= 4 * width * height) by (nonlinear_arith)
        requires
            0 <= x < width,
            0 <= y < height,
    ;
}

impl Clone for PixelBuffer {
    /// A copy with the same bytes and geometry.
    fn clone(&self) -> (copy: Self)
        ensures
            copy@ == self@,
    {
        let data = self.data.clone();
        assert(data@ =~= self.data@);
        Self {
            data,
            width: self.width,
            height: self.height,
            stride: self.stride,
            format: self.format,
        }
    }
}

/// The mathematical value of a [`CaptureFrame`].
pub ghost struct CaptureFrameView {
    pub pixels: PixelBufferView,
    pub cursor: Option<CursorView>,
    pub sequence: nat,
    pub captured_at: u64,
}

/// One unit of delivery: a pixel sample, the cursor snapshot taken with it
/// where there was one, the frame's number and the time it was made.
///
/// A frame never changes once made. Frames of one strategy are numbered
/// 1, 2, 3, ..., so a consumer that remembers the last number it saw can tell
/// a new frame from one it has had before.
#[derive(Debug, PartialEq, Eq)]
pub struct CaptureFrame {
    pixels: PixelBuffer,
    cursor: Option<Cursor>,
    sequence: u64,
    captured_at: u64,
}

/// The value of an optional snapshot.
pub open spec fn cursor_view(cursor: Option<Cursor>) -> Option<CursorView> {
    match cursor {
        Some(c) => Some(c@),
        None => None,
    }
}

impl View for CaptureFrame {
    type V = CaptureFrameView;

    closed spec fn view(&self) -> CaptureFrameView {
        CaptureFrameView {
            pixels: self.pixels@,
            cursor: cursor_view(self.cursor),
            sequence: self.sequence as nat,
            captured_at: self.captured_at,
        }
    }
}

impl CaptureFrame {
    pub(crate) fn new(
        pixels: PixelBuffer,
        cursor: Option<Cursor>,
        sequence: u64,
        captured_at: u64,
    ) -> (frame: Self)
        ensures
            frame@ == (CaptureFrameView {
                pixels: pixels@,
                cursor: cursor_view(cursor),
                sequence: sequence as nat,
                captured_at,
            }),
    {
        Self { pixels, cursor, sequence, captured_at }
    }

    /// The pixel sample.
    pub fn pixels(&self) -> (pixels: &PixelBuffer)
        ensures
            pixels@ == self@.pixels,
    {
        &self.pixels
    }

    /// The cursor snapshot, if one could be had when the frame was made.
    pub fn cursor(&self) -> (cursor: Option<Cursor>)
        ensures
            cursor_view(cursor) == self@.cursor,
    {
        self.cursor
    }

    /// The frame's number.
    pub fn sequence(&self) -> (sequence: u64)
        ensures
            sequence == self@.sequence,
    {
        self.sequence
    }

    /// The clock reading that the frame was made with.
    pub fn captured_at(&self) -> (at: u64)
        ensures
            at == self@.captured_at,
    {
        self.captured_at
    }

    /// Whether this frame is newer than the one numbered `last_seen`. A consumer
    /// that has seen nothing yet passes zero.
    pub fn is_newer_than(&self, last_seen: u64) -> (newer: bool)
        ensures
            newer == (self@.sequence > last_seen),
    {
        self.sequence > last_seen
    }
}

impl Clone for CaptureFrame {
    /// A copy with the same pixels, cursor, number and time.
    fn clone(&self) -> (copy: Self)
        ensures
            copy@ == self@,
    {
        Self {
            pixels: self.pixels.clone(),
            cursor: self.cursor,
            sequence: self.sequence,
            captured_at: self.captured_at,
        }
    }
}

} // verus!
