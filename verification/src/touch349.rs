//! Touch LCD 3.49 V2: touch report decoding and the 172x640 RGB565 frame.

use vstd::prelude::*;

use crate::graphics::{Point, Rgb565, Size};

verus! {

pub const TOUCH349_WIDTH: u32 = 172;
pub const TOUCH349_HEIGHT: u32 = 640;
pub const TOUCH349_PIXELS: usize = 110_080;
pub const TOUCH349_FRAME_BYTES: usize = 220_160;

/// A touch position in native portrait coordinates.
#[derive(Clone, Copy, Debug, PartialEq, Eq, Structural)]
pub struct Touch349Point {
    pub x: u16,
    pub y: u16,
}

/// A 12-bit coordinate sent high nibble first.
pub open spec fn raw_coordinate(high: u8, low: u8) -> int {
    (high as int % 16) * 256 + low as int
}

/// The portrait point for a controller report, or `None` when the report
/// carries no touch (too short, or a touch count outside 1..=4). The
/// controller's y axis becomes the panel's x; its x axis, mirrored, the
/// panel's y; both are clamped to the visible area.
pub open spec fn spec_decode_touch349(response: Seq<u8>) -> Option<Touch349Point> {
    if response.len() < 6 || !(1 <= response[1] < 5) {
        None
    } else {
        let raw_x = raw_coordinate(response[2], response[3]);
        let raw_y = raw_coordinate(response[4], response[5]);
        Some(
            Touch349Point {
                x: (if raw_y > 171 {
                    171
                } else {
                    raw_y
                }) as u16,
                y: (639 - (if raw_x > 639 {
                    639
                } else {
                    raw_x
                })) as u16,
            },
        )
    }
}

fn coordinate(high: u8, low: u8) -> (v: u16)
    ensures
        v as int == raw_coordinate(high, low),
{
    let v = ((high as u16 & 0x0f) << 8) | low as u16;
    assert(((high as u16 & 0x0f) << 8) | low as u16 == (high as u16 % 16) * 256 + low as u16)
        by (bit_vector);
    v
}

/// Decodes one touch controller response.
pub fn decode_touch349_packet(response: &[u8]) -> (p: Option<Touch349Point>)
    ensures
        p == spec_decode_touch349(response@),
        p matches Some(q) ==> q.x < TOUCH349_WIDTH && q.y < TOUCH349_HEIGHT,
{
    if response.len() < 6 || !(1 <= response[1] && response[1] < 5) {
        return None;
    }
    let raw_x = coordinate(response[2], response[3]);
    let raw_y = coordinate(response[4], response[5]);
    Some(
        Touch349Point {
            x: if raw_y > 171 {
                171
            } else {
                raw_y
            },
            y: 639 - (if raw_x > 639 {
                639
            } else {
                raw_x
            }),
        },
    )
}

/// Index of a visible pixel in the row-major frame.
pub open spec fn touch349_index(x: int, y: int) -> int {
    y * 172 + x
}

pub open spec fn touch349_visible(p: Point) -> bool {
    0 <= p.x < 172 && 0 <= p.y < 640
}

/// The Touch349 frame: row-major RGB565 storage of 172x640 pixels in a
/// caller-provided buffer.
pub struct Touch349FrameBuffer<'a> {
    pixels: &'a mut [u16],
}

impl<'a> Touch349FrameBuffer<'a> {
    /// The stored pixel values.
    pub closed spec fn frame(&self) -> Seq<u16> {
        self.pixels@
    }

    /// Wraps `pixels` when it holds exactly one frame.
    pub fn new(pixels: &'a mut [u16]) -> (f: Option<Self>)
        ensures
            f is Some <==> old(pixels)@.len() == TOUCH349_PIXELS,
            f matches Some(fb) ==> fb.frame() == old(pixels)@,
    {
        if pixels.len() == TOUCH349_PIXELS {
            Some(Touch349FrameBuffer { pixels })
        } else {
            None
        }
    }

    pub fn pixels(&self) -> (p: &[u16])
        ensures
            p@ == self.frame(),
    {
        self.pixels
    }

    pub fn size(&self) -> (s: Size)
        ensures
            s.width == TOUCH349_WIDTH && s.height == TOUCH349_HEIGHT,
    {
        Size::new(TOUCH349_WIDTH, TOUCH349_HEIGHT)
    }

    /// Stores one pixel; points outside the panel are ignored.
    pub fn set_pixel(&mut self, point: Point, color: Rgb565)
        requires
            old(self).frame().len() == TOUCH349_PIXELS,
        ensures
            final(self).frame() == (if touch349_visible(point) {
                old(self).frame().update(touch349_index(point.x as int, point.y as int), color.storage)
            } else {
                old(self).frame()
            }),
    {
        if point.x >= 0 && point.y >= 0 && point.x < 172 && point.y < 640 {
            let index = point.y as usize * 172 + point.x as usize;
            self.pixels[index] = color.into_storage();
        }
    }

    /// Fills the whole frame with one color.
    pub fn clear(&mut self, color: Rgb565)
        ensures
            final(self).frame().len() == old(self).frame().len(),
            forall|i: int| 0 <= i < final(self).frame().len() ==> #[trigger] final(self).frame()[i]
                == color.storage,
    {
        let v = color.into_storage();
        let n = self.pixels.len();
        let mut i: usize = 0;
        while i < n
            invariant
                n == self.pixels@.len(),
                n == old(self).frame().len(),
                i <= n,
                forall|j: int| 0 <= j < i ==> #[trigger] self.pixels@[j] == v,
            decreases n - i,
        {
            self.pixels[i] = v;
            i = i + 1;
        }
    }
}

} // verus!
