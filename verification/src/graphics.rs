//! Plain geometry and color values shared by the frame buffers and the
//! renderers.

use vstd::prelude::*;

verus! {

/// A pixel position; x grows to the right, y downwards.
#[derive(Clone, Copy, Debug, PartialEq, Eq, Structural)]
pub struct Point {
    pub x: i32,
    pub y: i32,
}

impl Point {
    pub fn new(x: i32, y: i32) -> (p: Self)
        ensures
            p.x == x && p.y == y,
    {
        Point { x, y }
    }
}

/// Width and height of an area in pixels.
#[derive(Clone, Copy, Debug, PartialEq, Eq, Structural)]
pub struct Size {
    pub width: u32,
    pub height: u32,
}

impl Size {
    pub fn new(width: u32, height: u32) -> (s: Self)
        ensures
            s.width == width && s.height == height,
    {
        Size { width, height }
    }
}

/// A monochrome pixel. On the reflective panel `On` is the white background
/// and `Off` is black ink.
#[derive(Clone, Copy, Debug, PartialEq, Eq, Structural)]
pub enum BinaryColor {
    Off,
    On,
}

/// A 16-bit color: 5 bits red, 6 bits green, 5 bits blue.
#[derive(Clone, Copy, Debug, PartialEq, Eq, Structural)]
pub struct Rgb565 {
    pub storage: u16,
}

/// The packed value of a color: channels too wide for their field lose
/// their high bits.
pub open spec fn rgb565_storage(r: u8, g: u8, b: u8) -> int {
    (r as int % 32) * 2048 + (g as int % 64) * 32 + b as int % 32
}

impl Rgb565 {
    pub fn new(r: u8, g: u8, b: u8) -> (c: Self)
        ensures
            c.storage as int == rgb565_storage(r, g, b),
    {
        let rr: u16 = (r % 32) as u16;
        let gg: u16 = (g % 64) as u16;
        let bb: u16 = (b % 32) as u16;
        Rgb565 { storage: rr * 2048 + gg * 32 + bb }
    }

    /// The packed 16-bit value as the panel stores it.
    pub fn into_storage(self) -> (v: u16)
        ensures
            v == self.storage,
    {
        self.storage
    }
}

} // verus!
