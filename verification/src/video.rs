//! Plain data for the video overlay. Capturing, drawing and encoding go
//! through a native library in the embedding program; only the values the
//! overlay is parameterized by live here.

use vstd::prelude::*;

verus! {

/// An RGBA color.
#[derive(Debug, Clone, Copy, PartialEq, Eq, Structural)]
pub struct Color {
    pub r: u8,
    pub g: u8,
    pub b: u8,
    pub a: u8,
}

impl Color {
    /// Build a color from its channels.
    pub fn new(r: u8, g: u8, b: u8, a: u8) -> (c: Color)
        ensures
            c.r == r,
            c.g == g,
            c.b == b,
            c.a == a,
    {
        Color { r, g, b, a }
    }
}

/// A capture source, identified by its camera index.
#[derive(Debug, Clone, Copy, PartialEq, Eq, Structural)]
pub struct Video {
    pub camera: u32,
}

impl Video {
    /// A video source on the given camera.
    pub fn new(camera: u32) -> (v: Video)
        ensures
            v.camera == camera,
    {
        Video { camera }
    }
}

} // verus!
