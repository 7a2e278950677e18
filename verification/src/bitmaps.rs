use vstd::prelude::*;

verus! {

/// A monochrome bitmap with its dimensions and polarity, as the device's
/// rendering subsystem consumes it.  Drawing itself is a host-side
/// effect; the type only carries the pixel data.
#[derive(Clone, Copy)]
pub struct Glyph<const S: usize> {
    pub bitmap: [u8; S],
    pub width: u32,
    pub height: u32,
    pub inverted: bool,
}

impl<const S: usize> Glyph<S> {
    /// A glyph over the given pixel bytes, drawn in normal polarity.
    pub fn new(bitmap: [u8; S], width: u32, height: u32) -> (g: Glyph<S>)
        ensures
            g.bitmap == bitmap,
            g.width == width,
            g.height == height,
            !g.inverted,
    {
        Glyph { bitmap, width, height, inverted: false }
    }

    /// A glyph from a packed (pixels, width, height) triple.
    pub fn from_include(packed: ([u8; S], u32, u32)) -> (g: Glyph<S>)
        ensures
            g.bitmap == packed.0,
            g.width == packed.1,
            g.height == packed.2,
            !g.inverted,
    {
        Glyph { bitmap: packed.0, width: packed.1, height: packed.2, inverted: false }
    }

    /// The same glyph with its polarity inverted.
    pub fn invert(self) -> (g: Glyph<S>)
        ensures
            g.bitmap == self.bitmap,
            g.width == self.width,
            g.height == self.height,
            g.inverted,
    {
        Glyph { bitmap: self.bitmap, width: self.width, height: self.height, inverted: true }
    }
}

} // verus!
