use vstd::prelude::*;

verus! {

/// An 8-bit-per-channel color with straight (unmultiplied) alpha.
#[derive(Clone, Copy, Debug, PartialEq, Eq, Structural)]
pub struct Rgba {
    pub r: u8,
    pub g: u8,
    pub b: u8,
    pub a: u8,
}

impl Rgba {
    /// An opaque color.
    pub fn rgb(r: u8, g: u8, b: u8) -> (c: Self)
        ensures
            c == (Rgba { r, g, b, a: 255 }),
    {
        Rgba { r, g, b, a: 255 }
    }
}

impl Default for Rgba {
    /// The default ink: an opaque near-black.
    fn default() -> (c: Self)
        ensures
            c == (Rgba { r: 33, g: 37, b: 41, a: 255 }),
    {
        Rgba::rgb(33, 37, 41)
    }
}

/// How a shape's colors are composited.
#[derive(Clone, Copy, Debug, PartialEq, Eq, Structural)]
pub enum BlendMode {
    Normal,
    Highlighter,
}

} // verus!
