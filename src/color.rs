use vstd::prelude::*;

verus! {

/// An RGBA color with one byte per channel.
#[derive(Clone, Copy, Debug, PartialEq, Eq, Structural)]
pub struct Color(u8, u8, u8, u8);

impl View for Color {
    type V = (u8, u8, u8, u8);

    /// The channels in the order red, green, blue, alpha.
    closed spec fn view(&self) -> (u8, u8, u8, u8) {
        (self.0, self.1, self.2, self.3)
    }
}

impl Color {
    /// Create a new color from the given RGBA values.
    pub fn from_rgba8(r: u8, g: u8, b: u8, a: u8) -> (c: Color)
        ensures
            c@ == (r, g, b, a),
    {
        Color(r, g, b, a)
    }

    /// Create a new, fully opaque color from the given RGB values.
    pub fn from_rgb8(r: u8, g: u8, b: u8) -> (c: Color)
        ensures
            c@ == (r, g, b, 255u8),
    {
        Color(r, g, b, 255)
    }

    /// Get the RGBA values of the color as a tuple.
    pub fn to_rgba8(&self) -> (t: (u8, u8, u8, u8))
        ensures
            t == self@,
    {
        (self.0, self.1, self.2, self.3)
    }
}

/// Opaque black.
pub fn black() -> (c: Color)
    ensures
        c@ == (0u8, 0u8, 0u8, 255u8),
{
    Color(0, 0, 0, 255)
}

/// Opaque white.
pub fn white() -> (c: Color)
    ensures
        c@ == (255u8, 255u8, 255u8, 255u8),
{
    Color(255, 255, 255, 255)
}

/// Opaque red.
pub fn red() -> (c: Color)
    ensures
        c@ == (255u8, 0u8, 0u8, 255u8),
{
    Color(255, 0, 0, 255)
}

/// Opaque green.
pub fn green() -> (c: Color)
    ensures
        c@ == (0u8, 255u8, 0u8, 255u8),
{
    Color(0, 255, 0, 255)
}

/// Opaque blue.
pub fn blue() -> (c: Color)
    ensures
        c@ == (0u8, 0u8, 255u8, 255u8),
{
    Color(0, 0, 255, 255)
}

/// Opaque cyan.
pub fn cyan() -> (c: Color)
    ensures
        c@ == (0u8, 255u8, 255u8, 255u8),
{
    Color(0, 255, 255, 255)
}

/// Opaque magenta.
pub fn magenta() -> (c: Color)
    ensures
        c@ == (255u8, 0u8, 255u8, 255u8),
{
    Color(255, 0, 255, 255)
}

/// Opaque yellow.
pub fn yellow() -> (c: Color)
    ensures
        c@ == (255u8, 255u8, 0u8, 255u8),
{
    Color(255, 255, 0, 255)
}

/// Opaque mid gray.
pub fn gray() -> (c: Color)
    ensures
        c@ == (128u8, 128u8, 128u8, 255u8),
{
    Color(128, 128, 128, 255)
}

/// Opaque light gray.
pub fn light_gray() -> (c: Color)
    ensures
        c@ == (192u8, 192u8, 192u8, 255u8),
{
    Color(192, 192, 192, 255)
}

/// Opaque dark gray.
pub fn dark_gray() -> (c: Color)
    ensures
        c@ == (64u8, 64u8, 64u8, 255u8),
{
    Color(64, 64, 64, 255)
}

/// Fully transparent black.
pub fn transparent() -> (c: Color)
    ensures
        c@ == (0u8, 0u8, 0u8, 0u8),
{
    Color(0, 0, 0, 0)
}

} // verus!
