use vstd::prelude::*;

use crate::color::{black, Color};

verus! {

/// Paint allows for choosing what the elements drawn on a canvas will look like.
pub trait Paint {
    /// The color that shapes drawn with this paint take.
    spec fn paint_color(&self) -> Color;

    /// Set the color that shapes using this paint will be.
    fn set_color(&mut self, color: Color)
        ensures
            final(self).paint_color() == color,
    ;
}

/// The channels of the color that a fresh paint carries: opaque black.
pub open spec fn default_rgba() -> (u8, u8, u8, u8) {
    (0u8, 0u8, 0u8, 255u8)
}

/// The paint of the Skia-backed canvas: the style that the next shape is drawn with.
#[derive(Clone, Copy, Debug, PartialEq, Eq, Structural)]
pub struct SkiaPaint {
    color: Color,
}

impl View for SkiaPaint {
    type V = Color;

    closed spec fn view(&self) -> Color {
        self.color
    }
}

impl SkiaPaint {
    /// A fresh paint, as Skia makes one: opaque black.
    pub fn new() -> (p: SkiaPaint)
        ensures
            p@@ == default_rgba(),
    {
        SkiaPaint { color: black() }
    }

    /// The color that shapes drawn with this paint take.
    pub fn color(&self) -> (c: Color)
        ensures
            c == self@,
    {
        self.color
    }
}

impl Paint for SkiaPaint {
    open spec fn paint_color(&self) -> Color {
        self@
    }

    fn set_color(&mut self, color: Color)
        ensures
            final(self)@ == color,
    {
        self.color = color;
    }
}

} // verus!
