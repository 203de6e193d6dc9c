//! Text attributes shared by the styles: baselines, decoration colors and
//! the result of a measurement.
use vstd::prelude::*;

use crate::geometry::{Point, Rectangle};

verus! {

/// Which vertical position of a text line an anchor's `y` coordinate names.
#[derive(Copy, Clone, PartialEq, Eq, PartialOrd, Ord, Hash, Debug)]
pub enum Baseline {
    /// The top edge of the glyph cells.
    Top,
    /// The bottom row of the glyph cells.
    Bottom,
    /// The middle row of the glyph cells.
    Middle,
    /// The font's alphabetic baseline.
    Alphabetic,
}

/// The color of an underline or a strikethrough.
#[derive(Copy, Clone, PartialEq, Eq, PartialOrd, Ord, Hash, Debug)]
pub enum DecorationColor<C> {
    /// The decoration is not drawn.
    Disabled,
    /// The decoration is drawn in the text color, when one is set.
    TextColor,
    /// The decoration is drawn in the given color.
    Custom(C),
}

impl<C: Copy> DecorationColor<C> {
    /// Whether the decoration is enabled at all.
    pub open spec fn enabled(self) -> bool {
        !(self is Disabled)
    }

    /// Returns `true` for `DecorationColor::Disabled`.
    pub fn is_none(&self) -> (r: bool)
        ensures
            r == !self.enabled(),
    {
        match self {
            DecorationColor::Disabled => true,
            _ => false,
        }
    }
}

/// The layout of a text: its bounding box and where the next text goes.
#[derive(Copy, Clone, PartialEq, Eq, Hash, Debug)]
pub struct TextMetrics {
    pub bounding_box: Rectangle,
    pub next_position: Point,
}

} // verus!
