//! The error kinds reported by the compositor, the layout engine and the
//! menu renderer.

use vstd::prelude::*;

verus! {

/// Everything that can go wrong while drawing or laying out a frame.
///
/// Every operation reports failures through this type; none panics.
#[derive(Debug, Clone, Copy, PartialEq, Eq, Structural)]
pub enum DrawError {
    /// An index or rectangle exceeds the pixel buffer's extent.
    OutOfBounds,
    /// A named image, font or text box could not be resolved.
    UnresolvableAsset,
    /// A non-ASCII character was requested for rendering.
    UnsupportedGlyph,
    /// A line endpoint has a zero coordinate, which the line-drawing
    /// coordinate policy disallows.
    InvalidGeometry,
    /// An operation needed a current item, but the menu has none.
    EmptyMenu,
    /// The item and position counts of a menu disagree before a render.
    LayoutInvariantViolation,
}

} // verus!
