//! The byte-level semantics of pixel writes.
//!
//! Every drawing primitive of the compositor is specified against the spec
//! functions in this module: a single blended pixel write, and folds of such
//! writes over sequences of cells or line points.

use vstd::prelude::*;

use crate::error::DrawError;

verus! {

/// A pixel index addresses the 4-byte channel group starting at `4 * index`;
/// it is in bounds when that whole group lies inside the buffer.
pub open spec fn pixel_in_bounds(bytes: Seq<u8>, index: int) -> bool {
    0 <= index && 4 * index + 4 <= bytes.len()
}

/// The alpha channel turned into a retained-weight percentage from 0 to 100.
/// The higher the alpha, the lower the weight.
pub open spec fn alpha_percent(alpha: u8) -> int {
    100 - (alpha * 100) / 255
}

/// One blended color channel:
/// `(alpha_percent * top) / 100 + (alpha_percent * bottom) / 100`,
/// with truncating division, reduced to a byte exactly as the executable
/// narrowing cast does.
pub open spec fn blend_channel(alpha: u8, top: u8, bottom: u8) -> u8 {
    (((alpha_percent(alpha) * top) / 100 + (alpha_percent(alpha) * bottom) / 100) % 256) as u8
}

/// The buffer after an in-bounds write of `rgba` at pixel `index`:
/// full alpha overwrites the three color channels, any other alpha blends
/// them; the alpha byte of the buffer is never touched.
pub open spec fn written_rgba(bytes: Seq<u8>, index: int, rgba: Seq<u8>) -> Seq<u8> {
    if rgba[3] == 255 {
        bytes.update(4 * index, rgba[0]).update(4 * index + 1, rgba[1]).update(
            4 * index + 2,
            rgba[2],
        )
    } else {
        bytes.update(4 * index, blend_channel(rgba[3], rgba[0], bytes[4 * index])).update(
            4 * index + 1,
            blend_channel(rgba[3], rgba[1], bytes[4 * index + 1]),
        ).update(4 * index + 2, blend_channel(rgba[3], rgba[2], bytes[4 * index + 2]))
    }
}

/// The full semantics of one `draw_at_pixel_with_rgba` call: the resulting
/// bytes, and whether the call succeeds. A fully transparent color is a
/// no-op before any bounds check; an out-of-bounds write fails and leaves
/// the bytes unchanged.
pub open spec fn pixel_write_step(bytes: Seq<u8>, index: int, rgba: Seq<u8>) -> (Seq<u8>, bool) {
    if rgba[3] == 0 {
        (bytes, true)
    } else if pixel_in_bounds(bytes, index) {
        (written_rgba(bytes, index, rgba), true)
    } else {
        (bytes, false)
    }
}

/// A sequence of pixel writes, each a `(index, rgba)` cell, applied in order
/// until the first failure. Cells after a failing one are not applied, so a
/// failed fold leaves the buffer partially updated, exactly as the loops of
/// the compositor do.
pub open spec fn paint_cells(bytes: Seq<u8>, cells: Seq<(int, Seq<u8>)>) -> (Seq<u8>, bool)
    decreases cells.len(),
{
    if cells.len() == 0 {
        (bytes, true)
    } else {
        let step = pixel_write_step(bytes, cells[0].0, cells[0].1);
        if !step.1 {
            (step.0, false)
        } else {
            paint_cells(step.0, cells.drop_first())
        }
    }
}

/// One visited cell of a line: the linear index is recomputed from the
/// point, a negative index fails before the transparency short-circuit of
/// the pixel write is ever reached.
pub open spec fn line_point_step(
    bytes: Seq<u8>,
    p: (isize, isize),
    buf_width: int,
    rgba: Seq<u8>,
) -> (Seq<u8>, bool) {
    let index = p.0 + p.1 * buf_width;
    if index < 0 {
        (bytes, false)
    } else {
        pixel_write_step(bytes, index, rgba)
    }
}

/// A sequence of line points painted in order until the first failure.
pub open spec fn paint_line(
    bytes: Seq<u8>,
    pts: Seq<(isize, isize)>,
    buf_width: int,
    rgba: Seq<u8>,
) -> (Seq<u8>, bool)
    decreases pts.len(),
{
    if pts.len() == 0 {
        (bytes, true)
    } else {
        let step = line_point_step(bytes, pts[0], buf_width, rgba);
        if !step.1 {
            (step.0, false)
        } else {
            paint_line(step.0, pts.drop_first(), buf_width, rgba)
        }
    }
}

/// The outcome of one whole `line` call: endpoints with a zero coordinate
/// are rejected before any write, otherwise the points of the discrete line
/// are painted until the first failure.
pub open spec fn line_semantics(
    bytes: Seq<u8>,
    a: (isize, isize),
    b: (isize, isize),
    buf_width: int,
    rgba: Seq<u8>,
) -> (Seq<u8>, Option<DrawError>) {
    if a.0 == 0 || a.1 == 0 || b.0 == 0 || b.1 == 0 {
        (bytes, Some(DrawError::InvalidGeometry))
    } else {
        let painted = paint_line(bytes, line_points(a, b), buf_width, rgba);
        (
            painted.0,
            if painted.1 {
                None
            } else {
                Some(DrawError::OutOfBounds)
            },
        )
    }
}

/// The outcome of one `bounding_rectangle` call: the four outline lines
/// drawn in order, stopping at the first failing line. The top and left
/// lines are extended by one cell so the outline meets at the corners;
/// corner cells visited by two lines are written twice.
pub open spec fn bounding_rectangle_semantics(
    bytes: Seq<u8>,
    top_left: (isize, isize),
    bottom_right: (isize, isize),
    buf_width: int,
    rgba: Seq<u8>,
) -> (Seq<u8>, Option<DrawError>) {
    let top_right = (bottom_right.0, top_left.1);
    let bottom_left = (top_left.0, bottom_right.1);
    let top = line_semantics(
        bytes,
        top_left,
        (((top_right.0 + 1) as isize), top_right.1),
        buf_width,
        rgba,
    );
    if top.1 is Some {
        top
    } else {
        let right = line_semantics(top.0, bottom_right, top_right, buf_width, rgba);
        if right.1 is Some {
            right
        } else {
            let left = line_semantics(
                right.0,
                top_left,
                (bottom_left.0, ((bottom_left.1 + 1) as isize)),
                buf_width,
                rgba,
            );
            if left.1 is Some {
                left
            } else {
                line_semantics(left.0, bottom_right, bottom_left, buf_width, rgba)
            }
        }
    }
}

/// The outcome of one `draw_arrow` call: a shaft drawn from the tip
/// backwards, then two wings of half the length, diverging down and up from
/// a point halfway back along the shaft. The direction flips the sign of
/// every horizontal offset.
pub open spec fn arrow_semantics(
    bytes: Seq<u8>,
    end_x: u32,
    end_y: u32,
    length: u32,
    point_right: bool,
    buf_width: int,
    rgba: Seq<u8>,
) -> (Seq<u8>, Option<DrawError>) {
    let half = length as int / 2;
    let back_x = if point_right {
        end_x - length
    } else {
        end_x + length
    };
    let wing_x = if point_right {
        end_x - half
    } else {
        end_x + half
    };
    let tip = ((end_x as isize), (end_y as isize));
    let back = ((back_x as isize), (end_y as isize));
    let wing = ((wing_x as isize), ((end_y + half) as isize));
    let shaft = line_semantics(bytes, tip, back, buf_width, rgba);
    if shaft.1 is Some {
        shaft
    } else {
        let lower_wing = line_semantics(shaft.0, tip, wing, buf_width, rgba);
        if lower_wing.1 is Some {
            lower_wing
        } else {
            line_semantics(
                lower_wing.0,
                tip,
                (wing.0, ((end_y + half - length) as isize)),
                buf_width,
                rgba,
            )
        }
    }
}

/// Turns the error part of a drawing outcome back into the result the
/// executable primitives return.
pub open spec fn outcome_result(error: Option<DrawError>) -> Result<(), DrawError> {
    match error {
        None => Ok(()),
        Some(e) => Err(e),
    }
}

/// A fully opaque write overwrites the three color channels with exactly
/// the requested color, whatever the buffer held before; the alpha byte of
/// the pixel and every byte outside the pixel stay unchanged.
pub proof fn lemma_full_alpha_overwrites(bytes: Seq<u8>, index: int, rgba: Seq<u8>)
    requires
        rgba.len() == 4,
        rgba[3] == 255,
        pixel_in_bounds(bytes, index),
    ensures
        pixel_write_step(bytes, index, rgba).1,
        pixel_write_step(bytes, index, rgba).0[4 * index] == rgba[0],
        pixel_write_step(bytes, index, rgba).0[4 * index + 1] == rgba[1],
        pixel_write_step(bytes, index, rgba).0[4 * index + 2] == rgba[2],
        pixel_write_step(bytes, index, rgba).0[4 * index + 3] == bytes[4 * index + 3],
        pixel_write_step(bytes, index, rgba).0.len() == bytes.len(),
        forall|j: int|
            0 <= j < bytes.len() && !(4 * index <= j < 4 * index + 3) ==> pixel_write_step(
                bytes,
                index,
                rgba,
            ).0[j] == bytes[j],
{
}

/// A fully transparent write is a no-op: it succeeds and leaves the buffer
/// byte-for-byte unchanged, whether or not the pixel is in bounds.
pub proof fn lemma_zero_alpha_is_no_op(bytes: Seq<u8>, index: int, rgba: Seq<u8>)
    requires
        rgba.len() == 4,
        rgba[3] == 0,
    ensures
        pixel_write_step(bytes, index, rgba) == (bytes, true),
{
}

/// For an alpha strictly between zero and full, every written color
/// channel carries exactly the documented blend:
/// `((100 - (alpha*100)/255) * top) / 100 + ((100 - (alpha*100)/255) * bottom) / 100`,
/// with truncating division, reduced to a byte; the alpha byte of the pixel
/// and every byte outside the pixel stay unchanged.
pub proof fn lemma_partial_alpha_blends(bytes: Seq<u8>, index: int, rgba: Seq<u8>)
    requires
        rgba.len() == 4,
        0 < rgba[3] < 255,
        pixel_in_bounds(bytes, index),
    ensures
        pixel_write_step(bytes, index, rgba).1,
        forall|c: int|
            0 <= c < 3 ==> pixel_write_step(bytes, index, rgba).0[4 * index + c] == (((100 - (
            rgba[3] * 100) / 255) * #[trigger] rgba[c]) / 100 + ((100 - (rgba[3] * 100) / 255)
                * bytes[4 * index + c]) / 100) % 256,
        pixel_write_step(bytes, index, rgba).0[4 * index + 3] == bytes[4 * index + 3],
        pixel_write_step(bytes, index, rgba).0.len() == bytes.len(),
        forall|j: int|
            0 <= j < bytes.len() && !(4 * index <= j < 4 * index + 3) ==> pixel_write_step(
                bytes,
                index,
                rgba,
            ).0[j] == bytes[j],
{
    assert forall|c: int| 0 <= c < 3 implies pixel_write_step(bytes, index, rgba).0[4 * index
        + c] == (((100 - (rgba[3] * 100) / 255) * #[trigger] rgba[c]) / 100 + ((100 - (rgba[3]
        * 100) / 255) * bytes[4 * index + c]) / 100) % 256 by {
        let blended = blend_channel(rgba[3], rgba[c] as u8, bytes[4 * index + c] as u8);
        assert(0 <= (alpha_percent(rgba[3]) * rgba[c]) / 100 + (alpha_percent(rgba[3]) * bytes[4
            * index + c]) / 100 < 512) by (nonlinear_arith)
            requires
                0 <= alpha_percent(rgba[3]) <= 100,
                0 <= rgba[c] <= 255,
                0 <= bytes[4 * index + c] <= 255,
        ;
    }
}

/// A write with a visible alpha at a pixel whose 4-byte span exceeds the
/// buffer always fails and leaves the buffer unchanged.
pub proof fn lemma_out_of_bounds_write_fails(bytes: Seq<u8>, index: int, rgba: Seq<u8>)
    requires
        rgba.len() == 4,
        rgba[3] != 0,
        !pixel_in_bounds(bytes, index),
    ensures
        pixel_write_step(bytes, index, rgba) == (bytes, false),
{
}

/// A painted fold whose very first cell is out of bounds, written with a
/// visible alpha, fails as a whole and leaves the buffer unchanged. In
/// particular a rectangle fill whose first cell already exceeds the buffer
/// reports the failure before any write.
pub proof fn lemma_paint_fails_on_first_cell(bytes: Seq<u8>, cells: Seq<(int, Seq<u8>)>)
    requires
        cells.len() > 0,
        cells[0].1.len() == 4,
        cells[0].1[3] != 0,
        !pixel_in_bounds(bytes, cells[0].0),
    ensures
        paint_cells(bytes, cells) == (bytes, false),
{
}

/// A line with either endpoint on a zero coordinate is rejected as
/// invalid geometry, and no cell is written: the coordinate system of the
/// line-drawing API disallows the origin row and column by design.
pub proof fn lemma_zero_coordinate_line_rejected(
    bytes: Seq<u8>,
    a: (isize, isize),
    b: (isize, isize),
    buf_width: int,
    rgba: Seq<u8>,
)
    requires
        a.0 == 0 || a.1 == 0 || b.0 == 0 || b.1 == 0,
    ensures
        line_semantics(bytes, a, b, buf_width, rgba) == (
            bytes,
            Some(DrawError::InvalidGeometry),
        ),
{
}

/// The points of the discrete Bresenham line from `a` (inclusive) to `b`
/// (exclusive). The sequence depends on the two endpoints alone.
pub uninterp spec fn line_points(a: (isize, isize), b: (isize, isize)) -> Seq<(isize, isize)>;

/// Relies on `bresenham::Bresenham::new` of the bresenham crate: the
/// iterator yields the cells of the discrete line from `start` (included) to
/// `end` (excluded), computed from the two endpoints alone. The coordinate
/// bound keeps the crate's internal octant arithmetic, which negates and
/// subtracts coordinates, away from `isize` overflow on any architecture.
#[verifier::external_body]
pub(crate) fn bresenham_points(a: (isize, isize), b: (isize, isize)) -> (r: Vec<(isize, isize)>)
    requires
        -0x0FFF_FFFF <= a.0 <= 0x0FFF_FFFF,
        -0x0FFF_FFFF <= a.1 <= 0x0FFF_FFFF,
        -0x0FFF_FFFF <= b.0 <= 0x0FFF_FFFF,
        -0x0FFF_FFFF <= b.1 <= 0x0FFF_FFFF,
    ensures
        r@ == line_points(a, b),
{
    bresenham::Bresenham::new(a, b).collect()
}

} // verus!
