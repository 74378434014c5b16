//! Text boxes: positioned glyph runs with a derived bounding box, and the
//! shading pass that composites rasterized glyph coverage onto the frame
//! buffer.

use vstd::prelude::*;

use crate::error::DrawError;
use crate::paint::{outcome_result, pixel_in_bounds, pixel_write_step};
use crate::renderer::Renderer;
use crate::{LogicalPosition, LogicalSize};

verus! {

/// A coverage intensity turned into a 0-100 percentage, truncating.
pub open spec fn shade_percent(coverage: u8) -> int {
    (coverage * 100) / 255
}

/// One color channel scaled by a coverage percentage, truncating, and
/// capped at a full byte.
pub open spec fn shaded_channel(channel: u8, shade: int) -> u8 {
    let scaled = (channel * shade) / 100;
    if scaled > 255 {
        255u8
    } else {
        scaled as u8
    }
}

/// The requested color scaled by a coverage percentage: the three color
/// channels are shaded, the alpha channel is passed through.
pub open spec fn shaded_color(color: Seq<u8>, shade: int) -> Seq<u8> {
    seq![
        shaded_channel(color[0], shade),
        shaded_channel(color[1], shade),
        shaded_channel(color[2], shade),
        color[3],
    ]
}

/// The buffer row a glyph's top edge is placed on: glyphs hang from the
/// bottom edge of their text box upward, clamped at row zero.
pub open spec fn glyph_row(glyph: Glyph, box_bottom: int) -> int {
    let offset = box_bottom - (glyph.ymin + glyph.height);
    if offset > 0 {
        offset
    } else {
        0
    }
}

/// The linear pixel index of the `cell`-th coverage cell of a glyph,
/// row-major.
pub open spec fn glyph_cell_index(glyph: Glyph, box_bottom: int, buf_width: int, cell: int)
    -> int {
    glyph.x + glyph_row(glyph, box_bottom) * buf_width + cell % (glyph.width as int) + (cell
        / (glyph.width as int)) * buf_width
}

/// The coverage cells of one glyph painted in order from `cell` on:
/// zero-coverage cells are never written, every other cell blends the
/// shaded color; the walk stops at the first failing write.
pub open spec fn paint_glyph_from(
    bytes: Seq<u8>,
    glyph: Glyph,
    box_bottom: int,
    buf_width: int,
    color: Seq<u8>,
    cell: int,
) -> (Seq<u8>, bool)
    decreases glyph.width * glyph.height - cell,
{
    if cell < 0 || cell >= glyph.width * glyph.height {
        (bytes, true)
    } else {
        let shade = shade_percent(glyph.coverage@[cell]);
        if shade == 0 {
            paint_glyph_from(bytes, glyph, box_bottom, buf_width, color, cell + 1)
        } else {
            let step = pixel_write_step(
                bytes,
                glyph_cell_index(glyph, box_bottom, buf_width, cell),
                shaded_color(color, shade),
            );
            if !step.1 {
                (step.0, false)
            } else {
                paint_glyph_from(step.0, glyph, box_bottom, buf_width, color, cell + 1)
            }
        }
    }
}

/// A glyph run rendered in order: a non-ASCII character stops the pass
/// before any of its cells, a failing write stops it with the cells
/// already painted kept.
pub open spec fn render_glyphs_from(
    bytes: Seq<u8>,
    glyphs: Seq<Glyph>,
    box_bottom: int,
    buf_width: int,
    color: Seq<u8>,
) -> (Seq<u8>, Option<DrawError>)
    decreases glyphs.len(),
{
    if glyphs.len() == 0 {
        (bytes, None)
    } else {
        let glyph = glyphs[0];
        if glyph.parent as u32 >= 128 {
            (bytes, Some(DrawError::UnsupportedGlyph))
        } else {
            let painted = paint_glyph_from(bytes, glyph, box_bottom, buf_width, color, 0);
            if !painted.1 {
                (painted.0, Some(DrawError::OutOfBounds))
            } else {
                render_glyphs_from(painted.0, glyphs.drop_first(), box_bottom, buf_width, color)
            }
        }
    }
}

/// One laid-out character of a glyph run: its placement and advance
/// metrics, and the coverage bitmap its font rasterized for it, one 0-255
/// intensity per cell, row-major.
#[derive(Debug, Clone)]
pub struct Glyph {
    /// The character this glyph was shaped from.
    pub parent: char,
    /// The left edge of the glyph, in logical buffer coordinates.
    pub x: u32,
    /// The top edge the layout assigned to the glyph.
    pub y: u32,
    /// The width of the coverage bitmap.
    pub width: u32,
    /// The height of the coverage bitmap.
    pub height: u32,
    /// The vertical origin offset of the rasterized glyph: how far the
    /// glyph's lowest edge sits from the baseline.
    pub ymin: i32,
    /// The pixel size the glyph was shaped at.
    pub pixel_size: u32,
    /// The index of the font the glyph was shaped with.
    pub font_index: usize,
    /// The rasterized coverage, `width * height` intensities.
    pub coverage: Vec<u8>,
}

impl Glyph {
    /// The coverage bitmap holds exactly one intensity per cell.
    pub open spec fn wf(self) -> bool {
        self.coverage@.len() == self.width * self.height
    }
}

/// The greatest glyph height in a run; zero for an empty run.
pub open spec fn max_glyph_height(glyphs: Seq<Glyph>) -> int
    decreases glyphs.len(),
{
    if glyphs.len() == 0 {
        0
    } else {
        let rest = max_glyph_height(glyphs.drop_last());
        if glyphs.last().height > rest {
            glyphs.last().height as int
        } else {
            rest
        }
    }
}

/// The bounding box of a glyph run anchored at `position`: the width runs
/// from the anchor to the right edge of the last glyph, the height is the
/// greatest glyph height. An empty run has a zero-sized box.
pub open spec fn spec_dimensions(glyphs: Seq<Glyph>, position: LogicalPosition<u32>)
    -> LogicalSize<u32> {
    if glyphs.len() == 0 {
        LogicalSize { width: 0u32, height: 0u32 }
    } else {
        LogicalSize {
            width: (glyphs.last().x + glyphs.last().width - position.x) as u32,
            height: max_glyph_height(glyphs) as u32,
        }
    }
}

/// An empty glyph run has a zero-sized bounding box.
pub proof fn lemma_empty_run_zero_box(position: LogicalPosition<u32>)
    ensures
        spec_dimensions(Seq::empty(), position) == (LogicalSize { width: 0u32, height: 0u32 }),
{
}

/// Whether a run's bounding box is computable without wrapping: the right
/// edge of the last glyph does not overflow and does not lie left of the
/// anchor.
pub open spec fn dimensions_computable(glyphs: Seq<Glyph>, position: LogicalPosition<u32>)
    -> bool {
    glyphs.len() > 0 ==> position.x <= glyphs.last().x + glyphs.last().width <= u32::MAX
}

/// The lowest pixel row metric of a run: the least `y + height` over its
/// glyphs; zero for an empty run.
pub open spec fn spec_lowest_pixel(glyphs: Seq<Glyph>) -> int
    decreases glyphs.len(),
{
    if glyphs.len() == 0 {
        0
    } else if glyphs.len() == 1 {
        glyphs[0].y + glyphs[0].height
    } else {
        let rest = spec_lowest_pixel(glyphs.drop_last());
        let last = glyphs.last().y + glyphs.last().height;
        if last < rest {
            last
        } else {
            rest
        }
    }
}

/// A glyph run with its anchor and its derived bounding box.
///
/// The box is never set independently: it is recomputed whenever the run
/// changes, so it always reflects the current glyphs.
#[derive(Debug, Clone)]
pub struct TextBox {
    pub glyphs: Vec<Glyph>,
    pub position: LogicalPosition<u32>,
    pub dimensions: LogicalSize<u32>,
    pub text: String,
}

impl TextBox {
    /// The invariants of a text box: the box reflects the current run, the
    /// stored text matches the shaped characters, and every coverage
    /// bitmap matches its glyph's metrics.
    pub open spec fn wf(self) -> bool {
        &&& self.dimensions == spec_dimensions(self.glyphs@, self.position)
        &&& self.text@ == self.glyphs@.map_values(|g: Glyph| g.parent)
        &&& forall|i: int| 0 <= i < self.glyphs@.len() ==> (#[trigger] self.glyphs@[i]).wf()
    }

    /// Computes the bounding box of a glyph run anchored at `position`:
    /// width from the anchor to the right edge of the last glyph, height
    /// the largest glyph height; a zero-sized box for an empty run.
    pub fn calculate_dimensions(glyphs: &Vec<Glyph>, position: &LogicalPosition<u32>) -> (result:
        LogicalSize<u32>)
        requires
            dimensions_computable(glyphs@, *position),
        ensures
            result == spec_dimensions(glyphs@, *position),
    {
        let glyph_count = glyphs.len();
        if glyph_count == 0 {
            return LogicalSize { width: 0, height: 0 };
        }
        let mut largest_height: u32 = 0;
        let mut iteration: usize = 0;
        while iteration < glyph_count
            invariant
                iteration <= glyph_count,
                glyph_count == glyphs@.len(),
                largest_height == max_glyph_height(glyphs@.take(iteration as int)),
            decreases glyph_count - iteration,
        {
            proof {
                assert(glyphs@.take(iteration as int + 1).drop_last() =~= glyphs@.take(
                    iteration as int,
                ));
                assert(glyphs@.take(iteration as int + 1).last() == glyphs@[iteration as int]);
            }
            let glyph_height = glyphs[iteration].height;
            if glyph_height > largest_height {
                largest_height = glyph_height;
            }
            iteration = iteration + 1;
        }
        proof {
            assert(glyphs@.take(glyph_count as int) =~= glyphs@);
        }
        let last = glyph_count - 1;
        let farthest_right = glyphs[last].x + glyphs[last].width;
        LogicalSize { width: farthest_right - position.x, height: largest_height }
    }

    /// Builds a text box from a shaped glyph run and its anchor, deriving
    /// the bounding box from the run.
    pub fn new(text: &str, glyphs: Vec<Glyph>, position: &LogicalPosition<u32>) -> (result: Self)
        requires
            text@ == glyphs@.map_values(|g: Glyph| g.parent),
            dimensions_computable(glyphs@, *position),
            forall|i: int| 0 <= i < glyphs@.len() ==> (#[trigger] glyphs@[i]).wf(),
        ensures
            result.wf(),
            result.glyphs@ == glyphs@,
            result.position == *position,
            result.text@ == text@,
    {
        let dimensions = Self::calculate_dimensions(&glyphs, position);
        Self { glyphs, position: *position, dimensions, text: text.to_owned() }
    }

    /// Replaces the text of this box with a newly shaped run, recomputing
    /// the bounding box.
    pub fn update_text(&mut self, text: &str, glyphs: Vec<Glyph>, position: &LogicalPosition<
        u32,
    >)
        requires
            text@ == glyphs@.map_values(|g: Glyph| g.parent),
            dimensions_computable(glyphs@, *position),
            forall|i: int| 0 <= i < glyphs@.len() ==> (#[trigger] glyphs@[i]).wf(),
        ensures
            final(self).wf(),
            final(self).glyphs@ == glyphs@,
            final(self).position == *position,
            final(self).text@ == text@,
    {
        self.dimensions = Self::calculate_dimensions(&glyphs, position);
        self.glyphs = glyphs;
        self.position = *position;
        self.text = text.to_owned();
    }

    /// The font index of the text in this box, or nothing when the box is
    /// empty.
    pub fn font_index(&self) -> (result: Option<usize>)
        ensures
            match result {
                Some(index) => self.glyphs@.len() > 0 && index == self.glyphs@[0].font_index,
                None => self.glyphs@.len() == 0,
            },
    {
        if self.glyphs.len() == 0 {
            return None;
        }
        Some(self.glyphs[0].font_index)
    }

    /// The stored top-left anchor of this text box.
    pub fn position(&self) -> (result: LogicalPosition<u32>)
        ensures
            result == self.position,
    {
        self.position
    }

    /// The text contained in this box.
    pub fn text(&self) -> (result: &str)
        ensures
            result@ == self.text@,
    {
        self.text.as_str()
    }

    /// The pixel size of the text in this box, or nothing when the box is
    /// empty.
    pub fn px(&self) -> (result: Option<u32>)
        ensures
            match result {
                Some(size) => self.glyphs@.len() > 0 && size == self.glyphs@[0].pixel_size,
                None => self.glyphs@.len() == 0,
            },
    {
        if self.glyphs.len() == 0 {
            return None;
        }
        Some(self.glyphs[0].pixel_size)
    }

    /// The shaped glyphs of this box.
    pub fn glyphs(&self) -> (result: &Vec<Glyph>)
        ensures
            result@ == self.glyphs@,
    {
        &self.glyphs
    }

    /// The height of the bounding box.
    pub fn height(&self) -> (result: u32)
        ensures
            result == self.dimensions.height,
    {
        self.dimensions.height
    }

    /// The bounding box of this text box.
    pub fn dimensions(&self) -> (result: &LogicalSize<u32>)
        ensures
            *result == self.dimensions,
    {
        &self.dimensions
    }

    /// The least `y + height` over the glyphs of this box: the row a list
    /// layout continues below. Nothing for an empty box.
    pub fn lowest_pixel(&self) -> (result: Option<u32>)
        requires
            forall|i: int|
                0 <= i < self.glyphs@.len() ==> (#[trigger] self.glyphs@[i]).y
                    + self.glyphs@[i].height <= u32::MAX,
        ensures
            match result {
                None => self.glyphs@.len() == 0,
                Some(lowest) => self.glyphs@.len() > 0 && lowest == spec_lowest_pixel(
                    self.glyphs@,
                ),
            },
    {
        let count = self.glyphs.len();
        if count == 0 {
            return None;
        }
        let mut lowest: u32 = self.glyphs[0].y + self.glyphs[0].height;
        let mut i: usize = 1;
        proof {
            assert(self.glyphs@.take(1).len() == 1);
            assert(self.glyphs@.take(1)[0] == self.glyphs@[0]);
        }
        while i < count
            invariant
                1 <= i <= count,
                count == self.glyphs@.len(),
                forall|j: int|
                    0 <= j < count ==> (#[trigger] self.glyphs@[j]).y + self.glyphs@[j].height
                        <= u32::MAX,
                lowest == spec_lowest_pixel(self.glyphs@.take(i as int)),
            decreases count - i,
        {
            proof {
                assert(self.glyphs@.take(i as int + 1).drop_last() =~= self.glyphs@.take(
                    i as int,
                ));
                assert(self.glyphs@.take(i as int + 1).last() == self.glyphs@[i as int]);
            }
            let candidate = self.glyphs[i].y + self.glyphs[i].height;
            if candidate < lowest {
                lowest = candidate;
            }
            i = i + 1;
        }
        proof {
            assert(self.glyphs@.take(count as int) =~= self.glyphs@);
        }
        Some(lowest)
    }

    /// Renders the text of this box onto the frame buffer.
    ///
    /// Each glyph's coverage is shaded into the requested color and
    /// blended cell by cell; glyphs are anchored from the bottom edge of
    /// the box upward. A non-ASCII character is a reported error, as is
    /// the first cell that falls outside the buffer.
    #[verifier::loop_isolation(false)]
    pub fn render(&self, renderer: &mut Renderer, color: &[u8; 4]) -> (result: Result<
        (),
        DrawError,
    >)
        requires
            self.wf(),
        ensures
            final(renderer).buffer@ == render_glyphs_from(
                old(renderer).buffer@,
                self.glyphs@,
                self.position.y + self.dimensions.height,
                old(renderer).buffer_dimensions.width as int,
                color@,
            ).0,
            result == outcome_result(
                render_glyphs_from(
                    old(renderer).buffer@,
                    self.glyphs@,
                    self.position.y + self.dimensions.height,
                    old(renderer).buffer_dimensions.width as int,
                    color@,
                ).1,
            ),
            final(renderer).buffer_dimensions == old(renderer).buffer_dimensions,
    {
        let box_bottom: u64 = self.position.y as u64 + self.dimensions.height as u64;
        let glyph_count = self.glyphs.len();
        let ghost pre = renderer.buffer@;
        let ghost bb = box_bottom as int;
        let ghost bw = renderer.buffer_dimensions.width as int;
        let mut g: usize = 0;
        proof {
            assert(self.glyphs@.skip(0) =~= self.glyphs@);
        }
        while g < glyph_count
            invariant
                g <= glyph_count,
                renderer.buffer_dimensions == old(renderer).buffer_dimensions,
                render_glyphs_from(pre, self.glyphs@, bb, bw, color@) == render_glyphs_from(
                    renderer.buffer@,
                    self.glyphs@.skip(g as int),
                    bb,
                    bw,
                    color@,
                ),
            decreases glyph_count - g,
        {
            let glyph = &self.glyphs[g];
            proof {
                assert(self.glyphs@.skip(g as int)[0] == self.glyphs@[g as int]);
                assert(self.glyphs@.skip(g as int).drop_first() =~= self.glyphs@.skip(
                    g as int + 1,
                ));
            }
            if glyph.parent as u32 >= 128 {
                return Err(DrawError::UnsupportedGlyph);
            }
            let paint_result = Self::render_glyph(renderer, glyph, box_bottom, color);
            if paint_result.is_err() {
                return Err(DrawError::OutOfBounds);
            }
            g = g + 1;
        }
        proof {
            assert(self.glyphs@.skip(glyph_count as int) =~= Seq::<Glyph>::empty());
        }
        Ok(())
    }

    /// Paints the coverage cells of one glyph, shading the requested color
    /// by each cell's coverage and blending it into the buffer.
    #[verifier::loop_isolation(false)]
    #[verifier::rlimit(100)]
    fn render_glyph(
        renderer: &mut Renderer,
        glyph: &Glyph,
        box_bottom: u64,
        color: &[u8; 4],
    ) -> (result: Result<(), DrawError>)
        requires
            glyph.wf(),
            box_bottom <= 0x2_0000_0000u64,
        ensures
            final(renderer).buffer@ == paint_glyph_from(
                old(renderer).buffer@,
                *glyph,
                box_bottom as int,
                old(renderer).buffer_dimensions.width as int,
                color@,
                0,
            ).0,
            result is Ok <==> paint_glyph_from(
                old(renderer).buffer@,
                *glyph,
                box_bottom as int,
                old(renderer).buffer_dimensions.width as int,
                color@,
                0,
            ).1,
            result is Err ==> result == Err::<(), DrawError>(DrawError::OutOfBounds),
            final(renderer).buffer_dimensions == old(renderer).buffer_dimensions,
    {
        let buffer_width = renderer.buffer_dimensions.width;
        let ghost entry = renderer.buffer@;
        let ghost bb = box_bottom as int;
        let ghost bw = buffer_width as int;
        let row_signed: i64 = box_bottom as i64 - (glyph.ymin as i64 + glyph.height as i64);
        let row: u64 = if row_signed > 0 {
            row_signed as u64
        } else {
            0
        };
        proof {
            assert(row == glyph_row(*glyph, bb));
            assert(glyph.width as int * glyph.height as int <= 0xFFFF_FFFFu64
                * 0xFFFF_FFFFu64) by (nonlinear_arith)
                requires
                    0 <= glyph.width <= 0xFFFF_FFFFu64,
                    0 <= glyph.height <= 0xFFFF_FFFFu64,
            ;
        }
        let glyph_width = glyph.width as u64;
        let cell_count: u64 = glyph_width * glyph.height as u64;
        let coverage_length = glyph.coverage.len();
        let mut cell: u64 = 0;
        while cell < cell_count
            invariant
                cell <= cell_count,
                coverage_length == glyph.coverage@.len(),
                cell_count == coverage_length,
                renderer.buffer_dimensions == old(renderer).buffer_dimensions,
                paint_glyph_from(entry, *glyph, bb, bw, color@, 0) == paint_glyph_from(
                    renderer.buffer@,
                    *glyph,
                    bb,
                    bw,
                    color@,
                    cell as int,
                ),
            decreases cell_count - cell,
        {
            let ghost before = renderer.buffer@;
            proof {
                assert(cell < coverage_length);
            }
            let coverage_value = glyph.coverage[cell as usize];
            proof {
                assert(coverage_value == glyph.coverage@[cell as int]);
            }
            let shade: u16 = (coverage_value as u16 * 100) / 255;
            if shade == 0 {
                proof {
                    assert(shade_percent(glyph.coverage@[cell as int]) == 0);
                    assert(paint_glyph_from(before, *glyph, bb, bw, color@, cell as int)
                        == paint_glyph_from(before, *glyph, bb, bw, color@, cell as int + 1));
                }
            } else {
                proof {
                    assert(glyph_width > 0) by (nonlinear_arith)
                        requires
                            cell_count == glyph_width * (glyph.height as u64),
                            cell_count > 0,
                    ;
                    assert((cell / glyph_width) as i128 * (buffer_width as i128)
                        <= 0xFFFF_FFFF_FFFF_FFFFi128 * 0xFFFF_FFFFi128) by (nonlinear_arith)
                        requires
                            0 <= (cell / glyph_width) as i128 <= 0xFFFF_FFFF_FFFF_FFFFi128,
                            0 <= buffer_width as i128 <= 0xFFFF_FFFFi128,
                    ;
                    assert((row as i128) * (buffer_width as i128)
                        <= 0xFFFF_FFFF_FFFF_FFFFi128 * 0xFFFF_FFFFi128) by (nonlinear_arith)
                        requires
                            0 <= row as i128 <= 0xFFFF_FFFF_FFFF_FFFFi128,
                            0 <= buffer_width as i128 <= 0xFFFF_FFFFi128,
                    ;
                }
                let cell_index: i128 = glyph.x as i128 + (row as i128) * (buffer_width
                    as i128) + (cell % glyph_width) as i128 + (cell / glyph_width) as i128
                    * (buffer_width as i128);
                let shaded_rgba: [u8; 4] = [
                    Self::scale_channel(color[0], shade),
                    Self::scale_channel(color[1], shade),
                    Self::scale_channel(color[2], shade),
                    color[3],
                ];
                proof {
                    assert(cell_index == glyph_cell_index(*glyph, bb, bw, cell as int));
                    assert(shaded_rgba@ =~= shaded_color(color@, shade as int));
                }
                if shaded_rgba[3] == 0 {
                    proof {
                        assert(pixel_write_step(
                            before,
                            glyph_cell_index(*glyph, bb, bw, cell as int),
                            shaded_color(color@, shade as int),
                        ) == (before, true));
                        assert(paint_glyph_from(before, *glyph, bb, bw, color@, cell as int)
                            == paint_glyph_from(
                            before,
                            *glyph,
                            bb,
                            bw,
                            color@,
                            cell as int + 1,
                        ));
                    }
                } else if cell_index < (renderer.buffer.len() / 4) as i128 {
                    proof {
                        assert(pixel_in_bounds(renderer.buffer@, cell_index as int));
                    }
                    let write_result = Renderer::draw_at_pixel_with_rgba(
                        &mut renderer.buffer,
                        cell_index as usize,
                        &shaded_rgba,
                    );
                    proof {
                        assert(write_result is Ok);
                        assert(paint_glyph_from(before, *glyph, bb, bw, color@, cell as int)
                            == paint_glyph_from(
                            renderer.buffer@,
                            *glyph,
                            bb,
                            bw,
                            color@,
                            cell as int + 1,
                        ));
                    }
                } else {
                    proof {
                        assert(!pixel_in_bounds(renderer.buffer@, cell_index as int));
                        assert(paint_glyph_from(
                            renderer.buffer@,
                            *glyph,
                            bb,
                            bw,
                            color@,
                            cell as int,
                        ) == (renderer.buffer@, false));
                    }
                    return Err(DrawError::OutOfBounds);
                }
            }
            cell = cell + 1;
        }
        Ok(())
    }

    /// One color channel scaled by a coverage percentage, truncating, and
    /// capped at a full byte.
    fn scale_channel(channel: u8, shade: u16) -> (result: u8)
        requires
            shade <= 100,
        ensures
            result == shaded_channel(channel, shade as int),
    {
        proof {
            assert(channel as int * shade as int <= 255 * 100) by (nonlinear_arith)
                requires
                    0 <= channel <= 255,
                    0 <= shade <= 100,
            ;
        }
        let scaled: u16 = (channel as u16 * shade) / 100;
        if scaled > 255 {
            255
        } else {
            scaled as u8
        }
    }
}

} // verus!
