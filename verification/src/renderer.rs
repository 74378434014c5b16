//! The compositor: primitive pixel, rectangle, line and arrow drawing with
//! alpha blending over a raw RGBA byte buffer.

use vstd::prelude::*;

use crate::error::DrawError;
use crate::paint::{
    arrow_semantics, blend_channel, bounding_rectangle_semantics, bresenham_points,
    line_point_step, line_points, line_semantics, outcome_result, paint_cells, paint_line,
    pixel_in_bounds, pixel_write_step, written_rgba,
};
use crate::images::DecodedImage;
use crate::LogicalSize;

verus! {

/// Owns the frame buffer: a flat byte array in which every chunk of four
/// bytes is one pixel (three color channels and an alpha channel), addressed
/// row-major by `row * width + column`.
pub struct Renderer {
    pub buffer: Vec<u8>,
    pub buffer_dimensions: LogicalSize<u32>,
}

impl Renderer {
    /// Creates a renderer over the given frame bytes.
    ///
    /// Fails when the byte count does not match the declared dimensions.
    pub fn new(buffer: Vec<u8>, buffer_dimensions: LogicalSize<u32>) -> (result: Result<
        Self,
        DrawError,
    >)
        ensures
            match result {
                Ok(r) => {
                    &&& buffer@.len() / 4 == buffer_dimensions.width as int
                        * buffer_dimensions.height as int
                    &&& r.buffer@ == buffer@
                    &&& r.buffer_dimensions == buffer_dimensions
                },
                Err(e) => {
                    &&& e == DrawError::OutOfBounds
                    &&& buffer@.len() / 4 != buffer_dimensions.width as int
                        * buffer_dimensions.height as int
                },
            },
    {
        let pixel_count = buffer.len() / 4;
        proof {
            assert((buffer_dimensions.width as int) * (buffer_dimensions.height as int)
                <= 0xFFFF_FFFFu64 * 0xFFFF_FFFFu64) by (nonlinear_arith);
        }
        let expected = (buffer_dimensions.width as u64) * (buffer_dimensions.height as u64);
        if pixel_count as u64 != expected {
            return Err(DrawError::OutOfBounds);
        }
        Ok(Self { buffer, buffer_dimensions })
    }

    /// Returns a reference to the frame buffer.
    pub fn frame(&self) -> (r: &Vec<u8>)
        ensures
            r@ == self.buffer@,
    {
        &self.buffer
    }

    /// Returns a mutable reference to the frame buffer.
    pub fn frame_mut(&mut self) -> (r: &mut Vec<u8>)
        ensures
            r@ == old(self).buffer@,
            final(self).buffer@ == final(r)@,
            final(self).buffer_dimensions == old(self).buffer_dimensions,
    {
        &mut self.buffer
    }

    /// Replaces every pixel in the buffer with the given color.
    ///
    /// The three color channels are written in reversed order and every
    /// alpha byte is set to fully opaque.
    pub fn set_color(&mut self, rgb: [u8; 3]) -> (result: Result<(), DrawError>)
        ensures
            result is Ok,
            final(self).buffer@ =~= Seq::new(
                old(self).buffer@.len(),
                |i: int|
                    if i % 4 == 3 {
                        255u8
                    } else {
                        rgb@[2 - i % 4]
                    },
            ),
            final(self).buffer_dimensions == old(self).buffer_dimensions,
    {
        let length = self.buffer.len();
        let mut position: usize = 0;
        while position < length
            invariant
                position <= length,
                self.buffer@.len() == length,
                self.buffer_dimensions == old(self).buffer_dimensions,
                forall|i: int|
                    0 <= i < position ==> self.buffer@[i] == (if i % 4 == 3 {
                        255u8
                    } else {
                        rgb@[2 - i % 4]
                    }),
            decreases length - position,
        {
            let byte = match position % 4 {
                3 => 255,
                n => rgb[2 - n],
            };
            self.buffer.set(position, byte);
            position = position + 1;
        }
        Ok(())
    }

    /// Resets the buffer to opaque black: every color channel zero, every
    /// alpha byte fully opaque.
    pub fn clear(&mut self) -> (result: Result<(), DrawError>)
        ensures
            result is Ok,
            final(self).buffer@ =~= Seq::new(
                old(self).buffer@.len(),
                |i: int|
                    if i % 4 == 3 {
                        255u8
                    } else {
                        0u8
                    },
            ),
            final(self).buffer_dimensions == old(self).buffer_dimensions,
    {
        let length = self.buffer.len();
        let mut position: usize = 0;
        while position < length
            invariant
                position <= length,
                self.buffer@.len() == length,
                self.buffer_dimensions == old(self).buffer_dimensions,
                forall|i: int|
                    0 <= i < position ==> self.buffer@[i] == (if i % 4 == 3 {
                        255u8
                    } else {
                        0u8
                    }),
            decreases length - position,
        {
            let byte: u8 = if position % 4 == 3 {
                255
            } else {
                0
            };
            self.buffer.set(position, byte);
            position = position + 1;
        }
        Ok(())
    }

    /// The cells visited by [`Renderer::apply_color`]: every whole pixel of
    /// the buffer in order, each written with the same color.
    pub open spec fn apply_color_cells(bytes: Seq<u8>, rgba: Seq<u8>) -> Seq<(int, Seq<u8>)> {
        Seq::new((bytes.len() / 4) as nat, |k: int| (k, rgba))
    }

    /// Blends the color with the given alpha onto every pixel of the
    /// buffer. Every pixel is in bounds, so the pass always succeeds.
    pub fn apply_color(&mut self, rgba: [u8; 4]) -> (result: Result<(), DrawError>)
        ensures
            result is Ok,
            final(self).buffer@ == paint_cells(
                old(self).buffer@,
                Self::apply_color_cells(old(self).buffer@, rgba@),
            ).0,
            final(self).buffer_dimensions == old(self).buffer_dimensions,
    {
        let ghost pre = self.buffer@;
        let ghost cells = Self::apply_color_cells(pre, rgba@);
        let pixel_count = self.buffer.len() / 4;
        let mut index: usize = 0;
        proof {
            assert(cells.skip(0) =~= cells);
        }
        while index < pixel_count
            invariant
                index <= pixel_count,
                pixel_count == pre.len() / 4,
                self.buffer@.len() == pre.len(),
                self.buffer_dimensions == old(self).buffer_dimensions,
                cells == Self::apply_color_cells(pre, rgba@),
                paint_cells(pre, cells) == paint_cells(self.buffer@, cells.skip(index as int)),
            decreases pixel_count - index,
        {
            let ghost before = self.buffer@;
            let write_result = Self::draw_at_pixel_with_rgba(&mut self.buffer, index, &rgba);
            proof {
                assert(cells.skip(index as int)[0] == cells[index as int]);
                assert(pixel_write_step(before, index as int, rgba@).1);
                assert(write_result is Ok);
                assert(cells.skip(index as int).drop_first() =~= cells.skip(index as int + 1));
            }
            index = index + 1;
        }
        proof {
            assert(cells.skip(pixel_count as int) =~= Seq::<(int, Seq<u8>)>::empty());
        }
        Ok(())
    }

    /// The linear pixel index of the `cell`-th cell, row-major, of a
    /// rectangle of the given width placed with its top-left corner at the
    /// given linear index.
    pub open spec fn rectangle_cell_index(
        top_left: int,
        rectangle_width: int,
        buffer_width: int,
        cell: int,
    ) -> int {
        top_left + cell % rectangle_width + (cell / rectangle_width) * buffer_width
    }

    /// The cells visited by [`Renderer::filled_rectangle`], row-major.
    pub open spec fn rectangle_cells(
        top_left: int,
        dimensions: LogicalSize<u32>,
        buffer_width: int,
        rgba: Seq<u8>,
    ) -> Seq<(int, Seq<u8>)> {
        Seq::new(
            (dimensions.width * dimensions.height) as nat,
            |k: int|
                (
                    Self::rectangle_cell_index(
                        top_left,
                        dimensions.width as int,
                        buffer_width,
                        k,
                    ),
                    rgba,
                ),
        )
    }

    /// Fills a width-by-height block of pixels row-major, blending the
    /// color into each cell.
    ///
    /// There is no clipping: the fill stops with an error at the first cell
    /// whose 4-byte span exceeds the buffer, leaving the cells already
    /// visited painted.
    pub fn filled_rectangle(
        &mut self,
        position: &crate::LogicalPosition<u32>,
        dimensions: &LogicalSize<u32>,
        color: [u8; 4],
    ) -> (result: Result<(), DrawError>)
        ensures
            ({
                let cells = Self::rectangle_cells(
                    position.x + position.y * old(self).buffer_dimensions.width,
                    *dimensions,
                    old(self).buffer_dimensions.width as int,
                    color@,
                );
                &&& final(self).buffer@ == paint_cells(old(self).buffer@, cells).0
                &&& (result is Ok <==> paint_cells(old(self).buffer@, cells).1)
            }),
            result is Err ==> result == Err::<(), DrawError>(DrawError::OutOfBounds),
            final(self).buffer_dimensions == old(self).buffer_dimensions,
    {
        let rectangle_width = dimensions.width as u64;
        let rectangle_height = dimensions.height as u64;
        let buffer_width = self.buffer_dimensions.width;
        proof {
            assert(position.y as int * buffer_width as int <= 0xFFFF_FFFFu64
                * 0xFFFF_FFFFu64) by (nonlinear_arith)
                requires
                    0 <= position.y <= 0xFFFF_FFFFu64,
                    0 <= buffer_width <= 0xFFFF_FFFFu64,
            ;
        }
        let top_left_placement: u64 = position.x as u64 + position.y as u64 * buffer_width
            as u64;
        let ghost pre = self.buffer@;
        let ghost cells = Self::rectangle_cells(
            top_left_placement as int,
            *dimensions,
            buffer_width as int,
            color@,
        );
        proof {
            assert(rectangle_width as int * rectangle_height as int <= 0xFFFF_FFFFu64
                * 0xFFFF_FFFFu64) by (nonlinear_arith)
                requires
                    0 <= rectangle_width <= 0xFFFF_FFFFu64,
                    0 <= rectangle_height <= 0xFFFF_FFFFu64,
            ;
        }
        let cell_count: u64 = rectangle_width * rectangle_height;
        let mut cell: u64 = 0;
        proof {
            assert(cells.skip(0) =~= cells);
        }
        while cell < cell_count
            invariant
                cell <= cell_count,
                cell_count == dimensions.width as int * dimensions.height as int,
                rectangle_width == dimensions.width,
                rectangle_height == dimensions.height,
                buffer_width == old(self).buffer_dimensions.width,
                top_left_placement == position.x + position.y * buffer_width,
                cells == Self::rectangle_cells(
                    top_left_placement as int,
                    *dimensions,
                    buffer_width as int,
                    color@,
                ),
                self.buffer_dimensions == old(self).buffer_dimensions,
                paint_cells(pre, cells) == paint_cells(self.buffer@, cells.skip(cell as int)),
                pre == old(self).buffer@,
            decreases cell_count - cell,
        {
            proof {
                assert((cell / rectangle_width) as i128 * (buffer_width as i128)
                    <= 0xFFFF_FFFF_FFFF_FFFFi128 * 0xFFFF_FFFFi128) by (nonlinear_arith)
                    requires
                        0 <= (cell / rectangle_width) as i128 <= 0xFFFF_FFFF_FFFF_FFFFi128,
                        0 <= buffer_width as i128 <= 0xFFFF_FFFFi128,
                ;
            }
            let window_index: i128 = top_left_placement as i128 + (cell % rectangle_width)
                as i128 + (cell / rectangle_width) as i128 * buffer_width as i128;
            proof {
                assert(window_index == Self::rectangle_cell_index(
                    top_left_placement as int,
                    rectangle_width as int,
                    buffer_width as int,
                    cell as int,
                ));
                assert(cells.skip(cell as int)[0] == cells[cell as int]);
                assert(cells[cell as int].0 == window_index as int);
                assert(cells.skip(cell as int).drop_first() =~= cells.skip(cell as int + 1));
            }
            if color[3] == 0 {
            } else if window_index < (self.buffer.len() / 4) as i128 {
                proof {
                    assert(pixel_in_bounds(self.buffer@, window_index as int));
                }
                let write_result = Self::draw_at_pixel_with_rgba(
                    &mut self.buffer,
                    window_index as usize,
                    &color,
                );
                proof {
                    assert(write_result is Ok);
                }
            } else {
                proof {
                    assert(!pixel_in_bounds(self.buffer@, window_index as int));
                }
                return Err(DrawError::OutOfBounds);
            }
            cell = cell + 1;
        }
        proof {
            assert(cells.skip(cell_count as int) =~= Seq::<(int, Seq<u8>)>::empty());
        }
        Ok(())
    }

    /// Draws a line between the two points with Bresenham's algorithm,
    /// blending the color into every visited cell.
    ///
    /// By the coordinate policy of the line-drawing API, an endpoint with a
    /// zero coordinate is rejected as invalid geometry before any write.
    /// The coordinate bound keeps the index arithmetic of the line walk
    /// away from machine overflow.
    #[verifier::loop_isolation(false)]
    pub fn line(
        &mut self,
        point_one: (isize, isize),
        point_two: (isize, isize),
        color: &[u8; 4],
    ) -> (result: Result<(), DrawError>)
        requires
            -0x0FFF_FFFF <= point_one.0 <= 0x0FFF_FFFF,
            -0x0FFF_FFFF <= point_one.1 <= 0x0FFF_FFFF,
            -0x0FFF_FFFF <= point_two.0 <= 0x0FFF_FFFF,
            -0x0FFF_FFFF <= point_two.1 <= 0x0FFF_FFFF,
        ensures
            final(self).buffer@ == line_semantics(
                old(self).buffer@,
                point_one,
                point_two,
                old(self).buffer_dimensions.width as int,
                color@,
            ).0,
            result == outcome_result(
                line_semantics(
                    old(self).buffer@,
                    point_one,
                    point_two,
                    old(self).buffer_dimensions.width as int,
                    color@,
                ).1,
            ),
            final(self).buffer_dimensions == old(self).buffer_dimensions,
    {
        if point_one.0 == 0 || point_one.1 == 0 || point_two.0 == 0 || point_two.1 == 0 {
            return Err(DrawError::InvalidGeometry);
        }
        let buffer_width = self.buffer_dimensions.width;
        let points = bresenham_points(point_one, point_two);
        let ghost pre = self.buffer@;
        let ghost pts = line_points(point_one, point_two);
        let mut i: usize = 0;
        proof {
            assert(pts.skip(0) =~= pts);
        }
        while i < points.len()
            invariant
                i <= points@.len(),
                points@ == pts,
                buffer_width == old(self).buffer_dimensions.width,
                self.buffer_dimensions == old(self).buffer_dimensions,
                pre == old(self).buffer@,
                paint_line(pre, pts, buffer_width as int, color@) == paint_line(
                    self.buffer@,
                    pts.skip(i as int),
                    buffer_width as int,
                    color@,
                ),
            decreases points@.len() - i,
        {
            let p = points[i];
            proof {
                assert(-0x8000_0000_0000_0000i128 * 0x1_0000_0000i128 <= (p.1 as i128)
                    * (buffer_width as i128) <= 0x8000_0000_0000_0000i128
                    * 0x1_0000_0000i128) by (nonlinear_arith)
                    requires
                        -0x8000_0000_0000_0000i128 <= p.1 as i128 <= 0x8000_0000_0000_0000i128,
                        0 <= buffer_width as i128 <= 0x1_0000_0000i128,
                ;
                assert(pts.skip(i as int)[0] == pts[i as int]);
                assert(pts.skip(i as int).drop_first() =~= pts.skip(i as int + 1));
            }
            let index_wide: i128 = (p.0 as i128) + (p.1 as i128) * (buffer_width as i128);
            proof {
                assert(index_wide as int == p.0 + p.1 * (buffer_width as int));
            }
            if index_wide < 0 {
                proof {
                    assert(line_point_step(self.buffer@, pts[i as int], buffer_width as int,
                        color@) == (self.buffer@, false));
                    assert(paint_line(self.buffer@, pts.skip(i as int), buffer_width as int,
                        color@) == (self.buffer@, false));
                }
                return Err(DrawError::OutOfBounds);
            }
            if color[3] == 0 {
            } else if index_wide < (self.buffer.len() / 4) as i128 {
                proof {
                    assert(pixel_in_bounds(self.buffer@, index_wide as int));
                }
                let index = index_wide as usize;
                let write_result = Self::draw_at_pixel_with_rgba(&mut self.buffer, index, color);
                proof {
                    assert(write_result is Ok);
                }
            } else {
                proof {
                    assert(!pixel_in_bounds(self.buffer@, index_wide as int));
                }
                return Err(DrawError::OutOfBounds);
            }
            i = i + 1;
        }
        proof {
            assert(pts.skip(pts.len() as int) =~= Seq::<(isize, isize)>::empty());
        }
        Ok(())
    }

    /// Draws the outline of the rectangle spanned by the two corners, as
    /// four lines drawn in order, stopping at the first failing line.
    pub fn bounding_rectangle(
        &mut self,
        top_left: (isize, isize),
        bottom_right: (isize, isize),
        color: &[u8; 4],
    ) -> (result: Result<(), DrawError>)
        requires
            -0x0FFF_FFFE <= top_left.0 <= 0x0FFF_FFFE,
            -0x0FFF_FFFE <= top_left.1 <= 0x0FFF_FFFE,
            -0x0FFF_FFFE <= bottom_right.0 <= 0x0FFF_FFFE,
            -0x0FFF_FFFE <= bottom_right.1 <= 0x0FFF_FFFE,
        ensures
            final(self).buffer@ == bounding_rectangle_semantics(
                old(self).buffer@,
                top_left,
                bottom_right,
                old(self).buffer_dimensions.width as int,
                color@,
            ).0,
            result == outcome_result(
                bounding_rectangle_semantics(
                    old(self).buffer@,
                    top_left,
                    bottom_right,
                    old(self).buffer_dimensions.width as int,
                    color@,
                ).1,
            ),
            final(self).buffer_dimensions == old(self).buffer_dimensions,
    {
        let top_right = (bottom_right.0, top_left.1);
        let bottom_left = (top_left.0, bottom_right.1);
        if let Err(e) = self.line(top_left, (top_right.0 + 1, top_right.1), color) {
            return Err(e);
        }
        if let Err(e) = self.line(bottom_right, top_right, color) {
            return Err(e);
        }
        if let Err(e) = self.line(top_left, (bottom_left.0, bottom_left.1 + 1), color) {
            return Err(e);
        }
        if let Err(e) = self.line(bottom_right, bottom_left, color) {
            return Err(e);
        }
        Ok(())
    }

    /// Draws an arrow pointing left or right, its tip at the given
    /// position; the length sets both the shaft and the spread of the two
    /// wings.
    pub fn draw_arrow(
        &mut self,
        end_position: &crate::LogicalPosition<u32>,
        length: u32,
        point_right: bool,
        color: &[u8; 4],
    ) -> (result: Result<(), DrawError>)
        requires
            end_position.x <= 0x07FF_FFFF,
            end_position.y <= 0x07FF_FFFF,
            length <= 0x07FF_FFFF,
        ensures
            final(self).buffer@ == arrow_semantics(
                old(self).buffer@,
                end_position.x,
                end_position.y,
                length,
                point_right,
                old(self).buffer_dimensions.width as int,
                color@,
            ).0,
            result == outcome_result(
                arrow_semantics(
                    old(self).buffer@,
                    end_position.x,
                    end_position.y,
                    length,
                    point_right,
                    old(self).buffer_dimensions.width as int,
                    color@,
                ).1,
            ),
            final(self).buffer_dimensions == old(self).buffer_dimensions,
    {
        let end_x = end_position.x as isize;
        let end_y = end_position.y as isize;
        let length = length as isize;
        let half = length / 2;
        let arrow_back_x = if point_right {
            end_x - length
        } else {
            end_x + length
        };
        let wing_x = if point_right {
            end_x - half
        } else {
            end_x + half
        };
        let wing_y = end_y + half;
        if let Err(e) = self.line((end_x, end_y), (arrow_back_x, end_y), color) {
            return Err(e);
        }
        if let Err(e) = self.line((end_x, end_y), (wing_x, wing_y), color) {
            return Err(e);
        }
        if let Err(e) = self.line((end_x, end_y), (wing_x, wing_y - length), color) {
            return Err(e);
        }
        Ok(())
    }

    /// The cells visited by [`Renderer::render_image`], row-major over the
    /// image: the `k`-th cell lands at the rectangle cell index of the
    /// image-shaped block and carries the `k`-th 4-byte pixel of the image.
    pub open spec fn blit_cells(
        top_left: int,
        image_width: int,
        image_height: int,
        image_rgba: Seq<u8>,
        buffer_width: int,
    ) -> Seq<(int, Seq<u8>)> {
        Seq::new(
            (image_width * image_height) as nat,
            |k: int|
                (
                    Self::rectangle_cell_index(top_left, image_width, buffer_width, k),
                    image_rgba.subrange(4 * k, 4 * k + 4),
                ),
        )
    }

    /// Composites a decoded image onto the buffer with its top-left corner
    /// at the given offset, blending every image pixel into the
    /// corresponding buffer cell. There is no clipping: the blit stops with
    /// an error at the first cell whose 4-byte span exceeds the buffer.
    pub fn render_image(
        &mut self,
        offset: &crate::LogicalPosition<u32>,
        image: &DecodedImage,
    ) -> (result: Result<(), DrawError>)
        requires
            image.wf(),
        ensures
            ({
                let cells = Self::blit_cells(
                    offset.x + offset.y * old(self).buffer_dimensions.width,
                    image.width as int,
                    image.height as int,
                    image.rgba@,
                    old(self).buffer_dimensions.width as int,
                );
                &&& final(self).buffer@ == paint_cells(old(self).buffer@, cells).0
                &&& (result is Ok <==> paint_cells(old(self).buffer@, cells).1)
            }),
            result is Err ==> result == Err::<(), DrawError>(DrawError::OutOfBounds),
            final(self).buffer_dimensions == old(self).buffer_dimensions,
    {
        let image_width = image.width as u64;
        let image_height = image.height as u64;
        let buffer_width = self.buffer_dimensions.width;
        proof {
            assert(offset.y as int * buffer_width as int <= 0xFFFF_FFFFu64
                * 0xFFFF_FFFFu64) by (nonlinear_arith)
                requires
                    0 <= offset.y <= 0xFFFF_FFFFu64,
                    0 <= buffer_width <= 0xFFFF_FFFFu64,
            ;
            assert(image_width as int * image_height as int <= 0xFFFF_FFFFu64
                * 0xFFFF_FFFFu64) by (nonlinear_arith)
                requires
                    0 <= image_width <= 0xFFFF_FFFFu64,
                    0 <= image_height <= 0xFFFF_FFFFu64,
            ;
        }
        let top_left: u64 = offset.x as u64 + offset.y as u64 * buffer_width as u64;
        let ghost pre = self.buffer@;
        let ghost cells = Self::blit_cells(
            top_left as int,
            image_width as int,
            image_height as int,
            image.rgba@,
            buffer_width as int,
        );
        let cell_count: u64 = image_width * image_height;
        let image_byte_count = image.rgba.len();
        let mut cell: u64 = 0;
        proof {
            assert(cells.skip(0) =~= cells);
        }
        while cell < cell_count
            invariant
                cell <= cell_count,
                cell_count == image_width * image_height,
                image_width == image.width,
                image_height == image.height,
                image_byte_count == image.rgba@.len(),
                image.wf(),
                buffer_width == old(self).buffer_dimensions.width,
                top_left == offset.x + offset.y * buffer_width,
                cells == Self::blit_cells(
                    top_left as int,
                    image_width as int,
                    image_height as int,
                    image.rgba@,
                    buffer_width as int,
                ),
                self.buffer_dimensions == old(self).buffer_dimensions,
                paint_cells(pre, cells) == paint_cells(self.buffer@, cells.skip(cell as int)),
                pre == old(self).buffer@,
            decreases cell_count - cell,
        {
            proof {
                assert(4 * (cell as int) + 4 <= image.rgba@.len()) by (nonlinear_arith)
                    requires
                        0 <= cell < image_width * image_height,
                        image.rgba@.len() == 4 * image_width * image_height,
                ;
                assert(4 * (cell as int) + 4 <= image_byte_count);
                assert((cell / image_width) as i128 * (buffer_width as i128)
                    <= 0xFFFF_FFFF_FFFF_FFFFi128 * 0xFFFF_FFFFi128) by (nonlinear_arith)
                    requires
                        0 <= (cell / image_width) as i128 <= 0xFFFF_FFFF_FFFF_FFFFi128,
                        0 <= buffer_width as i128 <= 0xFFFF_FFFFi128,
                ;
            }
            let window_index: i128 = top_left as i128 + (cell % image_width) as i128 + (cell
                / image_width) as i128 * buffer_width as i128;
            let pixel_base = (cell as usize) * 4;
            let pixel_rgba: [u8; 4] = [
                image.rgba[pixel_base],
                image.rgba[pixel_base + 1],
                image.rgba[pixel_base + 2],
                image.rgba[pixel_base + 3],
            ];
            proof {
                assert(pixel_rgba@ =~= image.rgba@.subrange(
                    4 * (cell as int),
                    4 * (cell as int) + 4,
                ));
                assert(window_index == Self::rectangle_cell_index(
                    top_left as int,
                    image_width as int,
                    buffer_width as int,
                    cell as int,
                ));
                assert(cells.skip(cell as int)[0] == cells[cell as int]);
                assert(cells[cell as int].0 == window_index as int);
                assert(cells.skip(cell as int).drop_first() =~= cells.skip(cell as int + 1));
            }
            if pixel_rgba[3] == 0 {
            } else if window_index < (self.buffer.len() / 4) as i128 {
                proof {
                    assert(pixel_in_bounds(self.buffer@, window_index as int));
                }
                let write_result = Self::draw_at_pixel_with_rgba(
                    &mut self.buffer,
                    window_index as usize,
                    &pixel_rgba,
                );
                proof {
                    assert(write_result is Ok);
                }
            } else {
                proof {
                    assert(!pixel_in_bounds(self.buffer@, window_index as int));
                }
                return Err(DrawError::OutOfBounds);
            }
            cell = cell + 1;
        }
        proof {
            assert(cells.skip(cell_count as int) =~= Seq::<(int, Seq<u8>)>::empty());
        }
        Ok(())
    }

    /// Draws one pixel with alpha blending.
    ///
    /// A fully transparent color is a no-op before any bounds check. A fully
    /// opaque color overwrites the three color channels exactly. Any other
    /// alpha blends each channel by the retained-weight formula of
    /// [`blend_channel`]. The write fails, changing nothing, when the 4-byte
    /// span of the pixel exceeds the buffer.
    pub fn draw_at_pixel_with_rgba(
        pixel_buffer: &mut Vec<u8>,
        pixel_index: usize,
        rgba: &[u8; 4],
    ) -> (result: Result<(), DrawError>)
        ensures
            final(pixel_buffer)@ == pixel_write_step(
                old(pixel_buffer)@,
                pixel_index as int,
                rgba@,
            ).0,
            result is Ok <==> pixel_write_step(old(pixel_buffer)@, pixel_index as int, rgba@).1,
            result is Err ==> result == Err::<(), DrawError>(DrawError::OutOfBounds),
    {
        if rgba[3] == 0 {
            return Ok(());
        }
        if pixel_index >= pixel_buffer.len() / 4 {
            return Err(DrawError::OutOfBounds);
        }
        let base = pixel_index * 4;
        if rgba[3] == 255 {
            pixel_buffer.set(base, rgba[0]);
            pixel_buffer.set(base + 1, rgba[1]);
            pixel_buffer.set(base + 2, rgba[2]);
            return Ok(());
        }
        let alpha_percentage: u16 = 100 - (rgba[3] as u16 * 100) / 255;
        let mut channel: usize = 0;
        while channel < 3
            invariant
                channel <= 3,
                alpha_percentage == crate::paint::alpha_percent(rgba[3]),
                rgba[3] != 0,
                rgba[3] != 255,
                base == 4 * pixel_index,
                pixel_in_bounds(old(pixel_buffer)@, pixel_index as int),
                pixel_buffer@.len() == old(pixel_buffer)@.len(),
                forall|j: int|
                    0 <= j < pixel_buffer@.len() && !(4 * pixel_index <= j < 4 * pixel_index
                        + channel) ==> pixel_buffer@[j] == old(pixel_buffer)@[j],
                forall|j: int|
                    0 <= j < channel ==> pixel_buffer@[4 * pixel_index + j] == blend_channel(
                        rgba[3],
                        #[trigger] rgba@[j],
                        old(pixel_buffer)@[4 * pixel_index + j],
                    ),
            decreases 3 - channel,
        {
            let top_color = rgba[channel] as u16;
            let bottom_color = pixel_buffer[base + channel] as u16;
            proof {
                assert(alpha_percentage * top_color <= 100 * 255 && alpha_percentage
                    * bottom_color <= 100 * 255) by (nonlinear_arith)
                    requires
                        alpha_percentage <= 100,
                        top_color <= 255,
                        bottom_color <= 255,
                ;
            }
            let weighted_sum: u16 = (alpha_percentage * top_color) / 100 + (alpha_percentage
                * bottom_color) / 100;
            let blended = (weighted_sum % 256) as u8;
            proof {
                assert(bottom_color == old(pixel_buffer)@[4 * pixel_index + channel]);
                assert(blended == blend_channel(
                    rgba[3],
                    rgba@[channel as int],
                    old(pixel_buffer)@[4 * pixel_index + channel],
                ));
            }
            pixel_buffer.set(base + channel, blended);
            channel = channel + 1;
        }
        proof {
            assert(final(pixel_buffer)@ =~= written_rgba(
                old(pixel_buffer)@,
                pixel_index as int,
                rgba@,
            ));
        }
        Ok(())
    }

    /// Draws one pixel opaquely: the three color channels are overwritten,
    /// the alpha byte of the buffer stays untouched. Fails, changing
    /// nothing, when the 4-byte span of the pixel exceeds the buffer.
    pub fn draw_at_pixel_with_rgb(
        pixel_buffer: &mut Vec<u8>,
        pixel_index: usize,
        rgb: &[u8; 3],
    ) -> (result: Result<(), DrawError>)
        ensures
            pixel_in_bounds(old(pixel_buffer)@, pixel_index as int) ==> {
                &&& result is Ok
                &&& final(pixel_buffer)@ == old(pixel_buffer)@.update(
                    4 * pixel_index,
                    rgb@[0],
                ).update(4 * pixel_index + 1, rgb@[1]).update(4 * pixel_index + 2, rgb@[2])
            },
            !pixel_in_bounds(old(pixel_buffer)@, pixel_index as int) ==> {
                &&& result == Err::<(), DrawError>(DrawError::OutOfBounds)
                &&& final(pixel_buffer)@ == old(pixel_buffer)@
            },
    {
        if pixel_index >= pixel_buffer.len() / 4 {
            return Err(DrawError::OutOfBounds);
        }
        let base = pixel_index * 4;
        pixel_buffer.set(base, rgb[0]);
        pixel_buffer.set(base + 1, rgb[1]);
        pixel_buffer.set(base + 2, rgb[2]);
        Ok(())
    }
}

} // verus!
