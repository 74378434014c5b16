use rustris::error::DrawError;
use rustris::renderer::Renderer;
use rustris::text_boxes::{Glyph, TextBox};
use rustris::{LogicalPosition, LogicalSize};

fn glyph(parent: char, x: u32, y: u32, width: u32, height: u32, ymin: i32) -> Glyph {
    Glyph {
        parent,
        x,
        y,
        width,
        height,
        ymin,
        pixel_size: 20,
        font_index: 0,
        coverage: vec![255; (width * height) as usize],
    }
}

#[test]
fn dimensions_are_calculated_correctly() {
    // a run shaped like the six-glyph fixture: the last glyph's right edge
    // at 115, the tallest glyph 30 rows high
    let position = LogicalPosition { x: 0u32, y: 0u32 };
    let glyphs = vec![
        glyph('P', 1, 4, 12, 14, 0),
        glyph('a', 14, 8, 10, 10, 0),
        glyph('u', 26, 8, 10, 30, 0),
        glyph('s', 38, 8, 9, 10, 0),
        glyph('e', 48, 8, 10, 10, 0),
        glyph(':', 105, 8, 10, 14, 0),
    ];

    let expected_dimensions = LogicalSize { width: 115u32, height: 30u32 };

    let dimensions = TextBox::calculate_dimensions(&glyphs, &position);

    assert_eq!(dimensions, expected_dimensions);
}

#[test]
fn empty_glyph_run_has_zero_sized_box() {
    let position = LogicalPosition { x: 7u32, y: 9u32 };
    let dimensions = TextBox::calculate_dimensions(&Vec::new(), &position);
    assert_eq!(dimensions, LogicalSize { width: 0, height: 0 });

    let text_box = TextBox::new("", Vec::new(), &position);
    assert_eq!(*text_box.dimensions(), LogicalSize { width: 0, height: 0 });
    assert_eq!(text_box.font_index(), None);
    assert_eq!(text_box.px(), None);
}

#[test]
fn text_box_getters_reflect_the_run() {
    let position = LogicalPosition { x: 2u32, y: 3u32 };
    let glyphs = vec![glyph('h', 2, 3, 2, 4, 0), glyph('i', 5, 3, 1, 4, 0)];
    let text_box = TextBox::new("hi", glyphs, &position);

    assert_eq!(text_box.text(), "hi");
    assert_eq!(text_box.font_index(), Some(0));
    assert_eq!(text_box.px(), Some(20));
    assert_eq!(text_box.position(), position);
    assert_eq!(text_box.glyphs().len(), 2);
    assert_eq!(*text_box.dimensions(), LogicalSize { width: 4, height: 4 });
    assert_eq!(text_box.height(), 4);
    assert_eq!(text_box.lowest_pixel(), Some(7));
}

#[test]
fn render_shades_coverage_into_the_buffer() {
    // one fully covered 1x1 glyph at x = 1; the box bottom is y + height
    let position = LogicalPosition { x: 1u32, y: 2u32 };
    let mut only = glyph('x', 1, 2, 1, 1, 0);
    only.ymin = 0;
    only.height = 1;
    only.coverage = vec![255];
    let text_box = TextBox::new("x", vec![only], &position);
    // box bottom = 2 + 1 = 3; placement row = 3 - (0 + 1) = 2

    let mut renderer =
        Renderer::new(vec![0; 64], LogicalSize { width: 4, height: 4 }).unwrap();
    text_box
        .render(&mut renderer, &[200, 100, 50, 255])
        .unwrap();

    // coverage 255 shades by (255 * 100) / 255 = 100 percent: color kept
    let mut expected = vec![0u8; 64];
    let pixel = 2 * 4 + 1;
    expected[pixel * 4] = 200;
    expected[pixel * 4 + 1] = 100;
    expected[pixel * 4 + 2] = 50;
    assert_eq!(renderer.frame().as_slice(), expected.as_slice());
}

#[test]
fn render_scales_color_by_partial_coverage() {
    let position = LogicalPosition { x: 0u32, y: 0u32 };
    let mut only = glyph('x', 1, 0, 1, 1, 0);
    only.coverage = vec![127];
    let text_box = TextBox::new("x", vec![only], &position);
    // box bottom = 0 + 1; placement row = 1 - 1 = 0

    let mut renderer =
        Renderer::new(vec![0; 16], LogicalSize { width: 4, height: 1 }).unwrap();
    text_box
        .render(&mut renderer, &[200, 100, 50, 255])
        .unwrap();

    // coverage 127 shades by (127 * 100) / 255 = 49 percent, truncating
    let mut expected = vec![0u8; 16];
    expected[4] = 98;
    expected[5] = 49;
    expected[6] = 24;
    assert_eq!(renderer.frame().as_slice(), expected.as_slice());
}

#[test]
fn render_skips_zero_coverage_cells() {
    let position = LogicalPosition { x: 0u32, y: 0u32 };
    let mut only = glyph('x', 0, 0, 2, 1, 0);
    only.coverage = vec![0, 255];
    let text_box = TextBox::new("x", vec![only], &position);

    let mut renderer =
        Renderer::new(vec![7; 16], LogicalSize { width: 4, height: 1 }).unwrap();
    text_box
        .render(&mut renderer, &[255, 255, 255, 255])
        .unwrap();

    let frame = renderer.frame();
    // the zero-coverage cell is never written
    assert_eq!(&frame[0..4], &[7, 7, 7, 7]);
    assert_eq!(&frame[4..8], &[255, 255, 255, 7]);
}

#[test]
fn render_reports_non_ascii_glyphs() {
    let position = LogicalPosition { x: 0u32, y: 0u32 };
    let text_box = TextBox::new("\u{00E9}", vec![glyph('\u{00E9}', 0, 0, 1, 1, 0)], &position);

    let mut renderer =
        Renderer::new(vec![0; 16], LogicalSize { width: 4, height: 1 }).unwrap();
    let result = text_box.render(&mut renderer, &[255, 255, 255, 255]);
    assert_eq!(result, Err(DrawError::UnsupportedGlyph));
    assert_eq!(renderer.frame().as_slice(), vec![0u8; 16].as_slice());
}

#[test]
fn render_reports_out_of_bounds_cells() {
    let position = LogicalPosition { x: 0u32, y: 0u32 };
    // a glyph reaching past the right edge wraps to an index past the buffer
    let text_box = TextBox::new("x", vec![glyph('x', 3, 0, 2, 2, 0)], &position);

    let mut renderer =
        Renderer::new(vec![0; 16], LogicalSize { width: 4, height: 1 }).unwrap();
    let result = text_box.render(&mut renderer, &[255, 255, 255, 255]);
    assert_eq!(result, Err(DrawError::OutOfBounds));
}

#[test]
fn update_text_recomputes_the_box() {
    let position = LogicalPosition { x: 0u32, y: 0u32 };
    let mut text_box = TextBox::new("a", vec![glyph('a', 0, 0, 3, 5, 0)], &position);
    assert_eq!(*text_box.dimensions(), LogicalSize { width: 3, height: 5 });

    let wider = LogicalPosition { x: 1u32, y: 0u32 };
    text_box.update_text("ab", vec![glyph('a', 1, 0, 3, 5, 0), glyph('b', 5, 0, 3, 7, 0)], &wider);
    assert_eq!(text_box.text(), "ab");
    assert_eq!(*text_box.dimensions(), LogicalSize { width: 7, height: 7 });
}
