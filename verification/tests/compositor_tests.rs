use rustris::error::DrawError;
use rustris::renderer::Renderer;
use rustris::{LogicalPosition, LogicalSize};

#[test]
fn lib_rgb_applies_correct_alpha_channel() {
    let mut pixel_buffer: Vec<u8> = vec![0x77, 0x77, 0x77, 0xFF];
    let rgb = [0xFF, 0xFF, 0xFF];

    let expected_pixel_buffer: Vec<u8> = vec![0xFF, 0xFF, 0xFF, 0xFF];

    Renderer::draw_at_pixel_with_rgb(&mut pixel_buffer, 0, &rgb).unwrap();

    assert_eq!(pixel_buffer, expected_pixel_buffer);
}

#[test]
fn lib_modifies_correct_index() {
    let mut pixel_buffer: Vec<u8> = vec![
        0xFF, 0xFF, 0xFF, 0xFF, //
        0xFF, 0xFF, 0xFF, 0xFF, //
        0xFF, 0xFF, 0xFF, 0xFF, //
        0xFF, 0xFF, 0xFF, 0xFF,
    ];
    let replacement_color = [0x77, 0x77, 0x77, 0xFF];

    let expected_pixel_buffer: Vec<u8> = vec![
        0x77, 0x77, 0x77, 0xFF, //
        0xFF, 0xFF, 0xFF, 0xFF, //
        0x77, 0x77, 0x77, 0xFF, //
        0xFF, 0xFF, 0xFF, 0xFF,
    ];

    Renderer::draw_at_pixel_with_rgba(&mut pixel_buffer, 0, &replacement_color).unwrap();
    Renderer::draw_at_pixel_with_rgba(&mut pixel_buffer, 2, &replacement_color).unwrap();

    assert_eq!(pixel_buffer, expected_pixel_buffer);
}

#[test]
fn lib_alpha_blending_works_when_drawing() {
    let mut pixel_buffer: Vec<u8> = vec![0x77, 0x77, 0x77, 0xFF];
    let blending_rgba = [0xFF, 0xFF, 0xFF, 0x7F];

    let alpha_percentage = 100 - (blending_rgba[3] as u16 * 100) / 255;
    let top_color = blending_rgba[0] as u16;
    let bottom_color = pixel_buffer[1] as u16;
    let expected_color =
        (((alpha_percentage * top_color) / 100) + ((alpha_percentage * bottom_color) / 100)) as u8;

    Renderer::draw_at_pixel_with_rgba(&mut pixel_buffer, 0, &blending_rgba).unwrap();

    assert_eq!(
        pixel_buffer,
        vec![expected_color, expected_color, expected_color, 0xFF]
    );
}

#[test]
fn lib_full_alpha_replaces_entire_color() {
    let mut pixel_buffer: Vec<u8> = vec![0x77, 0x77, 0x77, 0xFF];
    let rgba = [0xFF, 0xFF, 0xFF, 0xFF];

    let expected_color: Vec<u8> = vec![0xFF, 0xFF, 0xFF, 0xFF];

    Renderer::draw_at_pixel_with_rgba(&mut pixel_buffer, 0, &rgba).unwrap();

    assert_eq!(pixel_buffer, expected_color);
}

#[test]
fn lib_zeroed_alpha_channel_does_nothing_to_color() {
    let mut pixel_buffer: Vec<u8> = vec![0x77, 0x77, 0x77, 0xFF];
    let rgba = [0xFF, 0xFF, 0xFF, 0];

    let expected_color = pixel_buffer.clone();

    Renderer::draw_at_pixel_with_rgba(&mut pixel_buffer, 0, &rgba).unwrap();

    assert_eq!(pixel_buffer, expected_color);
}

#[test]
fn mod_rgb_applies_correct_alpha_channel() {
    let mut pixel_buffer: Vec<u8> = vec![0x77, 0x77, 0x77, 0xFF];
    let rgb = [0xFF, 0xFF, 0xFF];

    let expected_pixel_buffer: Vec<u8> = vec![0xFF, 0xFF, 0xFF, 0xFF];

    Renderer::draw_at_pixel_with_rgb(&mut pixel_buffer, 0, &rgb).unwrap();

    assert_eq!(pixel_buffer, expected_pixel_buffer);
}

#[test]
fn mod_modifies_correct_index() {
    let mut pixel_buffer: Vec<u8> = vec![
        0xFF, 0xFF, 0xFF, 0xFF, //
        0xFF, 0xFF, 0xFF, 0xFF, //
        0xFF, 0xFF, 0xFF, 0xFF, //
        0xFF, 0xFF, 0xFF, 0xFF,
    ];
    let replacement_color = [0x77, 0x77, 0x77, 0xFF];

    let expected_pixel_buffer: Vec<u8> = vec![
        0x77, 0x77, 0x77, 0xFF, //
        0xFF, 0xFF, 0xFF, 0xFF, //
        0x77, 0x77, 0x77, 0xFF, //
        0xFF, 0xFF, 0xFF, 0xFF,
    ];

    Renderer::draw_at_pixel_with_rgba(&mut pixel_buffer, 0, &replacement_color).unwrap();
    Renderer::draw_at_pixel_with_rgba(&mut pixel_buffer, 2, &replacement_color).unwrap();

    assert_eq!(pixel_buffer, expected_pixel_buffer);
}

#[test]
fn mod_alpha_blending_works_when_drawing() {
    let mut pixel_buffer: Vec<u8> = vec![0x77, 0x77, 0x77, 0xFF];
    let blending_rgba = [0xFF, 0xFF, 0xFF, 0x7F];

    let alpha_percentage = 100 - (blending_rgba[3] as u16 * 100) / 255;
    let top_color = blending_rgba[0] as u16;
    let bottom_color = pixel_buffer[1] as u16;
    let expected_color =
        (((alpha_percentage * top_color) / 100) + ((alpha_percentage * bottom_color) / 100)) as u8;

    Renderer::draw_at_pixel_with_rgba(&mut pixel_buffer, 0, &blending_rgba).unwrap();

    assert_eq!(
        pixel_buffer,
        vec![expected_color, expected_color, expected_color, 0xFF]
    );
}

#[test]
fn mod_full_alpha_replaces_entire_color() {
    let mut pixel_buffer: Vec<u8> = vec![0x77, 0x77, 0x77, 0xFF];
    let rgba = [0xFF, 0xFF, 0xFF, 0xFF];

    let expected_color: Vec<u8> = vec![0xFF, 0xFF, 0xFF, 0xFF];

    Renderer::draw_at_pixel_with_rgba(&mut pixel_buffer, 0, &rgba).unwrap();

    assert_eq!(pixel_buffer, expected_color);
}

#[test]
fn mod_zeroed_alpha_channel_does_nothing_to_color() {
    let mut pixel_buffer: Vec<u8> = vec![0x77, 0x77, 0x77, 0xFF];
    let rgba = [0xFF, 0xFF, 0xFF, 0];

    let expected_color = pixel_buffer.clone();

    Renderer::draw_at_pixel_with_rgba(&mut pixel_buffer, 0, &rgba).unwrap();

    assert_eq!(pixel_buffer, expected_color);
}

#[test]
fn partial_alpha_blend_matches_documented_formula() {
    // alpha 0x7F: retained weight 100 - (127 * 100) / 255 = 51 percent,
    // each channel (51 * 255) / 100 + (51 * 119) / 100 = 130 + 60 = 190.
    let mut pixel_buffer: Vec<u8> = vec![0x77, 0x77, 0x77, 0xFF];
    let blending_rgba = [0xFF, 0xFF, 0xFF, 0x7F];

    Renderer::draw_at_pixel_with_rgba(&mut pixel_buffer, 0, &blending_rgba).unwrap();

    assert_eq!(pixel_buffer, vec![190, 190, 190, 0xFF]);
}

#[test]
fn out_of_bounds_write_reports_error_and_changes_nothing() {
    let mut pixel_buffer: Vec<u8> = vec![0x11, 0x22, 0x33, 0x44];
    let expected = pixel_buffer.clone();

    let result = Renderer::draw_at_pixel_with_rgba(&mut pixel_buffer, 1, &[1, 2, 3, 0xFF]);
    assert_eq!(result, Err(DrawError::OutOfBounds));
    assert_eq!(pixel_buffer, expected);

    let result = Renderer::draw_at_pixel_with_rgb(&mut pixel_buffer, 1, &[1, 2, 3]);
    assert_eq!(result, Err(DrawError::OutOfBounds));
    assert_eq!(pixel_buffer, expected);
}

#[test]
fn new_renderer_checks_buffer_size() {
    let dimensions = LogicalSize { width: 2, height: 2 };
    assert!(Renderer::new(vec![0; 16], dimensions).is_ok());
    assert_eq!(
        Renderer::new(vec![0; 12], dimensions).err(),
        Some(DrawError::OutOfBounds)
    );
}

#[test]
fn set_color_writes_reversed_channels_and_opaque_alpha() {
    let mut renderer =
        Renderer::new(vec![0; 8], LogicalSize { width: 2, height: 1 }).unwrap();
    renderer.set_color([1, 2, 3]).unwrap();
    assert_eq!(renderer.frame().as_slice(), &[3, 2, 1, 255, 3, 2, 1, 255]);
}

#[test]
fn clear_resets_to_opaque_black() {
    let mut renderer =
        Renderer::new(vec![9; 8], LogicalSize { width: 2, height: 1 }).unwrap();
    renderer.clear().unwrap();
    assert_eq!(renderer.frame().as_slice(), &[0, 0, 0, 255, 0, 0, 0, 255]);
}

#[test]
fn apply_color_blends_every_pixel() {
    let mut renderer =
        Renderer::new(vec![0x77; 8], LogicalSize { width: 2, height: 1 }).unwrap();
    renderer.apply_color([0xFF, 0xFF, 0xFF, 0x7F]).unwrap();
    assert_eq!(
        renderer.frame().as_slice(),
        &[190, 190, 190, 0x77, 190, 190, 190, 0x77]
    );
}

#[test]
fn filled_rectangle_writes_exact_block() {
    // a 4x2 surface, a 2x1 red rectangle at (1, 1)
    let mut renderer =
        Renderer::new(vec![0; 32], LogicalSize { width: 4, height: 2 }).unwrap();
    let position = LogicalPosition { x: 1u32, y: 1u32 };
    let size = LogicalSize { width: 2u32, height: 1u32 };
    renderer
        .filled_rectangle(&position, &size, [0xAA, 0xBB, 0xCC, 0xFF])
        .unwrap();

    let mut expected = vec![0u8; 32];
    for pixel in [5usize, 6] {
        expected[pixel * 4] = 0xAA;
        expected[pixel * 4 + 1] = 0xBB;
        expected[pixel * 4 + 2] = 0xCC;
    }
    assert_eq!(renderer.frame().as_slice(), expected.as_slice());
}

#[test]
fn filled_rectangle_off_buffer_fails_without_clipping() {
    // the rectangle's first cell already exceeds the 2x2 buffer
    let mut renderer =
        Renderer::new(vec![0; 16], LogicalSize { width: 2, height: 2 }).unwrap();
    let position = LogicalPosition { x: 0u32, y: 2u32 };
    let size = LogicalSize { width: 1u32, height: 1u32 };
    let result = renderer.filled_rectangle(&position, &size, [1, 2, 3, 0xFF]);
    assert_eq!(result, Err(DrawError::OutOfBounds));
    assert_eq!(renderer.frame().as_slice(), vec![0u8; 16].as_slice());
}

#[test]
fn line_with_zero_coordinate_is_invalid_geometry() {
    let mut renderer =
        Renderer::new(vec![0; 64], LogicalSize { width: 4, height: 4 }).unwrap();
    let result = renderer.line((0, 2), (3, 2), &[0xFF, 0xFF, 0xFF, 0xFF]);
    assert_eq!(result, Err(DrawError::InvalidGeometry));
    assert_eq!(renderer.frame().as_slice(), vec![0u8; 64].as_slice());

    let result = renderer.line((1, 2), (3, 0), &[0xFF, 0xFF, 0xFF, 0xFF]);
    assert_eq!(result, Err(DrawError::InvalidGeometry));
    assert_eq!(renderer.frame().as_slice(), vec![0u8; 64].as_slice());
}

#[test]
fn line_paints_cells_from_start_to_excluded_end() {
    // a horizontal line on row 1 of a 6x4 surface: start included, end excluded
    let mut renderer =
        Renderer::new(vec![0; 96], LogicalSize { width: 6, height: 4 }).unwrap();
    renderer.line((1, 1), (4, 1), &[0xFF, 0x00, 0x00, 0xFF]).unwrap();

    let mut expected = vec![0u8; 96];
    for pixel in [7usize, 8, 9] {
        expected[pixel * 4] = 0xFF;
    }
    assert_eq!(renderer.frame().as_slice(), expected.as_slice());
}

#[test]
fn bounding_rectangle_draws_closed_outline() {
    let mut renderer =
        Renderer::new(vec![0; 144], LogicalSize { width: 6, height: 6 }).unwrap();
    renderer
        .bounding_rectangle((1, 1), (4, 4), &[0xFF, 0xFF, 0xFF, 0xFF])
        .unwrap();

    let frame = renderer.frame();
    let painted: Vec<usize> = (0..36).filter(|pixel| frame[pixel * 4] == 0xFF).collect();
    let mut expected: Vec<usize> = Vec::new();
    for y in 1..=4usize {
        for x in 1..=4usize {
            if x == 1 || x == 4 || y == 1 || y == 4 {
                expected.push(y * 6 + x);
            }
        }
    }
    assert_eq!(painted, expected);
}

#[test]
fn draw_arrow_paints_shaft_and_wings() {
    let mut renderer =
        Renderer::new(vec![0; 4 * 32 * 32], LogicalSize { width: 32, height: 32 }).unwrap();
    let tip = LogicalPosition { x: 10u32, y: 16u32 };
    renderer.draw_arrow(&tip, 4, true, &[0xFF, 0xFF, 0xFF, 0xFF]).unwrap();

    let frame = renderer.frame();
    // the shaft runs from the tip backwards: cells (10,16) down to (7,16)
    for x in 7..11usize {
        assert_eq!(frame[(16 * 32 + x) * 4], 0xFF);
    }
    // the first wing heads down-left from the tip towards (8, 18)
    assert_eq!(frame[(17 * 32 + 9) * 4], 0xFF);
    // the second wing heads up-left from the tip towards (8, 14)
    assert_eq!(frame[(15 * 32 + 9) * 4], 0xFF);
}
