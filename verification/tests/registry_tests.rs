use rustris::asset_registry::{AssetLayoutInfo, AssetRegistry};
use rustris::images::DecodedImage;
use rustris::renderer::Renderer;
use rustris::text_boxes::TextBox;
use rustris::{LogicalPosition, LogicalSize};

#[test]
fn decoded_image_checks_its_byte_count() {
    assert!(DecodedImage::new(2, 2, vec![0; 16]).is_some());
    assert!(DecodedImage::new(2, 2, vec![0; 15]).is_none());
    assert!(DecodedImage::new(0, 0, Vec::new()).is_some());
}

#[test]
fn registry_resolves_names_in_insertion_order() {
    let mut registry = AssetRegistry::new();
    registry.add_image("a", DecodedImage::new(1, 1, vec![1, 2, 3, 4]).unwrap());
    registry.add_image("b", DecodedImage::new(2, 1, vec![0; 8]).unwrap());
    let position = LogicalPosition { x: 0u32, y: 0u32 };
    registry.add_text_box("label", TextBox::new("", Vec::new(), &position));

    assert_eq!(registry.get_image("a").unwrap().rgba, vec![1, 2, 3, 4]);
    assert_eq!(registry.get_image("b").unwrap().width, 2);
    assert!(registry.get_image("label").is_none());
    assert!(registry.get_text_box("label").is_some());
    assert!(registry.get_text_box("a").is_none());
    assert!(registry.get_image("missing").is_none());

    match registry.asset_info("b") {
        Some(AssetLayoutInfo::Image { dimensions }) => {
            assert_eq!(dimensions, LogicalSize { width: 2, height: 1 })
        }
        other => panic!("unexpected asset info: {:?}", other),
    }
    match registry.asset_info("label") {
        Some(AssetLayoutInfo::Text { position, dimensions }) => {
            assert_eq!(position, LogicalPosition { x: 0, y: 0 });
            assert_eq!(dimensions, LogicalSize { width: 0, height: 0 });
        }
        other => panic!("unexpected asset info: {:?}", other),
    }
    assert!(registry.asset_info("missing").is_none());
}

#[test]
fn render_image_blits_pixel_for_pixel() {
    // a 2x2 image blitted at (1, 0) of a 4x2 surface
    let image = DecodedImage::new(
        2,
        2,
        vec![
            10, 11, 12, 255, //
            20, 21, 22, 255, //
            30, 31, 32, 255, //
            40, 41, 42, 255,
        ],
    )
    .unwrap();

    let mut renderer =
        Renderer::new(vec![0; 32], LogicalSize { width: 4, height: 2 }).unwrap();
    let offset = LogicalPosition { x: 1u32, y: 0u32 };
    renderer.render_image(&offset, &image).unwrap();

    let mut expected = vec![0u8; 32];
    for (pixel, source) in [(1usize, 0usize), (2, 1), (5, 2), (6, 3)] {
        expected[pixel * 4] = image.rgba[source * 4];
        expected[pixel * 4 + 1] = image.rgba[source * 4 + 1];
        expected[pixel * 4 + 2] = image.rgba[source * 4 + 2];
    }
    assert_eq!(renderer.frame().as_slice(), expected.as_slice());
}

#[test]
fn render_image_blends_transparent_pixels() {
    // an image pixel with zero alpha leaves the destination untouched
    let image = DecodedImage::new(2, 1, vec![9, 9, 9, 0, 5, 5, 5, 255]).unwrap();

    let mut renderer =
        Renderer::new(vec![7; 8], LogicalSize { width: 2, height: 1 }).unwrap();
    let offset = LogicalPosition { x: 0u32, y: 0u32 };
    renderer.render_image(&offset, &image).unwrap();

    assert_eq!(renderer.frame().as_slice(), &[7, 7, 7, 7, 5, 5, 5, 7]);
}
