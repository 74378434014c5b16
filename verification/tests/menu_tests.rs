use rustris::asset_registry::AssetRegistry;
use rustris::error::DrawError;
use rustris::images::DecodedImage;
use rustris::menu_data::Menu;
use rustris::menu_items::MenuItem;
use rustris::menu_templates::MainMenu;
use rustris::renderer::Renderer;
use rustris::{get_renderable_from_name, LogicalPosition, LogicalSize, Renderable};

fn test_menu_items() -> Vec<MenuItem> {
    vec![
        MenuItem::new("start", "start_asset"),
        MenuItem::new("options", "options_asset"),
        MenuItem::new("exit", "exit_asset"),
    ]
}

#[test]
fn cursor_moves_as_expected() {
    let mut menu = Menu::new("test_menu", test_menu_items());

    let expected_options: Vec<MenuItem> = test_menu_items();

    menu.next();
    assert_eq!(menu.current_option(), expected_options.get(1));
    menu.next();
    assert_eq!(menu.current_option(), expected_options.get(2));
    // Wrap back to 0
    menu.next();
    assert_eq!(menu.current_option(), expected_options.first());

    // Wrap back to last item in the list.
    menu.previous();
    assert_eq!(menu.current_option(), expected_options.get(2));
}

#[test]
fn menu_item_returns_expected_items() {
    let options = MenuItem::new("start", "start_asset");

    let expected_option_name = "start";
    let expected_asset_name = "start_asset";

    assert_eq!(options.item_name(), expected_option_name);
    assert_eq!(options.asset_name(), expected_asset_name);
}

#[test]
fn list_returns_expected_items() {
    let list = test_menu_items();

    let expected_list = vec![
        MenuItem::new("start", "start_asset"),
        MenuItem::new("options", "options_asset"),
        MenuItem::new("exit", "exit_asset"),
    ];

    assert_eq!(list, expected_list);
}

#[test]
fn main_menu_catalogue_matches_its_assets() {
    assert_eq!(MainMenu::Start.item_name(), "start");
    assert_eq!(MainMenu::Start.asset_name(), "menu_start_v2");
    assert_eq!(MainMenu::from_name("options"), Some(MainMenu::Options));
    assert_eq!(MainMenu::from_name("quit"), None);

    let list = MainMenu::full_list();
    assert_eq!(
        list,
        vec![
            MenuItem::new("start", "menu_start_v2"),
            MenuItem::new("options", "menu_options"),
            MenuItem::new("exit", "menu_exit"),
        ]
    );
}

#[test]
fn three_next_calls_wrap_to_first_item() {
    let mut menu = Menu::new("wrap_menu", test_menu_items());
    assert_eq!(menu.cursor_position(), 0);
    menu.next();
    menu.next();
    menu.next();
    assert_eq!(menu.cursor_position(), 0);
    menu.previous();
    assert_eq!(menu.cursor_position(), 2);
}

#[test]
fn empty_menu_ignores_navigation() {
    let mut menu = Menu::new("empty", Vec::new());
    menu.next();
    menu.previous();
    assert_eq!(menu.cursor_position(), 0);
    assert_eq!(menu.current_option(), None);
}

fn solid_image(width: u32, height: u32, rgba: [u8; 4]) -> DecodedImage {
    let mut bytes: Vec<u8> = Vec::new();
    for _ in 0..(width * height) {
        bytes.extend_from_slice(&rgba);
    }
    DecodedImage::new(width, height, bytes).unwrap()
}

#[test]
fn compute_positions_centers_image_items() {
    // one image item of asset width 40: the computed x is anchor.x - 20
    let mut registry = AssetRegistry::new();
    registry.add_image("start_asset", solid_image(40, 8, [1, 2, 3, 255]));

    let mut menu = Menu::new(
        "single",
        vec![MenuItem::new("start", "start_asset")],
    );
    let anchor = LogicalPosition { x: 125u32, y: 100u32 };
    menu.compute_positions(&registry, &anchor, 20).unwrap();

    assert_eq!(menu.item_positions.len(), menu.options.len());
    assert_eq!(menu.item_positions[0], LogicalPosition { x: 105, y: 100 });
}

#[test]
fn compute_positions_stacks_items_with_offset() {
    let mut registry = AssetRegistry::new();
    registry.add_image("start_asset", solid_image(40, 8, [1, 2, 3, 255]));
    registry.add_image("options_asset", solid_image(20, 10, [4, 5, 6, 255]));
    registry.add_image("exit_asset", solid_image(30, 6, [7, 8, 9, 255]));

    let mut menu = Menu::new("stacked", test_menu_items());
    let anchor = LogicalPosition { x: 100u32, y: 50u32 };
    menu.compute_positions(&registry, &anchor, 20).unwrap();

    assert_eq!(menu.item_positions.len(), 3);
    // the running offset advances by each item's height plus the gap
    assert_eq!(menu.item_positions[0], LogicalPosition { x: 80, y: 50 });
    assert_eq!(menu.item_positions[1], LogicalPosition { x: 90, y: 78 });
    assert_eq!(menu.item_positions[2], LogicalPosition { x: 85, y: 108 });
}

#[test]
fn compute_positions_fails_on_unresolvable_asset() {
    let registry = AssetRegistry::new();
    let mut menu = Menu::new("missing", test_menu_items());
    let anchor = LogicalPosition { x: 100u32, y: 50u32 };
    let result = menu.compute_positions(&registry, &anchor, 20);
    assert_eq!(result, Err(DrawError::UnresolvableAsset));
    assert!(menu.item_positions.is_empty());
}

#[test]
fn menu_render_blits_image_items() {
    let mut registry = AssetRegistry::new();
    registry.add_image("start_asset", solid_image(2, 1, [9, 8, 7, 255]));

    let mut menu = Menu::new("render", vec![MenuItem::new("start", "start_asset")]);
    let anchor = LogicalPosition { x: 2u32, y: 1u32 };
    menu.compute_positions(&registry, &anchor, 0).unwrap();
    // width 2 centered at x = 2: the item lands at (1, 1)
    assert_eq!(menu.item_positions[0], LogicalPosition { x: 1, y: 1 });

    let mut renderer =
        Renderer::new(vec![0; 64], LogicalSize { width: 4, height: 4 }).unwrap();
    menu.render(&registry, &mut renderer, &[0, 0, 0, 255]).unwrap();

    let mut expected = vec![0u8; 64];
    for pixel in [5usize, 6] {
        expected[pixel * 4] = 9;
        expected[pixel * 4 + 1] = 8;
        expected[pixel * 4 + 2] = 7;
    }
    assert_eq!(renderer.frame().as_slice(), expected.as_slice());
}

#[test]
fn menu_render_refuses_stale_layout() {
    let registry = AssetRegistry::new();
    let menu = Menu::new("stale", test_menu_items());
    let mut renderer =
        Renderer::new(vec![0; 64], LogicalSize { width: 4, height: 4 }).unwrap();
    let result = menu.render(&registry, &mut renderer, &[0, 0, 0, 255]);
    assert_eq!(result, Err(DrawError::LayoutInvariantViolation));
    assert_eq!(renderer.frame().as_slice(), vec![0u8; 64].as_slice());
}

#[test]
fn selection_indicator_requires_items() {
    let registry = AssetRegistry::new();
    let menu = Menu::new("bare", Vec::new());
    let mut renderer =
        Renderer::new(vec![0; 64], LogicalSize { width: 4, height: 4 }).unwrap();
    let result = menu.draw_menu_selection_indicator(&registry, &mut renderer);
    assert_eq!(result, Err(DrawError::EmptyMenu));
}

#[test]
fn selection_indicator_draws_arrow_at_selected_item() {
    let mut registry = AssetRegistry::new();
    registry.add_image("start_asset", solid_image(4, 8, [1, 1, 1, 255]));

    let mut menu = Menu::new("arrow", vec![MenuItem::new("start", "start_asset")]);
    let anchor = LogicalPosition { x: 40u32, y: 12u32 };
    menu.compute_positions(&registry, &anchor, 0).unwrap();
    assert_eq!(menu.item_positions[0], LogicalPosition { x: 38, y: 12 });

    let mut renderer =
        Renderer::new(vec![0; 4 * 64 * 64], LogicalSize { width: 64, height: 64 }).unwrap();
    menu.draw_menu_selection_indicator(&registry, &mut renderer).unwrap();

    // the arrow tip sits ten pixels left of the item, centered on its height
    let frame = renderer.frame();
    assert_eq!(frame[(16 * 64 + 28) * 4], 0xFF);
}

#[test]
fn renderable_lookup_prefers_images() {
    let mut registry = AssetRegistry::new();
    registry.add_image("thing", solid_image(1, 1, [1, 2, 3, 4]));

    match get_renderable_from_name(&registry, "thing") {
        Some(Renderable::Image(image)) => assert_eq!(image.width, 1),
        _ => panic!("expected the image"),
    }
    assert!(get_renderable_from_name(&registry, "absent").is_none());
}
