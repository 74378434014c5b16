//! A software framebuffer compositor and menu engine.
//!
//! The crate turns abstract drawing requests (place an image, draw a line,
//! shade a glyph run) into exact byte writes in an RGBA pixel buffer, and
//! keeps the menu navigation and layout state that drives those requests.

use vstd::prelude::*;

pub mod actions;
pub mod asset_registry;
pub mod error;
pub mod game_settings;
pub mod images;
pub mod menu_data;
pub mod menu_items;
pub mod menu_templates;
pub mod minos;
pub mod paint;
pub mod renderer;
pub mod text_boxes;
pub mod timer;
pub mod world;

verus! {

/// An integer position in logical, buffer-native pixel coordinates.
///
/// All drawing and layout operations speak logical coordinates; scaling to
/// the host surface happens outside the compositor.
#[derive(Debug, Clone, Copy, PartialEq, Eq, Structural)]
pub struct LogicalPosition<P> {
    pub x: P,
    pub y: P,
}

/// An integer extent in logical pixels.
#[derive(Debug, Clone, Copy, PartialEq, Eq, Structural)]
pub struct LogicalSize<P> {
    pub width: P,
    pub height: P,
}

/// The width, in logical pixels, of the rendered surface.
pub const RENDERED_WINDOW_WIDTH: u32 = 250;

/// The height, in logical pixels, of the rendered surface.
pub const RENDERED_WINDOW_HEIGHT: u32 = 400;

/// A named renderable asset: the closed set of kinds the menu renderer
/// dispatches over.
pub enum Renderable<'a> {
    Image(&'a images::DecodedImage),
    Text(&'a text_boxes::TextBox),
}

/// Obtains the renderable asset stored under a name, consulting images
/// first and text boxes second; nothing when no asset carries the name.
pub fn get_renderable_from_name<'a>(
    registry: &'a asset_registry::AssetRegistry,
    asset_name: &str,
) -> (result: Option<Renderable<'a>>)
    ensures
        match result {
            Some(renderable) => match renderable {
                Renderable::Image(image) => asset_registry::lookup(
                    registry.images@,
                    asset_name@,
                ) == Some(*image),
                Renderable::Text(text_box) => asset_registry::lookup(
                    registry.images@,
                    asset_name@,
                ) is None && asset_registry::lookup(registry.text_boxes@, asset_name@)
                    == Some(*text_box),
            },
            None => asset_registry::lookup(registry.images@, asset_name@) is None
                && asset_registry::lookup(registry.text_boxes@, asset_name@) is None,
        },
{
    if let Some(image) = registry.get_image(asset_name) {
        return Some(Renderable::Image(image));
    }
    if let Some(text_box) = registry.get_text_box(asset_name) {
        return Some(Renderable::Text(text_box));
    }
    None
}

} // verus!
