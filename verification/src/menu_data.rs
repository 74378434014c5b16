//! The menu model: an ordered list of selectable items, a cursor, and
//! cyclic wraparound navigation.

use vstd::prelude::*;

use crate::asset_registry::{lookup, AssetLayoutInfo, AssetRegistry};
use crate::error::DrawError;
use crate::menu_items::MenuItem;
use crate::paint::{arrow_semantics, outcome_result, paint_cells};
use crate::renderer::Renderer;
use crate::text_boxes::render_glyphs_from;
use crate::LogicalPosition;

verus! {

/// The frame bytes after the menu items from `items` on are drawn at
/// their positions, and the first failure if one occurs.
///
/// An image-backed item is blitted at its computed position; a text-backed
/// item renders its glyph run in the given color at the position stored in
/// its own box. An unresolvable asset name stops the pass.
pub open spec fn spec_render_items_from(
    bytes: Seq<u8>,
    items: Seq<MenuItem>,
    positions: Seq<LogicalPosition<u32>>,
    registry: AssetRegistry,
    buf_width: int,
    color: Seq<u8>,
) -> (Seq<u8>, Option<DrawError>)
    decreases items.len(),
{
    if items.len() == 0 {
        (bytes, None)
    } else {
        match lookup(registry.images@, items[0].asset_name@) {
            Some(image) => {
                let painted = paint_cells(
                    bytes,
                    Renderer::blit_cells(
                        positions[0].x + positions[0].y * buf_width,
                        image.width as int,
                        image.height as int,
                        image.rgba@,
                        buf_width,
                    ),
                );
                if !painted.1 {
                    (painted.0, Some(DrawError::OutOfBounds))
                } else {
                    spec_render_items_from(
                        painted.0,
                        items.drop_first(),
                        positions.drop_first(),
                        registry,
                        buf_width,
                        color,
                    )
                }
            },
            None => match lookup(registry.text_boxes@, items[0].asset_name@) {
                Some(text_box) => {
                    let rendered = render_glyphs_from(
                        bytes,
                        text_box.glyphs@,
                        text_box.position.y + text_box.dimensions.height,
                        buf_width,
                        color,
                    );
                    if rendered.1 is Some {
                        rendered
                    } else {
                        spec_render_items_from(
                            rendered.0,
                            items.drop_first(),
                            positions.drop_first(),
                            registry,
                            buf_width,
                            color,
                        )
                    }
                },
                None => (bytes, Some(DrawError::UnresolvableAsset)),
            },
        }
    }
}

/// The outcome of one whole menu render: a menu whose positions do not
/// match its options is refused before any write, otherwise the items are
/// drawn in order.
pub open spec fn spec_render_menu(
    menu: Menu,
    registry: AssetRegistry,
    bytes: Seq<u8>,
    buf_width: int,
    color: Seq<u8>,
) -> (Seq<u8>, Option<DrawError>) {
    if menu.item_positions@.len() != menu.options@.len() {
        (bytes, Some(DrawError::LayoutInvariantViolation))
    } else {
        spec_render_items_from(
            bytes,
            menu.options@,
            menu.item_positions@,
            registry,
            buf_width,
            color,
        )
    }
}

/// The outcome of drawing the selection indicator: a white arrow whose tip
/// sits ten logical pixels left of the selected item, vertically centered
/// on the selected asset.
pub open spec fn spec_indicator(
    menu: Menu,
    registry: AssetRegistry,
    bytes: Seq<u8>,
    buf_width: int,
) -> (Seq<u8>, Option<DrawError>) {
    if menu.options@.len() == 0 {
        (bytes, Some(DrawError::EmptyMenu))
    } else if menu.item_positions@.len() != menu.options@.len() {
        (bytes, Some(DrawError::LayoutInvariantViolation))
    } else {
        match registry.spec_asset_info(menu.options@[menu.selected as int].asset_name@) {
            None => (bytes, Some(DrawError::UnresolvableAsset)),
            Some(info) => {
                let height = match info {
                    AssetLayoutInfo::Image { dimensions } => dimensions.height,
                    AssetLayoutInfo::Text { position, dimensions } => dimensions.height,
                };
                let position = menu.item_positions@[menu.selected as int];
                arrow_semantics(
                    bytes,
                    (position.x - 10) as u32,
                    (position.y + height / 2) as u32,
                    20,
                    true,
                    buf_width,
                    seq![255u8, 255u8, 255u8, 255u8],
                )
            },
        }
    }
}

/// Whether the selection indicator's arrow geometry stays within the
/// machine limits of the line-drawing primitives: meaningful only once a
/// selected item with a resolvable asset and a computed position exists.
pub open spec fn indicator_in_range(menu: Menu, registry: AssetRegistry) -> bool {
    (menu.options@.len() > 0 && menu.item_positions@.len() == menu.options@.len())
        ==> match registry.spec_asset_info(
        menu.options@[menu.selected as int].asset_name@,
    ) {
        None => true,
        Some(info) => {
            let height = match info {
                AssetLayoutInfo::Image { dimensions } => dimensions.height,
                AssetLayoutInfo::Text { position, dimensions } => dimensions.height,
            };
            let position = menu.item_positions@[menu.selected as int];
            &&& 10 <= position.x
            &&& position.x - 10 <= 0x07FF_FFFF
            &&& position.y + height / 2 <= 0x07FF_FFFF
        },
    }
}

/// The on-screen positions of the menu items from `items` on, given the
/// vertical offset already consumed by the items before them.
///
/// An image-backed item is centered at the anchor and placed at the
/// running offset below it; a text-backed item keeps the position its text
/// box was created with, by design. Either kind advances the running
/// offset by its height plus the inter-item gap. An unresolvable asset
/// name resolves the whole layout to nothing.
pub open spec fn spec_positions_from(
    items: Seq<MenuItem>,
    registry: AssetRegistry,
    anchor: LogicalPosition<u32>,
    item_offset: u32,
    running: int,
) -> Option<Seq<(int, int)>>
    decreases items.len(),
{
    if items.len() == 0 {
        Some(Seq::empty())
    } else {
        match registry.spec_asset_info(items[0].asset_name@) {
            None => None,
            Some(info) => {
                let placed = match info {
                    AssetLayoutInfo::Image { dimensions } => (
                        if anchor.x >= dimensions.width / 2 {
                            anchor.x - dimensions.width / 2
                        } else {
                            0
                        },
                        anchor.y + running,
                    ),
                    AssetLayoutInfo::Text { position, dimensions } => (
                        position.x as int,
                        position.y as int,
                    ),
                };
                let height = match info {
                    AssetLayoutInfo::Image { dimensions } => dimensions.height,
                    AssetLayoutInfo::Text { position, dimensions } => dimensions.height,
                };
                match spec_positions_from(
                    items.drop_first(),
                    registry,
                    anchor,
                    item_offset,
                    running + height + item_offset,
                ) {
                    None => None,
                    Some(rest) => Some(seq![placed] + rest),
                }
            },
        }
    }
}

/// Whether every position the layout walk computes fits the coordinate
/// type: for each image-backed item it reaches, the anchor plus the
/// running offset consumed so far stays within `u32`.
pub open spec fn layout_fits(
    items: Seq<MenuItem>,
    registry: AssetRegistry,
    anchor: LogicalPosition<u32>,
    item_offset: u32,
    running: int,
) -> bool
    decreases items.len(),
{
    if items.len() == 0 {
        true
    } else {
        match registry.spec_asset_info(items[0].asset_name@) {
            None => true,
            Some(info) => {
                let height = match info {
                    AssetLayoutInfo::Image { dimensions } => dimensions.height,
                    AssetLayoutInfo::Text { position, dimensions } => dimensions.height,
                };
                &&& (info is Image ==> anchor.y + running <= u32::MAX)
                &&& layout_fits(
                    items.drop_first(),
                    registry,
                    anchor,
                    item_offset,
                    running + height + item_offset,
                )
            },
        }
    }
}

/// A layout that resolves places exactly one position per item.
pub proof fn lemma_positions_length(
    items: Seq<MenuItem>,
    registry: AssetRegistry,
    anchor: LogicalPosition<u32>,
    item_offset: u32,
    running: int,
)
    requires
        spec_positions_from(items, registry, anchor, item_offset, running) is Some,
    ensures
        spec_positions_from(items, registry, anchor, item_offset, running).unwrap().len()
            == items.len(),
    decreases items.len(),
{
    if items.len() > 0 {
        match registry.spec_asset_info(items[0].asset_name@) {
            None => {},
            Some(info) => {
                let height = match info {
                    AssetLayoutInfo::Image { dimensions } => dimensions.height,
                    AssetLayoutInfo::Text { position, dimensions } => dimensions.height,
                };
                lemma_positions_length(
                    items.drop_first(),
                    registry,
                    anchor,
                    item_offset,
                    running + height + item_offset,
                );
            },
        }
    }
}

/// Where the cursor lands after one step towards the next option: it
/// increments and wraps to the first option past the last one; an empty
/// menu is left untouched.
pub open spec fn spec_next(cursor: int, option_count: int) -> int {
    if option_count == 0 {
        cursor
    } else if cursor == option_count - 1 {
        0
    } else {
        cursor + 1
    }
}

/// Where the cursor lands after one step towards the previous option: it
/// decrements and wraps to the last option below zero; an empty menu is
/// left untouched.
pub open spec fn spec_previous(cursor: int, option_count: int) -> int {
    if option_count == 0 {
        cursor
    } else if cursor == 0 {
        option_count - 1
    } else {
        cursor - 1
    }
}

/// The cursor after `times` next-steps.
pub open spec fn iterate_next(cursor: int, option_count: int, times: nat) -> int
    decreases times,
{
    if times == 0 {
        cursor
    } else {
        iterate_next(spec_next(cursor, option_count), option_count, (times - 1) as nat)
    }
}

/// A named, ordered list of selectable options with a cursor.
///
/// The cursor stays inside the option list whenever the list is non-empty;
/// it is meaningless, and kept at zero, while the list is empty. The item
/// positions are filled in by layout and must match the option count
/// before a render may proceed.
#[derive(Debug, Clone)]
pub struct Menu {
    pub name: String,
    /// The index of the currently selected option.
    pub selected: usize,
    pub options: Vec<MenuItem>,
    pub item_positions: Vec<LogicalPosition<u32>>,
}

impl Menu {
    /// The cursor invariant: inside the list when there are options, zero
    /// otherwise.
    pub open spec fn wf(self) -> bool {
        if self.options@.len() == 0 {
            self.selected == 0
        } else {
            self.selected < self.options@.len()
        }
    }

    /// Creates a new menu from an ordered list of options, with the cursor
    /// on the first option and no layout computed yet.
    pub fn new(name: &str, options: Vec<MenuItem>) -> (result: Self)
        ensures
            result.wf(),
            result.name@ == name@,
            result.selected == 0,
            result.options@ == options@,
            result.item_positions@.len() == 0,
    {
        Self { name: name.to_owned(), selected: 0, options, item_positions: Vec::new() }
    }

    /// Returns the assigned name of this menu.
    pub fn name(&self) -> (result: &str)
        ensures
            result@ == self.name@,
    {
        self.name.as_str()
    }

    /// Returns the index of the currently selected menu option.
    pub fn cursor_position(&self) -> (result: usize)
        ensures
            result == self.selected,
    {
        self.selected
    }

    /// Moves the cursor to the previous option, wrapping to the last
    /// option when it would pass the first; does nothing on an empty menu.
    pub fn previous(&mut self)
        requires
            old(self).wf(),
        ensures
            final(self).selected == spec_previous(
                old(self).selected as int,
                old(self).options@.len() as int,
            ),
            final(self).name == old(self).name,
            final(self).options == old(self).options,
            final(self).item_positions == old(self).item_positions,
            final(self).wf(),
    {
        let option_count = self.options.len();
        if option_count == 0 {
            return;
        }
        if self.selected == 0 {
            self.selected = option_count - 1;
        } else {
            self.selected = self.selected - 1;
        }
    }

    /// Moves the cursor to the next option, wrapping back to the first
    /// option when it would pass the last; does nothing on an empty menu.
    pub fn next(&mut self)
        requires
            old(self).wf(),
        ensures
            final(self).selected == spec_next(
                old(self).selected as int,
                old(self).options@.len() as int,
            ),
            final(self).name == old(self).name,
            final(self).options == old(self).options,
            final(self).item_positions == old(self).item_positions,
            final(self).wf(),
    {
        let option_count = self.options.len();
        if option_count == 0 {
            return;
        }
        if self.selected == option_count - 1 {
            self.selected = 0;
        } else {
            self.selected = self.selected + 1;
        }
    }

    /// Returns the currently selected menu option, or nothing on an empty
    /// menu. Should the cursor ever be found out of range, the menu
    /// recovers by falling back to the first option rather than failing.
    pub fn current_option(&self) -> (result: Option<&MenuItem>)
        ensures
            match result {
                None => self.options@.len() == 0,
                Some(item) => {
                    &&& self.options@.len() > 0
                    &&& if self.selected < self.options@.len() {
                        *item == self.options@[self.selected as int]
                    } else {
                        *item == self.options@[0]
                    }
                },
            },
    {
        if self.options.len() == 0 {
            return None;
        }
        if self.selected < self.options.len() {
            Some(&self.options[self.selected])
        } else {
            Some(&self.options[0])
        }
    }
}

impl Menu {
    /// Computes the on-screen position of every option, consulting the
    /// registry for each option's asset.
    ///
    /// Image-backed options are centered at the anchor and stacked below
    /// it with the given gap between them; text-backed options keep the
    /// position their text box was created with. On success exactly one
    /// position per option is stored; an unresolvable asset name fails the
    /// whole layout and leaves the menu unchanged.
    #[verifier::loop_isolation(false)]
    pub fn compute_positions(
        &mut self,
        registry: &AssetRegistry,
        anchor: &LogicalPosition<u32>,
        item_offset: u32,
    ) -> (result: Result<(), DrawError>)
        requires
            layout_fits(old(self).options@, *registry, *anchor, item_offset, 0),
        ensures
            match result {
                Ok(()) => {
                    &&& spec_positions_from(
                        old(self).options@,
                        *registry,
                        *anchor,
                        item_offset,
                        0,
                    ) is Some
                    &&& final(self).item_positions@.map_values(
                        |p: LogicalPosition<u32>| (p.x as int, p.y as int),
                    ) == spec_positions_from(
                        old(self).options@,
                        *registry,
                        *anchor,
                        item_offset,
                        0,
                    ).unwrap()
                    &&& final(self).item_positions@.len() == old(self).options@.len()
                },
                Err(e) => {
                    &&& e == DrawError::UnresolvableAsset
                    &&& spec_positions_from(
                        old(self).options@,
                        *registry,
                        *anchor,
                        item_offset,
                        0,
                    ) is None
                    &&& *final(self) == *old(self)
                },
            },
            final(self).name == old(self).name,
            final(self).selected == old(self).selected,
            final(self).options == old(self).options,
    {
        let ghost full = spec_positions_from(self.options@, *registry, *anchor, item_offset, 0);
        let mut positions: Vec<LogicalPosition<u32>> = Vec::new();
        let mut running: u128 = 0;
        let count = self.options.len();
        let mut i: usize = 0;
        proof {
            assert(self.options@.skip(0) =~= self.options@);
            assert(positions@.map_values(|p: LogicalPosition<u32>| (p.x as int, p.y as int))
                =~= Seq::<(int, int)>::empty());
        }
        while i < count
            invariant
                i <= count,
                positions@.len() == i,
                running <= (i as int) * 0x2_0000_0000,
                layout_fits(
                    self.options@.skip(i as int),
                    *registry,
                    *anchor,
                    item_offset,
                    running as int,
                ),
                match spec_positions_from(
                    self.options@.skip(i as int),
                    *registry,
                    *anchor,
                    item_offset,
                    running as int,
                ) {
                    None => full is None,
                    Some(rest) => full == Some(
                        positions@.map_values(
                            |p: LogicalPosition<u32>| (p.x as int, p.y as int),
                        ) + rest,
                    ),
                },
            decreases count - i,
        {
            proof {
                assert(self.options@.skip(i as int)[0] == self.options@[i as int]);
                assert(self.options@.skip(i as int).drop_first() =~= self.options@.skip(
                    i as int + 1,
                ));
            }
            let item = &self.options[i];
            let info = match registry.asset_info(item.asset_name.as_str()) {
                Some(info) => info,
                None => {
                    return Err(DrawError::UnresolvableAsset);
                },
            };
            let (placed, height) = match info {
                AssetLayoutInfo::Image { dimensions } => {
                    let x: u32 = if anchor.x >= dimensions.width / 2 {
                        anchor.x - dimensions.width / 2
                    } else {
                        0
                    };
                    let y_wide: u128 = anchor.y as u128 + running;
                    proof {
                        assert(y_wide <= u32::MAX);
                    }
                    (LogicalPosition { x, y: y_wide as u32 }, dimensions.height)
                },
                AssetLayoutInfo::Text { position, dimensions } => (position, dimensions.height),
            };
            let ghost suffix_spec = spec_positions_from(
                self.options@.skip(i as int),
                *registry,
                *anchor,
                item_offset,
                running as int,
            );
            let ghost tail_spec = spec_positions_from(
                self.options@.skip(i as int + 1),
                *registry,
                *anchor,
                item_offset,
                running as int + height + item_offset,
            );
            proof {
                assert(suffix_spec == match tail_spec {
                    None => None::<Seq<(int, int)>>,
                    Some(rest) => Some(seq![(placed.x as int, placed.y as int)] + rest),
                });
            }
            let ghost previous_map = positions@.map_values(
                |p: LogicalPosition<u32>| (p.x as int, p.y as int),
            );
            positions.push(placed);
            running = running + height as u128 + item_offset as u128;
            i = i + 1;
            proof {
                assert(positions@.map_values(
                    |p: LogicalPosition<u32>| (p.x as int, p.y as int),
                ) =~= previous_map.push((placed.x as int, placed.y as int)));
                if tail_spec is Some {
                    assert(previous_map + (seq![(placed.x as int, placed.y as int)]
                        + tail_spec.unwrap()) =~= previous_map.push(
                        (placed.x as int, placed.y as int),
                    ) + tail_spec.unwrap());
                }
            }
        }
        proof {
            assert(self.options@.skip(count as int) =~= Seq::<MenuItem>::empty());
            lemma_positions_length(self.options@, *registry, *anchor, item_offset, 0);
        }
        self.item_positions = positions;
        Ok(())
    }

    /// Renders every menu option at its computed position: images are
    /// blitted, text boxes are rendered in the given color at their own
    /// stored position. A menu whose positions do not match its options is
    /// refused before any write.
    #[verifier::loop_isolation(false)]
    pub fn render(
        &self,
        registry: &AssetRegistry,
        renderer: &mut Renderer,
        color: &[u8; 4],
    ) -> (result: Result<(), DrawError>)
        requires
            registry.wf(),
        ensures
            final(renderer).buffer@ == spec_render_menu(
                *self,
                *registry,
                old(renderer).buffer@,
                old(renderer).buffer_dimensions.width as int,
                color@,
            ).0,
            result == outcome_result(
                spec_render_menu(
                    *self,
                    *registry,
                    old(renderer).buffer@,
                    old(renderer).buffer_dimensions.width as int,
                    color@,
                ).1,
            ),
            final(renderer).buffer_dimensions == old(renderer).buffer_dimensions,
    {
        let count = self.options.len();
        if self.item_positions.len() != count {
            return Err(DrawError::LayoutInvariantViolation);
        }
        let ghost pre = renderer.buffer@;
        let ghost bw = renderer.buffer_dimensions.width as int;
        let mut i: usize = 0;
        proof {
            assert(self.options@.skip(0) =~= self.options@);
            assert(self.item_positions@.skip(0) =~= self.item_positions@);
        }
        while i < count
            invariant
                i <= count,
                renderer.buffer_dimensions == old(renderer).buffer_dimensions,
                spec_render_items_from(pre, self.options@, self.item_positions@, *registry, bw,
                    color@,
                ) == spec_render_items_from(
                    renderer.buffer@,
                    self.options@.skip(i as int),
                    self.item_positions@.skip(i as int),
                    *registry,
                    bw,
                    color@,
                ),
            decreases count - i,
        {
            proof {
                assert(self.options@.skip(i as int)[0] == self.options@[i as int]);
                assert(self.item_positions@.skip(i as int)[0] == self.item_positions@[
                    i as int]);
                assert(self.options@.skip(i as int).drop_first() =~= self.options@.skip(
                    i as int + 1,
                ));
                assert(self.item_positions@.skip(i as int).drop_first()
                    =~= self.item_positions@.skip(i as int + 1));
            }
            let item = &self.options[i];
            if let Some(image) = registry.get_image(item.asset_name.as_str()) {
                proof {
                    crate::asset_registry::lemma_lookup_found(
                        registry.images@,
                        item.asset_name@,
                    );
                }
                let position = self.item_positions[i];
                if let Err(e) = renderer.render_image(&position, image) {
                    return Err(e);
                }
            } else if let Some(text_box) = registry.get_text_box(item.asset_name.as_str()) {
                proof {
                    crate::asset_registry::lemma_lookup_found(
                        registry.text_boxes@,
                        item.asset_name@,
                    );
                }
                if let Err(e) = text_box.render(renderer, color) {
                    return Err(e);
                }
            } else {
                return Err(DrawError::UnresolvableAsset);
            }
            i = i + 1;
        }
        proof {
            assert(self.options@.skip(count as int) =~= Seq::<MenuItem>::empty());
        }
        Ok(())
    }

    /// Draws the menu-selection indicator: a white arrow of length twenty
    /// pointing right, its tip ten logical pixels left of the selected
    /// item and vertically centered on the selected asset.
    pub fn draw_menu_selection_indicator(
        &self,
        registry: &AssetRegistry,
        renderer: &mut Renderer,
    ) -> (result: Result<(), DrawError>)
        requires
            self.wf(),
            indicator_in_range(*self, *registry),
        ensures
            final(renderer).buffer@ == spec_indicator(
                *self,
                *registry,
                old(renderer).buffer@,
                old(renderer).buffer_dimensions.width as int,
            ).0,
            result == outcome_result(
                spec_indicator(
                    *self,
                    *registry,
                    old(renderer).buffer@,
                    old(renderer).buffer_dimensions.width as int,
                ).1,
            ),
            final(renderer).buffer_dimensions == old(renderer).buffer_dimensions,
    {
        let count = self.options.len();
        if count == 0 {
            return Err(DrawError::EmptyMenu);
        }
        if self.item_positions.len() != count {
            return Err(DrawError::LayoutInvariantViolation);
        }
        let cursor = self.cursor_position();
        let selected = &self.options[cursor];
        let info = match registry.asset_info(selected.asset_name.as_str()) {
            Some(info) => info,
            None => {
                return Err(DrawError::UnresolvableAsset);
            },
        };
        let asset_height = match info {
            AssetLayoutInfo::Image { dimensions } => dimensions.height,
            AssetLayoutInfo::Text { position: _, dimensions } => dimensions.height,
        };
        let position = self.item_positions[cursor];
        let end_position = LogicalPosition {
            x: position.x - 10,
            y: position.y + asset_height / 2,
        };
        let color: [u8; 4] = [0xFF, 0xFF, 0xFF, 0xFF];
        proof {
            assert(color@ =~= seq![255u8, 255u8, 255u8, 255u8]);
        }
        renderer.draw_arrow(&end_position, 20, true, &color)
    }
}

/// From any in-range cursor, stepping forward `times` positions without
/// reaching all the way around advances the cursor by exactly `times`,
/// wrapping to zero just when it lands one past the last option.
proof fn lemma_iterate_next_partial(cursor: int, option_count: int, times: nat)
    requires
        0 <= cursor < option_count,
        cursor + times <= option_count,
    ensures
        iterate_next(cursor, option_count, times) == if cursor + times == option_count {
            0int
        } else {
            cursor + times
        },
    decreases times,
{
    if times > 0 {
        assert(iterate_next(cursor, option_count, times) == iterate_next(
            spec_next(cursor, option_count),
            option_count,
            (times - 1) as nat,
        ));
        if cursor == option_count - 1 {
            assert(times == 1);
            assert(spec_next(cursor, option_count) == 0);
            assert(iterate_next(0, option_count, 0) == 0);
        } else {
            lemma_iterate_next_partial(cursor + 1, option_count, (times - 1) as nat);
        }
    }
}

/// Calling `next` as many times as the menu has options, starting from
/// cursor zero, returns the cursor to zero: forward navigation is cyclic.
pub proof fn lemma_next_full_cycle(option_count: nat)
    requires
        option_count > 0,
    ensures
        iterate_next(0, option_count as int, option_count) == 0,
{
    lemma_iterate_next_partial(0, option_count as int, option_count);
}

/// Calling `previous` at cursor zero on a non-empty menu lands on the last
/// option: backward navigation wraps.
pub proof fn lemma_previous_wraps(option_count: nat)
    requires
        option_count > 0,
    ensures
        spec_previous(0, option_count as int) == option_count - 1,
{
}

} // verus!
