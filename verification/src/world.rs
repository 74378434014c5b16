//! The world model: which screen is active, the menus and their cursors,
//! and the decisions taken on each player action.

use vstd::prelude::*;

use crate::actions::{MenuAction, PlayerAction};
use crate::error::DrawError;
use crate::menu_data::{spec_next, spec_previous, Menu};
use crate::menu_templates::MainMenu;
use crate::minos::MinoType;
use crate::timer::{spec_elapsed, Timer};

verus! {

/// What a menu-action update leaves of the world when the cursor moves or
/// the debounce timer holds it back.
///
/// The timer consulted is the stored one, or a fresh stopped one of the
/// debounce interval when none was stored yet. When it has run out, or
/// was not running, the cursor of the current menu takes one step and the
/// timer restarts at `now`; otherwise everything but the freshly stored
/// timer stays as it was.
pub open spec fn spec_navigation_update(
    pre: WorldData,
    post: WorldData,
    up: bool,
    now: u64,
    menu_index: int,
    result: Result<bool, DrawError>,
) -> bool {
    let timer = match pre.menu_movement_timer {
        Some(timer) => timer,
        None => Timer { started_at: None, duration: MENU_MOVEMENT_INTERVAL },
    };
    let finished = match timer.started_at {
        Some(started) => spec_elapsed(started, now) >= timer.duration,
        None => false,
    };
    let menu = pre.menus@[menu_index].1;
    &&& result == Ok::<bool, DrawError>(false)
    &&& post.current_state == pre.current_state
    &&& post.current_menu == pre.current_menu
    &&& if finished || timer.started_at is None {
        &&& post.menu_movement_timer == Some(
            Timer { started_at: Some(now), duration: timer.duration },
        )
        &&& post.menus@.len() == pre.menus@.len()
        &&& (forall|j: int|
            0 <= j < pre.menus@.len() && j != menu_index ==> post.menus@[j] == pre.menus@[j])
        &&& post.menus@[menu_index].0 == pre.menus@[menu_index].0
        &&& post.menus@[menu_index].1.name == menu.name
        &&& post.menus@[menu_index].1.options == menu.options
        &&& post.menus@[menu_index].1.item_positions == menu.item_positions
        &&& post.menus@[menu_index].1.selected == (if up {
            spec_previous(menu.selected as int, menu.options@.len() as int)
        } else {
            spec_next(menu.selected as int, menu.options@.len() as int)
        })
    } else {
        &&& post.menu_movement_timer == Some(timer)
        &&& post.menus == pre.menus
    }
}

/// What selecting the current main-menu option does: starting enters the
/// game, the options entry switches to the options menu, exiting requests
/// a close; an empty menu and an unrecognized entry are reported errors.
pub open spec fn spec_select_update(
    pre: WorldData,
    post: WorldData,
    menu_index: int,
    result: Result<bool, DrawError>,
) -> bool {
    let menu = pre.menus@[menu_index].1;
    if menu.options@.len() == 0 {
        post == pre && result == Err::<bool, DrawError>(DrawError::EmptyMenu)
    } else {
        let item = if menu.selected < menu.options@.len() {
            menu.options@[menu.selected as int]
        } else {
            menu.options@[0]
        };
        if item.item_name@ == "start"@ {
            &&& post.current_state is Game
            &&& post.current_menu == pre.current_menu
            &&& post.menus == pre.menus
            &&& post.menu_movement_timer == pre.menu_movement_timer
            &&& result == Ok::<bool, DrawError>(false)
        } else if item.item_name@ == "options"@ {
            &&& post.current_state == pre.current_state
            &&& (post.current_menu matches Some(name) && name@ == "options_menu"@)
            &&& post.menus == pre.menus
            &&& post.menu_movement_timer == pre.menu_movement_timer
            &&& result == Ok::<bool, DrawError>(false)
        } else if item.item_name@ == "exit"@ {
            post == pre && result == Ok::<bool, DrawError>(true)
        } else {
            post == pre && result == Err::<bool, DrawError>(DrawError::UnresolvableAsset)
        }
    }
}

/// What one menu-screen update does for a given menu action: errors when
/// no current menu resolves, dispatches on the current menu's own name,
/// and recovers to the main menu from an unknown name.
pub open spec fn spec_menu_action_update(
    pre: WorldData,
    post: WorldData,
    action: MenuAction,
    now: u64,
    result: Result<bool, DrawError>,
) -> bool {
    match pre.current_menu {
        None => post == pre && result == Err::<bool, DrawError>(DrawError::UnresolvableAsset),
        Some(name) => {
            let menu_index = lookup_menu_index(pre.menus@, name@);
            if menu_index < 0 {
                post == pre && result == Err::<bool, DrawError>(DrawError::UnresolvableAsset)
            } else {
                let menu = pre.menus@[menu_index].1;
                if menu.name@ == "MainMenu"@ {
                    if action is Up || action is Down {
                        spec_navigation_update(pre, post, action is Up, now, menu_index, result)
                    } else if action is Select {
                        spec_select_update(pre, post, menu_index, result)
                    } else {
                        post == pre && result == Ok::<bool, DrawError>(false)
                    }
                } else {
                    // an unknown menu name recovers to the main menu
                    &&& result == Ok::<bool, DrawError>(false)
                    &&& post.current_state == pre.current_state
                    &&& post.menus == pre.menus
                    &&& post.menu_movement_timer == pre.menu_movement_timer
                    &&& (post.current_menu matches Some(name) && name@ == "MainMenu"@)
                }
            }
        },
    }
}

/// What one whole menu-screen update does: anything but a menu action is
/// ignored.
pub open spec fn spec_menu_update(
    pre: WorldData,
    post: WorldData,
    action: Option<PlayerAction>,
    now: u64,
    result: Result<bool, DrawError>,
) -> bool {
    match action {
        Some(PlayerAction::MenuAction(menu_action)) => spec_menu_action_update(
            pre,
            post,
            menu_action,
            now,
            result,
        ),
        _ => post == pre && result == Ok::<bool, DrawError>(false),
    }
}

/// Whether an update stays on the screens whose handling is finished: the
/// options and pause menus exist as names, but their update handling does
/// not yet.
pub open spec fn menu_dispatch_supported(world: WorldData, action: Option<PlayerAction>)
    -> bool {
    (world.current_state is Menu && (action matches Some(PlayerAction::MenuAction(_))))
        ==> match world.current_menu {
        None => true,
        Some(name) => {
            let menu_index = lookup_menu_index(world.menus@, name@);
            ||| menu_index < 0
            ||| {
                let menu_name = world.menus@[menu_index].1.name@;
                menu_name != "options_menu"@ && menu_name != "pause_menu"@
            }
        },
    }
}

/// The width of the board when calculating game interactions.
pub const LOGICAL_BOARD_WIDTH: u32 = 10;

/// The height of the board when calculating game interactions.
pub const LOGICAL_BOARD_HEIGHT: u32 = 40;

/// The width of the board when rendering it.
pub const VISIBLE_BOARD_WIDTH: u32 = 10;

/// The height of the board when rendering it.
pub const VISIBLE_BOARD_HEIGHT: u32 = 20;

/// The debounce interval for menu cursor movement, in milliseconds.
pub const MENU_MOVEMENT_INTERVAL: u64 = 200;

/// Which screen the world is on.
#[derive(Debug, Clone, Copy, PartialEq, Eq, Structural)]
pub enum WorldState {
    Menu,
    Game,
}

/// The index of the first menu entry stored under `name`, or a negative
/// number when no entry carries the name.
pub open spec fn lookup_menu_index(entries: Seq<(String, Menu)>, name: Seq<char>) -> int
    decreases entries.len(),
{
    if entries.len() == 0 {
        -1
    } else if entries[0].0@ == name {
        0
    } else {
        let rest = lookup_menu_index(entries.drop_first(), name);
        if rest < 0 {
            -1
        } else {
            rest + 1
        }
    }
}

/// A menu index lookup stays inside the entry list, and a found entry
/// carries the looked-up name.
pub proof fn lemma_lookup_menu_index_bounds(entries: Seq<(String, Menu)>, name: Seq<char>)
    ensures
        -1 <= lookup_menu_index(entries, name) < entries.len(),
        lookup_menu_index(entries, name) >= 0 ==> entries[lookup_menu_index(entries, name)].0@
            == name,
    decreases entries.len(),
{
    if entries.len() > 0 && entries[0].0@ != name {
        lemma_lookup_menu_index_bounds(entries.drop_first(), name);
    }
}

/// The whole state of the application outside the compositor: the active
/// screen, the held piece and board of the game, the named menus with the
/// name of the current one, and the debounce timer of menu navigation.
#[derive(Debug)]
pub struct WorldData {
    pub current_state: WorldState,
    pub held: Option<MinoType>,
    /// The filled squares and the piece kind that occupies each; row-major,
    /// `LOGICAL_BOARD_WIDTH * LOGICAL_BOARD_HEIGHT` squares.
    pub board: Vec<Option<MinoType>>,
    pub current_menu: Option<String>,
    pub menus: Vec<(String, Menu)>,
    pub menu_movement_timer: Option<Timer>,
}

impl WorldData {
    /// Every stored menu keeps its cursor inside its option list.
    pub open spec fn wf(self) -> bool {
        forall|i: int| 0 <= i < self.menus@.len() ==> (#[trigger] self.menus@[i]).1.wf()
    }

    /// Creates the world on the menu screen, with an empty board, the
    /// given named menus, and the main menu current.
    pub fn new(menus: Vec<(String, Menu)>) -> (result: Self)
        requires
            forall|i: int| 0 <= i < menus@.len() ==> (#[trigger] menus@[i]).1.wf(),
        ensures
            result.wf(),
            result.current_state is Menu,
            result.held is None,
            result.board@.len() == LOGICAL_BOARD_WIDTH * LOGICAL_BOARD_HEIGHT,
            forall|i: int| 0 <= i < result.board@.len() ==> (#[trigger] result.board@[i]) is None,
            result.current_menu matches Some(name) && name@ == "MainMenu"@,
            result.menus@ == menus@,
            result.menu_movement_timer is None,
    {
        let board: Vec<Option<MinoType>> = vec![None;(LOGICAL_BOARD_WIDTH
            * LOGICAL_BOARD_HEIGHT) as usize];
        Self {
            current_state: WorldState::Menu,
            held: None,
            board,
            current_menu: Some("MainMenu".to_owned()),
            menus,
            menu_movement_timer: None,
        }
    }

    /// The screen the world is currently on.
    pub fn world_state(&self) -> (result: WorldState)
        ensures
            result == self.current_state,
    {
        self.current_state
    }

    /// The index of the menu stored under the given name.
    fn index_of_menu(&self, name: &str) -> (result: Option<usize>)
        ensures
            match result {
                Some(index) => {
                    &&& index == lookup_menu_index(self.menus@, name@)
                    &&& index < self.menus@.len()
                    &&& self.menus@[index as int].0@ == name@
                },
                None => lookup_menu_index(self.menus@, name@) < 0,
            },
    {
        proof {
            lemma_lookup_menu_index_bounds(self.menus@, name@);
        }
        let count = self.menus.len();
        let mut i: usize = 0;
        proof {
            assert(self.menus@.skip(0) =~= self.menus@);
        }
        while i < count
            invariant
                i <= count,
                count == self.menus@.len(),
                lookup_menu_index(self.menus@, name@) == (if lookup_menu_index(
                    self.menus@.skip(i as int),
                    name@,
                ) < 0 {
                    -1int
                } else {
                    i + lookup_menu_index(self.menus@.skip(i as int), name@)
                }),
            decreases count - i,
        {
            proof {
                assert(self.menus@.skip(i as int)[0] == self.menus@[i as int]);
                assert(self.menus@.skip(i as int).drop_first() =~= self.menus@.skip(
                    i as int + 1,
                ));
            }
            let entry = &self.menus[i];
            if crate::asset_registry::str_equal(entry.0.as_str(), name) {
                return Some(i);
            }
            i = i + 1;
        }
        proof {
            assert(self.menus@.skip(count as int) =~= Seq::<(String, Menu)>::empty());
        }
        None
    }

    /// Applies one player action to the world at the given instant.
    ///
    /// On the menu screen the action drives the current menu; the game
    /// screen does not react yet. True is returned exactly when a request
    /// to close the program was made.
    pub fn update_world(&mut self, player_action: Option<PlayerAction>, now: u64) -> (result:
        Result<bool, DrawError>)
        requires
            old(self).wf(),
            menu_dispatch_supported(*old(self), player_action),
        ensures
            final(self).wf(),
            final(self).held == old(self).held,
            final(self).board == old(self).board,
            old(self).current_state is Game ==> *final(self) == *old(self) && result == Ok::<
                bool,
                DrawError,
            >(false),
            old(self).current_state is Menu ==> spec_menu_update(
                *old(self),
                *final(self),
                player_action,
                now,
                result,
            ),
    {
        match self.current_state {
            WorldState::Menu => self.update_menu(player_action, now),
            WorldState::Game => {
                self.update_game(player_action)?;
                Ok(false)
            },
        }
    }

    /// Applies one player action to the menu screen.
    fn update_menu(&mut self, player_action: Option<PlayerAction>, now: u64) -> (result: Result<
        bool,
        DrawError,
    >)
        requires
            old(self).wf(),
            old(self).current_state is Menu,
            menu_dispatch_supported(*old(self), player_action),
        ensures
            final(self).wf(),
            final(self).held == old(self).held,
            final(self).board == old(self).board,
            spec_menu_update(*old(self), *final(self), player_action, now, result),
    {
        let menu_action = match player_action {
            Some(PlayerAction::MenuAction(menu_action)) => menu_action,
            _ => {
                return Ok(false);
            },
        };
        let current_menu_name = match &self.current_menu {
            Some(name) => name.as_str().to_owned(),
            None => {
                return Err(DrawError::UnresolvableAsset);
            },
        };
        let menu_index = match self.index_of_menu(current_menu_name.as_str()) {
            Some(index) => index,
            None => {
                return Err(DrawError::UnresolvableAsset);
            },
        };
        let dispatch_name = self.menus[menu_index].1.name().to_owned();
        if crate::asset_registry::str_equal(dispatch_name.as_str(), "MainMenu") {
            match menu_action {
                MenuAction::Up | MenuAction::Down => {
                    let mut timer = match self.menu_movement_timer {
                        Some(timer) => timer,
                        None => Timer::new(MENU_MOVEMENT_INTERVAL),
                    };
                    let timer_finished = timer.is_finished(now);
                    if timer_finished || !timer.running() {
                        timer.start(now);
                        match menu_action {
                            MenuAction::Up => self.menus[menu_index].1.previous(),
                            MenuAction::Down => self.menus[menu_index].1.next(),
                            _ => (),
                        }
                    }
                    self.menu_movement_timer = Some(timer);
                    Ok(false)
                },
                MenuAction::Select => {
                    proof {
                        reveal_strlit("start");
                        reveal_strlit("options");
                        reveal_strlit("exit");
                        assert("start"@.len() == 5);
                        assert("options"@.len() == 7);
                        assert("exit"@.len() == 4);
                    }
                    let current_option = match self.menus[menu_index].1.current_option() {
                        Some(option) => option,
                        None => {
                            return Err(DrawError::EmptyMenu);
                        },
                    };
                    let current_option_item = match MainMenu::from_name(
                        current_option.item_name(),
                    ) {
                        Some(item) => item,
                        None => {
                            return Err(DrawError::UnresolvableAsset);
                        },
                    };
                    match current_option_item {
                        MainMenu::Start => {
                            self.update_state(WorldState::Game);
                            Ok(false)
                        },
                        MainMenu::Options => {
                            self.current_menu = Some("options_menu".to_owned());
                            Ok(false)
                        },
                        MainMenu::Exit => Ok(true),
                    }
                },
                _ => Ok(false),
            }
        } else {
            // an unknown menu name recovers to the main menu
            self.current_menu = Some("MainMenu".to_owned());
            Ok(false)
        }
    }

    /// Applies one player action to the game screen; the gameplay
    /// simulation is not implemented yet, so nothing changes.
    fn update_game(&mut self, _player_action: Option<PlayerAction>) -> (result: Result<
        (),
        DrawError,
    >)
        ensures
            *final(self) == *old(self),
            result is Ok,
    {
        Ok(())
    }

    /// Moves the world to another screen.
    fn update_state(&mut self, new_state: WorldState)
        ensures
            final(self).current_state == new_state,
            final(self).held == old(self).held,
            final(self).board == old(self).board,
            final(self).current_menu == old(self).current_menu,
            final(self).menus == old(self).menus,
            final(self).menu_movement_timer == old(self).menu_movement_timer,
    {
        self.current_state = new_state;
    }
}

} // verus!
