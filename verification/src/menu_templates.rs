//! The fixed menu catalogues: each menu's named, ordered entries and the
//! layout constants it is placed with.

use vstd::prelude::*;

use crate::asset_registry::str_equal;
use crate::menu_items::MenuItem;
use crate::{RENDERED_WINDOW_HEIGHT, RENDERED_WINDOW_WIDTH};

verus! {

/// The name the main menu is stored under.
pub const MAIN_MENU_NAME: &'static str = "MainMenu";

/// The horizontal center the main menu's items are centered at.
pub const MAIN_MENU_POSITION_X: u32 = RENDERED_WINDOW_WIDTH / 2;

/// The vertical anchor the main menu's first item starts at.
pub const MAIN_MENU_POSITION_Y: u32 = (RENDERED_WINDOW_HEIGHT * 25) / 100;

/// The vertical gap between consecutive main-menu items.
pub const MAIN_MENU_ITEM_OFFSET: u32 = 20;

/// The entries of the main menu, in their fixed order.
#[derive(Debug, Clone, Copy, PartialEq, Eq, Structural)]
pub enum MainMenu {
    Start,
    Options,
    Exit,
}

impl MainMenu {
    /// The name of this menu entry.
    pub fn item_name(&self) -> (result: &'static str)
        ensures
            match *self {
                MainMenu::Start => result@ == "start"@,
                MainMenu::Options => result@ == "options"@,
                MainMenu::Exit => result@ == "exit"@,
            },
    {
        match self {
            MainMenu::Start => "start",
            MainMenu::Options => "options",
            MainMenu::Exit => "exit",
        }
    }

    /// The name of the asset that renders this menu entry.
    pub fn asset_name(&self) -> (result: &'static str)
        ensures
            match *self {
                MainMenu::Start => result@ == "menu_start_v2"@,
                MainMenu::Options => result@ == "menu_options"@,
                MainMenu::Exit => result@ == "menu_exit"@,
            },
    {
        match self {
            MainMenu::Start => "menu_start_v2",
            MainMenu::Options => "menu_options",
            MainMenu::Exit => "menu_exit",
        }
    }

    /// The entry whose name is given, or nothing when no entry carries
    /// the name.
    pub fn from_name(name: &str) -> (result: Option<MainMenu>)
        ensures
            match result {
                Some(MainMenu::Start) => name@ == "start"@,
                Some(MainMenu::Options) => name@ == "options"@,
                Some(MainMenu::Exit) => name@ == "exit"@,
                None => name@ != "start"@ && name@ != "options"@ && name@ != "exit"@,
            },
    {
        if str_equal(name, "start") {
            Some(MainMenu::Start)
        } else if str_equal(name, "options") {
            Some(MainMenu::Options)
        } else if str_equal(name, "exit") {
            Some(MainMenu::Exit)
        } else {
            None
        }
    }

    /// Every entry of the main menu in order, as menu items.
    pub fn full_list() -> (result: Vec<MenuItem>)
        ensures
            result@.len() == 3,
            result@[0].item_name@ == "start"@ && result@[0].asset_name@ == "menu_start_v2"@,
            result@[1].item_name@ == "options"@ && result@[1].asset_name@ == "menu_options"@,
            result@[2].item_name@ == "exit"@ && result@[2].asset_name@ == "menu_exit"@,
    {
        let mut list: Vec<MenuItem> = Vec::new();
        list.push(MenuItem::new("start", "menu_start_v2"));
        list.push(MenuItem::new("options", "menu_options"));
        list.push(MenuItem::new("exit", "menu_exit"));
        list
    }
}

} // verus!
