//! The abstract actions a player can take, already resolved from raw
//! input by the host.

use vstd::prelude::*;

verus! {

/// The variations of player actions depending on the environment: a batch
/// of game actions while playing, a single menu action while navigating.
#[derive(Debug, Clone)]
pub enum PlayerAction {
    GameAction(Vec<GameAction>),
    MenuAction(MenuAction),
}

/// The actions that can be taken while playing the game.
#[derive(Debug, Clone, PartialEq, Eq, Structural)]
pub enum GameAction {
    MoveLeft,
    MoveRight,
    HardDrop,
    SoftDrop,
    Hold,
    Pause,
    Unknown,
}

/// The actions that can be taken within a menu.
#[derive(Debug, Clone, PartialEq, Eq, Structural)]
pub enum MenuAction {
    Up,
    Down,
    Left,
    Right,
    Select,
    Back,
    Unknown,
}

/// Whether a player action carries nothing actionable: an unknown menu
/// action, or a game action batch that is empty or all unknown.
pub open spec fn spec_player_action_is_empty(action: PlayerAction) -> bool {
    match action {
        PlayerAction::GameAction(actions) => actions@.len() == 0 || (forall|i: int|
            0 <= i < actions@.len() ==> actions@[i] is Unknown),
        PlayerAction::MenuAction(action) => action is Unknown,
    }
}

impl PlayerAction {
    /// True when this action carries nothing actionable: an unknown menu
    /// action, or a game action batch that is empty or all unknown.
    #[verifier::loop_isolation(false)]
    pub fn is_empty(&self) -> (result: bool)
        ensures
            result == spec_player_action_is_empty(*self),
    {
        match self {
            PlayerAction::GameAction(actions) => {
                let count = actions.len();
                if count == 0 {
                    return true;
                }
                let mut i: usize = 0;
                while i < count
                    invariant
                        i <= count,
                        count == actions@.len(),
                        forall|j: int| 0 <= j < i ==> actions@[j] is Unknown,
                    decreases count - i,
                {
                    if !actions[i].is_empty() {
                        return false;
                    }
                    i = i + 1;
                }
                true
            },
            PlayerAction::MenuAction(action) => action.is_empty(),
        }
    }
}

impl GameAction {
    /// True when this is the unknown game action.
    pub fn is_empty(&self) -> (result: bool)
        ensures
            result == (*self is Unknown),
    {
        *self == GameAction::Unknown
    }
}

impl MenuAction {
    /// True when this is the unknown menu action.
    pub fn is_empty(&self) -> (result: bool)
        ensures
            result == (*self is Unknown),
    {
        *self == MenuAction::Unknown
    }
}

} // verus!
