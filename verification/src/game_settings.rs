//! The application settings the game loop consults.

use vstd::prelude::*;

use crate::error::DrawError;

verus! {

/// The settings of the game: for now, only the target frame rate.
#[derive(Debug, Clone, Copy)]
pub struct GameSettings {
    /// The currently set frames per second.
    pub fps: u32,
}

impl GameSettings {
    /// Creates the settings with their defaults.
    pub fn initialize() -> (result: Result<Self, DrawError>)
        ensures
            match result {
                Ok(settings) => settings.fps == 144,
                Err(_) => false,
            },
    {
        Ok(Self { fps: 144 })
    }

    /// The current set frames per second, clamped to the range 20 to 144.
    pub fn fps(&self) -> (result: u32)
        ensures
            result == if self.fps < 20 {
                20int
            } else if self.fps > 144 {
                144int
            } else {
                self.fps as int
            },
    {
        if self.fps < 20 {
            20
        } else if self.fps > 144 {
            144
        } else {
            self.fps
        }
    }
}

} // verus!
