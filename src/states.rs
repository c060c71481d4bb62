use vstd::prelude::*;

use crate::settings::{CustomTheme, Difficulty};

verus! {

/// Every message the application reacts to.
#[derive(Debug, Clone)]
pub enum AppMessage {
    MainMenu(MainMenuMessage),
    Game(GameMessage),
    Settings(SettingsMessage),
    Selection(SelectionMessage),
}

/// The screen the application shows.
#[derive(Debug, Clone, Copy, PartialEq, Eq, Structural)]
pub enum AppState {
    MainMenu,
    SlectionPartiture,
    Game,
    Settings,
    Paused,
}

/// Messages of the piece selection screen.
#[derive(Debug, Clone)]
pub enum SelectionMessage {
    /// Start the piece with this name.
    StartGame(String),
    BackToMenu,
}

/// Messages of the main menu.
#[derive(Debug, Clone, Copy, PartialEq, Eq, Structural)]
pub enum MainMenuMessage {
    SelectPartiture,
    Exit,
    OpenSettings,
}

/// Messages of a running game.
#[derive(Debug, Clone, Copy, PartialEq, Eq, Structural)]
pub enum GameMessage {
    PauseGame,
    RestartGame,
    ResumeGame,
    Finished,
    /// A periodic tick, carrying the current reading of a monotonic clock in microseconds.
    Tick(u64),
}

/// Messages of the settings screen.
#[derive(Debug, Clone, Copy, PartialEq, Eq, Structural)]
pub enum SettingsMessage {
    ChangeDifficulty(Difficulty),
    ChangeTheme(CustomTheme),
    BackToMenu,
}

} // verus!
