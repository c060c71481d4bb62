use vstd::prelude::*;

verus! {

/// Microseconds in one second; every time in this crate is counted in microseconds.
pub const MICROS_PER_SECOND: u64 = 1_000_000;

/// Default length of the countdown shown before a piece starts.
pub const DEFAULT_TIMER: u64 = 3_000_000;

/// Difficulty level. Each level scales the scrolling speed by a multiplier that is a
/// whole number of halves: easy is 1/2, normal 2/2, hard 3/2.
#[derive(Debug, Clone, Copy, PartialEq, Eq, Structural)]
pub enum Difficulty {
    Easy,
    Normal,
    Hard,
}

impl Difficulty {
    /// The speed multiplier of a level, counted in halves.
    pub open spec fn halves(self) -> u64 {
        match self {
            Difficulty::Easy => 1,
            Difficulty::Normal => 2,
            Difficulty::Hard => 3,
        }
    }

    /// The speed multiplier of this level, counted in halves (`1`, `2` or `3`).
    pub fn get_multiplier(&self) -> (r: u64)
        ensures
            r == self.halves(),
            1 <= r <= 3,
    {
        match self {
            Difficulty::Easy => 1,
            Difficulty::Normal => 2,
            Difficulty::Hard => 3,
        }
    }

    /// The level whose multiplier is `halves` halves; any other count gives the normal level.
    pub fn get_dificulty_from_halves(halves: u64) -> (r: Difficulty)
        ensures
            halves == 1 ==> r == Difficulty::Easy,
            halves == 3 ==> r == Difficulty::Hard,
            halves != 1 && halves != 3 ==> r == Difficulty::Normal,
    {
        match halves {
            1 => Difficulty::Easy,
            2 => Difficulty::Normal,
            3 => Difficulty::Hard,
            _ => Difficulty::Normal,
        }
    }
}

/// Colour theme of the interface.
#[derive(Debug, Clone, Copy, PartialEq, Eq, Structural)]
pub enum CustomTheme {
    Light,
    Dark,
}

impl CustomTheme {
    /// Integer code of a theme, as the theme slider shows it.
    pub open spec fn code(self) -> i32 {
        match self {
            CustomTheme::Light => 1,
            CustomTheme::Dark => 0,
        }
    }

    /// The integer code of this theme: `1` for light, `0` for dark.
    pub fn get_theme(&self) -> (r: i32)
        ensures
            r == self.code(),
    {
        match self {
            CustomTheme::Light => 1,
            CustomTheme::Dark => 0,
        }
    }

    /// The theme of an integer code; any code other than `0` gives the light theme.
    pub fn get_theme_from_int(val: i32) -> (r: CustomTheme)
        ensures
            val == 0 ==> r == CustomTheme::Dark,
            val != 0 ==> r == CustomTheme::Light,
    {
        match val {
            1 => CustomTheme::Light,
            0 => CustomTheme::Dark,
            _ => CustomTheme::Light,
        }
    }
}

/// User settings: theme, difficulty and the length of the countdown before a piece.
#[derive(Debug, Clone, Copy, PartialEq, Eq, Structural)]
pub struct CustomSettings {
    pub theme: CustomTheme,
    pub difficulty: Difficulty,
    /// Countdown length, in microseconds.
    pub timer: u64,
}

/// The settings used until the user changes them: dark theme, normal difficulty and a
/// countdown of three seconds.
pub open spec fn default_settings() -> CustomSettings {
    CustomSettings { theme: CustomTheme::Dark, difficulty: Difficulty::Normal, timer: DEFAULT_TIMER }
}

impl Default for CustomSettings {
    fn default() -> (r: Self)
        ensures
            r == default_settings(),
    {
        CustomSettings { theme: CustomTheme::Dark, difficulty: Difficulty::Normal, timer: DEFAULT_TIMER }
    }
}

} // verus!
