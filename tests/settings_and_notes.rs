use octarust::note::{Flag, Note, NoteFigure, Point};
use octarust::settings::{CustomSettings, CustomTheme, Difficulty};

fn note(start: u64, pitch: u8, duration: u64) -> Note {
    Note {
        name: String::from("n"),
        start,
        pitch,
        duration,
        is_active: false,
        joined: false,
        last_position: Point::default(),
    }
}

#[test]
fn theme_codes_round_trip() {
    assert_eq!(CustomTheme::Light.get_theme(), 1);
    assert_eq!(CustomTheme::Dark.get_theme(), 0);
    assert_eq!(CustomTheme::get_theme_from_int(1), CustomTheme::Light);
    assert_eq!(CustomTheme::get_theme_from_int(0), CustomTheme::Dark);
}

#[test]
fn unknown_theme_code_is_light() {
    assert_eq!(CustomTheme::get_theme_from_int(7), CustomTheme::Light);
    assert_eq!(CustomTheme::get_theme_from_int(-1), CustomTheme::Light);
}

#[test]
fn difficulty_multipliers_in_halves() {
    assert_eq!(Difficulty::Easy.get_multiplier(), 1);
    assert_eq!(Difficulty::Normal.get_multiplier(), 2);
    assert_eq!(Difficulty::Hard.get_multiplier(), 3);
    assert_eq!(Difficulty::get_dificulty_from_halves(1), Difficulty::Easy);
    assert_eq!(Difficulty::get_dificulty_from_halves(2), Difficulty::Normal);
    assert_eq!(Difficulty::get_dificulty_from_halves(3), Difficulty::Hard);
    assert_eq!(Difficulty::get_dificulty_from_halves(9), Difficulty::Normal);
}

#[test]
fn default_settings() {
    let s = CustomSettings::default();
    assert_eq!(s.theme, CustomTheme::Dark);
    assert_eq!(s.difficulty, Difficulty::Normal);
    assert_eq!(s.timer, 3_000_000);
}

#[test]
fn figures_by_duration() {
    assert_eq!(NoteFigure::of_duration(4_000_000), NoteFigure::Whole);
    assert_eq!(NoteFigure::of_duration(2_000_000), NoteFigure::Half);
    assert_eq!(NoteFigure::of_duration(1_000_000), NoteFigure::Quarter);
    assert_eq!(NoteFigure::of_duration(500_000), NoteFigure::Eighth);
    assert_eq!(NoteFigure::of_duration(250_000), NoteFigure::Sixteenth);
    assert_eq!(NoteFigure::of_duration(125_000), NoteFigure::ThirtySecond);
    assert_eq!(NoteFigure::of_duration(62_500), NoteFigure::SixtyFourth);
    assert_eq!(NoteFigure::of_duration(750_000), NoteFigure::Quarter);
    assert_eq!(note(0, 60, 2_000_000).figure(), NoteFigure::Half);
}

#[test]
fn new_note_starts_at_zero() {
    let n = Note::new(String::from("C4"), 60, 1_000_000, true, Point::new(3, 4));
    assert_eq!(n.name, "C4");
    assert_eq!(n.start, 0);
    assert_eq!(n.pitch, 60);
    assert_eq!(n.duration, 1_000_000);
    assert!(!n.is_active);
    assert!(n.joined);
    assert_eq!(n.last_position, Point::new(3, 4));
}

#[test]
fn stems_by_register() {
    let c = Point::new(100, 50);
    assert_eq!(note(0, 50, 1).stem_origin(c), Point::new(107, 25));
    assert_eq!(note(0, 55, 1).stem_origin(c), Point::new(98, 55));
    assert_eq!(note(0, 65, 1).stem_origin(c), Point::new(107, 25));
    assert_eq!(note(0, 75, 1).stem_origin(c), Point::new(98, 55));
}

#[test]
fn banner_flag_for_a_single_note() {
    let c = Point::new(100, 50);
    assert_eq!(note(0, 50, 1).flag(c), Flag::Banner { at: Point::new(108, 25) });
    assert_eq!(note(0, 55, 1).flag(c), Flag::Banner { at: Point::new(98, 55) });
    assert_eq!(note(0, 71, 1).flag(c), Flag::Banner { at: Point::new(108, 25) });
    assert_eq!(note(0, 72, 1).flag(c), Flag::Banner { at: Point::new(98, 79) });
}

#[test]
fn beam_flag_for_a_joined_note() {
    let c = Point::new(100, 50);
    let mut n = note(0, 65, 500_000);
    n.joined = true;
    assert_eq!(n.flag(c), Flag::Hidden);
    n.last_position = Point::new(60, 20);
    assert_eq!(n.flag(c), Flag::Beam { from: Point::new(108, 25), to: Point::new(60, 20) });
}

#[test]
fn cloned_note_keeps_fields() {
    let mut n = note(5, 61, 7);
    n.joined = true;
    let c = n.clone();
    assert_eq!(c.name, n.name);
    assert_eq!(c.start, 5);
    assert_eq!(c.pitch, 61);
    assert!(c.joined);
}
