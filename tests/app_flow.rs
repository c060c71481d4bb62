use octarust::app::{checked_total, AppAction, MyApp};
use octarust::note::{Note, Point};
use octarust::partiture::Hand;
use octarust::settings::{CustomSettings, CustomTheme, Difficulty};
use octarust::states::{
    AppMessage, AppState, GameMessage, MainMenuMessage, SelectionMessage, SettingsMessage,
};

fn note(start: u64, duration: u64) -> Note {
    Note {
        name: String::from("n"),
        start,
        pitch: 60,
        duration,
        is_active: true,
        joined: false,
        last_position: Point::default(),
    }
}

fn started(now: u64) -> MyApp {
    let mut app = MyApp::new(CustomSettings::default());
    let act = app.update(AppMessage::Selection(SelectionMessage::StartGame(String::from("Piece"))), now);
    assert!(matches!(act, AppAction::LoadPiece(ref n) if n == "Piece"));
    app
}

#[test]
fn menu_navigation() {
    let mut app = MyApp::new(CustomSettings::default());
    assert_eq!(app.state, AppState::MainMenu);
    assert!(matches!(app.update(AppMessage::MainMenu(MainMenuMessage::SelectPartiture), 0), AppAction::Stay));
    assert_eq!(app.state, AppState::SlectionPartiture);
    app.update(AppMessage::Selection(SelectionMessage::BackToMenu), 0);
    assert_eq!(app.state, AppState::MainMenu);
    app.update(AppMessage::MainMenu(MainMenuMessage::OpenSettings), 0);
    assert_eq!(app.state, AppState::Settings);
    app.update(AppMessage::Settings(SettingsMessage::BackToMenu), 0);
    assert_eq!(app.state, AppState::MainMenu);
    assert!(matches!(app.update(AppMessage::MainMenu(MainMenuMessage::Exit), 0), AppAction::Exit));
}

#[test]
fn settings_changes_ask_to_save() {
    let mut app = MyApp::new(CustomSettings::default());
    app.settings.timer = 9;
    let act = app.update(AppMessage::Settings(SettingsMessage::ChangeTheme(CustomTheme::Light)), 0);
    assert!(matches!(act, AppAction::SaveSettings));
    assert_eq!(app.settings.theme, CustomTheme::Light);
    assert_eq!(app.settings.timer, 9);
    let act = app.update(AppMessage::Settings(SettingsMessage::ChangeDifficulty(Difficulty::Hard)), 0);
    assert!(matches!(act, AppAction::SaveSettings));
    assert_eq!(app.settings.difficulty, Difficulty::Hard);
    assert_eq!(app.settings.timer, 3_000_000);
}

#[test]
fn starting_a_piece() {
    let app = started(42);
    assert_eq!(app.state, AppState::Game);
    assert_eq!(app.start_time, Some(42));
    assert_eq!(app.actual_time, Some(42));
    assert_eq!(app.partiture_name.as_deref(), Some("Piece"));
    assert!(!app.finished);
}

#[test]
fn loading_a_piece_prepares_both_staves() {
    let mut app = started(0);
    let ok = app.load_piece(vec![note(0, 500_000), note(500_000, 500_000)], vec![note(0, 2_000_000)]);
    assert!(ok);
    assert_eq!(app.partiture_l_selected.time, 1_000_000);
    assert_eq!(app.partiture_r_selected.time, 2_000_000);
    assert!(app.partiture_l_selected.notes[0].joined);
    assert!(!app.partiture_r_selected.notes[0].joined);
}

#[test]
fn loading_too_long_a_piece_is_refused() {
    let mut app = started(0);
    app.partiture_r_selected.time = u64::MAX;
    assert!(!app.load_piece(Vec::new(), vec![note(0, 1)]));
    assert!(app.partiture_l_selected.notes.is_empty());
    assert_eq!(app.partiture_r_selected.time, u64::MAX);
}

#[test]
fn checked_totals() {
    assert_eq!(checked_total(&vec![note(0, 3), note(0, 4)], 10), Some(17));
    assert_eq!(checked_total(&vec![note(0, u64::MAX)], 1), None);
}

#[test]
fn pause_and_resume_keep_elapsed_time() {
    let mut app = started(1_000);
    app.update(AppMessage::Game(GameMessage::Tick(6_000)), 0);
    assert_eq!(app.elapsed(), 5_000);
    app.on_pause_key(7_000);
    assert_eq!(app.state, AppState::Paused);
    assert_eq!(app.paused_elapsed, Some(5_000));
    app.on_pause_key(20_000);
    assert_eq!(app.state, AppState::Game);
    assert_eq!(app.start_time, Some(15_000));
    assert_eq!(app.actual_time, Some(20_000));
    assert_eq!(app.paused_elapsed, None);
    app.update(AppMessage::Game(GameMessage::PauseGame), 0);
    assert_eq!(app.state, AppState::Paused);
    app.update(AppMessage::Game(GameMessage::ResumeGame), 30_000);
    assert_eq!(app.state, AppState::Game);
    assert_eq!(app.start_time, Some(25_000));
}

#[test]
fn pause_key_on_menu_does_nothing() {
    let mut app = MyApp::new(CustomSettings::default());
    app.on_pause_key(5);
    assert_eq!(app.state, AppState::MainMenu);
    assert_eq!(app.paused_elapsed, None);
}

#[test]
fn tick_ends_piece_after_its_length() {
    let mut app = started(0);
    assert!(app.load_piece(vec![note(0, 1_000_000)], vec![note(0, 2_000_000)]));
    // Longest staff 2 s, plus twice the 3 s countdown: the piece ends after 8 s.
    app.update(AppMessage::Game(GameMessage::Tick(8_000_000)), 0);
    assert_eq!(app.state, AppState::Game);
    assert!(!app.finished);
    app.update(AppMessage::Game(GameMessage::Tick(8_000_001)), 0);
    assert_eq!(app.state, AppState::Paused);
    assert!(app.finished);
    // A tick while paused changes nothing.
    app.update(AppMessage::Game(GameMessage::Tick(9_000_000)), 0);
    assert_eq!(app.actual_time, Some(8_000_001));
}

#[test]
fn tick_runs_the_tempo_pass() {
    let mut app = started(0);
    assert!(app.load_piece(vec![note(0, 1_000_000), note(2_000_000, 1_000_000)], Vec::new()));
    app.update(AppMessage::Game(GameMessage::Tick(1_000_000)), 0);
    assert!(app.partiture_l_selected.notes[0].is_active);
    assert!(!app.partiture_l_selected.notes[1].is_active);
}

#[test]
fn restart_and_finish() {
    let mut app = started(0);
    app.update(AppMessage::Game(GameMessage::Finished), 0);
    assert!(app.finished);
    assert_eq!(app.state, AppState::Paused);
    app.update(AppMessage::Game(GameMessage::RestartGame), 77);
    assert!(!app.finished);
    assert_eq!(app.state, AppState::Game);
    assert_eq!(app.start_time, Some(77));
}

#[test]
fn staves_and_title() {
    let mut app = started(0);
    assert!(app.load_piece(vec![note(0, 500_000)], vec![note(0, 1_000_000), note(0, 1_000_000)]));
    app.settings.difficulty = Difficulty::Hard;
    app.update(AppMessage::Game(GameMessage::Tick(2_000_000)), 0);
    assert_eq!(app.game_title(), "");
    let (right, left) = app.game_staves();
    assert_eq!(right.hand, Hand::Right);
    assert_eq!(left.hand, Hand::Left);
    assert_eq!(right.time, 2_000_000);
    assert_eq!(left.time, 500_000);
    assert_eq!(right.elapsed, 3_000_000);
    app.update(AppMessage::Game(GameMessage::Tick(3_000_000)), 0);
    assert_eq!(app.game_title(), "Piece");
}
