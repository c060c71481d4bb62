use vstd::prelude::*;

use crate::note::Note;
use crate::partiture::{
    create_tempo_overlay, durations, grouped, join_scan, sanitize_data, scaled_elapsed, sum,
    tempo_note, total_duration, Hand, Partiture,
};
use crate::settings::{CustomSettings, DEFAULT_TIMER, MICROS_PER_SECOND};
use crate::states::{
    AppMessage, AppState, GameMessage, MainMenuMessage, SelectionMessage, SettingsMessage,
};

verus! {

/// What the application must do outside the state machine after a message.
#[derive(Debug, Clone)]
pub enum AppAction {
    /// Nothing.
    Stay,
    /// Close the application.
    Exit,
    /// Write the settings to disk.
    SaveSettings,
    /// Read the notes of the piece with this name for both hands and hand them to
    /// `MyApp::load_piece`.
    LoadPiece(String),
}

/// The state of the application: the screen shown, the clock readings of the running
/// piece (in microseconds), the settings and the two staves of the selected piece.
pub struct MyApp {
    pub state: AppState,
    /// Clock reading at which the running piece started.
    pub start_time: Option<u64>,
    /// Clock reading of the last tick.
    pub actual_time: Option<u64>,
    /// Time elapsed on the piece when it was paused.
    pub paused_elapsed: Option<u64>,
    pub settings: CustomSettings,
    /// The piece has run to its end.
    pub finished: bool,
    pub partiture_name: Option<String>,
    pub partiture_r_selected: Partiture,
    pub partiture_l_selected: Partiture,
}

/// Time elapsed between the start of the piece and the last tick; zero when either is
/// unknown or the tick came first.
pub open spec fn elapsed_between(start: Option<u64>, current: Option<u64>) -> u64 {
    match (start, current) {
        (Some(s), Some(c)) => if c >= s {
            (c - s) as u64
        } else {
            0
        },
        _ => 0,
    }
}

/// The notes after the tempo pass at `elapsed`.
pub open spec fn tempo_pass(before: Seq<Note>, after: Seq<Note>, elapsed: u64) -> bool {
    &&& after.len() == before.len()
    &&& forall|i: int|
        0 <= i < before.len() ==> #[trigger] after[i] == tempo_note(before, i, elapsed)
}

/// A piece is over once the time elapsed passes the longer staff's length plus twice the
/// countdown.
pub open spec fn past_end(app: MyApp, elapsed: u64) -> bool {
    let longest = if app.partiture_l_selected.time >= app.partiture_r_selected.time {
        app.partiture_l_selected.time
    } else {
        app.partiture_r_selected.time
    };
    elapsed > longest + 2 * app.settings.timer
}

/// The application after resuming at clock reading `now`.
pub open spec fn resumed(before: MyApp, now: u64) -> MyApp {
    match before.paused_elapsed {
        Some(p) => MyApp {
            start_time: Some(if now >= p {
                (now - p) as u64
            } else {
                0
            }),
            actual_time: Some(now),
            paused_elapsed: None,
            state: AppState::Game,
            ..before
        },
        None => MyApp { state: AppState::Game, ..before },
    }
}

/// `after` is `before` after a tick at clock reading `instant`: on the game screen the
/// reading is recorded, the piece ends (finished, and paused) once it is past its end,
/// and both staves go through the tempo pass; on other screens nothing changes.
pub open spec fn ticked(before: MyApp, after: MyApp, instant: u64) -> bool {
    if before.state != AppState::Game {
        after == before
    } else {
        let elapsed = elapsed_between(before.start_time, Some(instant));
        let ended = past_end(before, elapsed);
        &&& after.actual_time == Some(instant)
        &&& after.start_time == before.start_time
        &&& after.paused_elapsed == before.paused_elapsed
        &&& after.settings == before.settings
        &&& after.partiture_name == before.partiture_name
        &&& after.finished == (before.finished || ended)
        &&& after.state == (if ended {
            AppState::Paused
        } else {
            AppState::Game
        })
        &&& tempo_pass(before.partiture_l_selected.notes@, after.partiture_l_selected.notes@, elapsed)
        &&& tempo_pass(before.partiture_r_selected.notes@, after.partiture_r_selected.notes@, elapsed)
        &&& after.partiture_l_selected == (Partiture {
            notes: after.partiture_l_selected.notes,
            ..before.partiture_l_selected
        })
        &&& after.partiture_r_selected == (Partiture {
            notes: after.partiture_r_selected.notes,
            ..before.partiture_r_selected
        })
    }
}

/// `after` differs from `before` only in its screen.
pub open spec fn only_state(before: MyApp, after: MyApp, state: AppState) -> bool {
    after == MyApp { state, ..before }
}

impl MyApp {
    /// The application at start-up: the main menu, with `settings` and no piece.
    pub fn new(settings: CustomSettings) -> (r: MyApp)
        ensures
            r.state == AppState::MainMenu,
            r.start_time.is_none(),
            r.actual_time.is_none(),
            r.paused_elapsed.is_none(),
            r.settings == settings,
            !r.finished,
            r.partiture_name.is_none(),
            r.partiture_r_selected.notes@.len() == 0,
            r.partiture_l_selected.notes@.len() == 0,
            r.partiture_r_selected.time == 0,
            r.partiture_l_selected.time == 0,
    {
        MyApp {
            state: AppState::MainMenu,
            start_time: None,
            actual_time: None,
            paused_elapsed: None,
            settings,
            finished: false,
            partiture_name: None,
            partiture_r_selected: Partiture::default(),
            partiture_l_selected: Partiture::default(),
        }
    }

    /// Time elapsed between the start of the piece and the last tick.
    pub fn elapsed(&self) -> (r: u64)
        ensures
            r == elapsed_between(self.start_time, self.actual_time),
    {
        match (self.start_time, self.actual_time) {
            (Some(start), Some(current)) => if current >= start {
                current - start
            } else {
                0
            },
            _ => 0,
        }
    }

    /// Pauses the piece, remembering the time elapsed on it.
    pub fn pause_game(&mut self)
        ensures
            *final(self) == (MyApp {
                paused_elapsed: Some(elapsed_between(old(self).start_time, old(self).actual_time)),
                state: AppState::Paused,
                ..*old(self)
            }),
    {
        let elapsed = self.elapsed();
        self.paused_elapsed = Some(elapsed);
        self.state = AppState::Paused;
    }

    /// Resumes the piece at clock reading `now`: when a pause is remembered the start is
    /// moved so that the time elapsed continues from it (never before the clock's zero).
    pub fn resume_game(&mut self, now: u64)
        ensures
            *final(self) == resumed(*old(self), now),
    {
        match self.paused_elapsed {
            Some(paused_time) => {
                let start = if now >= paused_time {
                    now - paused_time
                } else {
                    0
                };
                self.start_time = Some(start);
                self.actual_time = Some(now);
                self.paused_elapsed = None;
            },
            None => {},
        }
        self.state = AppState::Game;
    }

    /// The pause key: resumes a paused piece, pauses a running one, and does nothing on
    /// other screens.
    pub fn on_pause_key(&mut self, now: u64)
        ensures
            old(self).state == AppState::Paused ==> *final(self) == resumed(*old(self), now),
            old(self).state == AppState::Game ==> *final(self) == (MyApp {
                paused_elapsed: Some(elapsed_between(old(self).start_time, old(self).actual_time)),
                state: AppState::Paused,
                ..*old(self)
            }),
            old(self).state != AppState::Paused && old(self).state != AppState::Game
                ==> *final(self) == *old(self),
    {
        if self.state == AppState::Paused {
            self.resume_game(now);
        } else if self.state == AppState::Game {
            self.pause_game();
        }
    }

    /// A tick at clock reading `instant` while the piece runs: records the reading, ends
    /// the piece (finished, and paused) once it is past its end, and runs the tempo pass on
    /// both staves. On other screens a tick changes nothing.
    fn tick(&mut self, instant: u64)
        ensures
            ticked(*old(self), *final(self), instant),
    {
        if self.state == AppState::Game {
            self.actual_time = Some(instant);
            let elapsed = self.elapsed();
            let longest = if self.partiture_l_selected.time >= self.partiture_r_selected.time {
                self.partiture_l_selected.time
            } else {
                self.partiture_r_selected.time
            };
            if elapsed as u128 > longest as u128 + 2 * (self.settings.timer as u128) {
                self.finished = true;
                self.state = AppState::Paused;
            }
            create_tempo_overlay(&mut self.partiture_l_selected.notes, elapsed);
            create_tempo_overlay(&mut self.partiture_r_selected.notes, elapsed);
        }
    }

    /// Starts the piece over at clock reading `now`.
    pub fn restart_game(&mut self, now: u64)
        ensures
            *final(self) == (MyApp {
                actual_time: Some(now),
                start_time: Some(now),
                paused_elapsed: None,
                state: AppState::Game,
                finished: false,
                ..*old(self)
            }),
    {
        self.actual_time = Some(now);
        self.start_time = Some(now);
        self.paused_elapsed = None;
        self.state = AppState::Game;
        self.finished = false;
    }

    /// Handles one message at clock reading `now` and says what must be done outside.
    pub fn update(&mut self, message: AppMessage, now: u64) -> (r: AppAction)
        ensures
            message == AppMessage::MainMenu(MainMenuMessage::SelectPartiture) ==> r is Stay
                && only_state(*old(self), *final(self), AppState::SlectionPartiture),
            message == AppMessage::MainMenu(MainMenuMessage::Exit) ==> r is Exit && *final(self)
                == *old(self),
            message == AppMessage::MainMenu(MainMenuMessage::OpenSettings) ==> r is Stay
                && only_state(*old(self), *final(self), AppState::Settings),
            message matches AppMessage::Game(GameMessage::Tick(instant)) ==> r is Stay && ticked(
                *old(self),
                *final(self),
                instant,
            ),
            message == AppMessage::Game(GameMessage::RestartGame) ==> r is Stay && *final(self)
                == (MyApp {
                actual_time: Some(now),
                start_time: Some(now),
                paused_elapsed: None,
                state: AppState::Game,
                finished: false,
                ..*old(self)
            }),
            message == AppMessage::Game(GameMessage::PauseGame) ==> r is Stay && *final(self) == (
            MyApp {
                paused_elapsed: Some(elapsed_between(old(self).start_time, old(self).actual_time)),
                state: AppState::Paused,
                ..*old(self)
            }),
            message == AppMessage::Game(GameMessage::ResumeGame) ==> r is Stay && *final(self)
                == resumed(*old(self), now),
            message == AppMessage::Game(GameMessage::Finished) ==> r is Stay && *final(self) == (
            MyApp { finished: true, state: AppState::Paused, ..*old(self) }),
            message matches AppMessage::Settings(SettingsMessage::ChangeTheme(t)) ==> r is SaveSettings
                && *final(self) == (MyApp {
                settings: CustomSettings { theme: t, ..old(self).settings },
                ..*old(self)
            }),
            message matches AppMessage::Settings(SettingsMessage::ChangeDifficulty(d)) ==> r
                is SaveSettings && *final(self) == (MyApp {
                settings: CustomSettings {
                    difficulty: d,
                    timer: DEFAULT_TIMER,
                    ..old(self).settings
                },
                ..*old(self)
            }),
            message == AppMessage::Settings(SettingsMessage::BackToMenu) ==> r is Stay
                && only_state(*old(self), *final(self), AppState::MainMenu),
            message matches AppMessage::Selection(SelectionMessage::StartGame(name)) ==> r
                == AppAction::LoadPiece(name) && *final(self) == (MyApp {
                partiture_name: Some(name),
                actual_time: Some(now),
                start_time: Some(now),
                paused_elapsed: None,
                finished: false,
                state: AppState::Game,
                ..*old(self)
            }),
            message == AppMessage::Selection(SelectionMessage::BackToMenu) ==> r is Stay
                && only_state(*old(self), *final(self), AppState::MainMenu),
    {
        match message {
            AppMessage::MainMenu(msg) => match msg {
                MainMenuMessage::SelectPartiture => {
                    self.state = AppState::SlectionPartiture;
                    AppAction::Stay
                },
                MainMenuMessage::Exit => AppAction::Exit,
                MainMenuMessage::OpenSettings => {
                    self.state = AppState::Settings;
                    AppAction::Stay
                },
            },
            AppMessage::Game(msg) => {
                match msg {
                    GameMessage::Tick(instant) => self.tick(instant),
                    GameMessage::RestartGame => self.restart_game(now),
                    GameMessage::ResumeGame => self.resume_game(now),
                    GameMessage::PauseGame => self.pause_game(),
                    GameMessage::Finished => {
                        self.finished = true;
                        self.state = AppState::Paused;
                    },
                }
                AppAction::Stay
            },
            AppMessage::Settings(msg) => match msg {
                SettingsMessage::ChangeTheme(val) => {
                    self.settings.theme = val;
                    AppAction::SaveSettings
                },
                SettingsMessage::ChangeDifficulty(val) => {
                    self.settings.difficulty = val;
                    self.settings.timer = DEFAULT_TIMER;
                    AppAction::SaveSettings
                },
                SettingsMessage::BackToMenu => {
                    self.state = AppState::MainMenu;
                    AppAction::Stay
                },
            },
            AppMessage::Selection(msg) => match msg {
                SelectionMessage::StartGame(name) => {
                    self.partiture_name = Some(name.clone());
                    self.restart_game(now);
                    AppAction::LoadPiece(name)
                },
                SelectionMessage::BackToMenu => {
                    self.state = AppState::MainMenu;
                    AppAction::Stay
                },
            },
        }
    }

    /// Takes the notes read for the piece being started: both staves are prepared by
    /// `sanitize_data`. Returns `false`, changing nothing, when a staff's length would
    /// pass `u64::MAX`.
    pub fn load_piece(&mut self, notes_l: Vec<Note>, notes_r: Vec<Note>) -> (r: bool)
        ensures
            r == (old(self).partiture_l_selected.time + sum(durations(notes_l@)) <= u64::MAX
                && old(self).partiture_r_selected.time + sum(durations(notes_r@)) <= u64::MAX),
            !r ==> *final(self) == *old(self),
            r ==> {
                &&& grouped(notes_l@, final(self).partiture_l_selected.notes@, (0, false))
                &&& grouped(
                    notes_r@,
                    final(self).partiture_r_selected.notes@,
                    join_scan(durations(notes_l@), (0, false)),
                )
                &&& final(self).partiture_l_selected.time == old(self).partiture_l_selected.time
                    + sum(durations(notes_l@))
                &&& final(self).partiture_r_selected.time == old(self).partiture_r_selected.time
                    + sum(durations(notes_r@))
                &&& final(self).partiture_l_selected == (Partiture {
                    notes: final(self).partiture_l_selected.notes,
                    time: final(self).partiture_l_selected.time,
                    ..old(self).partiture_l_selected
                })
                &&& final(self).partiture_r_selected == (Partiture {
                    notes: final(self).partiture_r_selected.notes,
                    time: final(self).partiture_r_selected.time,
                    ..old(self).partiture_r_selected
                })
                &&& *final(self) == (MyApp {
                    partiture_l_selected: final(self).partiture_l_selected,
                    partiture_r_selected: final(self).partiture_r_selected,
                    ..*old(self)
                })
            },
    {
        let fits_l = checked_total(&notes_l, self.partiture_l_selected.time);
        let fits_r = checked_total(&notes_r, self.partiture_r_selected.time);
        if fits_l.is_none() || fits_r.is_none() {
            return false;
        }
        let mut notes_l = notes_l;
        let mut notes_r = notes_r;
        sanitize_data(
            &mut self.partiture_l_selected,
            &mut self.partiture_r_selected,
            &mut notes_l,
            &mut notes_r,
        );
        true
    }

    /// The two staves drawn while the piece runs, right hand first: the selected notes,
    /// the sum of their durations as the length, and the time elapsed scaled by the
    /// difficulty.
    pub fn game_staves(&self) -> (r: (Partiture, Partiture))
        ensures
            staff_for(r.0, self.partiture_r_selected, *self, Hand::Right),
            staff_for(r.1, self.partiture_l_selected, *self, Hand::Left),
    {
        let elapsed = self.elapsed();
        let notes_r = self.partiture_r_selected.notes.clone();
        assert(notes_r@ =~= self.partiture_r_selected.notes@);
        let time_r = total_duration(&notes_r);
        let right = Partiture::new(notes_r, time_r, elapsed, self.settings, Hand::Right);
        let notes_l = self.partiture_l_selected.notes.clone();
        assert(notes_l@ =~= self.partiture_l_selected.notes@);
        let time_l = total_duration(&notes_l);
        let left = Partiture::new(notes_l, time_l, elapsed, self.settings, Hand::Left);
        (right, left)
    }

    /// The title shown over the staves: empty during the first three seconds, then the
    /// name of the piece.
    pub fn game_title(&self) -> (r: String)
        ensures
            elapsed_between(self.start_time, self.actual_time) < 3 * MICROS_PER_SECOND ==> r@
                == Seq::<char>::empty(),
            elapsed_between(self.start_time, self.actual_time) >= 3 * MICROS_PER_SECOND ==> (
            match self.partiture_name {
                Some(name) => r@ == name@,
                None => r@ == Seq::<char>::empty(),
            }),
    {
        if self.elapsed() < 3 * MICROS_PER_SECOND {
            return String::new();
        }
        match &self.partiture_name {
            Some(name) => name.clone(),
            None => String::new(),
        }
    }
}

/// `staff` is the staff drawn for `selected` of `app`, played by `hand`.
pub open spec fn staff_for(staff: Partiture, selected: Partiture, app: MyApp, hand: Hand) -> bool {
    let ds = durations(selected.notes@);
    &&& staff.notes@ == selected.notes@
    &&& staff.time == (if sum(ds) <= u64::MAX {
        sum(ds) as u64
    } else {
        u64::MAX
    })
    &&& staff.elapsed == scaled_elapsed(elapsed_between(app.start_time, app.actual_time), app.settings)
    &&& staff.settings == app.settings
    &&& staff.hand == hand
}

/// `base` plus the durations of `notes`, when that fits in a `u64`.
pub fn checked_total(notes: &Vec<Note>, base: u64) -> (r: Option<u64>)
    ensures
        base + sum(durations(notes@)) <= u64::MAX ==> r == Some((base + sum(durations(notes@))) as u64),
        base + sum(durations(notes@)) > u64::MAX ==> r is None,
{
    let ghost ds = durations(notes@);
    let mut total: u64 = base;
    for i in 0..notes.len()
        invariant
            ds == durations(notes@),
            total == base + sum(ds.take(i as int)),
    {
        proof {
            crate::partiture::lemma_sum_step(ds, i as int);
        }
        match total.checked_add(notes[i].duration) {
            Some(t) => {
                total = t;
            },
            None => {
                proof {
                    crate::partiture::lemma_sum_prefix_le(ds, i + 1);
                }
                return None;
            },
        }
    }
    proof {
        assert(ds.take(notes.len() as int) =~= ds);
    }
    Some(total)
}

} // verus!
