use vstd::prelude::*;

use crate::note::Note;
use crate::settings::{default_settings, CustomSettings, MICROS_PER_SECOND};

verus! {

/// Longest note that still counts towards a beamed group, in microseconds.
pub const BEAM_NOTE_MAX: u64 = 500_000;

/// Accumulated duration at which a beamed group is closed, in microseconds.
pub const BEAM_GROUP_SPAN: u64 = 1_000_000;

/// Duration of an eighth note, the figure that is paired by the tempo pass.
pub const EIGHTH: u64 = 500_000;

/// The hand that plays a staff.
#[derive(Debug, Clone, Copy, PartialEq, Eq, Structural)]
pub enum Hand {
    Left,
    Right,
}

impl Hand {
    pub open spec fn label(self) -> Seq<char> {
        match self {
            Hand::Left => seq!['l', 'e', 'f', 't'],
            Hand::Right => seq!['r', 'i', 'g', 'h', 't'],
        }
    }

    /// The name of the hand, `left` or `right`, as the notes file spells it.
    pub fn to_string(&self) -> (r: String)
        ensures
            r@ == self.label(),
    {
        match self {
            Hand::Left => {
                let s = String::from_str("left");
                proof {
                    reveal_strlit("left");
                }
                s
            },
            Hand::Right => {
                let s = String::from_str("right");
                proof {
                    reveal_strlit("right");
                }
                s
            },
        }
    }
}

/// Metadata of a piece: its time signature and the length of one beat.
#[derive(Debug, Clone, Copy)]
pub struct PieceMetadata {
    /// Beats per measure and the note value of one beat, such as `(3, 8)`.
    pub time_signature: (u8, u8),
    /// Length of one beat, in microseconds.
    pub base_note_value: u64,
}

/// One staff of the piece being played: its notes, total length, the time elapsed on it,
/// the settings and the hand that plays it.
#[derive(Debug, Clone)]
pub struct Partiture {
    pub notes: Vec<Note>,
    /// Total length, in microseconds.
    pub time: u64,
    /// Time elapsed, in microseconds, scaled by the difficulty.
    pub elapsed: u64,
    pub settings: CustomSettings,
    pub hand: Hand,
}

/// The durations of a sequence of notes.
pub open spec fn durations(notes: Seq<Note>) -> Seq<u64> {
    notes.map_values(|n: Note| n.duration)
}

/// Sum of a sequence of durations.
pub open spec fn sum(ds: Seq<u64>) -> int
    decreases ds.len(),
{
    if ds.len() == 0 {
        0
    } else {
        sum(ds.drop_last()) + ds.last()
    }
}

/// The state of the beam grouping after one more note: a short note adds its duration
/// to the running span and closes a group, starting beaming, when the span reaches a
/// second; a long note resets the span and stops beaming.
pub open spec fn join_step(state: (int, bool), duration: u64) -> (int, bool) {
    if duration <= BEAM_NOTE_MAX {
        if state.0 + duration >= BEAM_GROUP_SPAN {
            (0, true)
        } else {
            (state.0 + duration, state.1)
        }
    } else {
        (0, false)
    }
}

/// The state of the beam grouping after the durations `ds`, from `start`.
pub open spec fn join_scan(ds: Seq<u64>, start: (int, bool)) -> (int, bool)
    decreases ds.len(),
{
    if ds.len() == 0 {
        start
    } else {
        join_step(join_scan(ds.drop_last(), start), ds.last())
    }
}

/// Beaming is on right after the note at index `i`.
pub open spec fn beaming_at(ds: Seq<u64>, start: (int, bool), i: int) -> bool {
    join_scan(ds.take(i + 1), start).1
}

/// The beam mark of note `i` after grouping: a note is marked when beaming is on after
/// it or after the note that follows it; a mark it had already stays.
pub open spec fn marked(notes: Seq<Note>, start: (int, bool), i: int) -> bool {
    let ds = durations(notes);
    notes[i].joined || beaming_at(ds, start, i) || (i + 1 < notes.len() && beaming_at(
        ds,
        start,
        i + 1,
    ))
}

/// `after` is `before` with the beam marks of grouping from `start`, all else kept.
pub open spec fn grouped(before: Seq<Note>, after: Seq<Note>, start: (int, bool)) -> bool {
    &&& after.len() == before.len()
    &&& forall|i: int|
        0 <= i < before.len() ==> #[trigger] after[i] == (Note {
            joined: marked(before, start, i),
            ..before[i]
        })
}

/// How many eighth notes of an open pair the tempo pass has counted after the durations
/// `ds`: it counts consecutive eighth notes and starts over after each pair and after a
/// note of any other length.
pub open spec fn pair_count(ds: Seq<u64>) -> int
    decreases ds.len(),
{
    if ds.len() == 0 {
        0
    } else if ds.last() == EIGHTH {
        if pair_count(ds.drop_last()) + 1 == 2 {
            0
        } else {
            pair_count(ds.drop_last()) + 1
        }
    } else {
        0
    }
}

/// The note at index `i` closes a pair of consecutive eighth notes.
pub open spec fn closes_pair(ds: Seq<u64>, i: int) -> bool {
    ds[i] == EIGHTH && pair_count(ds.take(i)) == 1
}

/// The note after the tempo pass at time `elapsed`: a note that has not started yet is not
/// sounding; an eighth note that closes a pair is joined, any other eighth note keeps its
/// mark, and a note of another length is not joined.
pub open spec fn tempo_note(notes: Seq<Note>, i: int, elapsed: u64) -> Note {
    let ds = durations(notes);
    let n = notes[i];
    Note {
        is_active: if n.start > elapsed {
            false
        } else {
            n.is_active
        },
        joined: if ds[i] == EIGHTH {
            closes_pair(ds, i) || n.joined
        } else {
            false
        },
        ..n
    }
}

pub(crate) proof fn lemma_sum_step(ds: Seq<u64>, i: int)
    requires
        0 <= i < ds.len(),
    ensures
        sum(ds.take(i + 1)) == sum(ds.take(i)) + ds[i],
{
    assert(ds.take(i + 1).drop_last() =~= ds.take(i));
}

pub(crate) proof fn lemma_sum_prefix_le(ds: Seq<u64>, i: int)
    requires
        0 <= i <= ds.len(),
    ensures
        sum(ds.take(i)) <= sum(ds),
    decreases ds.len() - i,
{
    if i < ds.len() {
        lemma_sum_step(ds, i);
        lemma_sum_prefix_le(ds, i + 1);
    } else {
        assert(ds.take(i) =~= ds);
    }
}

proof fn lemma_scan_step(ds: Seq<u64>, start: (int, bool), i: int)
    requires
        0 <= i < ds.len(),
    ensures
        join_scan(ds.take(i + 1), start) == join_step(join_scan(ds.take(i), start), ds[i]),
{
    assert(ds.take(i + 1).drop_last() =~= ds.take(i));
}

proof fn lemma_pair_step(ds: Seq<u64>, i: int)
    requires
        0 <= i < ds.len(),
    ensures
        pair_count(ds.take(i + 1)) == (if ds[i] == EIGHTH {
            if pair_count(ds.take(i)) + 1 == 2 {
                0
            } else {
                pair_count(ds.take(i)) + 1
            }
        } else {
            0
        }),
{
    assert(ds.take(i + 1).drop_last() =~= ds.take(i));
}

proof fn lemma_pair_count_small(ds: Seq<u64>)
    ensures
        0 <= pair_count(ds) <= 1,
    decreases ds.len(),
{
    if ds.len() > 0 {
        lemma_pair_count_small(ds.drop_last());
    }
}

/// Sum of the durations of `notes`, in microseconds, or `u64::MAX` where it is larger.
pub fn total_duration(notes: &Vec<Note>) -> (r: u64)
    ensures
        sum(durations(notes@)) <= u64::MAX ==> r == sum(durations(notes@)),
        sum(durations(notes@)) > u64::MAX ==> r == u64::MAX,
{
    let ghost ds = durations(notes@);
    let mut total: u64 = 0;
    for i in 0..notes.len()
        invariant
            ds == durations(notes@),
            sum(ds.take(i as int)) <= u64::MAX ==> total == sum(ds.take(i as int)),
            sum(ds.take(i as int)) > u64::MAX ==> total == u64::MAX,
    {
        proof {
            lemma_sum_step(ds, i as int);
        }
        total = total.saturating_add(notes[i].duration);
    }
    proof {
        assert(ds.take(notes.len() as int) =~= ds);
    }
    total
}

/// The number shown by the countdown before a piece starts, `elapsed` microseconds in:
/// `3`, `2` and `1` during the first three seconds, and nothing afterwards.
pub open spec fn countdown(elapsed: u64) -> Option<u64> {
    if elapsed < 3 * MICROS_PER_SECOND {
        Some((3 - elapsed / MICROS_PER_SECOND) as u64)
    } else {
        None
    }
}

/// The number shown by the countdown `elapsed` microseconds in.
pub fn countdown_at(elapsed: u64) -> (r: Option<u64>)
    ensures
        r == countdown(elapsed),
{
    let secs = elapsed / MICROS_PER_SECOND;
    if secs <= 2 {
        Some(3 - secs)
    } else {
        None
    }
}

/// Time elapsed on a staff: the clock's elapsed time scaled by the difficulty's
/// multiplier, rounded down, and at most `u64::MAX`.
pub open spec fn scaled_elapsed(elapsed: u64, settings: CustomSettings) -> u64 {
    let scaled = elapsed * settings.difficulty.halves() / 2;
    if scaled > u64::MAX {
        u64::MAX
    } else {
        scaled as u64
    }
}

/// Marks the beamed notes of one staff, from the running span `acc` and the beaming flag
/// `joined`, adds their durations to `partiture.time` and stores the marked notes in
/// `partiture`.
fn group_staff(
    partiture: &mut Partiture,
    notes: &mut Vec<Note>,
    acc: &mut u64,
    joined: &mut bool,
)
    requires
        old(partiture).time + sum(durations(old(notes)@)) <= u64::MAX,
        *old(acc) < BEAM_GROUP_SPAN,
    ensures
        grouped(old(notes)@, final(notes)@, (*old(acc) as int, *old(joined))),
        (*final(acc) as int, *final(joined)) == join_scan(
            durations(old(notes)@),
            (*old(acc) as int, *old(joined)),
        ),
        *final(acc) < BEAM_GROUP_SPAN,
        final(partiture).time == old(partiture).time + sum(durations(old(notes)@)),
        final(partiture).notes@ == final(notes)@,
        final(partiture).elapsed == old(partiture).elapsed,
        final(partiture).settings == old(partiture).settings,
        final(partiture).hand == old(partiture).hand,
{
    let ghost before = notes@;
    let ghost ds = durations(before);
    let ghost start = (*acc as int, *joined);
    let n = notes.len();
    for i in 0..n
        invariant
            n == before.len(),
            ds == durations(before),
            notes@.len() == n,
            partiture.time == old(partiture).time + sum(ds.take(i as int)),
            old(partiture).time + sum(ds) <= u64::MAX,
            partiture.elapsed == old(partiture).elapsed,
            partiture.settings == old(partiture).settings,
            partiture.hand == old(partiture).hand,
            (*acc as int, *joined) == join_scan(ds.take(i as int), start),
            *acc < BEAM_GROUP_SPAN,
            forall|k: int|
                0 <= k < i ==> #[trigger] notes@[k] == (Note {
                    joined: before[k].joined || beaming_at(ds, start, k) || (k + 1 < i
                        && beaming_at(ds, start, k + 1)),
                    ..before[k]
                }),
            forall|k: int| i <= k < n ==> #[trigger] notes@[k] == before[k],
    {
        proof {
            lemma_sum_step(ds, i as int);
            lemma_sum_prefix_le(ds, i + 1);
            lemma_scan_step(ds, start, i as int);
        }
        let d = notes[i].duration;
        assert(d == ds[i as int]);
        partiture.time = partiture.time + d;
        if d <= BEAM_NOTE_MAX {
            *acc = *acc + d;
            if *acc >= BEAM_GROUP_SPAN {
                *acc = 0;
                *joined = true;
            }
        } else {
            *acc = 0;
            *joined = false;
        }
        assert(beaming_at(ds, start, i as int) == *joined);
        if *joined {
            let mut cur = notes[i].clone();
            cur.joined = true;
            notes.set(i, cur);
            if i > 0 {
                let mut prev = notes[i - 1].clone();
                prev.joined = true;
                notes.set(i - 1, prev);
            }
        }
    }
    proof {
        assert(ds.take(n as int) =~= ds);
    }
    partiture.notes = notes.clone();
    assert(partiture.notes@ =~= notes@);
}

/// Prepares the two staves of a piece: marks the beamed notes of the left hand and then of
/// the right hand (the grouping runs on from one hand into the other), adds the
/// durations of each hand to its staff's length, and stores the marked notes in the staves.
pub fn sanitize_data(
    partiture_l: &mut Partiture,
    partiture_r: &mut Partiture,
    notes_l: &mut Vec<Note>,
    notes_r: &mut Vec<Note>,
)
    requires
        old(partiture_l).time + sum(durations(old(notes_l)@)) <= u64::MAX,
        old(partiture_r).time + sum(durations(old(notes_r)@)) <= u64::MAX,
    ensures
        grouped(old(notes_l)@, final(notes_l)@, (0, false)),
        grouped(old(notes_r)@, final(notes_r)@, join_scan(durations(old(notes_l)@), (0, false))),
        final(partiture_l).time == old(partiture_l).time + sum(durations(old(notes_l)@)),
        final(partiture_r).time == old(partiture_r).time + sum(durations(old(notes_r)@)),
        final(partiture_l).notes@ == final(notes_l)@,
        final(partiture_r).notes@ == final(notes_r)@,
        final(partiture_l).elapsed == old(partiture_l).elapsed,
        final(partiture_r).elapsed == old(partiture_r).elapsed,
        final(partiture_l).settings == old(partiture_l).settings,
        final(partiture_r).settings == old(partiture_r).settings,
        final(partiture_l).hand == old(partiture_l).hand,
        final(partiture_r).hand == old(partiture_r).hand,
{
    let mut acc: u64 = 0;
    let mut joined = false;
    group_staff(partiture_l, notes_l, &mut acc, &mut joined);
    group_staff(partiture_r, notes_r, &mut acc, &mut joined);
}

/// The tempo pass run on every tick: notes that start after `elapsed` stop sounding; every
/// second eighth note of a run of eighth notes is joined, other eighth notes keep their
/// mark, and notes of any other length lose it.
pub fn create_tempo_overlay(notes: &mut Vec<Note>, elapsed: u64)
    ensures
        final(notes)@.len() == old(notes)@.len(),
        forall|i: int|
            0 <= i < old(notes)@.len() ==> #[trigger] final(notes)@[i] == tempo_note(
                old(notes)@,
                i,
                elapsed,
            ),
{
    let ghost before = notes@;
    let ghost ds = durations(before);
    let mut count: u8 = 0;
    let n = notes.len();
    for i in 0..n
        invariant
            n == before.len(),
            ds == durations(before),
            notes@.len() == n,
            count as int == pair_count(ds.take(i as int)),
            forall|k: int| 0 <= k < i ==> #[trigger] notes@[k] == tempo_note(before, k, elapsed),
            forall|k: int| i <= k < n ==> #[trigger] notes@[k] == before[k],
    {
        proof {
            lemma_pair_step(ds, i as int);
            lemma_pair_count_small(ds.take(i as int));
        }
        let mut cur = notes[i].clone();
        assert(cur.duration == ds[i as int]);
        if cur.start > elapsed {
            cur.is_active = false;
        }
        if cur.duration == EIGHTH {
            count = count + 1;
            if count == 2 {
                cur.joined = true;
                count = 0;
            }
        } else {
            count = 0;
            cur.joined = false;
        }
        notes.set(i, cur);
    }
}

impl Default for Partiture {
    /// An empty staff for the right hand, with the default settings.
    fn default() -> (r: Partiture)
        ensures
            r.notes@.len() == 0,
            r.time == 0,
            r.elapsed == 0,
            r.settings == default_settings(),
            r.hand == Hand::Right,
    {
        Partiture {
            notes: Vec::new(),
            time: 0,
            elapsed: 0,
            settings: CustomSettings::default(),
            hand: Hand::Right,
        }
    }
}

impl Partiture {
    /// A staff whose elapsed time is `elapsed` scaled by the difficulty's multiplier
    /// (rounded down to a whole microsecond, and at most `u64::MAX`).
    pub fn new(notes: Vec<Note>, time: u64, elapsed: u64, settings: CustomSettings, hand: Hand) -> (r:
        Partiture)
        ensures
            r.notes == notes,
            r.time == time,
            r.elapsed == scaled_elapsed(elapsed, settings),
            r.settings == settings,
            r.hand == hand,
    {
        let halves = settings.difficulty.get_multiplier();
        proof {
            assert(elapsed * halves <= 3 * 0xffff_ffff_ffff_ffff) by (nonlinear_arith)
                requires
                    1 <= halves <= 3,
                    elapsed <= 0xffff_ffff_ffff_ffff,
            ;
        }
        let scaled = (elapsed as u128) * (halves as u128) / 2;
        let capped: u64 = if scaled > u64::MAX as u128 {
            u64::MAX
        } else {
            scaled as u64
        };
        Partiture { notes, time, elapsed: capped, settings, hand }
    }

    /// The number shown by the countdown over this staff, by its scaled elapsed time.
    pub fn intro_countdown(&self) -> (r: Option<u64>)
        ensures
            r == countdown(self.elapsed),
    {
        countdown_at(self.elapsed)
    }
}

} // verus!
