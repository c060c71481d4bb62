use vstd::prelude::*;

use crate::note::{anchor_for, flag_anchor, Note, Point};
use crate::partiture::{Hand, Partiture};

verus! {

/// Left padding of the area where notes scroll, in pixels.
pub const WORK_PADDING: i32 = 120;

/// Length of a measure, in microseconds (four beats of one second).
pub const MEASURE: u64 = 4_000_000;

/// Time added to the countdown before the first note reaches the left edge.
pub const LEAD_IN: u64 = 3_000_000;

/// A rectangle on the canvas, in whole pixels.
#[derive(Debug, Clone, Copy, PartialEq, Eq, Structural)]
pub struct Rect {
    pub x: i32,
    pub y: i32,
    pub width: i32,
    pub height: i32,
}

/// One thing to draw on a staff.
#[derive(Debug, Clone)]
pub enum Shape {
    /// A bar line at this column.
    MeasureLine { x: i64 },
    /// A note whose head is centred at `at`; its `last_position` holds the anchor of the
    /// previous note drawn, where a beam from it ends.
    NoteHead { note: Note, at: Point },
}

/// Draws every note of a staff and the bar lines between them.
pub struct AllNotesOverlay<'a> {
    pub partiture: &'a Partiture,
}

/// Floor division by a positive divisor.
pub fn div_floor(a: i128, d: i128) -> (q: i128)
    requires
        d > 0,
        a > i128::MIN,
    ensures
        q == a / d,
        a >= 0 ==> 0 <= q <= a,
        a < 0 ==> a <= q < 0,
{
    if a >= 0 {
        let q = a / d;
        proof {
            vstd::arithmetic::div_mod::lemma_div_pos_is_pos(a as int, d as int);
            vstd::arithmetic::div_mod::lemma_div_is_ordered_by_denominator(a as int, 1, d as int);
        }
        q
    } else {
        let p: i128 = -a;
        let c: i128 = p / d;
        let r: i128 = p % d;
        proof {
            vstd::arithmetic::div_mod::lemma_fundamental_div_mod(p as int, d as int);
            assert(0 <= c * d <= p) by (nonlinear_arith)
                requires
                    p == d * c + r,
                    0 <= r < d,
                    p > 0,
            ;
        }
        if r == 0 {
            proof {
                assert(c >= 1) by (nonlinear_arith)
                    requires
                        p == d * c + r,
                        r == 0,
                        p > 0,
                        d > 0,
                ;
                assert(a == (-c) * d + 0) by (nonlinear_arith)
                    requires
                        p == d * c + r,
                        r == 0,
                        a == -p,
                ;
                vstd::arithmetic::div_mod::lemma_fundamental_div_mod_converse(a as int, d as int, -c, 0);
                assert(-c >= a) by (nonlinear_arith)
                    requires
                        p == d * c + r,
                        r == 0,
                        c >= 1,
                        d >= 1,
                        a == -p,
                ;
            }
            -c
        } else {
            proof {
                assert(a == (-c - 1) * d + (d - r)) by (nonlinear_arith)
                    requires
                        p == d * c + r,
                        a == -p,
                ;
                vstd::arithmetic::div_mod::lemma_fundamental_div_mod_converse(
                    a as int,
                    d as int,
                    -c - 1,
                    d - r,
                );
                assert(-c - 1 >= a) by (nonlinear_arith)
                    requires
                        p == d * c + r,
                        0 < r < d,
                        c >= 0,
                        a == -p,
                ;
            }
            -c - 1
        }
    }
}

/// Steps above middle C, in tenths of a half staff space, of a pitch on the treble staff.
pub open spec fn treble_steps(pitch: u8) -> int {
    if pitch == 60 || pitch == 61 {
        8
    } else if pitch == 62 || pitch == 63 {
        16
    } else if pitch == 64 {
        20
    } else if pitch == 65 || pitch == 66 {
        30
    } else if pitch == 67 || pitch == 68 {
        40
    } else if pitch == 69 || pitch == 70 {
        50
    } else if pitch == 71 {
        60
    } else if pitch == 72 || pitch == 73 {
        70
    } else if pitch == 74 || pitch == 75 {
        80
    } else if pitch == 76 {
        91
    } else if pitch == 77 {
        101
    } else if pitch == 78 {
        103
    } else if pitch == 79 {
        105
    } else if pitch == 80 || pitch == 81 {
        110
    } else if pitch == 82 || pitch == 83 {
        115
    } else {
        0
    }
}

/// Steps above F2 (MIDI 41), in tenths of a half staff space, of a pitch on the bass
/// staff.
pub open spec fn bass_steps(pitch: u8) -> int {
    if pitch == 36 || pitch == 37 {
        -50
    } else if pitch == 38 || pitch == 39 {
        -45
    } else if pitch == 40 {
        -10
    } else if pitch == 41 || pitch == 42 {
        0
    } else if pitch == 43 || pitch == 44 {
        10
    } else if pitch == 45 || pitch == 46 {
        20
    } else if pitch == 47 {
        30
    } else if pitch == 48 || pitch == 49 {
        40
    } else if pitch == 50 || pitch == 51 {
        50
    } else if pitch == 52 || pitch == 53 {
        60
    } else if pitch == 54 || pitch == 55 {
        70
    } else if pitch == 56 || pitch == 57 {
        80
    } else if pitch == 58 || pitch == 59 {
        90
    } else if pitch == 60 {
        100
    } else {
        0
    }
}

pub open spec fn staff_steps(pitch: u8, hand: Hand) -> int {
    match hand {
        Hand::Right => treble_steps(pitch),
        Hand::Left => bass_steps(pitch),
    }
}

/// The row of a note's head: the bottom of the staff area, raised by its steps (each step
/// half of a sixth of the area's height), and five pixels up.
pub open spec fn note_y(pitch: u8, area: Rect, hand: Hand) -> int {
    area.y + area.height - (staff_steps(pitch, hand) * area.height) / 120 - 5
}

/// The area where notes scroll: the staff without its left padding.
pub open spec fn work_area(bounds: Rect) -> (int, int) {
    (bounds.x + WORK_PADDING, bounds.width - WORK_PADDING)
}

/// How far, in microseconds, the time `at` lies ahead of the left edge of the work area.
pub open spec fn lead(p: Partiture, at: int) -> int {
    at - (p.elapsed - (p.settings.timer + LEAD_IN))
}

/// The column of time `at`: the left edge of the work area plus the part of its width
/// that the lead is of the staff's length; `None` when the staff has no length or the
/// column falls outside the work area.
pub open spec fn column_of(p: Partiture, bounds: Rect, at: int) -> Option<int> {
    let (wx, ww) = work_area(bounds);
    if p.time == 0 {
        None
    } else {
        let x = wx + (lead(p, at) * ww) / (p.time as int);
        if wx <= x <= wx + ww {
            Some(x)
        } else {
            None
        }
    }
}

/// The measure a time falls in.
pub open spec fn measure_of(at: u64) -> int {
    at as int / MEASURE as int
}

/// The bar line of measure `m`, if it is visible.
pub open spec fn bar_line(p: Partiture, bounds: Rect, m: int) -> Seq<Shape> {
    match column_of(p, bounds, m * MEASURE) {
        Some(x) => seq![Shape::MeasureLine { x: x as i64 }],
        None => seq![],
    }
}

/// The visible bar lines of measures `from` to `to`, in order.
pub open spec fn bar_lines(p: Partiture, bounds: Rect, from: int, to: int) -> Seq<Shape>
    decreases to - from + 1,
{
    if to < from {
        seq![]
    } else {
        bar_lines(p, bounds, from, to - 1) + bar_line(p, bounds, to)
    }
}

/// Drawing state after some notes: the last measure whose bar line was reached, the beam
/// anchor of the last note drawn, and the shapes so far.
pub open spec fn scene_step(
    p: Partiture,
    bounds: Rect,
    state: (int, Point, Seq<Shape>),
    note: Note,
) -> (int, Point, Seq<Shape>) {
    let m = measure_of(note.start);
    let shapes = state.2 + bar_lines(p, bounds, state.0 + 1, m);
    match column_of(p, bounds, note.start as int) {
        None => (m, state.1, shapes),
        Some(x) => {
            let at = Point { x: x as i64, y: note_y(note.pitch, bounds, p.hand) as i64 };
            (
                m,
                flag_anchor(note.pitch, at),
                shapes.push(Shape::NoteHead { note: Note { last_position: state.1, ..note }, at }),
            )
        },
    }
}

/// Drawing state after the notes `notes`, starting before the first measure with no
/// previous anchor.
pub open spec fn scene(p: Partiture, bounds: Rect, notes: Seq<Note>) -> (int, Point, Seq<Shape>)
    decreases notes.len(),
{
    if notes.len() == 0 {
        (-1, Point::origin(), seq![])
    } else {
        scene_step(p, bounds, scene(p, bounds, notes.drop_last()), notes.last())
    }
}

/// The shape is drawn at a column inside the work area of `bounds`.
pub open spec fn in_work_area(shape: Shape, bounds: Rect) -> bool {
    let (wx, ww) = work_area(bounds);
    match shape {
        Shape::MeasureLine { x } => wx <= x <= wx + ww,
        Shape::NoteHead { at, .. } => wx <= at.x <= wx + ww,
    }
}

proof fn lemma_bar_lines_in_work_area(p: Partiture, bounds: Rect, from: int, to: int)
    ensures
        forall|k: int|
            0 <= k < bar_lines(p, bounds, from, to).len() ==> in_work_area(
                #[trigger] bar_lines(p, bounds, from, to)[k],
                bounds,
            ),
    decreases to - from + 1,
{
    if to >= from {
        lemma_bar_lines_in_work_area(p, bounds, from, to - 1);
        let prev = bar_lines(p, bounds, from, to - 1);
        let last = bar_line(p, bounds, to);
        let all = bar_lines(p, bounds, from, to);
        assert(all == prev + last);
        assert forall|k: int| 0 <= k < all.len() implies in_work_area(#[trigger] all[k], bounds) by {
            if k >= prev.len() {
                assert(all[k] == last[k - prev.len()]);
            }
        }
    }
}

/// Nothing is drawn outside the work area: every bar line and every note head of the scene
/// of any notes on any staff lies at a column between the work area's left and right edges.
pub proof fn lemma_scene_in_work_area(p: Partiture, bounds: Rect, notes: Seq<Note>)
    ensures
        forall|k: int|
            0 <= k < scene(p, bounds, notes).2.len() ==> in_work_area(
                #[trigger] scene(p, bounds, notes).2[k],
                bounds,
            ),
    decreases notes.len(),
{
    if notes.len() > 0 {
        let before = scene(p, bounds, notes.drop_last());
        let note = notes.last();
        lemma_scene_in_work_area(p, bounds, notes.drop_last());
        lemma_bar_lines_in_work_area(p, bounds, before.0 + 1, measure_of(note.start));
        let lines = bar_lines(p, bounds, before.0 + 1, measure_of(note.start));
        let shapes = before.2 + lines;
        assert forall|k: int| 0 <= k < shapes.len() implies in_work_area(
            #[trigger] shapes[k],
            bounds,
        ) by {
            if k >= before.2.len() {
                assert(shapes[k] == lines[k - before.2.len()]);
            }
        }
    }
}

/// The row of the head of a note of this pitch on the staff of `hand` in `area`.
pub fn calculate_note_y_in_staff(pitch: u8, area: Rect, hand: Hand) -> (r: i64)
    ensures
        r == note_y(pitch, area, hand),
        -0x100_0000_0000 <= r <= 0x100_0000_0000,
{
    let steps: i64 = match hand {
        Hand::Right => match pitch {
            60 | 61 => 8,
            62 | 63 => 16,
            64 => 20,
            65 | 66 => 30,
            67 | 68 => 40,
            69 | 70 => 50,
            71 => 60,
            72 | 73 => 70,
            74 | 75 => 80,
            76 => 91,
            77 => 101,
            78 => 103,
            79 => 105,
            80 | 81 => 110,
            82 | 83 => 115,
            _ => 0,
        },
        Hand::Left => match pitch {
            36 | 37 => -50,
            38 | 39 => -45,
            40 => -10,
            41 | 42 => 0,
            43 | 44 => 10,
            45 | 46 => 20,
            47 => 30,
            48 | 49 => 40,
            50 | 51 => 50,
            52 | 53 => 60,
            54 | 55 => 70,
            56 | 57 => 80,
            58 | 59 => 90,
            60 => 100,
            _ => 0,
        },
    };
    assert(steps == staff_steps(pitch, hand));
    assert(-50 <= steps <= 115);
    let h = area.height as i128;
    proof {
        assert(-115 * 0x8000_0000 <= steps * h <= 115 * 0x8000_0000) by (nonlinear_arith)
            requires
                -50 <= steps <= 115,
                -0x8000_0000 <= h < 0x8000_0000,
        ;
    }
    let down = div_floor(steps as i128 * h, 120);
    (area.y as i128 + h - down - 5) as i64
}

/// The column of time `at` on the staff `p` drawn in `bounds`, if it is visible.
pub fn column_at(p: &Partiture, bounds: Rect, at: u64) -> (r: Option<i64>)
    ensures
        r matches Some(x) ==> column_of(*p, bounds, at as int) == Some(x as int),
        r is None ==> column_of(*p, bounds, at as int) is None,
{
    if p.time == 0 {
        return None;
    }
    let wx: i128 = bounds.x as i128 + WORK_PADDING as i128;
    let ww: i128 = bounds.width as i128 - WORK_PADDING as i128;
    let lead: i128 = at as i128 - (p.elapsed as i128 - (p.settings.timer as i128 + LEAD_IN as i128));
    proof {
        assert(-0x4_0000_0000_0000_0000_0000_0000 <= lead * ww <= 0x4_0000_0000_0000_0000_0000_0000)
            by (nonlinear_arith)
            requires
                -0x4_0000_0000_0000_0000 <= lead <= 0x4_0000_0000_0000_0000,
                -0x1_0000_0000 <= ww <= 0x1_0000_0000,
        ;
    }
    let q = div_floor(lead * ww, p.time as i128);
    let x: i128 = wx + q;
    if wx <= x && x <= wx + ww {
        Some(x as i64)
    } else {
        None
    }
}

/// The rows of the five lines of a staff drawn in `bounds`: the lines split the height in
/// five equal bands, the first at the top.
pub open spec fn staff_row(bounds: Rect, i: int) -> int {
    bounds.y + (i * bounds.height) / 5
}

/// Height of a staff line, in pixels.
pub const STAFF_LINE_HEIGHT: i64 = 2;

/// The rows of the five staff lines of a staff drawn in `bounds`, top first.
pub fn staff_line_rows(bounds: Rect) -> (r: Vec<i64>)
    ensures
        r@.len() == 5,
        forall|i: int| 0 <= i < 5 ==> r@[i] == staff_row(bounds, i),
{
    let mut rows: Vec<i64> = Vec::new();
    for i in 0..5u8
        invariant
            rows@.len() == i,
            forall|k: int| 0 <= k < i ==> rows@[k] == staff_row(bounds, k),
    {
        proof {
            assert(-5 * 0x8000_0000 <= i * bounds.height <= 5 * 0x8000_0000) by (nonlinear_arith)
                requires
                    0 <= i < 5,
                    -0x8000_0000 <= bounds.height < 0x8000_0000,
            ;
        }
        let band = div_floor(i as i128 * bounds.height as i128, 5);
        rows.push((bounds.y as i128 + band) as i64);
    }
    rows
}

impl Partiture {
    /// The left column of a bar line centred on `note_x` in an area of the width of
    /// `layout_bounds`: the line is moved left by an eightieth of that width.
    pub fn draw_compas(layout_bounds: Rect, note_x: i64) -> (r: i64)
        requires
            i64::MIN + 0x8000_0000 <= note_x <= i64::MAX - 0x8000_0000,
        ensures
            r == note_x - layout_bounds.width / 80,
    {
        let shift = div_floor(layout_bounds.width as i128, 80);
        proof {
            vstd::arithmetic::div_mod::lemma_div_is_ordered(
                layout_bounds.width as int,
                0x8000_0000int,
                80,
            );
            vstd::arithmetic::div_mod::lemma_div_is_ordered(
                -0x8000_0000int,
                layout_bounds.width as int,
                80,
            );
        }
        (note_x as i128 - shift) as i64
    }
}

impl<'a> AllNotesOverlay<'a> {
    /// Everything to draw on the staff in `layout_bounds`, in drawing order: for each note,
    /// the bar lines of the measures reached since the previous note and then the note
    /// itself, where they fall inside the work area.
    pub fn draw(&self, layout_bounds: Rect) -> (r: Vec<Shape>)
        ensures
            r@ == scene(*self.partiture, layout_bounds, self.partiture.notes@).2,
    {
        let p = self.partiture;
        let mut last_measure: i128 = -1;
        let mut last_position = Point::default();
        let mut shapes: Vec<Shape> = Vec::new();
        let n = p.notes.len();
        for i in 0..n
            invariant
                p == self.partiture,
                n == p.notes@.len(),
                (last_measure as int, last_position, shapes@) == scene(
                    *p,
                    layout_bounds,
                    p.notes@.take(i as int),
                ),
                -1 <= last_measure <= u64::MAX,
        {
            proof {
                assert(p.notes@.take(i + 1).drop_last() =~= p.notes@.take(i as int));
            }
            self.draw_note_in_overlay(
                &p.notes[i],
                layout_bounds,
                &mut shapes,
                &mut last_measure,
                &mut last_position,
            );
        }
        proof {
            assert(p.notes@.take(n as int) =~= p.notes@);
        }
        shapes
    }

    /// Adds the bar lines reached by `note` and the note itself to `shapes`.
    fn draw_note_in_overlay(
        &self,
        note: &Note,
        layout_bounds: Rect,
        shapes: &mut Vec<Shape>,
        last_measure_drawn: &mut i128,
        last_position: &mut Point,
    )
        requires
            -1 <= *old(last_measure_drawn) <= u64::MAX,
        ensures
            (*final(last_measure_drawn) as int, *final(last_position), final(shapes)@)
                == scene_step(
                *self.partiture,
                layout_bounds,
                (*old(last_measure_drawn) as int, *old(last_position), old(shapes)@),
                *note,
            ),
            -1 <= *final(last_measure_drawn) <= u64::MAX,
    {
        let p = self.partiture;
        let note_measure: u64 = note.start / MEASURE;
        proof {
            vstd::arithmetic::div_mod::lemma_fundamental_div_mod(note.start as int, MEASURE as int);
        }
        let ghost first = *old(last_measure_drawn) + 1;
        let ghost base = shapes@;
        let mut measure_to_draw: i128 = *last_measure_drawn + 1;
        while measure_to_draw <= note_measure as i128
            invariant
                first == *old(last_measure_drawn) + 1,
                0 <= first <= measure_to_draw,
                note_measure == note.start / MEASURE,
                note_measure * MEASURE <= note.start,
                measure_to_draw <= note_measure + 1 || measure_to_draw == first,
                shapes@ == base + bar_lines(*p, layout_bounds, first, measure_to_draw - 1),
            decreases note_measure - measure_to_draw + 1,
        {
            proof {
                assert(measure_to_draw * MEASURE <= note_measure * MEASURE) by (nonlinear_arith)
                    requires
                        0 <= measure_to_draw <= note_measure,
                ;
            }
            let at = (measure_to_draw * MEASURE as i128) as u64;
            let column = column_at(p, layout_bounds, at);
            match column {
                Some(x) => {
                    shapes.push(Shape::MeasureLine { x });
                },
                None => {},
            }
            proof {
                assert(shapes@ =~= base + bar_lines(*p, layout_bounds, first, measure_to_draw as int));
            }
            measure_to_draw = measure_to_draw + 1;
        }
        proof {
            if first > note_measure {
                assert(bar_lines(*p, layout_bounds, first, note_measure as int) =~= seq![]);
                assert(shapes@ =~= base + bar_lines(*p, layout_bounds, first, note_measure as int));
            }
        }
        *last_measure_drawn = note_measure as i128;
        let column = column_at(p, layout_bounds, note.start);
        match column {
            None => {},
            Some(note_x) => {
                let note_y = calculate_note_y_in_staff(note.pitch, layout_bounds, p.hand);
                let at = Point { x: note_x, y: note_y };
                let mut placed = note.clone();
                placed.last_position = *last_position;
                shapes.push(Shape::NoteHead { note: placed, at });
                *last_position = anchor_for(note.pitch, at);
            },
        }
    }
}

} // verus!
