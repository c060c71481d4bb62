use vstd::prelude::*;

verus! {

/// Largest distance from the edge of the `i64` range that a drawing anchor needs.
pub const ANCHOR_MARGIN: i64 = 64;

/// A point on the canvas, in whole pixels.
#[derive(Debug, Clone, Copy, PartialEq, Eq, Structural)]
pub struct Point {
    pub x: i64,
    pub y: i64,
}

impl Point {
    pub open spec fn origin() -> Point {
        Point { x: 0, y: 0 }
    }

    /// The point lies far enough from the edges of the `i64` range to move it by a
    /// drawing offset.
    pub open spec fn movable(self) -> bool {
        &&& i64::MIN + ANCHOR_MARGIN <= self.x <= i64::MAX - ANCHOR_MARGIN
        &&& i64::MIN + ANCHOR_MARGIN <= self.y <= i64::MAX - ANCHOR_MARGIN
    }

    pub fn new(x: i64, y: i64) -> (r: Point)
        ensures
            r == (Point { x, y }),
    {
        Point { x, y }
    }
}

impl Default for Point {
    /// The origin.
    fn default() -> (r: Self)
        ensures
            r == Point::origin(),
    {
        Point { x: 0, y: 0 }
    }
}

/// A note of a piece.
#[derive(Debug)]
pub struct Note {
    /// Name of the note, such as `C4` or `G#5`.
    pub name: String,
    /// Start time, in microseconds from the start of the piece.
    pub start: u64,
    /// MIDI number of the pitch.
    pub pitch: u8,
    /// Duration, in microseconds.
    pub duration: u64,
    /// The note is sounding.
    pub is_active: bool,
    /// The note is beamed to a neighbour.
    pub joined: bool,
    /// Where the beam of the previous note ends.
    pub last_position: Point,
}

impl Clone for Note {
    fn clone(&self) -> (r: Self)
        ensures
            r == *self,
    {
        Note {
            name: self.name.clone(),
            start: self.start,
            pitch: self.pitch,
            duration: self.duration,
            is_active: self.is_active,
            joined: self.joined,
            last_position: self.last_position,
        }
    }
}

/// The figure a note is drawn with, chosen by its duration.
#[derive(Debug, Clone, Copy, PartialEq, Eq, Structural)]
pub enum NoteFigure {
    Whole,
    Half,
    Quarter,
    Eighth,
    Sixteenth,
    ThirtySecond,
    SixtyFourth,
}

/// What is drawn at the end of a note's stem.
#[derive(Debug, Clone, Copy, PartialEq, Eq, Structural)]
pub enum Flag {
    /// A beam from the stem of this note to the stem of the previous one.
    Beam { from: Point, to: Point },
    /// A beamed note with no previous stem to join: nothing is drawn.
    Hidden,
    /// A short banner of `FLAG_WIDTH` by `FLAG_HEIGHT` pixels whose top left corner is `at`.
    Banner { at: Point },
}

/// Width and height of a stem, in pixels.
pub const STEM_WIDTH: i64 = 5;
pub const STEM_HEIGHT: i64 = 30;

/// Width and height of a banner flag, in pixels.
pub const FLAG_WIDTH: i64 = 15;
pub const FLAG_HEIGHT: i64 = 6;

/// The figure for a duration in microseconds: a whole note lasts four seconds, and
/// each shorter figure half as long as the one before; any other duration is drawn
/// as a quarter note.
pub open spec fn figure_of(duration: u64) -> NoteFigure {
    if duration == 4_000_000 {
        NoteFigure::Whole
    } else if duration == 2_000_000 {
        NoteFigure::Half
    } else if duration == 1_000_000 {
        NoteFigure::Quarter
    } else if duration == 500_000 {
        NoteFigure::Eighth
    } else if duration == 250_000 {
        NoteFigure::Sixteenth
    } else if duration == 125_000 {
        NoteFigure::ThirtySecond
    } else if duration == 62_500 {
        NoteFigure::SixtyFourth
    } else {
        NoteFigure::Quarter
    }
}

/// Where the flag or beam of a note whose head is at `center` is anchored. Low notes of
/// either staff get a stem upwards, high ones a stem downwards, shifted to the left.
pub open spec fn flag_anchor(pitch: u8, center: Point) -> Point {
    if pitch < 54 {
        Point { x: (center.x + 8) as i64, y: (center.y - 25) as i64 }
    } else if pitch < 60 {
        Point { x: (center.x - 2) as i64, y: (center.y + 5) as i64 }
    } else if pitch <= 71 {
        Point { x: (center.x + 8) as i64, y: (center.y - 25) as i64 }
    } else {
        Point { x: (center.x - 2) as i64, y: (center.y + 29) as i64 }
    }
}

/// The top left corner of the stem of a note whose head is at `center`.
pub open spec fn stem_corner(pitch: u8, center: Point) -> Point {
    if pitch < 54 {
        Point { x: (center.x + 7) as i64, y: (center.y - 25) as i64 }
    } else if pitch < 60 {
        Point { x: (center.x - 2) as i64, y: (center.y + 5) as i64 }
    } else if pitch <= 71 {
        Point { x: (center.x + 7) as i64, y: (center.y - 25) as i64 }
    } else {
        Point { x: (center.x - 2) as i64, y: (center.y + 5) as i64 }
    }
}

impl NoteFigure {
    /// The figure for a duration in microseconds.
    pub fn of_duration(duration: u64) -> (r: NoteFigure)
        ensures
            r == figure_of(duration),
    {
        if duration == 4_000_000 {
            NoteFigure::Whole
        } else if duration == 2_000_000 {
            NoteFigure::Half
        } else if duration == 1_000_000 {
            NoteFigure::Quarter
        } else if duration == 500_000 {
            NoteFigure::Eighth
        } else if duration == 250_000 {
            NoteFigure::Sixteenth
        } else if duration == 125_000 {
            NoteFigure::ThirtySecond
        } else if duration == 62_500 {
            NoteFigure::SixtyFourth
        } else {
            NoteFigure::Quarter
        }
    }
}

/// Where the flag or beam of a note of this pitch whose head is at `center` is anchored.
pub fn anchor_for(pitch: u8, center: Point) -> (r: Point)
    requires
        center.movable(),
    ensures
        r == flag_anchor(pitch, center),
{
    if pitch < 54 {
        Point { x: center.x + 8, y: center.y - 25 }
    } else if pitch < 60 {
        Point { x: center.x - 2, y: center.y + 5 }
    } else if pitch <= 71 {
        Point { x: center.x + 8, y: center.y - 25 }
    } else {
        Point { x: center.x - 2, y: center.y + 29 }
    }
}

impl Note {
    /// A note with the given name, pitch, duration and beam state, starting at time zero
    /// and not sounding.
    pub fn new(name: String, pitch: u8, duration: u64, joined: bool, last_position: Point) -> (r:
        Note)
        ensures
            r.name == name,
            r.start == 0,
            r.pitch == pitch,
            r.duration == duration,
            !r.is_active,
            r.joined == joined,
            r.last_position == last_position,
    {
        Note { name, start: 0, pitch, duration, is_active: false, joined, last_position }
    }

    /// The figure this note is drawn with.
    pub fn figure(&self) -> (r: NoteFigure)
        ensures
            r == figure_of(self.duration),
    {
        NoteFigure::of_duration(self.duration)
    }

    /// The top left corner of this note's stem, of `STEM_WIDTH` by `STEM_HEIGHT`
    /// pixels, when its head is at `center`.
    pub fn stem_origin(&self, center: Point) -> (r: Point)
        requires
            center.movable(),
        ensures
            r == stem_corner(self.pitch, center),
    {
        if self.pitch < 54 {
            Point { x: center.x + 7, y: center.y - 25 }
        } else if self.pitch < 60 {
            Point { x: center.x - 2, y: center.y + 5 }
        } else if self.pitch <= 71 {
            Point { x: center.x + 7, y: center.y - 25 }
        } else {
            Point { x: center.x - 2, y: center.y + 5 }
        }
    }

    /// What ends this note's stem when its head is at `center`: a beam back to the
    /// previous stem for a joined note (nothing when there is no previous stem, marked by
    /// the origin), and a banner at the stem's anchor otherwise.
    pub fn flag(&self, center: Point) -> (r: Flag)
        requires
            center.movable(),
        ensures
            self.joined && self.last_position != Point::origin() ==> r == (Flag::Beam {
                from: flag_anchor(self.pitch, center),
                to: self.last_position,
            }),
            self.joined && self.last_position == Point::origin() ==> r == Flag::Hidden,
            !self.joined ==> r == (Flag::Banner { at: flag_anchor(self.pitch, center) }),
    {
        let anchor = anchor_for(self.pitch, center);
        if self.joined {
            if self.last_position != Point::default() {
                Flag::Beam { from: anchor, to: self.last_position }
            } else {
                Flag::Hidden
            }
        } else {
            Flag::Banner { at: anchor }
        }
    }
}

} // verus!
