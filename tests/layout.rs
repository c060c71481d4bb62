use octarust::layout::{
    calculate_note_y_in_staff, column_at, div_floor, staff_line_rows, AllNotesOverlay, Rect, Shape,
};
use octarust::note::{Note, Point};
use octarust::partiture::{Hand, Partiture};

fn note(start: u64, pitch: u8) -> Note {
    Note {
        name: String::from("n"),
        start,
        pitch,
        duration: 1_000_000,
        is_active: false,
        joined: false,
        last_position: Point::default(),
    }
}

fn bounds() -> Rect {
    Rect { x: 0, y: 0, width: 920, height: 200 }
}

fn staff(notes: Vec<Note>) -> Partiture {
    let mut p = Partiture::default();
    p.notes = notes;
    p.time = 8_000_000;
    p.elapsed = 6_000_000;
    p
}

#[test]
fn floor_division() {
    assert_eq!(div_floor(7, 2), 3);
    assert_eq!(div_floor(-7, 2), -4);
    assert_eq!(div_floor(-8, 2), -4);
    assert_eq!(div_floor(0, 5), 0);
}

#[test]
fn note_rows_on_treble_staff() {
    assert_eq!(calculate_note_y_in_staff(60, bounds(), Hand::Right), 182);
    assert_eq!(calculate_note_y_in_staff(65, bounds(), Hand::Right), 145);
    assert_eq!(calculate_note_y_in_staff(72, bounds(), Hand::Right), 79);
    assert_eq!(calculate_note_y_in_staff(40, bounds(), Hand::Right), 195);
}

#[test]
fn note_rows_on_bass_staff() {
    assert_eq!(calculate_note_y_in_staff(36, bounds(), Hand::Left), 279);
    assert_eq!(calculate_note_y_in_staff(41, bounds(), Hand::Left), 195);
    assert_eq!(calculate_note_y_in_staff(60, bounds(), Hand::Left), 29);
    let moved = Rect { x: 0, y: 300, width: 920, height: 200 };
    assert_eq!(calculate_note_y_in_staff(48, moved, Hand::Left), 429);
}

#[test]
fn columns_scroll_with_time() {
    let p = staff(Vec::new());
    assert_eq!(column_at(&p, bounds(), 0), Some(120));
    assert_eq!(column_at(&p, bounds(), 1_000_000), Some(220));
    assert_eq!(column_at(&p, bounds(), 8_000_000), Some(920));
    assert_eq!(column_at(&p, bounds(), 8_010_000), None);
    let mut later = staff(Vec::new());
    later.elapsed = 7_000_000;
    assert_eq!(column_at(&later, bounds(), 0), None);
    assert_eq!(column_at(&later, bounds(), 1_000_000), Some(120));
}

#[test]
fn empty_staff_shows_no_column() {
    let mut p = staff(Vec::new());
    p.time = 0;
    assert_eq!(column_at(&p, bounds(), 0), None);
}

#[test]
fn five_staff_lines() {
    assert_eq!(staff_line_rows(bounds()), vec![0, 40, 80, 120, 160]);
    let r = Rect { x: 0, y: 10, width: 100, height: 12 };
    assert_eq!(staff_line_rows(r), vec![10, 12, 14, 17, 19]);
}

#[test]
fn bar_line_is_shifted_left() {
    assert_eq!(Partiture::draw_compas(Rect { x: 0, y: 0, width: 800, height: 10 }, 500), 490);
    assert_eq!(Partiture::draw_compas(Rect { x: 0, y: 0, width: 79, height: 10 }, 500), 500);
}

#[test]
fn overlay_scene() {
    let p = staff(vec![note(0, 60), note(1_000_000, 65), note(5_000_000, 72), note(9_000_000, 62)]);
    let overlay = AllNotesOverlay { partiture: &p };
    let shapes = overlay.draw(bounds());
    assert_eq!(shapes.len(), 6);
    assert!(matches!(shapes[0], Shape::MeasureLine { x: 120 }));
    match &shapes[1] {
        Shape::NoteHead { note, at } => {
            assert_eq!(*at, Point::new(120, 182));
            assert_eq!(note.last_position, Point::new(0, 0));
            assert_eq!(note.pitch, 60);
        }
        _ => panic!("expected a note"),
    }
    match &shapes[2] {
        Shape::NoteHead { note, at } => {
            assert_eq!(*at, Point::new(220, 145));
            assert_eq!(note.last_position, Point::new(128, 157));
        }
        _ => panic!("expected a note"),
    }
    assert!(matches!(shapes[3], Shape::MeasureLine { x: 520 }));
    match &shapes[4] {
        Shape::NoteHead { note, at } => {
            assert_eq!(*at, Point::new(620, 79));
            assert_eq!(note.last_position, Point::new(228, 120));
        }
        _ => panic!("expected a note"),
    }
    assert!(matches!(shapes[5], Shape::MeasureLine { x: 920 }));
}

#[test]
fn overlay_of_empty_staff() {
    let p = staff(Vec::new());
    let overlay = AllNotesOverlay { partiture: &p };
    assert!(overlay.draw(bounds()).is_empty());
}
