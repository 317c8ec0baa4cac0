use cosmic_text::units::{
    advance_position, fine_to_pixel_exec, half_exec, subpixel_to_pixel_exec, EM_UNITS, FINE_UNITS,
    POSITION_LIMIT, SUBPIXELS,
};
use cosmic_text::{Cached, ShapeLine};

fn state(cell: &Cached<Vec<u8>>) -> (&'static str, Option<Vec<u8>>) {
    match cell {
        Cached::Empty => ("empty", None),
        Cached::Unused(v) => ("unused", Some(v.clone())),
        Cached::Used(v) => ("used", Some(v.clone())),
    }
}

#[test]
fn empty_cell_has_nothing() {
    let mut cell: Cached<Vec<u8>> = Cached::Empty;
    assert!(cell.is_unused());
    assert!(!cell.is_used());
    assert_eq!(cell.get(), None);
    assert_eq!(cell.take_used(), None);
    assert_eq!(cell.take_unused(), None);
    cell.set_unused();
    assert_eq!(state(&cell), ("empty", None));
}

#[test]
fn used_cell_gives_its_value() {
    let mut cell = Cached::Empty;
    cell.set_used(vec![1, 2, 3]);
    assert!(cell.is_used());
    assert!(!cell.is_unused());
    assert_eq!(cell.get(), Some(&vec![1, 2, 3]));
    // There is no storage to take while the value is valid.
    assert_eq!(cell.take_unused(), None);
    assert_eq!(state(&cell), ("used", Some(vec![1, 2, 3])));
    assert_eq!(cell.take_used(), Some(vec![1, 2, 3]));
    assert_eq!(state(&cell), ("empty", None));
}

#[test]
fn invalidated_cell_keeps_its_storage() {
    let mut cell = Cached::Used(Vec::with_capacity(100));
    let address = cell.get().unwrap().as_ptr();
    cell.set_unused();
    assert!(cell.is_unused());
    assert!(!cell.is_used());
    assert_eq!(cell.get(), None);
    assert_eq!(state(&cell), ("unused", Some(vec![])));
    // Invalidating again changes nothing.
    cell.set_unused();
    assert_eq!(state(&cell), ("unused", Some(vec![])));
    // The value is not valid, so it cannot be taken as such.
    assert_eq!(cell.take_used(), None);
    assert_eq!(state(&cell), ("unused", Some(vec![])));
    let storage: Vec<u8> = cell.take_unused().unwrap();
    assert_eq!(storage.as_ptr(), address);
    assert!(storage.capacity() >= 100);
    assert_eq!(state(&cell), ("empty", None));
}

#[test]
fn set_used_replaces_whatever_was_there() {
    let mut cell = Cached::Used(vec![1]);
    cell.set_used(vec![2]);
    assert_eq!(cell.get(), Some(&vec![2]));
    cell.set_unused();
    cell.set_used(vec![3]);
    assert_eq!(state(&cell), ("used", Some(vec![3])));
}

#[test]
fn blank_shape_line() {
    let line = ShapeLine::empty();
    assert!(!line.rtl);
    assert!(line.glyphs.is_empty());
}

#[test]
fn units() {
    assert_eq!(SUBPIXELS, 64);
    assert_eq!(EM_UNITS, 65536);
    assert_eq!(FINE_UNITS, SUBPIXELS as i64 * EM_UNITS as i64);
    assert_eq!(POSITION_LIMIT, 1i64 << 62);
}

#[test]
fn subpixels_to_pixels_round_toward_zero() {
    for (v, px) in [(0, 0), (63, 0), (64, 1), (127, 1), (-1, 0), (-63, 0), (-64, -1), (-65, -1)] {
        assert_eq!(subpixel_to_pixel_exec(v), px);
    }
    assert_eq!(subpixel_to_pixel_exec(i32::MAX), 33554431);
    assert_eq!(subpixel_to_pixel_exec(i32::MIN), -33554432);
}

#[test]
fn fine_units_to_pixels_round_toward_zero_and_saturate() {
    let f = FINE_UNITS as i128;
    for (v, px) in [
        (0, 0),
        (f - 1, 0),
        (f, 1),
        (2 * f - 1, 1),
        (-1, 0),
        (-f + 1, 0),
        (-f, -1),
        (-f - 1, -1),
        (i32::MAX as i128 * f, i32::MAX),
        (i32::MAX as i128 * f + f, i32::MAX),
        (i32::MIN as i128 * f, i32::MIN),
        (i32::MIN as i128 * f - f, i32::MIN),
        (i128::MAX, i32::MAX),
        (i128::MIN, i32::MIN),
    ] {
        assert_eq!(fine_to_pixel_exec(v), px);
    }
}

#[test]
fn halves_round_down() {
    for (v, h) in [(0, 0), (1, 0), (2, 1), (3, 1), (-1, -1), (-2, -1), (-3, -2), (-4, -2)] {
        assert_eq!(half_exec(v), h);
    }
    assert_eq!(half_exec(i64::MAX), i64::MAX / 2);
    assert_eq!(half_exec(i64::MIN), i64::MIN / 2);
    assert_eq!(half_exec(i64::MIN + 1), i64::MIN / 2);
}

#[test]
fn positions_saturate_at_the_limit() {
    assert_eq!(advance_position(0, 1664), 1664);
    assert_eq!(advance_position(100, -1664), -1564);
    assert_eq!(advance_position(POSITION_LIMIT - 10, 10), POSITION_LIMIT);
    assert_eq!(advance_position(POSITION_LIMIT - 10, 11), POSITION_LIMIT);
    assert_eq!(advance_position(POSITION_LIMIT, i32::MAX), POSITION_LIMIT);
    assert_eq!(advance_position(POSITION_LIMIT, -1), POSITION_LIMIT - 1);
    assert_eq!(advance_position(-POSITION_LIMIT, -1), -POSITION_LIMIT);
    assert_eq!(advance_position(-POSITION_LIMIT + 5, i32::MIN), -POSITION_LIMIT);
    assert_eq!(advance_position(-POSITION_LIMIT, 1), -POSITION_LIMIT + 1);
}
