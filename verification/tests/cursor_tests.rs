use mirror_capture::cursor::{get_state, Cursor, CursorError, CursorInfo, CURSOR_SHOWING};

fn reading(status: i32, flags: u32, handle: u64, x: i32, y: i32) -> CursorInfo {
    CursorInfo { status, flags, handle, x, y }
}

#[test]
fn new_cursor_is_hidden_at_origin() {
    let cursor = Cursor::new();
    assert!(!cursor.is_visible());
    assert_eq!(cursor.cursor_id(), 0);
    assert_eq!(cursor.position(), (0, 0));
}

#[test]
fn default_cursor_equals_new_cursor() {
    assert_eq!(Cursor::default(), Cursor::new());
}

#[test]
fn from_parts_keeps_every_field() {
    let cursor = Cursor::from_parts(true, 42, -7, 1200);
    assert!(cursor.is_visible());
    assert_eq!(cursor.cursor_id(), 42);
    assert_eq!(cursor.position(), (-7, 1200));
}

#[test]
fn snapshots_compare_by_value() {
    let a = Cursor::from_parts(true, 3, 10, 20);
    let b = Cursor::from_parts(true, 3, 10, 20);
    assert_eq!(a, b);
    assert_ne!(a, Cursor::from_parts(false, 3, 10, 20));
    assert_ne!(a, Cursor::from_parts(true, 4, 10, 20));
    assert_ne!(a, Cursor::from_parts(true, 3, 11, 20));
    assert_ne!(a, Cursor::from_parts(true, 3, 10, 21));
}

#[test]
fn showing_flag_is_one() {
    assert_eq!(CURSOR_SHOWING, 1);
}

#[test]
fn get_state_reads_a_visible_cursor() {
    let state = get_state(&reading(1, CURSOR_SHOWING, 0x0001_0003, 100, 50));
    assert_eq!(state, Ok(Cursor::from_parts(true, 0x0001_0003, 100, 50)));
}

#[test]
fn get_state_takes_any_nonzero_status_as_success() {
    let state = get_state(&reading(-1, CURSOR_SHOWING, 5, 1, 2));
    assert_eq!(state, Ok(Cursor::from_parts(true, 5, 1, 2)));
}

#[test]
fn get_state_reports_a_hidden_cursor() {
    let state = get_state(&reading(1, 0, 9, 640, 480)).unwrap();
    assert!(!state.is_visible());
    assert_eq!(state.position(), (640, 480));
}

#[test]
fn get_state_is_visible_only_on_the_exact_showing_flag() {
    assert!(!get_state(&reading(1, 2, 9, 0, 0)).unwrap().is_visible());
    assert!(!get_state(&reading(1, 3, 9, 0, 0)).unwrap().is_visible());
    assert!(get_state(&reading(1, 1, 9, 0, 0)).unwrap().is_visible());
}

#[test]
fn get_state_keeps_the_low_half_of_the_handle() {
    let state = get_state(&reading(1, 1, 0xABCD_EF01_2345_6789, 0, 0)).unwrap();
    assert_eq!(state.cursor_id(), 0x2345_6789);
    let state = get_state(&reading(1, 1, 0x1_0000_0000, 0, 0)).unwrap();
    assert_eq!(state.cursor_id(), 0);
    let state = get_state(&reading(1, 1, 0xFFFF_FFFF, 0, 0)).unwrap();
    assert_eq!(state.cursor_id(), u32::MAX);
}

#[test]
fn get_state_keeps_negative_coordinates() {
    let state = get_state(&reading(1, 1, 1, -1920, i32::MIN)).unwrap();
    assert_eq!(state.position(), (-1920, i32::MIN));
}

#[test]
fn get_state_fails_on_zero_status() {
    let state = get_state(&reading(0, CURSOR_SHOWING, 7, 100, 50));
    assert_eq!(state, Err(CursorError::Unavailable));
}

#[test]
fn unavailable_has_its_message() {
    assert_eq!(CursorError::Unavailable.message(), "unable to get cursor info");
}
