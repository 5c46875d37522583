use wl_decor::cursor::{cursor_size, parse_cursor_size, PointerAction, PointerEvent, PointerInfo, DEFAULT_CURSOR_SIZE};

const A: u32 = 11;
const B: u32 = 12;

#[test]
fn enter_then_motion_on_watched_surface_moves() {
    let mut p = PointerInfo::new(A);
    let act = p.handle_pointer_event(PointerEvent::Enter { serial: 3, surface: A, x: 256, y: 512 });
    assert_eq!(act, PointerAction::SetCursor { serial: 3 });
    assert!(p.is_inside());
    assert_eq!(p.cursor_pos(), (256, 512));
    assert_eq!(p.serial(), 3);
    let act = p.handle_pointer_event(PointerEvent::Motion { x: 1000, y: 2000 });
    assert_eq!(act, PointerAction::Nothing);
    assert_eq!(p.cursor_pos(), (1000, 2000));
}

#[test]
fn enter_then_motion_on_other_surface_changes_nothing() {
    let mut p = PointerInfo::new(A);
    let act = p.handle_pointer_event(PointerEvent::Enter { serial: 3, surface: B, x: 256, y: 512 });
    assert_eq!(act, PointerAction::Nothing);
    p.handle_pointer_event(PointerEvent::Motion { x: 1000, y: 2000 });
    assert!(!p.is_inside());
    assert_eq!(p.cursor_pos(), (0, 0));
    assert_eq!(p.serial(), 0);
}

#[test]
fn leave_for_other_surface_keeps_inside() {
    let mut p = PointerInfo::new(A);
    p.handle_pointer_event(PointerEvent::Enter { serial: 3, surface: A, x: 0, y: 0 });
    let act = p.handle_pointer_event(PointerEvent::Leave { serial: 4, surface: B });
    assert_eq!(act, PointerAction::Nothing);
    assert!(p.is_inside());
    assert_eq!(p.serial(), 3);
}

#[test]
fn leave_for_watched_surface_hides_cursor() {
    let mut p = PointerInfo::new(A);
    p.handle_pointer_event(PointerEvent::Enter { serial: 3, surface: A, x: 0, y: 0 });
    let act = p.handle_pointer_event(PointerEvent::Leave { serial: 8, surface: A });
    assert_eq!(act, PointerAction::HideCursor { serial: 8 });
    assert!(!p.is_inside());
    assert_eq!(p.serial(), 8);
    p.handle_pointer_event(PointerEvent::Motion { x: 77, y: 77 });
    assert_eq!(p.cursor_pos(), (0, 0));
}

#[test]
fn enter_while_inside_is_ignored() {
    let mut p = PointerInfo::new(A);
    p.handle_pointer_event(PointerEvent::Enter { serial: 3, surface: A, x: 5, y: 6 });
    let act = p.handle_pointer_event(PointerEvent::Enter { serial: 9, surface: A, x: 50, y: 60 });
    assert_eq!(act, PointerAction::Nothing);
    assert_eq!(p.serial(), 3);
    assert_eq!(p.cursor_pos(), (5, 6));
}

#[test]
fn every_button_event_goes_to_the_click_callback() {
    let mut p = PointerInfo::new(A);
    let act = p.handle_pointer_event(PointerEvent::Button { serial: 20, button: 272, pressed: true });
    assert_eq!(act, PointerAction::Clicked { x: 0, y: 0, pressed: true });
    assert!(!p.is_inside());
    assert_eq!(p.serial(), 20);
    p.handle_pointer_event(PointerEvent::Enter { serial: 21, surface: A, x: 10 * 256 + 128, y: 3 * 256 });
    let act = p.handle_pointer_event(PointerEvent::Button { serial: 22, button: 272, pressed: true });
    assert_eq!(act, PointerAction::Clicked { x: 10, y: 3, pressed: true });
    assert!(p.is_inside());
    assert_eq!(p.serial(), 22);
    let act = p.handle_pointer_event(PointerEvent::Button { serial: 23, button: 272, pressed: false });
    assert_eq!(act, PointerAction::Clicked { x: 10, y: 3, pressed: false });
    assert!(p.is_inside());
    assert_eq!(p.serial(), 23);
    assert_eq!(p.cursor_pos(), (10 * 256 + 128, 3 * 256));
}

#[test]
fn click_position_rounds_toward_zero() {
    let mut p = PointerInfo::new(A);
    p.handle_pointer_event(PointerEvent::Enter { serial: 1, surface: A, x: -300, y: 255 });
    let act = p.handle_pointer_event(PointerEvent::Button { serial: 2, button: 272, pressed: true });
    assert_eq!(act, PointerAction::Clicked { x: -1, y: 0, pressed: true });
}

#[test]
fn setters_update_state() {
    let mut p = PointerInfo::new(A);
    p.update_serial(41);
    p.update_pointer_pos(7, -7);
    assert_eq!(p.serial(), 41);
    assert_eq!(p.cursor_pos(), (7, -7));
    assert_eq!(p.handle_pointer_event(PointerEvent::Other), PointerAction::Nothing);
    assert_eq!(p.serial(), 41);
}

#[test]
fn cursor_size_parsing() {
    assert_eq!(parse_cursor_size("32"), Some(32));
    assert_eq!(parse_cursor_size("+7"), Some(7));
    assert_eq!(parse_cursor_size("007"), Some(7));
    assert_eq!(parse_cursor_size("4294967295"), Some(u32::MAX));
    assert_eq!(parse_cursor_size("4294967296"), None);
    assert_eq!(parse_cursor_size(""), None);
    assert_eq!(parse_cursor_size("+"), None);
    assert_eq!(parse_cursor_size("-1"), None);
    assert_eq!(parse_cursor_size("12a"), None);
    assert_eq!(parse_cursor_size(" 12"), None);
}

#[test]
fn cursor_size_defaults() {
    assert_eq!(DEFAULT_CURSOR_SIZE, 24);
    assert_eq!(cursor_size(None), 24);
    assert_eq!(cursor_size(Some("48")), 48);
    assert_eq!(cursor_size(Some("big")), 24);
}
