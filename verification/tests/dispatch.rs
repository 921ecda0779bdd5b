use pager_rs::CommandList;
use pager_rs::Event;
use pager_rs::EventResponse;
use pager_rs::KeyCode;
use pager_rs::State;
use pager_rs::StatusBar;

fn pager() -> State {
    State::new(
        "a\nb\nc\nd\ne".to_string(),
        StatusBar::new("t".to_string()),
        CommandList::default(),
        (80, 4),
    )
}

#[test]
fn colon_key_asks_for_line_input() {
    let mut s = pager();
    let resp = s.handle_event(Event::Key(KeyCode::Char(':')));
    assert_eq!(resp, EventResponse::ColonInput);
    assert_eq!(s.pos, (0, 0));
    assert!(s.is_running());
}

#[test]
fn bound_key_moves_and_redraws() {
    let mut s = pager();
    let resp = s.handle_event(Event::Key(KeyCode::Down));
    assert_eq!(resp, EventResponse::Redraw);
    assert_eq!(s.pos.1, 1);
}

#[test]
fn unbound_key_is_quiet() {
    let mut s = pager();
    let resp = s.handle_event(Event::Key(KeyCode::Char('z')));
    assert_eq!(resp, EventResponse::NoRedraw);
    assert_eq!(s.pos, (0, 0));
}

#[test]
fn quit_key_stops_without_redraw() {
    let mut s = pager();
    let resp = s.handle_event(Event::Key(KeyCode::Char('q')));
    assert_eq!(resp, EventResponse::NoRedraw);
    assert!(!s.is_running());
}

#[test]
fn scroll_events_move_one_line() {
    let mut s = pager();
    assert_eq!(s.handle_event(Event::ScrollDown), EventResponse::Redraw);
    assert_eq!(s.pos.1, 1);
    assert_eq!(s.handle_event(Event::ScrollUp), EventResponse::Redraw);
    assert_eq!(s.pos.1, 0);
    assert_eq!(s.handle_event(Event::ScrollUp), EventResponse::NoRedraw);
}

#[test]
fn resize_records_the_size_and_redraws() {
    let mut s = pager();
    let resp = s.handle_event(Event::Resize(120, 40));
    assert_eq!(resp, EventResponse::Redraw);
    assert_eq!(s.size, (120, 40));
}

#[test]
fn resize_at_the_same_size_still_redraws() {
    let mut s = pager();
    let resp = s.handle_event(Event::Resize(80, 4));
    assert_eq!(resp, EventResponse::Redraw);
    assert_eq!(s.size, (80, 4));
}

#[test]
fn a_session_end_to_end() {
    // Three visible rows over five lines: page down twice, toggle the
    // gutter, show help, close it, quit.
    let mut s = pager();
    assert_eq!(s.handle_event(Event::Key(KeyCode::PageDown)), EventResponse::Redraw);
    assert_eq!(s.pos.1, 2);
    assert_eq!(s.handle_event(Event::Key(KeyCode::PageDown)), EventResponse::Redraw);
    assert_eq!(s.pos.1, 4);
    assert_eq!(s.handle_event(Event::Key(KeyCode::PageDown)), EventResponse::NoRedraw);
    assert_eq!(s.handle_event(Event::Key(KeyCode::Char('l'))), EventResponse::Redraw);
    assert!(!s.show_line_numbers);
    assert_eq!(s.handle_event(Event::Key(KeyCode::Char('h'))), EventResponse::Redraw);
    assert!(s.overlay.is_some());
    assert_eq!(s.handle_event(Event::Key(KeyCode::Char('h'))), EventResponse::Redraw);
    assert_eq!(s.content, "a\nb\nc\nd\ne");
    assert_eq!(s.pos.1, 4);
    assert!(s.match_colon_event("quit") == false);
    assert!(!s.is_running());
}
