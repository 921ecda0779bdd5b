use pager_rs::CommandList;
use pager_rs::State;
use pager_rs::StatusBar;

fn five_lines(size: (u16, u16)) -> State {
    State::new(
        "one\ntwo\nthree\nfour\nfive".to_string(),
        StatusBar::new("t".to_string()),
        CommandList::default(),
        size,
    )
}

#[test]
fn up_at_top_is_noop() {
    let mut s = five_lines((80, 24));
    assert!(!s.up());
    assert_eq!(s.pos, (0, 0));
}

#[test]
fn up_moves_one_line() {
    let mut s = five_lines((80, 24));
    s.pos = (0, 3);
    assert!(s.up());
    assert_eq!(s.pos, (0, 2));
}

#[test]
fn down_at_last_line_is_noop() {
    let mut s = five_lines((80, 24));
    s.pos = (0, 4);
    assert!(!s.down());
    assert_eq!(s.pos, (0, 4));
}

#[test]
fn down_moves_one_line() {
    let mut s = five_lines((80, 24));
    assert!(s.down());
    assert_eq!(s.pos, (0, 1));
}

#[test]
fn page_down_scenario_five_lines_visible_height_three() {
    // Five content lines, four terminal rows, one status row: three
    // visible rows. The first page down lands on line 2, the second is
    // clamped to the last line, and a third changes nothing.
    let mut s = five_lines((80, 4));
    assert!(s.pgdown());
    assert_eq!(s.pos.1, 2);
    assert!(s.pgdown());
    assert_eq!(s.pos.1, 4);
    assert!(!s.pgdown());
    assert_eq!(s.pos.1, 4);
}

#[test]
fn page_up_from_below_one_screen_goes_to_top() {
    let mut s = five_lines((80, 4));
    s.pos = (0, 2);
    assert!(s.pgup());
    assert_eq!(s.pos.1, 0);
}

#[test]
fn page_up_far_down_moves_one_screen() {
    // Three visible rows: from line 4, page up keeps one overlap row.
    let mut s = five_lines((80, 4));
    s.pos = (0, 4);
    assert!(s.pgup());
    assert_eq!(s.pos.1, 2);
}

#[test]
fn page_up_uses_the_visible_height() {
    // Three terminal rows minus a one-row bar leave two visible rows.
    let mut s = five_lines((80, 3));
    s.pos = (0, 2);
    assert!(s.pgup());
    assert_eq!(s.pos.1, 1);
}

#[test]
fn page_up_at_top_is_noop() {
    let mut s = five_lines((80, 4));
    assert!(!s.pgup());
    assert_eq!(s.pos.1, 0);
}

#[test]
fn home_jumps_to_first_line() {
    let mut s = five_lines((80, 3));
    s.pos = (0, 4);
    assert!(s.home());
    assert_eq!(s.pos.1, 0);
    assert!(!s.home());
}

#[test]
fn end_jumps_one_screen_before_the_end() {
    // Two visible rows on five lines: the end position is line 4.
    let mut s = five_lines((80, 3));
    assert!(s.end());
    assert_eq!(s.pos.1, 4);
}

#[test]
fn end_on_short_content_stays_at_top() {
    let mut s = five_lines((80, 10));
    assert!(s.end());
    assert_eq!(s.pos.1, 0);
}

#[test]
fn left_right_move_half_a_screen() {
    let mut s = five_lines((10, 24));
    assert!(s.right());
    assert_eq!(s.pos.0, 5);
    assert!(s.right());
    assert_eq!(s.pos.0, 10);
    assert!(s.left());
    assert_eq!(s.pos.0, 5);
    assert!(s.left());
    assert_eq!(s.pos.0, 0);
}

#[test]
fn left_clamps_at_column_zero() {
    let mut s = five_lines((10, 24));
    s.pos = (3, 0);
    assert!(s.left());
    assert_eq!(s.pos.0, 0);
}

#[test]
fn left_on_a_tiny_screen_reports_no_change() {
    // Width one gives a zero-column step: nothing moves, so no redraw.
    let mut s = five_lines((1, 24));
    s.pos = (4, 0);
    assert!(!s.left());
    assert_eq!(s.pos.0, 4);
}

#[test]
fn empty_content_navigation_is_safe() {
    let mut s = State::new(
        String::new(),
        StatusBar::new("t".to_string()),
        CommandList::default(),
        (80, 24),
    );
    assert!(!s.down());
    assert!(!s.up());
    assert!(!s.pgdown());
    assert!(!s.pgup());
    assert!(s.end());
    assert_eq!(s.pos, (0, 0));
}

#[test]
fn quit_clears_running() {
    let mut s = five_lines((80, 24));
    assert!(s.is_running());
    s.quit();
    assert!(!s.is_running());
}

#[test]
fn line_count_counts_split_lines() {
    let s = five_lines((80, 24));
    assert_eq!(s.line_count(), 5);
    let e = State::new(
        String::new(),
        StatusBar::new("t".to_string()),
        CommandList::default(),
        (80, 24),
    );
    assert_eq!(e.line_count(), 0);
}
