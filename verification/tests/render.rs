use pager_rs::CommandList;
use pager_rs::State;
use pager_rs::StatusBar;
use pager_rs::line_indicator_format;

fn pager(content: &str, size: (u16, u16)) -> State {
    State::new(
        content.to_string(),
        StatusBar::new("t".to_string()),
        CommandList::default(),
        size,
    )
}

#[test]
fn line_indicator_right_justifies_the_number() {
    assert_eq!(line_indicator_format(3, 100), "  3|");
    assert_eq!(line_indicator_format(42, 100), " 42|");
    assert_eq!(line_indicator_format(100, 100), "100|");
    assert_eq!(line_indicator_format(7, 9), "7|");
}

#[test]
fn visible_text_shows_numbered_lines_from_the_top() {
    // Three rows minus one status row leaves two content rows.
    let s = pager("alpha\nbeta\ngamma", (10, 3));
    assert_eq!(s.get_visible(), "1│alpha\n2│beta");
}

#[test]
fn visible_text_follows_the_scroll_position() {
    let mut s = pager("alpha\nbeta\ngamma", (10, 3));
    s.pos = (0, 1);
    assert_eq!(s.get_visible(), "2│beta\n3│gamma");
}

#[test]
fn visible_text_without_line_numbers() {
    let mut s = pager("alpha\nbeta\ngamma", (10, 3));
    s.show_line_numbers = false;
    assert_eq!(s.get_visible(), "alpha\nbeta");
}

#[test]
fn horizontal_scroll_slices_each_line() {
    let mut s = pager("alphabet\nbeta", (10, 3));
    s.pos = (2, 0);
    assert_eq!(s.get_visible(), "1│phabet\n2│ta");
}

#[test]
fn horizontal_scroll_past_line_end_renders_nothing() {
    let mut s = pager("ab\ncd", (10, 3));
    s.pos = (5, 0);
    assert_eq!(s.get_visible(), "1│\n2│");
}

#[test]
fn narrow_screen_clips_every_row_to_width() {
    let s = pager("alphabet soup\nbeta", (6, 3));
    let lines = s.get_visible_lines();
    for l in &lines {
        assert!(l.chars().count() <= 6);
    }
    assert_eq!(lines[0], "1│alph");
}

#[test]
fn row_count_never_exceeds_the_content_rows() {
    let s = pager("a\nb\nc\nd\ne\nf", (10, 4));
    let lines = s.get_visible_lines();
    assert_eq!(lines.len(), 3);
    let tall = pager("a\nb", (10, 40));
    assert_eq!(tall.get_visible_lines().len(), 2);
}

#[test]
fn gutter_width_follows_the_line_count() {
    let mut many = String::new();
    for i in 0..12 {
        if i > 0 {
            many.push('\n');
        }
        many.push('x');
    }
    let s = pager(&many, (10, 4));
    let lines = s.get_visible_lines();
    assert_eq!(lines[0], " 1│x");
    assert_eq!(lines[1], " 2│x");
}

#[test]
fn scroll_below_content_renders_nothing() {
    let mut s = pager("a\nb", (10, 5));
    s.pos = (0, 7);
    assert_eq!(s.get_visible(), "");
    assert_eq!(s.get_visible_lines().len(), 0);
}

#[test]
fn empty_content_renders_nothing() {
    let s = pager("", (10, 5));
    assert_eq!(s.get_visible(), "");
}

#[test]
fn carriage_returns_are_stripped_from_line_ends() {
    let s = pager("one\r\ntwo\r\nthree", (10, 4));
    assert_eq!(s.get_visible(), "1│one\n2│two\n3│three");
}

#[test]
fn carriage_return_without_newline_stays() {
    let mut s = pager("one\r", (10, 5));
    s.show_line_numbers = false;
    assert_eq!(s.line_count(), 1);
    assert_eq!(s.get_visible(), "one\r");
}

#[test]
fn line_indicator_accepts_any_number_of_the_same_width() {
    assert_eq!(line_indicator_format(5, 3), "5|");
}
