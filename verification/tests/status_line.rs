use pager_rs::CommandList;
use pager_rs::State;
use pager_rs::StatusBar;
use pager_rs::justify;
use pager_rs::percentage;

#[test]
fn justify_pads_the_gap_to_exact_width() {
    // Five left characters, ten right characters, width twenty: five
    // spaces in between.
    let line = justify("title", "3/10 (30%)", 20);
    assert_eq!(line, "title     3/10 (30%)");
    assert_eq!(line.chars().count(), 20);
}

#[test]
fn justify_drops_right_part_that_does_not_fit() {
    let line = justify("title", "3/10 (30%)", 12);
    assert_eq!(line, "title       ");
    assert_eq!(line.chars().count(), 12);
}

#[test]
fn justify_truncates_overlong_left_part() {
    let line = justify("a very long title", "right", 6);
    assert_eq!(line, "a very");
}

#[test]
fn justify_zero_width_is_empty() {
    assert_eq!(justify("left", "right", 0), "");
}

#[test]
fn percentage_rounds_to_nearest() {
    assert_eq!(percentage(1, 4), 25);
    assert_eq!(percentage(4, 4), 100);
    assert_eq!(percentage(1, 3), 33);
    assert_eq!(percentage(2, 3), 67);
}

#[test]
fn percentage_of_empty_content_is_guarded() {
    // Empty content counts as one line, so line one is 100%.
    assert_eq!(percentage(1, 0), 100);
}

#[test]
fn status_bar_renders_title_and_position() {
    let content = "a\nb\nc\nd\ne\nf\ng\nh\ni\nj".to_string();
    let mut s = State::new(
        content,
        StatusBar::new("title".to_string()),
        CommandList::default(),
        (20, 24),
    );
    s.pos = (0, 2);
    let bar = s.status_bar.get_visible(&s);
    assert_eq!(bar, "title     3/10 (30%)");
}

#[test]
fn status_bar_layout_parts() {
    let content = "a\nb\nc\nd".to_string();
    let s = State::new(
        content,
        StatusBar::new("name".to_string()),
        CommandList::default(),
        (20, 24),
    );
    let (left, right) = s.status_bar.line_layouts[0].get_parts(&s);
    assert_eq!(left, "name");
    assert_eq!(right, "1/4 (25%)");
}

#[test]
fn status_bar_joins_rows_with_newlines() {
    let content = "a\nb".to_string();
    let mut s = State::new(
        content,
        StatusBar::new("t".to_string()),
        CommandList::default(),
        (10, 24),
    );
    let extra = s.status_bar.line_layouts[0].clone();
    s.status_bar.line_layouts.push(extra);
    let bar = s.status_bar.get_visible(&s);
    let rows: Vec<&str> = bar.split('\n').collect();
    assert_eq!(rows.len(), 2);
    assert_eq!(rows[0], rows[1]);
    assert_eq!(rows[0].chars().count(), 10);
}
