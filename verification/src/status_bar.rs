//! The status bar: declarative row layouts of text fragments, justified
//! into width-clamped lines, plus the visual theme a host applies when it
//! draws them.

use vstd::prelude::*;

use crate::state::State;
use crate::state::current_line_spec;
use crate::state::line_count_spec;
use crate::text::chars_of;
use crate::text::count_lines;
use crate::text::dec_digits;
use crate::text::join_line_vecs;
use crate::text::join_lines;
use crate::text::slice_range;
use crate::text::spaces;
use crate::text::spaces_seq;
use crate::text::string_from_chars;
use crate::text::u128_to_chars;
use crate::text::usize_to_chars;
use crate::text::views_of;

verus! {

/// A terminal color, as a host maps it to its screen.
#[derive(Clone, Copy, PartialEq, Eq, Structural, Debug)]
pub enum Color {
    Black,
    DarkGrey,
    Red,
    DarkRed,
    Green,
    DarkGreen,
    Yellow,
    DarkYellow,
    Blue,
    DarkBlue,
    Magenta,
    DarkMagenta,
    Cyan,
    DarkCyan,
    White,
    Grey,
    Rgb { r: u8, g: u8, b: u8 },
    AnsiValue(u8),
}

/// A text attribute of the status bar's theme.
#[derive(Clone, Copy, PartialEq, Eq, Structural, Debug)]
pub enum Attribute {
    Bold,
    Dim,
    Italic,
    Underlined,
    Reverse,
    CrossedOut,
}

/// How the status bar is styled: the host applies this to the rendered
/// rows as one styled unit when it draws them.
#[derive(Clone, Debug)]
pub struct Theme {
    pub foreground: Option<Color>,
    pub background: Option<Color>,
    pub attributes: Vec<Attribute>,
}

impl Theme {
    /// Black on white, bold: the default status-bar look.
    pub fn standard() -> (r: Self)
        ensures
            r.foreground == Some(Color::Black),
            r.background == Some(Color::White),
            r.attributes@ == seq![Attribute::Bold],
    {
        let mut attributes: Vec<Attribute> = Vec::new();
        attributes.push(Attribute::Bold);
        assert(attributes@ =~= seq![Attribute::Bold]);
        Theme { foreground: Some(Color::Black), background: Some(Color::White), attributes }
    }
}

/// One fragment of a status-bar row.
#[derive(Clone, Debug)]
pub enum StatusBarLayoutItem {
    /// Fixed text.
    Text(String),
    /// The scroll position as a percentage of the line count.
    Persentage,
    /// The total line count.
    LineCount,
    /// The current (topmost visible) line, 1-based.
    CurrentLine,
    /// The status bar's title.
    Title,
}

/// The layout of one status-bar row: fragments stuck to the left edge and
/// fragments stuck to the right edge.
#[derive(Clone, Debug)]
pub struct StatusBarLayout {
    pub left: Vec<StatusBarLayoutItem>,
    pub right: Vec<StatusBarLayoutItem>,
}

/// Exactly the default row layout: the title on the left and
/// `current/total (percent%)` on the right.
pub open spec fn is_default_layout(l: StatusBarLayout) -> bool {
    &&& l.left@.len() == 1
    &&& l.left@[0] == StatusBarLayoutItem::Title
    &&& l.right@.len() == 6
    &&& l.right@[0] == StatusBarLayoutItem::CurrentLine
    &&& l.right@[1] matches StatusBarLayoutItem::Text(s) && s@ == "/"@
    &&& l.right@[2] == StatusBarLayoutItem::LineCount
    &&& l.right@[3] matches StatusBarLayoutItem::Text(s) && s@ == " ("@
    &&& l.right@[4] == StatusBarLayoutItem::Persentage
    &&& l.right@[5] matches StatusBarLayoutItem::Text(s) && s@ == "%)"@
}

impl Default for StatusBarLayout {
    fn default() -> (r: Self)
        ensures
            is_default_layout(r),
    {
        let mut left: Vec<StatusBarLayoutItem> = Vec::new();
        left.push(StatusBarLayoutItem::Title);
        let mut right: Vec<StatusBarLayoutItem> = Vec::new();
        right.push(StatusBarLayoutItem::CurrentLine);
        right.push(StatusBarLayoutItem::Text("/".to_owned()));
        right.push(StatusBarLayoutItem::LineCount);
        right.push(StatusBarLayoutItem::Text(" (".to_owned()));
        right.push(StatusBarLayoutItem::Persentage);
        right.push(StatusBarLayoutItem::Text("%)".to_owned()));
        StatusBarLayout { left, right }
    }
}

/// The status bar: a title, a theme and the layouts of its rows; the row
/// count decides how many bottom terminal rows the bar reserves.
#[derive(Clone, Debug)]
pub struct StatusBar {
    /// One layout per status-bar row.
    pub line_layouts: Vec<StatusBarLayout>,
    /// Shown wherever a layout uses the title fragment.
    pub title: String,
    /// Applied by the host to the rendered rows.
    pub theme: Theme,
}

/// The scroll position as a percentage: `current / total`, scaled to 100
/// and rounded to the nearest whole number (half rounds up). An empty
/// text counts as a single line, so the percentage is always defined.
pub open spec fn spec_percentage(current: nat, total: nat) -> nat {
    let e: nat = if total == 0 {
        1
    } else {
        total
    };
    (200 * current + e) / (2 * e)
}

/// See `spec_percentage`.
pub fn percentage(current_line: usize, line_count: usize) -> (r: u128)
    ensures
        r == spec_percentage(current_line as nat, line_count as nat),
{
    let e: u128 = if line_count == 0 {
        1
    } else {
        line_count as u128
    };
    let c: u128 = current_line as u128;
    (200 * c + e) / (2 * e)
}

/// One row, justified to `width` columns: an overlong left part is cut
/// off, a right part that no longer fits is dropped (the row is padded to
/// full width instead), and otherwise the gap between the parts is filled
/// with spaces so the row is exactly `width` columns.
pub open spec fn justify_line(left: Seq<char>, right: Seq<char>, width: nat) -> Seq<char> {
    if left.len() > width {
        left.subrange(0, width as int)
    } else if left.len() + right.len() > width {
        left + spaces_seq(width - left.len())
    } else {
        left + spaces_seq(width - left.len() - right.len()) + right
    }
}

pub(crate) fn justify_chars(left: Vec<char>, right: Vec<char>, width: usize) -> (r: Vec<char>)
    ensures
        r@ == justify_line(left@, right@, width as nat),
{
    if left.len() > width {
        slice_range(&left, 0, width)
    } else if right.len() > width - left.len() {
        let mut out = left;
        let mut gap = spaces(width - out.len());
        out.append(&mut gap);
        out
    } else {
        let mut out = left;
        let mut gap = spaces(width - out.len() - right.len());
        out.append(&mut gap);
        let mut right = right;
        out.append(&mut right);
        out
    }
}

/// One status-bar row from its left and right parts, justified to
/// `width` columns as `justify_line` describes.
pub fn justify(left: &str, right: &str, width: usize) -> (r: String)
    ensures
        r@ == justify_line(left@, right@, width as nat),
{
    let l = chars_of(left);
    let rr = chars_of(right);
    let out = justify_chars(l, rr, width);
    string_from_chars(&out)
}

/// The text of one layout fragment, given the values it projects.
pub open spec fn item_text(
    it: StatusBarLayoutItem,
    title: Seq<char>,
    current: nat,
    total: nat,
) -> Seq<char> {
    match it {
        StatusBarLayoutItem::Text(s) => s@,
        StatusBarLayoutItem::Persentage => dec_digits(spec_percentage(current, total)),
        StatusBarLayoutItem::LineCount => dec_digits(total),
        StatusBarLayoutItem::CurrentLine => dec_digits(current),
        StatusBarLayoutItem::Title => title,
    }
}

/// The texts of a fragment sequence, concatenated in order.
pub open spec fn part_text(
    items: Seq<StatusBarLayoutItem>,
    title: Seq<char>,
    current: nat,
    total: nat,
) -> Seq<char>
    decreases items.len(),
{
    if items.len() == 0 {
        Seq::empty()
    } else {
        part_text(items.drop_last(), title, current, total) + item_text(
            items.last(),
            title,
            current,
            total,
        )
    }
}

fn item_chars(it: &StatusBarLayoutItem, title: &String, current: usize, total: usize) -> (r: Vec<
    char,
>)
    ensures
        r@ == item_text(*it, title@, current as nat, total as nat),
{
    match it {
        StatusBarLayoutItem::Text(s) => chars_of(s.as_str()),
        StatusBarLayoutItem::Persentage => u128_to_chars(percentage(current, total)),
        StatusBarLayoutItem::LineCount => usize_to_chars(total),
        StatusBarLayoutItem::CurrentLine => usize_to_chars(current),
        StatusBarLayoutItem::Title => chars_of(title.as_str()),
    }
}

pub(crate) fn part_chars(
    items: &Vec<StatusBarLayoutItem>,
    title: &String,
    current: usize,
    total: usize,
) -> (r: Vec<char>)
    ensures
        r@ == part_text(items@, title@, current as nat, total as nat),
{
    let mut out: Vec<char> = Vec::new();
    let mut i: usize = 0;
    while i < items.len()
        invariant
            i <= items@.len(),
            out@ == part_text(items@.subrange(0, i as int), title@, current as nat, total as nat),
        decreases items@.len() - i,
    {
        let mut t = item_chars(&items[i], title, current, total);
        out.append(&mut t);
        i = i + 1;
        proof {
            let pre = items@.subrange(0, i as int);
            assert(pre.drop_last() =~= items@.subrange(0, i - 1));
            assert(out@ =~= part_text(pre.drop_last(), title@, current as nat, total as nat)
                + item_text(pre.last(), title@, current as nat, total as nat));
        }
    }
    proof {
        assert(items@.subrange(0, items@.len() as int) =~= items@);
    }
    out
}

/// One rendered status-bar row: the layout's left and right parts,
/// justified to the screen width.
pub open spec fn spec_status_row(l: StatusBarLayout, s: State) -> Seq<char> {
    justify_line(
        part_text(l.left@, s.status_bar.title@, current_line_spec(s), line_count_spec(s)),
        part_text(l.right@, s.status_bar.title@, current_line_spec(s), line_count_spec(s)),
        s.size.0 as nat,
    )
}

/// All rendered status-bar rows, in layout order.
pub open spec fn spec_status_rows(ls: Seq<StatusBarLayout>, s: State) -> Seq<Seq<char>> {
    Seq::new(ls.len(), |i: int| spec_status_row(ls[i], s))
}

/// The whole status-bar text: the rows joined by newlines.
pub open spec fn spec_status_text(sb: StatusBar, s: State) -> Seq<char> {
    join_lines(spec_status_rows(sb.line_layouts@, s))
}

impl StatusBarLayout {
    /// The left and right parts of this row as text, with every fragment
    /// evaluated against `state`.
    pub fn get_parts(&self, state: &State) -> (r: (String, String))
        ensures
            r.0@ == part_text(
                self.left@,
                state.status_bar.title@,
                current_line_spec(*state),
                line_count_spec(*state),
            ),
            r.1@ == part_text(
                self.right@,
                state.status_bar.title@,
                current_line_spec(*state),
                line_count_spec(*state),
            ),
    {
        let total = count_lines(state.content.as_str());
        let current = if state.pos.1 == usize::MAX {
            usize::MAX
        } else {
            state.pos.1 + 1
        };
        let left = part_chars(&self.left, &state.status_bar.title, current, total);
        let right = part_chars(&self.right, &state.status_bar.title, current, total);
        (string_from_chars(&left), string_from_chars(&right))
    }
}

impl StatusBar {
    /// The status-bar text for `state`: one justified row per layout,
    /// joined by newlines. The host styles the block with the theme and
    /// draws it on the reserved bottom rows.
    pub fn get_visible(&self, state: &State) -> (r: String)
        ensures
            r@ == spec_status_text(*self, *state),
    {
        let total = count_lines(state.content.as_str());
        let current = if state.pos.1 == usize::MAX {
            usize::MAX
        } else {
            state.pos.1 + 1
        };
        let width = state.size.0 as usize;
        let mut rows: Vec<Vec<char>> = Vec::new();
        let mut i: usize = 0;
        while i < self.line_layouts.len()
            invariant
                i <= self.line_layouts@.len(),
                current as nat == current_line_spec(*state),
                total as nat == line_count_spec(*state),
                width == state.size.0,
                rows@.len() == i,
                forall|k: int|
                    0 <= k < i ==> #[trigger] rows@[k]@ == spec_status_row(
                        self.line_layouts@[k],
                        *state,
                    ),
            decreases self.line_layouts@.len() - i,
        {
            let layout = &self.line_layouts[i];
            let left = part_chars(&layout.left, &state.status_bar.title, current, total);
            let right = part_chars(&layout.right, &state.status_bar.title, current, total);
            let row = justify_chars(left, right, width);
            rows.push(row);
            i = i + 1;
        }
        proof {
            assert(views_of(rows@) =~= spec_status_rows(self.line_layouts@, *state));
        }
        let joined = join_line_vecs(&rows);
        string_from_chars(&joined)
    }

    /// A status bar with the given title, the default row layout and the
    /// standard theme.
    pub fn new(title: String) -> (r: Self)
        ensures
            r.title == title,
            r.line_layouts@.len() == 1,
            is_default_layout(r.line_layouts@[0]),
            r.theme.foreground == Some(Color::Black),
            r.theme.background == Some(Color::White),
            r.theme.attributes@ == seq![Attribute::Bold],
    {
        let mut line_layouts: Vec<StatusBarLayout> = Vec::new();
        line_layouts.push(StatusBarLayout::default());
        StatusBar { line_layouts, title, theme: Theme::standard() }
    }

    /// A status bar with the given title and theme, and the default row
    /// layout.
    pub fn with_theme(title: String, theme: Theme) -> (r: Self)
        ensures
            r.title == title,
            r.theme == theme,
            r.line_layouts@.len() == 1,
            is_default_layout(r.line_layouts@[0]),
    {
        let mut line_layouts: Vec<StatusBarLayout> = Vec::new();
        line_layouts.push(StatusBarLayout::default());
        StatusBar { line_layouts, title, theme }
    }
}

impl Default for StatusBar {
    /// One default-layout row, a placeholder title, the standard theme.
    fn default() -> (r: Self)
        ensures
            r.title@ == "***"@,
            r.line_layouts@.len() == 1,
            is_default_layout(r.line_layouts@[0]),
            r.theme.foreground == Some(Color::Black),
            r.theme.background == Some(Color::White),
            r.theme.attributes@ == seq![Attribute::Bold],
    {
        StatusBar::new("***".to_owned())
    }
}

} // verus!
