//! The pager state: content, scroll position, terminal size, the active
//! command registry, and a single-slot content overlay. Navigation
//! operations report whether the visible state changed, and every
//! boundary case is a clamped no-op rather than a fault.

use vstd::prelude::*;

use crate::commands::Action;
use crate::commands::CommandList;
use crate::commands::KeyCode;
use crate::commands::find_colon_command;
use crate::commands::find_key_command;
use crate::commands::first_colon_index;
use crate::commands::first_key_index;
use crate::commands::help_text_of;
use crate::commands::spec_help_text;
use crate::status_bar::StatusBar;
use crate::text::chars_of;
use crate::text::count_lines;
use crate::text::dec_digits;
use crate::text::join_line_vecs;
use crate::text::join_lines;
use crate::text::line_split;
use crate::text::slice_range;
use crate::text::spaces;
use crate::text::spaces_seq;
use crate::text::split_lines;
use crate::text::string_from_chars;
use crate::text::usize_to_chars;
use crate::text::views_of;

verus! {

/// The content and position saved while an overlay is shown.
pub struct OverlayFrame {
    pub content: String,
    pub pos: (usize, usize),
}

/// A pager session: what is shown, where the viewport is, and how input
/// is handled.
pub struct State {
    /// Scroll position in the content: `(leftmost column, topmost line)`.
    pub pos: (usize, usize),
    /// Terminal size `(width, height)` in character cells; the height
    /// includes the rows reserved for the status bar.
    pub size: (u16, u16),
    /// The text being shown.
    pub content: String,
    /// The status bar at the bottom of the screen.
    pub status_bar: StatusBar,
    /// The active command registry.
    pub commands: CommandList,
    /// Cleared by the quit action; the control loop stops when it is
    /// false.
    pub running: bool,
    /// Whether a line-number gutter is put before each content line.
    pub show_line_numbers: bool,
    /// The saved frame while substitute content (such as help text) is
    /// shown; at most one frame is ever saved.
    pub overlay: Option<OverlayFrame>,
}

/// How many lines the content splits into.
pub open spec fn line_count_spec(s: State) -> nat {
    line_split(s.content@).len()
}

/// The line count with empty content counted as one line, so that
/// navigation arithmetic never underflows.
pub open spec fn eff_line_count(s: State) -> nat {
    if line_count_spec(s) == 0 {
        1
    } else {
        line_count_spec(s)
    }
}

/// The 1-based number of the topmost visible line, clamped to `usize`.
pub open spec fn current_line_spec(s: State) -> nat {
    if s.pos.1 == usize::MAX {
        usize::MAX as nat
    } else {
        (s.pos.1 + 1) as nat
    }
}

/// Addition clamped to `usize`.
pub open spec fn sat_add(a: int, b: int) -> int {
    if a + b <= usize::MAX {
        a + b
    } else {
        usize::MAX as int
    }
}

/// Everything except the scroll position is the same.
pub open spec fn same_except_pos(pre: State, post: State) -> bool {
    &&& post.size == pre.size
    &&& post.content == pre.content
    &&& post.status_bar == pre.status_bar
    &&& post.commands == pre.commands
    &&& post.running == pre.running
    &&& post.show_line_numbers == pre.show_line_numbers
    &&& post.overlay == pre.overlay
}

/// What `up` does: one line up, a no-op at the first line.
pub open spec fn up_post(pre: State, post: State, r: bool) -> bool {
    &&& same_except_pos(pre, post)
    &&& post.pos.0 == pre.pos.0
    &&& if pre.pos.1 > 0 {
        post.pos.1 == pre.pos.1 - 1 && r == true
    } else {
        post.pos.1 == pre.pos.1 && r == false
    }
}

/// What `down` does: one line down, a no-op at the last line.
pub open spec fn down_post(pre: State, post: State, r: bool) -> bool {
    &&& same_except_pos(pre, post)
    &&& post.pos.0 == pre.pos.0
    &&& if pre.pos.1 < eff_line_count(pre) - 1 {
        post.pos.1 == pre.pos.1 + 1 && r == true
    } else {
        post.pos.1 == pre.pos.1 && r == false
    }
}

/// The horizontal step: half the terminal width.
pub open spec fn horizontal_step(pre: State) -> int {
    pre.size.0 as int / 2
}

/// What `left` does: a half-screen step left, clamped at column zero; it
/// reports a change exactly when the column moved.
pub open spec fn left_post(pre: State, post: State, r: bool) -> bool {
    let amount = horizontal_step(pre);
    &&& same_except_pos(pre, post)
    &&& post.pos.1 == pre.pos.1
    &&& post.pos.0 == if pre.pos.0 >= amount {
        pre.pos.0 - amount
    } else {
        0
    }
    &&& r == (post.pos.0 != pre.pos.0)
}

/// What `right` does: a half-screen step right, unbounded up to the
/// machine limit.
pub open spec fn right_post(pre: State, post: State, r: bool) -> bool {
    &&& same_except_pos(pre, post)
    &&& post.pos.1 == pre.pos.1
    &&& post.pos.0 == sat_add(pre.pos.0 as int, horizontal_step(pre))
    &&& r == true
}

/// What `home` does: jump to the first line, a no-op when already there.
pub open spec fn home_post(pre: State, post: State, r: bool) -> bool {
    &&& same_except_pos(pre, post)
    &&& post.pos.0 == pre.pos.0
    &&& if pre.pos.1 > 0 {
        post.pos.1 == 0 && r == true
    } else {
        post.pos.1 == pre.pos.1 && r == false
    }
}

/// What `end` does: jump so the last lines fill the visible rows;
/// always reports a change, even when already there.
pub open spec fn end_post(pre: State, post: State, r: bool) -> bool {
    let lc = line_count_spec(pre) as int;
    let h = visible_height(pre);
    &&& same_except_pos(pre, post)
    &&& post.pos.0 == pre.pos.0
    &&& post.pos.1 == if lc > h {
        sat_add(lc - h, 1)
    } else {
        0
    }
    &&& r == true
}

/// What `pgup` does: nearly a full page of visible rows up, stopping at
/// the first line; a no-op when already at the top.
pub open spec fn pgup_post(pre: State, post: State, r: bool) -> bool {
    let h = visible_height(pre);
    &&& same_except_pos(pre, post)
    &&& post.pos.0 == pre.pos.0
    &&& if h >= 1 && pre.pos.1 >= h {
        post.pos.1 == pre.pos.1 - (h - 1) && r == true
    } else if pre.pos.1 != 0 {
        post.pos.1 == 0 && r == true
    } else {
        post.pos.1 == pre.pos.1 && r == false
    }
}

/// Where `pgdown` lands: a full page of visible rows down, clamped to
/// the last line.
pub open spec fn pgdown_new_y(pre: State) -> int {
    let h = visible_height(pre);
    let elc = eff_line_count(pre) as int;
    let sum = pre.pos.1 + h;
    let t = if sum <= elc {
        sum
    } else {
        elc
    };
    if t == 0 {
        0
    } else {
        t - 1
    }
}

/// What `pgdown` does: move to `pgdown_new_y`, reporting whether that
/// changed anything.
pub open spec fn pgdown_post(pre: State, post: State, r: bool) -> bool {
    &&& same_except_pos(pre, post)
    &&& post.pos.0 == pre.pos.0
    &&& post.pos.1 == pgdown_new_y(pre)
    &&& r == (post.pos.1 != pre.pos.1)
}

/// What opening an overlay does: with no frame saved, the current
/// content and position are saved, the given text becomes the content
/// and the position resets to the top left; with a frame already saved,
/// nothing happens.
pub open spec fn open_overlay_post(pre: State, text: String, post: State, r: bool) -> bool {
    if pre.overlay is None {
        &&& post.content == text
        &&& post.pos.0 == 0
        &&& post.pos.1 == 0
        &&& post.overlay matches Some(f) && f.content == pre.content && f.pos == pre.pos
        &&& post.size == pre.size
        &&& post.status_bar == pre.status_bar
        &&& post.commands == pre.commands
        &&& post.running == pre.running
        &&& post.show_line_numbers == pre.show_line_numbers
        &&& r == true
    } else {
        post == pre && r == false
    }
}

/// What closing an overlay does: the saved content and position come
/// back exactly and the slot empties; with nothing saved, nothing
/// happens.
pub open spec fn close_overlay_post(pre: State, post: State, r: bool) -> bool {
    match pre.overlay {
        Some(f) => {
            &&& post.content == f.content
            &&& post.pos == f.pos
            &&& post.overlay is None
            &&& post.size == pre.size
            &&& post.status_bar == pre.status_bar
            &&& post.commands == pre.commands
            &&& post.running == pre.running
            &&& post.show_line_numbers == pre.show_line_numbers
            &&& r == true
        },
        None => post == pre && r == false,
    }
}

/// What the help toggle does: open the generated help text as an
/// overlay, or close the overlay that is showing.
pub open spec fn toggle_help_post(pre: State, post: State, r: bool) -> bool {
    if pre.overlay is None {
        &&& post.content@ == spec_help_text(pre.commands.0@)
        &&& post.pos.0 == 0
        &&& post.pos.1 == 0
        &&& post.overlay matches Some(f) && f.content == pre.content && f.pos == pre.pos
        &&& post.size == pre.size
        &&& post.status_bar == pre.status_bar
        &&& post.commands == pre.commands
        &&& post.running == pre.running
        &&& post.show_line_numbers == pre.show_line_numbers
        &&& r == true
    } else {
        close_overlay_post(pre, post, r)
    }
}

/// What the quit action does: clear the running flag and nothing else;
/// it asks for no redraw.
pub open spec fn quit_action_post(pre: State, post: State, r: bool) -> bool {
    &&& post.running == false
    &&& post.pos == pre.pos
    &&& post.size == pre.size
    &&& post.content == pre.content
    &&& post.status_bar == pre.status_bar
    &&& post.commands == pre.commands
    &&& post.show_line_numbers == pre.show_line_numbers
    &&& post.overlay == pre.overlay
    &&& r == false
}

/// What the line-number toggle does: flip the gutter and ask for a
/// redraw.
pub open spec fn toggle_line_numbers_post(pre: State, post: State, r: bool) -> bool {
    &&& post.show_line_numbers == !pre.show_line_numbers
    &&& post.pos == pre.pos
    &&& post.size == pre.size
    &&& post.content == pre.content
    &&& post.status_bar == pre.status_bar
    &&& post.commands == pre.commands
    &&& post.running == pre.running
    &&& post.overlay == pre.overlay
    &&& r == true
}

/// What running action `a` does to the state.
pub open spec fn action_post(a: Action, pre: State, post: State, r: bool) -> bool {
    match a {
        Action::Quit => quit_action_post(pre, post, r),
        Action::Up => up_post(pre, post, r),
        Action::Down => down_post(pre, post, r),
        Action::Left => left_post(pre, post, r),
        Action::Right => right_post(pre, post, r),
        Action::Home => home_post(pre, post, r),
        Action::End => end_post(pre, post, r),
        Action::PageUp => pgup_post(pre, post, r),
        Action::PageDown => pgdown_post(pre, post, r),
        Action::ToggleLineNumbers => toggle_line_numbers_post(pre, post, r),
        Action::ToggleHelp => toggle_help_post(pre, post, r),
    }
}

/// What a key press does: the first command triggered by the key runs;
/// with no match, nothing changes and no redraw is asked for.
pub open spec fn key_event_post(pre: State, code: KeyCode, post: State, r: bool) -> bool {
    let cs = pre.commands.0@;
    let i = first_key_index(cs, code);
    if i < cs.len() {
        action_post(cs[i].action, pre, post, r)
    } else {
        post == pre && r == false
    }
}

/// What a colon command does: the first command triggered by the typed
/// name runs; with no match, nothing changes and no redraw is asked for.
pub open spec fn colon_event_post(pre: State, line: Seq<char>, post: State, r: bool) -> bool {
    let cs = pre.commands.0@;
    let i = first_colon_index(cs, line);
    if i < cs.len() {
        action_post(cs[i].action, pre, post, r)
    } else {
        post == pre && r == false
    }
}

impl State {
    /// A fresh session over `content`, at the top left, running, with
    /// line numbers shown.
    pub fn new(content: String, status_bar: StatusBar, commands: CommandList, size: (u16, u16)) -> (r:
        Self)
        ensures
            r.pos.0 == 0,
            r.pos.1 == 0,
            r.size == size,
            r.content == content,
            r.status_bar == status_bar,
            r.commands == commands,
            r.running == true,
            r.show_line_numbers == true,
            r.overlay is None,
    {
        State {
            pos: (0, 0),
            size,
            content,
            status_bar,
            commands,
            running: true,
            show_line_numbers: true,
            overlay: None,
        }
    }

    /// Whether the session is still running.
    pub fn is_running(&self) -> (r: bool)
        ensures
            r == self.running,
    {
        self.running
    }

    /// Stop the session: the control loop exits at its next iteration.
    pub fn quit(&mut self)
        ensures
            final(self).running == false,
            final(self).pos == old(self).pos,
            final(self).size == old(self).size,
            final(self).content == old(self).content,
            final(self).status_bar == old(self).status_bar,
            final(self).commands == old(self).commands,
            final(self).show_line_numbers == old(self).show_line_numbers,
            final(self).overlay == old(self).overlay,
    {
        self.running = false;
    }

    /// How many lines the content has.
    pub fn line_count(&self) -> (n: usize)
        ensures
            n == line_count_spec(*self),
    {
        count_lines(self.content.as_str())
    }

    /// Move one line up.
    pub fn up(&mut self) -> (r: bool)
        ensures
            up_post(*old(self), *final(self), r),
    {
        if self.pos.1 != 0 {
            self.pos = (self.pos.0, self.pos.1 - 1);
            return true;
        }
        false
    }

    /// Move one line down.
    pub fn down(&mut self) -> (r: bool)
        ensures
            down_post(*old(self), *final(self), r),
    {
        let lc = count_lines(self.content.as_str());
        let elc = if lc == 0 {
            1
        } else {
            lc
        };
        if self.pos.1 < elc - 1 {
            self.pos = (self.pos.0, self.pos.1 + 1);
            return true;
        }
        false
    }

    /// Move half a screen left.
    pub fn left(&mut self) -> (r: bool)
        ensures
            left_post(*old(self), *final(self), r),
    {
        let amount = (self.size.0 / 2) as usize;
        if self.pos.0 >= amount {
            self.pos = (self.pos.0 - amount, self.pos.1);
            return amount != 0;
        } else if self.pos.0 != 0 {
            self.pos = (0, self.pos.1);
            return true;
        }
        false
    }

    /// The rows left for content: the height minus the status bar's
    /// rows, and none when the bar fills the screen.
    fn content_rows(&self) -> (h: usize)
        ensures
            h == visible_height(*self),
    {
        let rows = self.status_bar.line_layouts.len();
        let th = self.size.1 as usize;
        if th >= rows {
            th - rows
        } else {
            0
        }
    }

    /// Move half a screen right.
    pub fn right(&mut self) -> (r: bool)
        ensures
            right_post(*old(self), *final(self), r),
    {
        let amount = (self.size.0 / 2) as usize;
        self.pos = (self.pos.0.saturating_add(amount), self.pos.1);
        true
    }

    /// Move nearly a full page of visible rows up.
    pub fn pgup(&mut self) -> (r: bool)
        ensures
            pgup_post(*old(self), *final(self), r),
    {
        let h = self.content_rows();
        if h >= 1 && self.pos.1 >= h {
            self.pos = (self.pos.0, self.pos.1 - (h - 1));
            return true;
        } else if self.pos.1 != 0 {
            self.pos = (self.pos.0, 0);
            return true;
        }
        false
    }

    /// Move a full page of visible rows down, stopping at the last line.
    pub fn pgdown(&mut self) -> (r: bool)
        ensures
            pgdown_post(*old(self), *final(self), r),
    {
        let h = self.content_rows();
        let lc = count_lines(self.content.as_str());
        let elc = if lc == 0 {
            1
        } else {
            lc
        };
        let sum = self.pos.1.saturating_add(h);
        let t = if sum <= elc {
            sum
        } else {
            elc
        };
        let newy = if t == 0 {
            0
        } else {
            t - 1
        };
        if newy != self.pos.1 {
            self.pos = (self.pos.0, newy);
            return true;
        }
        false
    }

    /// Jump to the first line.
    pub fn home(&mut self) -> (r: bool)
        ensures
            home_post(*old(self), *final(self), r),
    {
        if self.pos.1 > 0 {
            self.pos = (self.pos.0, 0);
            return true;
        }
        false
    }

    /// Jump so the last lines fill the visible rows.
    pub fn end(&mut self) -> (r: bool)
        ensures
            end_post(*old(self), *final(self), r),
    {
        let lc = count_lines(self.content.as_str());
        let h = self.content_rows();
        let newy = if lc > h {
            (lc - h).saturating_add(1)
        } else {
            0
        };
        self.pos = (self.pos.0, newy);
        true
    }

    /// Show `text` instead of the content, saving what is shown now;
    /// a no-op if an overlay is already open.
    pub fn open_overlay(&mut self, text: String) -> (r: bool)
        ensures
            open_overlay_post(*old(self), text, *final(self), r),
    {
        if self.overlay.is_some() {
            return false;
        }
        let mut text = text;
        core::mem::swap(&mut self.content, &mut text);
        self.overlay = Some(OverlayFrame { content: text, pos: self.pos });
        self.pos = (0, 0);
        true
    }

    /// Restore the content and position saved when the overlay opened;
    /// a no-op if no overlay is open.
    pub fn close_overlay(&mut self) -> (r: bool)
        ensures
            close_overlay_post(*old(self), *final(self), r),
    {
        match self.overlay.take() {
            Some(f) => {
                self.content = f.content;
                self.pos = f.pos;
                true
            },
            None => false,
        }
    }

    /// The generated help text for the active command registry.
    pub fn get_help_text(&self) -> (r: String)
        ensures
            r@ == spec_help_text(self.commands.0@),
    {
        help_text_of(&self.commands.0)
    }

    /// Open the help text as an overlay, or close the open overlay.
    pub fn toggle_help(&mut self) -> (r: bool)
        ensures
            toggle_help_post(*old(self), *final(self), r),
    {
        if self.overlay.is_some() {
            self.close_overlay()
        } else {
            let text = help_text_of(&self.commands.0);
            self.open_overlay(text)
        }
    }

    /// Run action `a` on this state; the result says whether a redraw is
    /// needed.
    pub fn apply_action(&mut self, a: Action) -> (r: bool)
        ensures
            action_post(a, *old(self), *final(self), r),
    {
        match a {
            Action::Quit => {
                self.quit();
                false
            },
            Action::Up => self.up(),
            Action::Down => self.down(),
            Action::Left => self.left(),
            Action::Right => self.right(),
            Action::Home => self.home(),
            Action::End => self.end(),
            Action::PageUp => self.pgup(),
            Action::PageDown => self.pgdown(),
            Action::ToggleLineNumbers => {
                self.show_line_numbers = !self.show_line_numbers;
                true
            },
            Action::ToggleHelp => self.toggle_help(),
        }
    }

    /// Find and run the first command triggered by the pressed key.
    pub fn match_key_event(&mut self, code: KeyCode) -> (r: bool)
        ensures
            key_event_post(*old(self), code, *final(self), r),
    {
        match find_key_command(&self.commands.0, code) {
            Some(i) => {
                let a = self.commands.0[i].action;
                self.apply_action(a)
            },
            None => false,
        }
    }

    /// Find and run the first command triggered by the typed colon name.
    pub fn match_colon_event(&mut self, line: &str) -> (r: bool)
        ensures
            colon_event_post(*old(self), line@, *final(self), r),
    {
        match find_colon_command(&self.commands.0, line) {
            Some(i) => {
                let a = self.commands.0[i].action;
                self.apply_action(a)
            },
            None => false,
        }
    }
}

/// The line-number gutter: the 1-based line number right-justified to
/// the width of the largest line number, then a separator bar.
pub open spec fn indicator_seq(line_no: nat, max_w: nat) -> Seq<char> {
    spaces_seq(max_w - dec_digits(line_no).len()) + dec_digits(line_no) + seq!['│']
}

/// The part of `line` visible through a window starting at column `x`
/// and `budget` columns wide.
pub open spec fn visible_slice(line: Seq<char>, x: int, budget: int) -> Seq<char> {
    let start = if x <= line.len() {
        x
    } else {
        line.len() as int
    };
    let end = if x + budget <= line.len() {
        x + budget
    } else {
        line.len() as int
    };
    line.subrange(start, end)
}

/// One rendered content line: the gutter (if shown), cut to the screen
/// width, then as much of the line as fits in the remaining columns.
pub open spec fn render_line(
    line: Seq<char>,
    line_no: nat,
    x: int,
    width: int,
    show: bool,
    max_w: nat,
) -> Seq<char> {
    let ind = if show {
        indicator_seq(line_no, max_w)
    } else {
        Seq::empty()
    };
    let ind_t = if ind.len() <= width {
        ind
    } else {
        ind.subrange(0, width)
    };
    ind_t + visible_slice(line, x, width - ind_t.len())
}

/// How many content rows the screen has: the height minus the rows the
/// status bar reserves.
pub open spec fn visible_height(s: State) -> int {
    let rows = s.status_bar.line_layouts@.len() as int;
    if s.size.1 >= rows {
        s.size.1 - rows
    } else {
        0
    }
}

/// The rendered content rows: lines from the scroll position down, one
/// per available screen row, each rendered by `render_line`.
pub open spec fn spec_visible_lines(s: State) -> Seq<Seq<char>> {
    let ls = line_split(s.content@);
    let avail = visible_height(s);
    let y = s.pos.1 as int;
    let n = if y < ls.len() {
        if avail <= ls.len() - y {
            avail
        } else {
            ls.len() - y
        }
    } else {
        0
    };
    Seq::new(
        n as nat,
        |i: int|
            render_line(
                ls[y + i],
                (y + i + 1) as nat,
                s.pos.0 as int,
                s.size.0 as int,
                s.show_line_numbers,
                dec_digits(ls.len()).len(),
            ),
    )
}

/// The visible text: the rendered rows joined by newlines.
pub open spec fn spec_visible_text(s: State) -> Seq<char> {
    join_lines(spec_visible_lines(s))
}

fn render_line_chars(
    line: &Vec<char>,
    line_no: usize,
    x: usize,
    width: usize,
    show: bool,
    max_w: usize,
) -> (r: Vec<char>)
    ensures
        r@ == render_line(line@, line_no as nat, x as int, width as int, show, max_w as nat),
{
    let mut ind: Vec<char> = Vec::new();
    if show {
        let mut digits = usize_to_chars(line_no);
        let pad = if digits.len() < max_w {
            max_w - digits.len()
        } else {
            0
        };
        ind = spaces(pad);
        ind.append(&mut digits);
        ind.push('│');
        assert(ind@ =~= indicator_seq(line_no as nat, max_w as nat));
    }
    if ind.len() > width {
        ind = slice_range(&ind, 0, width);
    }
    let budget = width - ind.len();
    let start = if x <= line.len() {
        x
    } else {
        line.len()
    };
    let cap = x.saturating_add(budget);
    let end = if cap <= line.len() {
        cap
    } else {
        line.len()
    };
    let mut slice = slice_range(line, start, end);
    proof {
        assert(slice@ =~= visible_slice(line@, x as int, budget as int));
    }
    ind.append(&mut slice);
    assert(ind@ =~= render_line(line@, line_no as nat, x as int, width as int, show, max_w as nat));
    ind
}

impl State {
    fn visible_line_vecs(&self) -> (r: Vec<Vec<char>>)
        ensures
            views_of(r@) == spec_visible_lines(*self),
    {
        let cs = chars_of(self.content.as_str());
        let ls = split_lines(&cs);
        let avail = self.content_rows();
        let y = self.pos.1;
        let total = ls.len();
        let max_w = usize_to_chars(total).len();
        let n = if y < total {
            let rem = total - y;
            if avail <= rem {
                avail
            } else {
                rem
            }
        } else {
            0
        };
        assert(n == spec_visible_lines(*self).len());
        let mut out: Vec<Vec<char>> = Vec::new();
        let mut i: usize = 0;
        while i < n
            invariant
                i <= n,
                n == spec_visible_lines(*self).len(),
                y == self.pos.1,
                max_w == dec_digits(line_split(self.content@).len()).len(),
                views_of(ls@) == line_split(self.content@),
                total == ls@.len(),
                n == 0 || y + n <= total,
                out@.len() == i,
                forall|k: int| 0 <= k < i ==> #[trigger] out@[k]@ == spec_visible_lines(*self)[k],
            decreases n - i,
        {
            let row = render_line_chars(
                &ls[y + i],
                y + i + 1,
                self.pos.0,
                self.size.0 as usize,
                self.show_line_numbers,
                max_w,
            );
            out.push(row);
            i = i + 1;
        }
        proof {
            assert(views_of(out@) =~= spec_visible_lines(*self));
        }
        out
    }

    /// The visible content rows, one string per screen row: at most
    /// `visible_height` rows of at most `width` columns each.
    pub fn get_visible_lines(&self) -> (r: Vec<String>)
        ensures
            r@.map_values(|l: String| l@) == spec_visible_lines(*self),
    {
        let rows = self.visible_line_vecs();
        let mut out: Vec<String> = Vec::new();
        let mut i: usize = 0;
        while i < rows.len()
            invariant
                i <= rows@.len(),
                views_of(rows@) == spec_visible_lines(*self),
                out@.len() == i,
                forall|k: int| 0 <= k < i ==> #[trigger] out@[k]@ == spec_visible_lines(*self)[k],
            decreases rows@.len() - i,
        {
            out.push(string_from_chars(&rows[i]));
            i = i + 1;
        }
        proof {
            assert(out@.map_values(|l: String| l@) =~= spec_visible_lines(*self));
        }
        out
    }

    /// The visible text: the content rows joined by newlines, without
    /// the status bar.
    pub fn get_visible(&self) -> (r: String)
        ensures
            r@ == spec_visible_text(*self),
    {
        let rows = self.visible_line_vecs();
        let joined = join_line_vecs(&rows);
        string_from_chars(&joined)
    }
}

/// Law: the rendering never overflows the screen; there are at most
/// `visible_height` rows, and no row is wider than the screen.
pub proof fn lemma_visible_bounds(s: State)
    ensures
        spec_visible_lines(s).len() <= visible_height(s),
        forall|i: int|
            0 <= i < spec_visible_lines(s).len() ==> #[trigger] spec_visible_lines(s)[i].len()
                <= s.size.0,
{
    let vs = spec_visible_lines(s);
    assert forall|i: int| 0 <= i < vs.len() implies #[trigger] vs[i].len() <= s.size.0 by {
        let ls = line_split(s.content@);
        let line = ls[s.pos.1 + i];
        let x = s.pos.0 as int;
        let width = s.size.0 as int;
        let ind = if s.show_line_numbers {
            indicator_seq((s.pos.1 + i + 1) as nat, dec_digits(ls.len()).len())
        } else {
            Seq::<char>::empty()
        };
        let ind_t = if ind.len() <= width {
            ind
        } else {
            ind.subrange(0, width)
        };
        assert(ind_t.len() <= width);
        assert(visible_slice(line, x, width - ind_t.len()).len() <= width - ind_t.len());
    }
}

/// One input event, as the host reports it.
#[derive(Clone, Copy, PartialEq, Eq, Structural, Debug)]
pub enum Event {
    /// A key was pressed.
    Key(KeyCode),
    /// The mouse wheel scrolled up.
    ScrollUp,
    /// The mouse wheel scrolled down.
    ScrollDown,
    /// The terminal was resized to `(width, height)`.
    Resize(u16, u16),
}

/// What the host must do after an event was handled.
#[derive(Clone, Copy, PartialEq, Eq, Structural, Debug)]
pub enum EventResponse {
    /// The visible state changed: redraw the screen.
    Redraw,
    /// Nothing visible changed.
    NoRedraw,
    /// The colon key was pressed: read one line of input and hand it to
    /// `match_colon_event`.
    ColonInput,
}

/// What handling one event does: the colon key asks the host for line
/// input and changes nothing; any other key resolves through the
/// registry; scrolling moves one line; a resize records the new size and
/// always redraws.
pub open spec fn event_post(pre: State, ev: Event, post: State, resp: EventResponse) -> bool {
    match ev {
        Event::Key(code) => if code == KeyCode::Char(':') {
            post == pre && resp == EventResponse::ColonInput
        } else {
            !(resp is ColonInput) && key_event_post(pre, code, post, resp is Redraw)
        },
        Event::ScrollUp => !(resp is ColonInput) && up_post(pre, post, resp is Redraw),
        Event::ScrollDown => !(resp is ColonInput) && down_post(pre, post, resp is Redraw),
        Event::Resize(w, h) => {
            &&& post.size.0 == w
            &&& post.size.1 == h
            &&& post.pos == pre.pos
            &&& post.content == pre.content
            &&& post.status_bar == pre.status_bar
            &&& post.commands == pre.commands
            &&& post.running == pre.running
            &&& post.show_line_numbers == pre.show_line_numbers
            &&& post.overlay == pre.overlay
            &&& resp == EventResponse::Redraw
        },
    }
}

impl State {
    /// Handle one input event, as `event_post` describes.
    pub fn handle_event(&mut self, ev: Event) -> (resp: EventResponse)
        ensures
            event_post(*old(self), ev, *final(self), resp),
    {
        match ev {
            Event::Key(code) => {
                if code == KeyCode::Char(':') {
                    EventResponse::ColonInput
                } else if self.match_key_event(code) {
                    EventResponse::Redraw
                } else {
                    EventResponse::NoRedraw
                }
            },
            Event::ScrollUp => {
                if self.up() {
                    EventResponse::Redraw
                } else {
                    EventResponse::NoRedraw
                }
            },
            Event::ScrollDown => {
                if self.down() {
                    EventResponse::Redraw
                } else {
                    EventResponse::NoRedraw
                }
            },
            Event::Resize(w, h) => {
                self.size = (w, h);
                EventResponse::Redraw
            },
        }
    }
}

/// Law: opening an overlay and then closing it restores the original
/// content and the original position exactly, and leaves no frame saved.
pub proof fn lemma_overlay_round_trip(
    pre: State,
    mid: State,
    post: State,
    text: String,
    r1: bool,
    r2: bool,
)
    requires
        pre.overlay is None,
        open_overlay_post(pre, text, mid, r1),
        close_overlay_post(mid, post, r2),
    ensures
        post.content == pre.content,
        post.pos == pre.pos,
        post.overlay is None,
{
}

/// Law: paging up never moves past the first line, and never moves the
/// viewport down.
pub proof fn lemma_pgup_floor(pre: State, post: State, r: bool)
    requires
        pgup_post(pre, post, r),
    ensures
        0 <= post.pos.1 <= pre.pos.1,
{
}

/// Law: paging down never moves past the last line.
pub proof fn lemma_pgdown_last_line(pre: State, post: State, r: bool)
    requires
        pgdown_post(pre, post, r),
    ensures
        post.pos.1 <= eff_line_count(pre) - 1,
{
}

/// Law: a page down taken from high enough above the end stays at least
/// one page of visible rows short of the line count.
pub proof fn lemma_pgdown_within_page(pre: State, post: State, r: bool)
    requires
        pgdown_post(pre, post, r),
        pre.pos.1 + 2 * visible_height(pre) <= line_count_spec(pre) + 1,
    ensures
        post.pos.1 <= line_count_spec(pre) - visible_height(pre),
{
}

} // verus!
