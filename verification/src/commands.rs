//! Commands and registries: which trigger (a key press or a typed colon
//! name) runs which action. Lookup is first-match-wins over an ordered
//! list, and registries compose by concatenation.

use vstd::prelude::*;

use crate::text::chars_of;
use crate::text::dec_digits;
use crate::text::line_split;
use crate::text::spaces;
use crate::text::spaces_seq;
use crate::text::split_lines;
use crate::text::str_eq;
use crate::text::string_from_chars;
use crate::text::push_all;
use crate::text::usize_to_chars;
use crate::text::views_of;

verus! {

/// A key on the terminal keyboard, as the host reports it.
#[derive(Clone, Copy, PartialEq, Eq, Structural, Debug)]
pub enum KeyCode {
    Backspace,
    Enter,
    Left,
    Right,
    Up,
    Down,
    Home,
    End,
    PageUp,
    PageDown,
    Tab,
    BackTab,
    Delete,
    Insert,
    F(u8),
    Char(char),
    Null,
    Esc,
    CapsLock,
    NumLock,
    ScrollLock,
    PrintScreen,
    Pause,
    Menu,
    KeypadBegin,
    Media,
    Modifier,
}

/// What a command does to the viewport when it runs.
#[derive(Clone, Copy, PartialEq, Eq, Structural, Debug)]
pub enum Action {
    /// Clear the running flag; the control loop stops.
    Quit,
    /// Scroll one line up.
    Up,
    /// Scroll one line down.
    Down,
    /// Scroll half a screen left.
    Left,
    /// Scroll half a screen right.
    Right,
    /// Jump to the first line.
    Home,
    /// Jump to the last page.
    End,
    /// Scroll one page up.
    PageUp,
    /// Scroll one page down.
    PageDown,
    /// Show or hide the line-number gutter.
    ToggleLineNumbers,
    /// Open the generated help text as an overlay, or close it again.
    ToggleHelp,
}

/// One way a command can be invoked.
#[derive(Clone, Debug)]
pub enum CommandType {
    /// Typed as `:` followed by this name and an end-of-line.
    Colon(String),
    /// Pressed as a single key.
    Key(KeyCode),
}

/// A binding from a set of triggers to an action, with a description
/// shown in the help text.
#[derive(Clone, Debug)]
pub struct Command {
    /// The command runs when any one of these triggers matches the input.
    pub cmd: Vec<CommandType>,
    /// Human-readable description, shown in the help text.
    pub desc: String,
    /// What happens when the command runs.
    pub action: Action,
}

impl PartialEq for CommandType {
    /// Two triggers are equal when they are the same kind with the same
    /// key, or the same colon name.
    fn eq(&self, other: &CommandType) -> (r: bool) {
        match (self, other) {
            (CommandType::Key(a), CommandType::Key(b)) => *a == *b,
            (CommandType::Colon(a), CommandType::Colon(b)) => *a == *b,
            _ => false,
        }
    }
}

impl vstd::std_specs::cmp::PartialEqSpecImpl for CommandType {
    open spec fn obeys_eq_spec() -> bool {
        true
    }

    open spec fn eq_spec(&self, other: &CommandType) -> bool {
        match (self, other) {
            (CommandType::Key(a), CommandType::Key(b)) => a == b,
            (CommandType::Colon(a), CommandType::Colon(b)) => a@ == b@,
            _ => false,
        }
    }
}

/// An ordered list of commands; earlier entries win on lookup.
pub struct CommandList(pub Vec<Command>);

/// Whether trigger `t` is the key `k`.
pub open spec fn is_key_trigger(t: CommandType, k: KeyCode) -> bool {
    t == CommandType::Key(k)
}

/// Whether trigger `t` is a colon command with name `line`.
pub open spec fn is_colon_trigger(t: CommandType, line: Seq<char>) -> bool {
    t matches CommandType::Colon(s) && s@ == line
}

/// Whether pressing `k` triggers command `c`.
pub open spec fn key_triggered(c: Command, k: KeyCode) -> bool {
    exists|i: int| 0 <= i < c.cmd@.len() && is_key_trigger(c.cmd@[i], k)
}

/// Whether the colon name `line` triggers command `c`.
pub open spec fn colon_triggered(c: Command, line: Seq<char>) -> bool {
    exists|i: int| 0 <= i < c.cmd@.len() && is_colon_trigger(c.cmd@[i], line)
}

/// Index of the first command triggered by key `k`, or `cs.len()` if none.
pub open spec fn first_key_index(cs: Seq<Command>, k: KeyCode) -> int
    decreases cs.len(),
{
    if cs.len() == 0 {
        0
    } else if key_triggered(cs[0], k) {
        0
    } else {
        1 + first_key_index(cs.subrange(1, cs.len() as int), k)
    }
}

/// Index of the first command triggered by colon name `line`, or
/// `cs.len()` if none.
pub open spec fn first_colon_index(cs: Seq<Command>, line: Seq<char>) -> int
    decreases cs.len(),
{
    if cs.len() == 0 {
        0
    } else if colon_triggered(cs[0], line) {
        0
    } else {
        1 + first_colon_index(cs.subrange(1, cs.len() as int), line)
    }
}

/// A scan that found no match before `i`, and a match at `i` (or ran off
/// the end), found the first match.
pub proof fn lemma_first_key_index_at(cs: Seq<Command>, k: KeyCode, i: int)
    requires
        0 <= i <= cs.len(),
        forall|j: int| 0 <= j < i ==> !key_triggered(cs[j], k),
        i < cs.len() ==> key_triggered(cs[i], k),
    ensures
        first_key_index(cs, k) == i,
    decreases cs.len(),
{
    if cs.len() == 0 {
    } else if key_triggered(cs[0], k) {
        assert(i == 0);
    } else {
        assert(i >= 1);
        let sub = cs.subrange(1, cs.len() as int);
        assert forall|j: int| 0 <= j < i - 1 implies !key_triggered(sub[j], k) by {
            assert(sub[j] == cs[j + 1]);
        }
        assert(i - 1 < sub.len() ==> sub[i - 1] == cs[i]);
        lemma_first_key_index_at(sub, k, i - 1);
    }
}

/// A scan that found no colon match before `i`, and a match at `i` (or
/// ran off the end), found the first match.
pub proof fn lemma_first_colon_index_at(cs: Seq<Command>, line: Seq<char>, i: int)
    requires
        0 <= i <= cs.len(),
        forall|j: int| 0 <= j < i ==> !colon_triggered(cs[j], line),
        i < cs.len() ==> colon_triggered(cs[i], line),
    ensures
        first_colon_index(cs, line) == i,
    decreases cs.len(),
{
    if cs.len() == 0 {
    } else if colon_triggered(cs[0], line) {
        assert(i == 0);
    } else {
        assert(i >= 1);
        let sub = cs.subrange(1, cs.len() as int);
        assert forall|j: int| 0 <= j < i - 1 implies !colon_triggered(sub[j], line) by {
            assert(sub[j] == cs[j + 1]);
        }
        assert(i - 1 < sub.len() ==> sub[i - 1] == cs[i]);
        lemma_first_colon_index_at(sub, line, i - 1);
    }
}

/// Law: a key trigger present on exactly one command resolves to exactly
/// that command.
pub proof fn lemma_key_lookup_unique(cs: Seq<Command>, k: KeyCode, i: int)
    requires
        0 <= i < cs.len(),
        key_triggered(cs[i], k),
        forall|j: int| 0 <= j < cs.len() && j != i ==> !key_triggered(cs[j], k),
    ensures
        first_key_index(cs, k) == i,
{
    lemma_first_key_index_at(cs, k, i);
}

/// Law: a key that triggers no command resolves to no match.
pub proof fn lemma_key_lookup_absent(cs: Seq<Command>, k: KeyCode)
    requires
        forall|j: int| 0 <= j < cs.len() ==> !key_triggered(cs[j], k),
    ensures
        first_key_index(cs, k) == cs.len(),
{
    lemma_first_key_index_at(cs, k, cs.len() as int);
}

/// Law: a colon name present on exactly one command resolves to exactly
/// that command.
pub proof fn lemma_colon_lookup_unique(cs: Seq<Command>, line: Seq<char>, i: int)
    requires
        0 <= i < cs.len(),
        colon_triggered(cs[i], line),
        forall|j: int| 0 <= j < cs.len() && j != i ==> !colon_triggered(cs[j], line),
    ensures
        first_colon_index(cs, line) == i,
{
    lemma_first_colon_index_at(cs, line, i);
}

/// Law: a colon name that triggers no command resolves to no match.
pub proof fn lemma_colon_lookup_absent(cs: Seq<Command>, line: Seq<char>)
    requires
        forall|j: int| 0 <= j < cs.len() ==> !colon_triggered(cs[j], line),
    ensures
        first_colon_index(cs, line) == cs.len(),
{
    lemma_first_colon_index_at(cs, line, cs.len() as int);
}

impl From<CommandList> for Vec<Command> {
    /// A command list is just its commands.
    fn from(val: CommandList) -> (r: Vec<Command>) {
        val.0
    }
}

impl vstd::std_specs::convert::FromSpecImpl<CommandList> for Vec<Command> {
    open spec fn obeys_from_spec() -> bool {
        true
    }

    open spec fn from_spec(t: CommandList) -> Self {
        t.0
    }
}

/// The commands of all the lists, in order.
pub open spec fn concat_commands(ls: Seq<CommandList>) -> Seq<Command>
    decreases ls.len(),
{
    if ls.len() == 0 {
        Seq::empty()
    } else {
        ls[0].0@ + concat_commands(ls.subrange(1, ls.len() as int))
    }
}

/// Exactly the default quit command: `q`, `Q`, `Esc` or `:quit`.
pub open spec fn is_quit_commands(cs: Seq<Command>) -> bool {
    &&& cs.len() == 1
    &&& cs[0].cmd@.len() == 4
    &&& cs[0].cmd@[0] == CommandType::Key(KeyCode::Char('q'))
    &&& cs[0].cmd@[1] == CommandType::Key(KeyCode::Char('Q'))
    &&& cs[0].cmd@[2] == CommandType::Key(KeyCode::Esc)
    &&& cs[0].cmd@[3] matches CommandType::Colon(s) && s@ == "quit"@
    &&& cs[0].desc@ == "Quit"@
    &&& cs[0].action == Action::Quit
}

/// A command with a single key trigger.
pub open spec fn is_key_command(c: Command, k: KeyCode, desc: Seq<char>, a: Action) -> bool {
    &&& c.cmd@.len() == 1
    &&& c.cmd@[0] == CommandType::Key(k)
    &&& c.desc@ == desc
    &&& c.action == a
}

/// A command with two key triggers.
pub open spec fn is_key2_command(
    c: Command,
    k1: KeyCode,
    k2: KeyCode,
    desc: Seq<char>,
    a: Action,
) -> bool {
    &&& c.cmd@.len() == 2
    &&& c.cmd@[0] == CommandType::Key(k1)
    &&& c.cmd@[1] == CommandType::Key(k2)
    &&& c.desc@ == desc
    &&& c.action == a
}

/// Exactly the default navigation commands, in their registry order.
pub open spec fn is_navigation_commands(cs: Seq<Command>) -> bool {
    &&& cs.len() == 8
    &&& is_key_command(cs[0], KeyCode::Up, "Cursor up"@, Action::Up)
    &&& is_key_command(cs[1], KeyCode::Down, "Cursor down"@, Action::Down)
    &&& is_key_command(cs[2], KeyCode::Left, "Cursor left"@, Action::Left)
    &&& is_key_command(cs[3], KeyCode::Right, "Cursor right"@, Action::Right)
    &&& is_key2_command(cs[4], KeyCode::Home, KeyCode::Char('g'), "Go to start"@, Action::Home)
    &&& is_key2_command(cs[5], KeyCode::End, KeyCode::Char('G'), "Go to end"@, Action::End)
    &&& is_key_command(cs[6], KeyCode::PageUp, "One page up"@, Action::PageUp)
    &&& is_key_command(cs[7], KeyCode::PageDown, "One page down"@, Action::PageDown)
}

/// Exactly the default help command: `h` or `:help`.
pub open spec fn is_help_commands(cs: Seq<Command>) -> bool {
    &&& cs.len() == 1
    &&& cs[0].cmd@.len() == 2
    &&& cs[0].cmd@[0] == CommandType::Key(KeyCode::Char('h'))
    &&& cs[0].cmd@[1] matches CommandType::Colon(s) && s@ == "help"@
    &&& cs[0].desc@ == "Toggles help text visiblity"@
    &&& cs[0].action == Action::ToggleHelp
}

/// Exactly the default line-number toggle command: `l`.
pub open spec fn is_toggle_line_numbers_commands(cs: Seq<Command>) -> bool {
    &&& cs.len() == 1
    &&& is_key_command(
        cs[0],
        KeyCode::Char('l'),
        "Show/Hide line numbers"@,
        Action::ToggleLineNumbers,
    )
}

impl CommandList {
    /// Combine command lists into one, keeping their order; on lookup,
    /// entries of earlier lists win over later ones.
    pub fn combine(list: Vec<CommandList>) -> (r: Self)
        ensures
            r.0@ == concat_commands(list@),
    {
        let ghost orig = list@;
        let mut rest = list;
        let mut v: Vec<Command> = Vec::new();
        proof {
            assert(v@ + concat_commands(rest@) =~= concat_commands(orig));
        }
        while rest.len() > 0
            invariant
                v@ + concat_commands(rest@) == concat_commands(orig),
            decreases rest@.len(),
        {
            let ghost pre_rest = rest@;
            let ghost pre_v = v@;
            let mut item = rest.remove(0);
            v.append(&mut item.0);
            proof {
                assert(rest@ =~= pre_rest.subrange(1, pre_rest.len() as int));
                assert(concat_commands(pre_rest) == pre_rest[0].0@ + concat_commands(rest@));
                assert(v@ + concat_commands(rest@) =~= concat_commands(orig));
            }
        }
        proof {
            assert(v@ =~= concat_commands(orig));
        }
        Self(v)
    }

    /// The default quit command: key `q`, `Q` or `Esc`, or `:quit`.
    pub fn quit() -> (r: Self)
        ensures
            is_quit_commands(r.0@),
    {
        let mut cmd: Vec<CommandType> = Vec::new();
        cmd.push(CommandType::Key(KeyCode::Char('q')));
        cmd.push(CommandType::Key(KeyCode::Char('Q')));
        cmd.push(CommandType::Key(KeyCode::Esc));
        cmd.push(CommandType::Colon("quit".to_owned()));
        let mut v: Vec<Command> = Vec::new();
        v.push(Command { cmd, desc: "Quit".to_owned(), action: Action::Quit });
        Self(v)
    }

    /// The default navigation commands: arrows, `Home`/`g`, `End`/`G`,
    /// `PageUp`, `PageDown`.
    pub fn navigation() -> (r: Self)
        ensures
            is_navigation_commands(r.0@),
    {
        let mut v: Vec<Command> = Vec::new();
        let mut cmd: Vec<CommandType> = Vec::new();
        cmd.push(CommandType::Key(KeyCode::Up));
        v.push(Command { cmd, desc: "Cursor up".to_owned(), action: Action::Up });
        let mut cmd: Vec<CommandType> = Vec::new();
        cmd.push(CommandType::Key(KeyCode::Down));
        v.push(Command { cmd, desc: "Cursor down".to_owned(), action: Action::Down });
        let mut cmd: Vec<CommandType> = Vec::new();
        cmd.push(CommandType::Key(KeyCode::Left));
        v.push(Command { cmd, desc: "Cursor left".to_owned(), action: Action::Left });
        let mut cmd: Vec<CommandType> = Vec::new();
        cmd.push(CommandType::Key(KeyCode::Right));
        v.push(Command { cmd, desc: "Cursor right".to_owned(), action: Action::Right });
        let mut cmd: Vec<CommandType> = Vec::new();
        cmd.push(CommandType::Key(KeyCode::Home));
        cmd.push(CommandType::Key(KeyCode::Char('g')));
        v.push(Command { cmd, desc: "Go to start".to_owned(), action: Action::Home });
        let mut cmd: Vec<CommandType> = Vec::new();
        cmd.push(CommandType::Key(KeyCode::End));
        cmd.push(CommandType::Key(KeyCode::Char('G')));
        v.push(Command { cmd, desc: "Go to end".to_owned(), action: Action::End });
        let mut cmd: Vec<CommandType> = Vec::new();
        cmd.push(CommandType::Key(KeyCode::PageUp));
        v.push(Command { cmd, desc: "One page up".to_owned(), action: Action::PageUp });
        let mut cmd: Vec<CommandType> = Vec::new();
        cmd.push(CommandType::Key(KeyCode::PageDown));
        v.push(Command { cmd, desc: "One page down".to_owned(), action: Action::PageDown });
        Self(v)
    }

    /// The default help command: key `h`, or `:help`.
    pub fn help() -> (r: Self)
        ensures
            is_help_commands(r.0@),
    {
        let mut cmd: Vec<CommandType> = Vec::new();
        cmd.push(CommandType::Key(KeyCode::Char('h')));
        cmd.push(CommandType::Colon("help".to_owned()));
        let mut v: Vec<Command> = Vec::new();
        v.push(
            Command {
                cmd,
                desc: "Toggles help text visiblity".to_owned(),
                action: Action::ToggleHelp,
            },
        );
        Self(v)
    }

    /// The default line-number toggle: key `l`.
    pub fn toggle_line_numbers() -> (r: Self)
        ensures
            is_toggle_line_numbers_commands(r.0@),
    {
        let mut cmd: Vec<CommandType> = Vec::new();
        cmd.push(CommandType::Key(KeyCode::Char('l')));
        let mut v: Vec<Command> = Vec::new();
        v.push(
            Command {
                cmd,
                desc: "Show/Hide line numbers".to_owned(),
                action: Action::ToggleLineNumbers,
            },
        );
        Self(v)
    }
}

impl Default for CommandList {
    /// Quit, navigation, help and the line-number toggle, in that order.
    fn default() -> (r: Self)
        ensures
            r.0@.len() == 11,
            is_quit_commands(r.0@.subrange(0, 1)),
            is_navigation_commands(r.0@.subrange(1, 9)),
            is_help_commands(r.0@.subrange(9, 10)),
            is_toggle_line_numbers_commands(r.0@.subrange(10, 11)),
    {
        let q = Self::quit();
        let n = Self::navigation();
        let h = Self::help();
        let t = Self::toggle_line_numbers();
        let ghost qs = q.0@;
        let ghost ns = n.0@;
        let ghost hs = h.0@;
        let ghost ts = t.0@;
        let mut ls: Vec<CommandList> = Vec::new();
        ls.push(q);
        ls.push(n);
        ls.push(h);
        ls.push(t);
        let ghost s = ls@;
        let r = Self::combine(ls);
        proof {
            let s1 = s.subrange(1, 4);
            let s2 = s.subrange(2, 4);
            let s3 = s.subrange(3, 4);
            let s4 = s.subrange(4, 4);
            assert(s1.subrange(1, 3) =~= s2);
            assert(s2.subrange(1, 2) =~= s3);
            assert(s3.subrange(1, 1) =~= s4);
            assert(s4.len() == 0);
            assert(concat_commands(s) == s[0].0@ + concat_commands(s1));
            assert(concat_commands(s1) == s1[0].0@ + concat_commands(s2));
            assert(concat_commands(s2) == s2[0].0@ + concat_commands(s3));
            assert(concat_commands(s3) == s3[0].0@ + concat_commands(s4));
            assert(concat_commands(s4) == Seq::<Command>::empty());
            assert(r.0@ =~= qs + ns + hs + ts);
            assert(r.0@.subrange(0, 1) =~= qs);
            assert(r.0@.subrange(1, 9) =~= ns);
            assert(r.0@.subrange(9, 10) =~= hs);
            assert(r.0@.subrange(10, 11) =~= ts);
        }
        r
    }
}

/// Whether any trigger of `c` is the key `k`.
pub fn has_key_trigger(c: &Command, k: KeyCode) -> (r: bool)
    ensures
        r == key_triggered(*c, k),
{
    let mut i: usize = 0;
    while i < c.cmd.len()
        invariant
            i <= c.cmd@.len(),
            forall|j: int| 0 <= j < i ==> !is_key_trigger(c.cmd@[j], k),
        decreases c.cmd@.len() - i,
    {
        match &c.cmd[i] {
            CommandType::Key(k2) => {
                if *k2 == k {
                    assert(is_key_trigger(c.cmd@[i as int], k));
                    return true;
                }
            },
            CommandType::Colon(_) => {},
        }
        i = i + 1;
    }
    false
}

/// Whether any trigger of `c` is the colon name `line`.
pub fn has_colon_trigger(c: &Command, line: &str) -> (r: bool)
    ensures
        r == colon_triggered(*c, line@),
{
    let mut i: usize = 0;
    while i < c.cmd.len()
        invariant
            i <= c.cmd@.len(),
            forall|j: int| 0 <= j < i ==> !is_colon_trigger(c.cmd@[j], line@),
        decreases c.cmd@.len() - i,
    {
        match &c.cmd[i] {
            CommandType::Colon(s) => {
                if str_eq(s.as_str(), line) {
                    assert(is_colon_trigger(c.cmd@[i as int], line@));
                    return true;
                }
            },
            CommandType::Key(_) => {},
        }
        i = i + 1;
    }
    false
}

/// First-match lookup of a key press: the index of the first command
/// whose trigger set contains `Key(k)`, if any.
pub fn find_key_command(cs: &Vec<Command>, k: KeyCode) -> (r: Option<usize>)
    ensures
        match r {
            Some(i) => i < cs@.len() && first_key_index(cs@, k) == i,
            None => first_key_index(cs@, k) == cs@.len(),
        },
{
    let mut i: usize = 0;
    while i < cs.len()
        invariant
            i <= cs@.len(),
            forall|j: int| 0 <= j < i ==> !key_triggered(cs@[j], k),
        decreases cs@.len() - i,
    {
        if has_key_trigger(&cs[i], k) {
            proof {
                lemma_first_key_index_at(cs@, k, i as int);
            }
            return Some(i);
        }
        i = i + 1;
    }
    proof {
        lemma_first_key_index_at(cs@, k, cs@.len() as int);
    }
    None
}

/// The display name of a key, as the help text spells it.
pub open spec fn key_name(k: KeyCode) -> Seq<char> {
    match k {
        KeyCode::Backspace => "Backspace"@,
        KeyCode::Enter => "Enter"@,
        KeyCode::Left => "Left"@,
        KeyCode::Right => "Right"@,
        KeyCode::Up => "Up"@,
        KeyCode::Down => "Down"@,
        KeyCode::Home => "Home"@,
        KeyCode::End => "End"@,
        KeyCode::PageUp => "PageUp"@,
        KeyCode::PageDown => "PageDown"@,
        KeyCode::Tab => "Tab"@,
        KeyCode::BackTab => "BackTab"@,
        KeyCode::Delete => "Delete"@,
        KeyCode::Insert => "Insert"@,
        KeyCode::F(n) => seq!['F'] + dec_digits(n as nat),
        KeyCode::Char(c) => seq![c],
        KeyCode::Null => "Null"@,
        KeyCode::Esc => "Esc"@,
        KeyCode::CapsLock => "CapsLock"@,
        KeyCode::NumLock => "NumLock"@,
        KeyCode::ScrollLock => "ScrollLock"@,
        KeyCode::PrintScreen => "PrintScreen"@,
        KeyCode::Pause => "Pause"@,
        KeyCode::Menu => "Menu"@,
        KeyCode::KeypadBegin => "KeypadBegin"@,
        KeyCode::Media => "MediaKey"@,
        KeyCode::Modifier => "ModifierKey"@,
    }
}

/// The display name of one trigger: the key name, or `:name`.
pub open spec fn trigger_name(t: CommandType) -> Seq<char> {
    match t {
        CommandType::Key(k) => key_name(k),
        CommandType::Colon(s) => seq![':'] + s@,
    }
}

/// All trigger names of a command, joined by a comma and a space.
pub open spec fn joined_trigger_names(ts: Seq<CommandType>) -> Seq<char>
    decreases ts.len(),
{
    if ts.len() == 0 {
        Seq::empty()
    } else if ts.len() == 1 {
        trigger_name(ts[0])
    } else {
        joined_trigger_names(ts.drop_last()) + seq![',', ' '] + trigger_name(ts.last())
    }
}

/// The first help-text column for one command.
pub open spec fn command_name(c: Command) -> Seq<char> {
    joined_trigger_names(c.cmd@)
}

/// The widest command name in the list.
pub open spec fn max_name_len(cs: Seq<Command>) -> nat
    decreases cs.len(),
{
    if cs.len() == 0 {
        0
    } else {
        let rest = max_name_len(cs.drop_last());
        let last = command_name(cs.last()).len();
        if last > rest {
            last
        } else {
            rest
        }
    }
}

/// Where the description column starts: the widest name plus a gutter of
/// two spaces, clamped to what a `usize` can hold.
pub open spec fn help_padding(cs: Seq<Command>) -> int {
    if max_name_len(cs) + 2 <= usize::MAX {
        max_name_len(cs) + 2 as int
    } else {
        usize::MAX as int
    }
}

/// Description lines joined so that every continuation line starts at the
/// description column.
pub open spec fn joined_desc_lines(ls: Seq<Seq<char>>, padding: int) -> Seq<char>
    decreases ls.len(),
{
    if ls.len() == 0 {
        Seq::empty()
    } else if ls.len() == 1 {
        ls[0]
    } else {
        joined_desc_lines(ls.drop_last(), padding) + seq!['\n'] + spaces_seq(padding) + ls.last()
    }
}

/// One help row: the command name, spaces up to the description column,
/// then the description.
pub open spec fn help_row(c: Command, padding: int) -> Seq<char> {
    command_name(c) + spaces_seq(padding - command_name(c).len()) + joined_desc_lines(
        line_split(c.desc@),
        padding,
    )
}

/// All help rows, separated by blank lines.
pub open spec fn help_rows(cs: Seq<Command>, padding: int) -> Seq<char>
    decreases cs.len(),
{
    if cs.len() == 0 {
        Seq::empty()
    } else if cs.len() == 1 {
        help_row(cs[0], padding)
    } else {
        help_rows(cs.drop_last(), padding) + seq!['\n', '\n'] + help_row(cs.last(), padding)
    }
}

/// The whole help text for a command list.
pub open spec fn spec_help_text(cs: Seq<Command>) -> Seq<char> {
    if cs.len() == 0 {
        "No commands"@
    } else {
        help_rows(cs, help_padding(cs))
    }
}

fn key_name_chars(k: KeyCode) -> (r: Vec<char>)
    ensures
        r@ == key_name(k),
{
    match k {
        KeyCode::Backspace => chars_of("Backspace"),
        KeyCode::Enter => chars_of("Enter"),
        KeyCode::Left => chars_of("Left"),
        KeyCode::Right => chars_of("Right"),
        KeyCode::Up => chars_of("Up"),
        KeyCode::Down => chars_of("Down"),
        KeyCode::Home => chars_of("Home"),
        KeyCode::End => chars_of("End"),
        KeyCode::PageUp => chars_of("PageUp"),
        KeyCode::PageDown => chars_of("PageDown"),
        KeyCode::Tab => chars_of("Tab"),
        KeyCode::BackTab => chars_of("BackTab"),
        KeyCode::Delete => chars_of("Delete"),
        KeyCode::Insert => chars_of("Insert"),
        KeyCode::F(n) => {
            let mut v: Vec<char> = Vec::new();
            v.push('F');
            let mut d = usize_to_chars(n as usize);
            v.append(&mut d);
            assert(v@ =~= seq!['F'] + dec_digits(n as nat));
            v
        },
        KeyCode::Char(c) => {
            let mut v: Vec<char> = Vec::new();
            v.push(c);
            assert(v@ =~= seq![c]);
            v
        },
        KeyCode::Null => chars_of("Null"),
        KeyCode::Esc => chars_of("Esc"),
        KeyCode::CapsLock => chars_of("CapsLock"),
        KeyCode::NumLock => chars_of("NumLock"),
        KeyCode::ScrollLock => chars_of("ScrollLock"),
        KeyCode::PrintScreen => chars_of("PrintScreen"),
        KeyCode::Pause => chars_of("Pause"),
        KeyCode::Menu => chars_of("Menu"),
        KeyCode::KeypadBegin => chars_of("KeypadBegin"),
        KeyCode::Media => chars_of("MediaKey"),
        KeyCode::Modifier => chars_of("ModifierKey"),
    }
}

fn trigger_name_chars(t: &CommandType) -> (r: Vec<char>)
    ensures
        r@ == trigger_name(*t),
{
    match t {
        CommandType::Key(k) => key_name_chars(*k),
        CommandType::Colon(s) => {
            let mut v: Vec<char> = Vec::new();
            v.push(':');
            let mut sc = chars_of(s.as_str());
            v.append(&mut sc);
            assert(v@ =~= seq![':'] + s@);
            v
        },
    }
}

fn command_name_chars(c: &Command) -> (r: Vec<char>)
    ensures
        r@ == command_name(*c),
{
    let mut out: Vec<char> = Vec::new();
    let mut i: usize = 0;
    while i < c.cmd.len()
        invariant
            i <= c.cmd@.len(),
            out@ == joined_trigger_names(c.cmd@.subrange(0, i as int)),
        decreases c.cmd@.len() - i,
    {
        if i > 0 {
            out.push(',');
            out.push(' ');
        }
        let mut t = trigger_name_chars(&c.cmd[i]);
        out.append(&mut t);
        i = i + 1;
        proof {
            let ts = c.cmd@.subrange(0, i as int);
            if i == 1 {
                assert(out@ =~= trigger_name(ts[0]));
            } else {
                assert(ts.drop_last() =~= c.cmd@.subrange(0, i - 1));
                assert(out@ =~= joined_trigger_names(ts.drop_last()) + seq![',', ' ']
                    + trigger_name(ts.last()));
            }
        }
    }
    proof {
        assert(c.cmd@.subrange(0, c.cmd@.len() as int) =~= c.cmd@);
    }
    out
}

fn desc_block_chars(desc: &str, padding: usize) -> (r: Vec<char>)
    ensures
        r@ == joined_desc_lines(line_split(desc@), padding as int),
{
    let dc = chars_of(desc);
    let dl = split_lines(&dc);
    let ghost lines = line_split(desc@);
    let mut out: Vec<char> = Vec::new();
    let mut j: usize = 0;
    while j < dl.len()
        invariant
            j <= dl@.len(),
            views_of(dl@) == lines,
            out@ == joined_desc_lines(lines.subrange(0, j as int), padding as int),
        decreases dl@.len() - j,
    {
        if j > 0 {
            out.push('\n');
            let mut gap = spaces(padding);
            out.append(&mut gap);
        }
        push_all(&mut out, &dl[j]);
        j = j + 1;
        proof {
            let pre = lines.subrange(0, j as int);
            assert(dl@[j - 1]@ == lines[j - 1]);
            if j == 1 {
                assert(out@ =~= pre[0]);
            } else {
                assert(pre.drop_last() =~= lines.subrange(0, j - 1));
                assert(out@ =~= joined_desc_lines(pre.drop_last(), padding as int) + seq!['\n']
                    + spaces_seq(padding as int) + pre.last());
            }
        }
    }
    proof {
        assert(lines.subrange(0, lines.len() as int) =~= lines);
    }
    out
}

fn help_row_chars(c: &Command, padding: usize) -> (r: Vec<char>)
    ensures
        r@ == help_row(*c, padding as int),
{
    let mut out = command_name_chars(c);
    let gap_len = if out.len() < padding {
        padding - out.len()
    } else {
        0
    };
    let mut gap = spaces(gap_len);
    out.append(&mut gap);
    let mut block = desc_block_chars(c.desc.as_str(), padding);
    out.append(&mut block);
    assert(out@ =~= help_row(*c, padding as int));
    out
}

/// The help text for a list of commands: one row per command in registry
/// order, trigger names left, descriptions right, all descriptions
/// starting at the same column; or a placeholder for an empty list.
pub fn help_text_of(cs: &Vec<Command>) -> (r: String)
    ensures
        r@ == spec_help_text(cs@),
{
    if cs.len() == 0 {
        return "No commands".to_owned();
    }
    let mut maxlen: usize = 0;
    let mut i: usize = 0;
    while i < cs.len()
        invariant
            i <= cs@.len(),
            maxlen == max_name_len(cs@.subrange(0, i as int)),
        decreases cs@.len() - i,
    {
        let name = command_name_chars(&cs[i]);
        if name.len() > maxlen {
            maxlen = name.len();
        }
        i = i + 1;
        proof {
            assert(cs@.subrange(0, i as int).drop_last() =~= cs@.subrange(0, i - 1));
            assert(cs@.subrange(0, i as int).last() == cs@[i - 1]);
        }
    }
    proof {
        assert(cs@.subrange(0, cs@.len() as int) =~= cs@);
    }
    let padding = maxlen.saturating_add(2);
    assert(padding as int == help_padding(cs@));
    let mut out: Vec<char> = Vec::new();
    let mut i: usize = 0;
    while i < cs.len()
        invariant
            i <= cs@.len(),
            padding as int == help_padding(cs@),
            out@ == help_rows(cs@.subrange(0, i as int), padding as int),
        decreases cs@.len() - i,
    {
        if i > 0 {
            out.push('\n');
            out.push('\n');
        }
        let mut row = help_row_chars(&cs[i], padding);
        out.append(&mut row);
        i = i + 1;
        proof {
            let pre = cs@.subrange(0, i as int);
            if i == 1 {
                assert(out@ =~= help_row(pre[0], padding as int));
            } else {
                assert(pre.drop_last() =~= cs@.subrange(0, i - 1));
                assert(out@ =~= help_rows(pre.drop_last(), padding as int) + seq!['\n', '\n']
                    + help_row(pre.last(), padding as int));
            }
        }
    }
    proof {
        assert(cs@.subrange(0, cs@.len() as int) =~= cs@);
    }
    string_from_chars(&out)
}

/// First-match lookup of a colon name: the index of the first command
/// whose trigger set contains `Colon(line)`, if any.
pub fn find_colon_command(cs: &Vec<Command>, line: &str) -> (r: Option<usize>)
    ensures
        match r {
            Some(i) => i < cs@.len() && first_colon_index(cs@, line@) == i,
            None => first_colon_index(cs@, line@) == cs@.len(),
        },
{
    let mut i: usize = 0;
    while i < cs.len()
        invariant
            i <= cs@.len(),
            forall|j: int| 0 <= j < i ==> !colon_triggered(cs@[j], line@),
        decreases cs@.len() - i,
    {
        if has_colon_trigger(&cs[i], line) {
            proof {
                lemma_first_colon_index_at(cs@, line@, i as int);
            }
            return Some(i);
        }
        i = i + 1;
    }
    proof {
        lemma_first_colon_index_at(cs@, line@, cs@.len() as int);
    }
    None
}

} // verus!
