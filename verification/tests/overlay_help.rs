use pager_rs::Action;
use pager_rs::Command;
use pager_rs::CommandList;
use pager_rs::CommandType;
use pager_rs::KeyCode;
use pager_rs::State;
use pager_rs::StatusBar;

fn pager(content: &str, commands: CommandList) -> State {
    State::new(content.to_string(), StatusBar::new("t".to_string()), commands, (80, 24))
}

#[test]
fn overlay_round_trip_restores_content_and_position() {
    let mut s = pager("original text\nsecond line", CommandList::default());
    s.pos = (3, 1);
    assert!(s.open_overlay("help text".to_string()));
    assert_eq!(s.content, "help text");
    assert_eq!(s.pos, (0, 0));
    assert!(s.close_overlay());
    assert_eq!(s.content, "original text\nsecond line");
    assert_eq!(s.pos, (3, 1));
    assert!(s.overlay.is_none());
}

#[test]
fn opening_twice_keeps_the_first_frame() {
    let mut s = pager("original", CommandList::default());
    assert!(s.open_overlay("first".to_string()));
    assert!(!s.open_overlay("second".to_string()));
    assert_eq!(s.content, "first");
    assert!(s.close_overlay());
    assert_eq!(s.content, "original");
}

#[test]
fn closing_with_nothing_open_is_a_noop() {
    let mut s = pager("original", CommandList::default());
    assert!(!s.close_overlay());
    assert_eq!(s.content, "original");
}

#[test]
fn help_text_columns_align_on_the_widest_name() {
    // Names `q` and `PageDown`: the widest is eight columns, so every
    // description starts at column ten.
    let commands = CommandList(vec![
        Command {
            cmd: vec![CommandType::Key(KeyCode::Char('q'))],
            desc: "Quit".to_string(),
            action: Action::Quit,
        },
        Command {
            cmd: vec![CommandType::Key(KeyCode::PageDown)],
            desc: "One page down".to_string(),
            action: Action::PageDown,
        },
    ]);
    let s = pager("x", commands);
    let help = s.get_help_text();
    assert_eq!(help, "q         Quit\n\nPageDown  One page down");
}

#[test]
fn help_text_joins_triggers_and_spells_key_names() {
    let commands = CommandList(vec![Command {
        cmd: vec![
            CommandType::Key(KeyCode::Char('q')),
            CommandType::Colon("quit".to_string()),
        ],
        desc: "Quit".to_string(),
        action: Action::Quit,
    }]);
    let s = pager("x", commands);
    assert_eq!(s.get_help_text(), "q, :quit  Quit");
}

#[test]
fn help_text_indents_description_continuation_lines() {
    let commands = CommandList(vec![Command {
        cmd: vec![CommandType::Key(KeyCode::F(5))],
        desc: "first\nsecond".to_string(),
        action: Action::Up,
    }]);
    let s = pager("x", commands);
    assert_eq!(s.get_help_text(), "F5  first\n    second");
}

#[test]
fn help_text_of_empty_registry_is_a_placeholder() {
    let s = pager("x", CommandList(vec![]));
    assert_eq!(s.get_help_text(), "No commands");
}

#[test]
fn toggle_help_opens_and_closes_the_overlay() {
    let mut s = pager("body", CommandList::default());
    s.pos = (2, 0);
    let help = s.get_help_text();
    assert!(s.toggle_help());
    assert_eq!(s.content, help);
    assert_eq!(s.pos, (0, 0));
    assert!(s.overlay.is_some());
    assert!(s.toggle_help());
    assert_eq!(s.content, "body");
    assert_eq!(s.pos, (2, 0));
    assert!(s.overlay.is_none());
}

#[test]
fn help_key_shows_the_help_overlay() {
    let mut s = pager("body", CommandList::default());
    assert!(s.match_key_event(KeyCode::Char('h')));
    assert!(s.overlay.is_some());
    assert!(s.content.contains("One page down"));
    assert!(s.match_key_event(KeyCode::Char('h')));
    assert_eq!(s.content, "body");
}
