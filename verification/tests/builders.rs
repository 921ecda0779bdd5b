use pager_rs::Action;
use pager_rs::Attribute;
use pager_rs::Color;
use pager_rs::Command;
use pager_rs::CommandList;
use pager_rs::CommandType;
use pager_rs::KeyCode;
use pager_rs::State;
use pager_rs::StatusBar;
use pager_rs::StatusBarLayout;
use pager_rs::StatusBarLayoutItem;
use pager_rs::Theme;

#[test]
fn quit_list_binds_keys_and_colon_name() {
    let q = CommandList::quit();
    assert_eq!(q.0.len(), 1);
    assert_eq!(q.0[0].cmd.len(), 4);
    assert_eq!(q.0[0].cmd[0], CommandType::Key(KeyCode::Char('q')));
    assert_eq!(q.0[0].cmd[1], CommandType::Key(KeyCode::Char('Q')));
    assert_eq!(q.0[0].cmd[2], CommandType::Key(KeyCode::Esc));
    assert_eq!(q.0[0].cmd[3], CommandType::Colon("quit".to_string()));
    assert_eq!(q.0[0].action, Action::Quit);
}

#[test]
fn triggers_compare_by_kind_key_and_name() {
    assert_eq!(CommandType::Key(KeyCode::Esc), CommandType::Key(KeyCode::Esc));
    assert_ne!(CommandType::Key(KeyCode::Esc), CommandType::Key(KeyCode::Enter));
    assert_eq!(
        CommandType::Colon("help".to_string()),
        CommandType::Colon("help".to_string())
    );
    assert_ne!(
        CommandType::Colon("help".to_string()),
        CommandType::Key(KeyCode::Char('h'))
    );
}

#[test]
fn navigation_list_covers_the_eight_motions() {
    let n = CommandList::navigation();
    assert_eq!(n.0.len(), 8);
    let actions: Vec<Action> = n.0.iter().map(|c| c.action).collect();
    assert_eq!(
        actions,
        vec![
            Action::Up,
            Action::Down,
            Action::Left,
            Action::Right,
            Action::Home,
            Action::End,
            Action::PageUp,
            Action::PageDown,
        ]
    );
}

#[test]
fn command_list_converts_into_its_commands() {
    let cs: Vec<Command> = CommandList::quit().into();
    assert_eq!(cs.len(), 1);
    assert_eq!(cs[0].desc, "Quit");
}

#[test]
fn status_bar_new_uses_the_default_layout() {
    let bar = StatusBar::new("mine".to_string());
    assert_eq!(bar.title, "mine");
    assert_eq!(bar.line_layouts.len(), 1);
    assert_eq!(bar.line_layouts[0].left.len(), 1);
    assert_eq!(bar.line_layouts[0].right.len(), 6);
    assert_eq!(bar.theme.foreground, Some(Color::Black));
    assert_eq!(bar.theme.background, Some(Color::White));
    assert_eq!(bar.theme.attributes, vec![Attribute::Bold]);
}

#[test]
fn status_bar_with_theme_keeps_the_theme() {
    let theme = Theme {
        foreground: Some(Color::White),
        background: Some(Color::Red),
        attributes: vec![Attribute::Italic],
    };
    let bar = StatusBar::with_theme("colored".to_string(), theme);
    assert_eq!(bar.title, "colored");
    assert_eq!(bar.theme.background, Some(Color::Red));
    assert_eq!(bar.theme.attributes, vec![Attribute::Italic]);
}

#[test]
fn status_bar_default_has_a_placeholder_title() {
    let bar = StatusBar::default();
    assert_eq!(bar.title, "***");
    assert_eq!(bar.line_layouts.len(), 1);
}

#[test]
fn custom_layout_rows_render_their_fragments() {
    let mut s = State::new(
        "a\nb\nc\nd".to_string(),
        StatusBar::new("t".to_string()),
        CommandList::default(),
        (12, 24),
    );
    s.status_bar.line_layouts = vec![StatusBarLayout {
        left: vec![StatusBarLayoutItem::Text("line ".to_string()), StatusBarLayoutItem::CurrentLine],
        right: vec![StatusBarLayoutItem::LineCount],
    }];
    s.pos = (0, 1);
    assert_eq!(s.status_bar.get_visible(&s), "line 2     4");
}

#[test]
fn function_and_escape_keys_are_spelled_out_in_help() {
    let commands = CommandList(vec![Command {
        cmd: vec![CommandType::Key(KeyCode::F(12)), CommandType::Key(KeyCode::Esc)],
        desc: "Leave".to_string(),
        action: Action::Quit,
    }]);
    let s = State::new(
        "x".to_string(),
        StatusBar::new("t".to_string()),
        commands,
        (80, 24),
    );
    assert_eq!(s.get_help_text(), "F12, Esc  Leave");
}
