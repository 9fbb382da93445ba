//! The command table and how keys reach it.

use dockyard::action::{
    command_at, commands, resolve, Command, Key, KeyCode, KeyEvent, KeyEventKind, Scope,
    COMMAND_COUNT,
};

#[test]
fn every_command_has_at_least_one_key() {
    for spec in commands() {
        assert!(!spec.keys.is_empty(), "{} has no key", spec.name);
    }
}

#[test]
fn no_key_is_bound_twice() {
    let mut seen: Vec<(Key, &str)> = Vec::new();
    for spec in commands() {
        for key in &spec.keys {
            if let Some((_, other)) = seen.iter().find(|(k, _)| k == key) {
                panic!("{} is bound to both {} and {}", key.label(), other, spec.name);
            }
            seen.push((*key, spec.name));
        }
    }
}

#[test]
fn ctrl_is_discriminated() {
    let plain = KeyEvent::new(KeyCode::Char('r'), false);
    let with_ctrl = KeyEvent::new(KeyCode::Char('r'), true);
    assert_eq!(resolve(&plain), Some(Command::Restart));
    assert_eq!(resolve(&with_ctrl), Some(Command::Refresh));
}

#[test]
fn shift_is_carried_by_the_character() {
    let lower = KeyEvent::new(KeyCode::Char('s'), false);
    let upper = KeyEvent::new(KeyCode::Char('S'), false);
    assert_eq!(resolve(&lower), Some(Command::Exec));
    assert_eq!(resolve(&upper), Some(Command::Stop));
}

#[test]
fn every_binding_resolves_to_its_command() {
    for spec in commands() {
        for key in &spec.keys {
            let ev = KeyEvent { code: key.code, ctrl: key.ctrl, kind: KeyEventKind::Press };
            assert_eq!(resolve(&ev), Some(spec.command), "{}", key.label());
            assert!(key.matches(&ev));
        }
    }
}

#[test]
fn an_unbound_key_resolves_to_nothing() {
    assert_eq!(resolve(&KeyEvent::new(KeyCode::F(5), false)), None);
    assert_eq!(resolve(&KeyEvent::new(KeyCode::Char('q'), true)), None);
}

#[test]
fn the_table_lists_each_command_once() {
    let all = commands();
    assert_eq!(all.len(), COMMAND_COUNT);
    for (i, spec) in all.iter().enumerate() {
        assert_eq!(command_at(i), spec.command);
        assert_eq!(all.iter().filter(|s| s.command == spec.command).count(), 1);
        assert!(!spec.name.is_empty() && !spec.help.is_empty());
    }
    assert_eq!(command_at(0), Command::NextTab);
    assert_eq!(Command::Quit.scope(), Scope::Global);
}

#[test]
fn keys_are_written_the_way_the_footer_shows_them() {
    assert_eq!(Key::c('q').label(), "q");
    assert_eq!(Key::c(' ').label(), "space");
    assert_eq!(Key::ctrl('r').label(), "^r");
    assert_eq!(Key::code(KeyCode::Enter).label(), "⏎");
    assert_eq!(Key::code(KeyCode::BackTab).label(), "⇧tab");
    assert_eq!(Key::code(KeyCode::Up).label(), "↑");
    assert_eq!(Key::code(KeyCode::PageDown).label(), "pgdn");
    assert_eq!(Key::code(KeyCode::F(5)).label(), "f(5)");
}

#[test]
fn the_documented_keys_do_what_they_say() {
    let plain = [
        ('1', Command::TabContainers),
        ('4', Command::TabNetworks),
        ('j', Command::Down),
        ('k', Command::Up),
        ('g', Command::Top),
        ('G', Command::Bottom),
        ('l', Command::ToggleLogs),
        ('f', Command::ToggleFollow),
        ('w', Command::ToggleWrap),
        ('t', Command::ToggleTimestamps),
        ('u', Command::Start),
        ('S', Command::Stop),
        ('r', Command::Restart),
        ('p', Command::Pause),
        ('K', Command::Kill),
        ('s', Command::Exec),
        ('d', Command::Remove),
        ('P', Command::Prune),
        ('y', Command::CopyId),
        ('/', Command::Filter),
        (':', Command::Palette),
        ('?', Command::Help),
        ('z', Command::ToggleGroup),
        (' ', Command::ToggleCollapse),
        ('Z', Command::ToggleCollapseAll),
        ('o', Command::SortNext),
        ('O', Command::SortReverse),
        ('a', Command::ToggleAll),
        ('q', Command::Quit),
    ];
    for (c, command) in plain {
        assert_eq!(resolve(&KeyEvent::new(KeyCode::Char(c), false)), Some(command), "{c}");
    }
    let held = [
        ('u', Command::PageUp),
        ('d', Command::PageDown),
        ('w', Command::FocusNext),
        ('r', Command::Refresh),
    ];
    for (c, command) in held {
        assert_eq!(resolve(&KeyEvent::new(KeyCode::Char(c), true)), Some(command), "^{c}");
    }
    assert_eq!(resolve(&KeyEvent::new(KeyCode::Tab, false)), Some(Command::NextTab));
    assert_eq!(resolve(&KeyEvent::new(KeyCode::Enter, false)), Some(Command::ToggleDetail));
}
