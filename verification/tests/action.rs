use types_editor::action::{map_key_to_action, Action, Key};

#[test]
fn text_capture_takes_every_character() {
    assert_eq!(map_key_to_action(Key::Char('q'), true, false), Action::Input('q'));
    assert_eq!(map_key_to_action(Key::Char('a'), true, true), Action::Input('a'));
    assert_eq!(map_key_to_action(Key::Enter, true, false), Action::Activate);
    assert_eq!(map_key_to_action(Key::Esc, true, false), Action::Cancel);
    assert_eq!(map_key_to_action(Key::Backspace, true, false), Action::Backspace);
    assert_eq!(map_key_to_action(Key::Up, true, false), Action::Noop);
    assert_eq!(map_key_to_action(Key::Tab, true, false), Action::Noop);
}

#[test]
fn connection_form_moves_and_types() {
    assert_eq!(map_key_to_action(Key::Char('q'), false, true), Action::Input('q'));
    assert_eq!(map_key_to_action(Key::Tab, false, true), Action::Tab);
    assert_eq!(map_key_to_action(Key::Up, false, true), Action::Up);
    assert_eq!(map_key_to_action(Key::Down, false, true), Action::Down);
    assert_eq!(map_key_to_action(Key::PageUp, false, true), Action::PgUp);
    assert_eq!(map_key_to_action(Key::PageDown, false, true), Action::PgDown);
    assert_eq!(map_key_to_action(Key::Enter, false, true), Action::Activate);
    assert_eq!(map_key_to_action(Key::Esc, false, true), Action::Cancel);
    assert_eq!(map_key_to_action(Key::Backspace, false, true), Action::Backspace);
    assert_eq!(map_key_to_action(Key::Left, false, true), Action::Noop);
    assert_eq!(map_key_to_action(Key::Other, false, true), Action::Noop);
}

#[test]
fn browsing_binds_letters_to_commands() {
    let bound = [
        ('q', Action::Quit),
        ('k', Action::Up),
        ('j', Action::Down),
        ('h', Action::Left),
        ('l', Action::Right),
        ('s', Action::Save),
        ('a', Action::Add),
        ('c', Action::Copy),
        ('d', Action::Delete),
        ('t', Action::AddAttribute),
        ('r', Action::ToggleRemote),
        ('?', Action::Help),
    ];
    for (c, action) in bound {
        assert_eq!(map_key_to_action(Key::Char(c), false, false), action);
    }
    assert_eq!(map_key_to_action(Key::Char('z'), false, false), Action::Input('z'));
}

#[test]
fn browsing_binds_the_other_keys() {
    assert_eq!(map_key_to_action(Key::Up, false, false), Action::Up);
    assert_eq!(map_key_to_action(Key::Down, false, false), Action::Down);
    assert_eq!(map_key_to_action(Key::Left, false, false), Action::Left);
    assert_eq!(map_key_to_action(Key::Right, false, false), Action::Right);
    assert_eq!(map_key_to_action(Key::Enter, false, false), Action::Activate);
    assert_eq!(map_key_to_action(Key::Tab, false, false), Action::Tab);
    assert_eq!(map_key_to_action(Key::Esc, false, false), Action::Cancel);
    assert_eq!(map_key_to_action(Key::Backspace, false, false), Action::Backspace);
    assert_eq!(map_key_to_action(Key::PageUp, false, false), Action::PgUp);
    assert_eq!(map_key_to_action(Key::PageDown, false, false), Action::PgDown);
    assert_eq!(map_key_to_action(Key::Other, false, false), Action::Noop);
}
