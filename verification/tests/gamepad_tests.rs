use tower_defense::gamepad::{gamepad_connections, gamepad_reaction, GamepadCommand, GamepadConnectionEvent, MyGamepad};

fn held_after(start: Option<MyGamepad>, commands: &[GamepadCommand]) -> Option<MyGamepad> {
    let mut held = start;
    for c in commands {
        held = match c {
            GamepadCommand::Insert(g) => Some(*g),
            GamepadCommand::Remove => None,
        };
    }
    held
}

#[test]
fn new_gamepad_keeps_its_id() {
    assert_eq!(MyGamepad::new(4).0, 4);
}

#[test]
fn first_connection_is_taken() {
    let events = vec![GamepadConnectionEvent::Connected(2)];
    let cmds = gamepad_connections(None, &events);
    assert_eq!(cmds, vec![GamepadCommand::Insert(MyGamepad(2))]);
    assert_eq!(held_after(None, &cmds), Some(MyGamepad(2)));
}

#[test]
fn connection_ignored_while_holding_one() {
    let events = vec![GamepadConnectionEvent::Connected(5), GamepadConnectionEvent::Other];
    let cmds = gamepad_connections(Some(MyGamepad(1)), &events);
    assert!(cmds.is_empty());
    assert_eq!(held_after(Some(MyGamepad(1)), &cmds), Some(MyGamepad(1)));
}

#[test]
fn disconnecting_held_gamepad_drops_it() {
    let cmds = gamepad_connections(Some(MyGamepad(1)), &vec![GamepadConnectionEvent::Disconnected(1)]);
    assert_eq!(cmds, vec![GamepadCommand::Remove]);
    assert_eq!(held_after(Some(MyGamepad(1)), &cmds), None);
}

#[test]
fn disconnecting_other_gamepad_changes_nothing() {
    assert_eq!(gamepad_reaction(Some(MyGamepad(1)), GamepadConnectionEvent::Disconnected(2)), None);
    assert_eq!(gamepad_reaction(None, GamepadConnectionEvent::Disconnected(2)), None);
    assert_eq!(gamepad_reaction(None, GamepadConnectionEvent::Other), None);
}

#[test]
fn free_player_ends_with_last_connected() {
    let events = vec![
        GamepadConnectionEvent::Connected(3),
        GamepadConnectionEvent::Disconnected(3),
        GamepadConnectionEvent::Connected(7),
        GamepadConnectionEvent::Other,
    ];
    let cmds = gamepad_connections(None, &events);
    // Decisions are taken against the gamepad held when the frame began.
    assert_eq!(cmds, vec![GamepadCommand::Insert(MyGamepad(3)), GamepadCommand::Insert(MyGamepad(7))]);
    assert_eq!(held_after(None, &cmds), Some(MyGamepad(7)));
}

#[test]
fn held_gamepad_kept_until_disconnected() {
    let events = vec![
        GamepadConnectionEvent::Connected(9),
        GamepadConnectionEvent::Disconnected(4),
        GamepadConnectionEvent::Disconnected(1),
        GamepadConnectionEvent::Disconnected(1),
    ];
    let cmds = gamepad_connections(Some(MyGamepad(1)), &events);
    assert_eq!(cmds, vec![GamepadCommand::Remove, GamepadCommand::Remove]);
    assert_eq!(held_after(Some(MyGamepad(1)), &cmds), None);
}
