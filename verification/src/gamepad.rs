//! Which gamepad the player uses.
//!
//! The game keeps at most one gamepad, [`MyGamepad`]. Each frame it looks at
//! the connection events and issues commands: take a newly connected
//! gamepad when it has none, and drop its gamepad when that one is
//! disconnected. The commands are carried out after the frame, so every
//! decision of a frame is taken against the gamepad held at its start.

use vstd::prelude::*;

verus! {

/// The gamepad the player uses, by its id.
#[derive(Clone, Copy, Debug, PartialEq, Eq, Structural)]
pub struct MyGamepad(pub usize);

impl MyGamepad {
    /// The gamepad with the given id.
    pub fn new(id: usize) -> (gamepad: MyGamepad)
        ensures
            gamepad.0 == id,
    {
        MyGamepad(id)
    }
}

/// A gamepad event, as far as connections go.
#[derive(Clone, Copy, Debug, PartialEq, Eq, Structural)]
pub enum GamepadConnectionEvent {
    /// The gamepad with this id was connected.
    Connected(usize),
    /// The gamepad with this id was disconnected.
    Disconnected(usize),
    /// Anything else: buttons, axes.
    Other,
}

/// What to do with the held gamepad once the frame is over.
#[derive(Clone, Copy, Debug, PartialEq, Eq, Structural)]
pub enum GamepadCommand {
    /// Hold this gamepad from now on.
    Insert(MyGamepad),
    /// Hold no gamepad.
    Remove,
}

/// The command, if any, that one event calls for while `current` is held.
pub open spec fn reaction(current: Option<MyGamepad>, event: GamepadConnectionEvent) -> Option<
    GamepadCommand,
> {
    match event {
        GamepadConnectionEvent::Connected(id) => if current.is_none() {
            Some(GamepadCommand::Insert(MyGamepad(id)))
        } else {
            None
        },
        GamepadConnectionEvent::Disconnected(id) => if current == Some(MyGamepad(id)) {
            Some(GamepadCommand::Remove)
        } else {
            None
        },
        GamepadConnectionEvent::Other => None,
    }
}

/// The commands a frame's events call for, in event order, all decided
/// against the gamepad `current` held at the start of the frame.
pub open spec fn commands_for(current: Option<MyGamepad>, events: Seq<GamepadConnectionEvent>) -> Seq<
    GamepadCommand,
>
    decreases events.len(),
{
    if events.len() == 0 {
        seq![]
    } else {
        let before: Seq<GamepadCommand> = commands_for(current, events.drop_last());
        match reaction(current, events.last()) {
            Some(c) => before.push(c),
            None => before,
        }
    }
}

/// The gamepad held after one command.
pub open spec fn apply_command(held: Option<MyGamepad>, command: GamepadCommand) -> Option<MyGamepad> {
    match command {
        GamepadCommand::Insert(g) => Some(g),
        GamepadCommand::Remove => None,
    }
}

/// The gamepad held after carrying out `commands` in order.
pub open spec fn held_after(held: Option<MyGamepad>, commands: Seq<GamepadCommand>) -> Option<MyGamepad>
    decreases commands.len(),
{
    if commands.len() == 0 {
        held
    } else {
        apply_command(held_after(held, commands.drop_last()), commands.last())
    }
}

/// The gamepad of the last connection event, if there is one.
pub open spec fn last_connected(events: Seq<GamepadConnectionEvent>) -> Option<MyGamepad>
    decreases events.len(),
{
    if events.len() == 0 {
        None
    } else {
        match events.last() {
            GamepadConnectionEvent::Connected(id) => Some(MyGamepad(id)),
            _ => last_connected(events.drop_last()),
        }
    }
}

/// The command one event calls for while `current` is held.
pub fn gamepad_reaction(current: Option<MyGamepad>, event: GamepadConnectionEvent) -> (command:
    Option<GamepadCommand>)
    ensures
        command == reaction(current, event),
        event matches GamepadConnectionEvent::Connected(id) ==> command == (if current is None {
            Some(GamepadCommand::Insert(MyGamepad(id)))
        } else {
            None
        }),
        event matches GamepadConnectionEvent::Disconnected(id) ==> command == (if current == Some(
            MyGamepad(id),
        ) {
            Some(GamepadCommand::Remove)
        } else {
            None
        }),
        event is Other ==> command is None,
{
    match event {
        GamepadConnectionEvent::Connected(id) => {
            if current.is_none() {
                Some(GamepadCommand::Insert(MyGamepad(id)))
            } else {
                None
            }
        },
        GamepadConnectionEvent::Disconnected(id) => {
            match current {
                Some(held) => {
                    if held.0 == id {
                        Some(GamepadCommand::Remove)
                    } else {
                        None
                    }
                },
                None => None,
            }
        },
        GamepadConnectionEvent::Other => None,
    }
}

/// The commands for one frame's events, in event order.
pub fn gamepad_connections(current: Option<MyGamepad>, events: &Vec<GamepadConnectionEvent>) -> (commands:
    Vec<GamepadCommand>)
    ensures
        commands@ == commands_for(current, events@),
{
    let mut commands: Vec<GamepadCommand> = Vec::new();
    let mut i: usize = 0;
    while i < events.len()
        invariant
            i <= events.len(),
            commands@ == commands_for(current, events@.take(i as int)),
        decreases events.len() - i,
    {
        assert(events@.take(i as int + 1).drop_last() =~= events@.take(i as int));
        match gamepad_reaction(current, events[i]) {
            Some(c) => commands.push(c),
            None => {},
        }
        i = i + 1;
    }
    assert(events@.take(events.len() as int) =~= events@);
    commands
}

/// With no gamepad at the start of a frame, the player holds the gamepad of
/// the frame's last connection event afterwards, or still none if there was
/// no connection.
pub proof fn lemma_free_player_takes_last_connected(events: Seq<GamepadConnectionEvent>)
    ensures
        held_after(None, commands_for(None, events)) == last_connected(events),
    decreases events.len(),
{
    if events.len() > 0 {
        let before: Seq<GamepadCommand> = commands_for(None, events.drop_last());
        lemma_free_player_takes_last_connected(events.drop_last());
        match reaction(None, events.last()) {
            Some(c) => {
                assert(before.push(c).drop_last() =~= before);
            },
            None => {},
        }
    }
}

/// With a gamepad at the start of a frame, the player keeps it unless the
/// frame disconnects it, and holds none afterwards if it does; connections
/// of other gamepads change nothing.
pub proof fn lemma_held_gamepad_kept_until_disconnected(
    held: MyGamepad,
    events: Seq<GamepadConnectionEvent>,
)
    ensures
        held_after(Some(held), commands_for(Some(held), events)) == (if events.contains(
            GamepadConnectionEvent::Disconnected(held.0),
        ) {
            None::<MyGamepad>
        } else {
            Some(held)
        }),
    decreases events.len(),
{
    if events.len() > 0 {
        let gone: GamepadConnectionEvent = GamepadConnectionEvent::Disconnected(held.0);
        let rest: Seq<GamepadConnectionEvent> = events.drop_last();
        let before: Seq<GamepadCommand> = commands_for(Some(held), rest);
        lemma_held_gamepad_kept_until_disconnected(held, rest);
        if events.last() == gone {
            assert(before.push(GamepadCommand::Remove).drop_last() =~= before);
            assert(events[events.len() - 1] == gone);
        } else {
            assert(reaction(Some(held), events.last()).is_none());
            if rest.contains(gone) {
                let k: int = choose|k: int| 0 <= k < rest.len() && rest[k] == gone;
                assert(events[k] == gone);
            }
            if events.contains(gone) {
                let k: int = choose|k: int| 0 <= k < events.len() && events[k] == gone;
                assert(k < events.len() - 1);
                assert(rest[k] == gone);
            }
        }
    }
}

} // verus!
