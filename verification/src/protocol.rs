use vstd::prelude::*;

verus! {

/// A command received from the network gateway.
#[derive(Debug)]
pub enum Command {
    Key { key_code: u16, pressed: bool },
    MouseRelative { dx: i32, dy: i32 },
    MouseAbsolute { x: i32, y: i32, max_x: i32, max_y: i32 },
    MouseClick { button: u16, pressed: bool },
    MouseScroll { steps: i32 },
    StreamConfig { backpressure: bool, codec: String, target_fps: u32 },
}

/// A virtual input event to inject into the kernel input device.
#[derive(Debug, Clone, Copy, PartialEq, Eq)]
pub enum InputEvent {
    Key { key_code: u16, pressed: bool },
    MouseRelative { dx: i32, dy: i32 },
    MouseAbsolute { x: i32, y: i32, max_x: i32, max_y: i32 },
    MouseClick { button: u16, pressed: bool },
    MouseScroll { steps: i32 },
}

/// The input event a command asks for; a stream configuration asks for none.
pub open spec fn input_event_of(cmd: Command) -> Option<InputEvent> {
    match cmd {
        Command::Key { key_code, pressed } => Some(InputEvent::Key { key_code, pressed }),
        Command::MouseRelative { dx, dy } => Some(InputEvent::MouseRelative { dx, dy }),
        Command::MouseAbsolute { x, y, max_x, max_y } => Some(
            InputEvent::MouseAbsolute { x, y, max_x, max_y },
        ),
        Command::MouseClick { button, pressed } => Some(InputEvent::MouseClick { button, pressed }),
        Command::MouseScroll { steps } => Some(InputEvent::MouseScroll { steps }),
        Command::StreamConfig { .. } => None,
    }
}

/// Translates a command into the virtual input event to inject, if any:
/// keys, relative and absolute pointer motion, clicks and scrolling map to the
/// event of the same kind with the same fields; a stream configuration injects nothing.
pub fn execute_command(cmd: Command) -> (event: Option<InputEvent>)
    ensures
        event == input_event_of(cmd),
{
    match cmd {
        Command::Key { key_code, pressed } => Some(InputEvent::Key { key_code, pressed }),
        Command::MouseRelative { dx, dy } => Some(InputEvent::MouseRelative { dx, dy }),
        Command::MouseAbsolute { x, y, max_x, max_y } => Some(
            InputEvent::MouseAbsolute { x, y, max_x, max_y },
        ),
        Command::MouseClick { button, pressed } => Some(InputEvent::MouseClick { button, pressed }),
        Command::MouseScroll { steps } => Some(InputEvent::MouseScroll { steps }),
        Command::StreamConfig { .. } => None,
    }
}

/// The gateway command an input event stands for.
pub open spec fn command_of_event(e: InputEvent) -> Command {
    match e {
        InputEvent::Key { key_code, pressed } => Command::Key { key_code, pressed },
        InputEvent::MouseRelative { dx, dy } => Command::MouseRelative { dx, dy },
        InputEvent::MouseAbsolute { x, y, max_x, max_y } => Command::MouseAbsolute {
            x,
            y,
            max_x,
            max_y,
        },
        InputEvent::MouseClick { button, pressed } => Command::MouseClick { button, pressed },
        InputEvent::MouseScroll { steps } => Command::MouseScroll { steps },
    }
}

/// Input commands are injected whole: every command other than a stream
/// configuration yields an event, and that event stands for exactly the
/// command it came from, so no field is dropped, altered or swapped (a key
/// or button release stays a release); a stream configuration yields none.
pub proof fn lemma_input_events_carry_their_command(cmd: Command)
    ensures
        !(cmd is StreamConfig) ==> (input_event_of(cmd) matches Some(e) && command_of_event(e) == cmd),
        cmd is StreamConfig ==> input_event_of(cmd) is None,
{
}

/// Two commands that give the same event are the same command: the event
/// tells every input command apart, a press from a release included.
pub proof fn lemma_distinct_commands_give_distinct_events(a: Command, b: Command)
    requires
        !(a is StreamConfig),
        !(b is StreamConfig),
        input_event_of(a) == input_event_of(b),
    ensures
        a == b,
{
    lemma_input_events_carry_their_command(a);
    lemma_input_events_carry_their_command(b);
}

} // verus!
