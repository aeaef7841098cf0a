//! What a request of the user does to the recording.

use vstd::prelude::*;
use crate::floating_button::ButtonState;

verus! {

/// Where a request of the user comes from.
#[derive(Clone, Copy, Debug, PartialEq, Eq, Structural)]
pub enum Trigger {
    /// The hotkey, or a click on the floating button: start or stop.
    Toggle,
    /// The menu entry that starts the recording.
    MenuStart,
    /// The menu entry that stops the recording.
    MenuStop,
}

/// What is to be done with the recording.
#[derive(Clone, Copy, Debug, PartialEq, Eq, Structural)]
pub enum Command {
    /// Start recording.
    Start,
    /// Stop recording.
    Stop,
    /// Leave things as they are.
    Nothing,
}

/// What a request does: a toggle stops a running recording and starts one
/// otherwise; the menu starts only what does not run and stops only what
/// runs.
pub open spec fn command_for(trigger: Trigger, recording: bool) -> Command {
    match trigger {
        Trigger::Toggle => if recording {
            Command::Stop
        } else {
            Command::Start
        },
        Trigger::MenuStart => if recording {
            Command::Nothing
        } else {
            Command::Start
        },
        Trigger::MenuStop => if recording {
            Command::Stop
        } else {
            Command::Nothing
        },
    }
}

/// Decides what a request of the user does.
pub fn decide(trigger: Trigger, recording: bool) -> (command: Command)
    ensures
        command == command_for(trigger, recording),
{
    match trigger {
        Trigger::Toggle => if recording {
            Command::Stop
        } else {
            Command::Start
        },
        Trigger::MenuStart => if recording {
            Command::Nothing
        } else {
            Command::Start
        },
        Trigger::MenuStop => if recording {
            Command::Stop
        } else {
            Command::Nothing
        },
    }
}

/// What the button shows while a command is carried out.
pub fn state_during(command: Command) -> (state: Option<ButtonState>)
    ensures
        state == match command {
            Command::Stop => Some(ButtonState::Processing),
            _ => None::<ButtonState>,
        },
{
    match command {
        Command::Stop => Some(ButtonState::Processing),
        _ => None,
    }
}

/// What the button shows once a command is done. A start that failed
/// leaves the button as it was.
pub fn state_after(command: Command, succeeded: bool) -> (state: Option<ButtonState>)
    ensures
        state == match command {
            Command::Start => if succeeded {
                Some(ButtonState::Recording)
            } else {
                None
            },
            Command::Stop => Some(ButtonState::Idle),
            Command::Nothing => None::<ButtonState>,
        },
{
    match command {
        Command::Start => if succeeded {
            Some(ButtonState::Recording)
        } else {
            None
        },
        Command::Stop => Some(ButtonState::Idle),
        Command::Nothing => None,
    }
}

} // verus!
