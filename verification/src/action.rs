//! The actions the controller can choose, and the commands each one stands for.

use vstd::prelude::*;
use crate::window::WindowParams;
use crate::window::main_window;
use crate::window::main_window_params;

verus! {

/// What the controller decides to do about one press. Exactly one is chosen.
#[derive(Clone, Copy, Debug, PartialEq, Eq, Structural)]
pub enum Action {
    /// No window exists: make it, and do nothing further for this press.
    Create,
    /// The window is shown but minimized: bring it back and focus it.
    Restore,
    /// The window is shown and not minimized: minimize it.
    Minimize,
    /// Anything else, a failed query included: make the window usable.
    Reveal,
}

/// A single request to the window manager.
#[derive(Clone, Copy, Debug, PartialEq, Eq)]
pub enum Command {
    CreateWindow(WindowParams),
    Unminimize,
    Show,
    SetFocus,
    Minimize,
}

/// How the window manager answered a command.
#[derive(Clone, Copy, Debug, PartialEq, Eq, Structural)]
pub enum Outcome {
    Done,
    Failed,
}

/// The commands that carry out `action`, in the order they are issued.
pub open spec fn commands_of(action: Action) -> Seq<Command> {
    match action {
        Action::Create => seq![Command::CreateWindow(main_window_params())],
        Action::Restore => seq![Command::Unminimize, Command::Show, Command::SetFocus],
        Action::Minimize => seq![Command::Minimize],
        Action::Reveal => seq![Command::Unminimize, Command::Show, Command::SetFocus],
    }
}

impl Action {
    /// The commands that carry out this action, in order.
    pub fn commands(&self) -> (cmds: Vec<Command>)
        ensures
            cmds@ == commands_of(*self),
    {
        let mut cmds: Vec<Command> = Vec::new();
        match self {
            Action::Create => {
                cmds.push(Command::CreateWindow(main_window()));
            },
            Action::Restore | Action::Reveal => {
                cmds.push(Command::Unminimize);
                cmds.push(Command::Show);
                cmds.push(Command::SetFocus);
            },
            Action::Minimize => {
                cmds.push(Command::Minimize);
            },
        }
        cmds
    }

    /// How many commands this action stands for.
    pub fn command_count(&self) -> (n: usize)
        ensures
            n == commands_of(*self).len(),
    {
        match self {
            Action::Create => 1,
            Action::Restore => 3,
            Action::Minimize => 1,
            Action::Reveal => 3,
        }
    }

    /// The command at position `index` of this action, if there is one.
    pub fn command_at(&self, index: usize) -> (c: Option<Command>)
        ensures
            index < commands_of(*self).len() ==> c == Some(commands_of(*self)[index as int]),
            index >= commands_of(*self).len() ==> c is None,
    {
        match self {
            Action::Create => {
                if index == 0 {
                    Some(Command::CreateWindow(main_window()))
                } else {
                    None
                }
            },
            Action::Minimize => {
                if index == 0 {
                    Some(Command::Minimize)
                } else {
                    None
                }
            },
            Action::Restore | Action::Reveal => {
                if index == 0 {
                    Some(Command::Unminimize)
                } else if index == 1 {
                    Some(Command::Show)
                } else if index == 2 {
                    Some(Command::SetFocus)
                } else {
                    None
                }
            },
        }
    }
}

} // verus!
