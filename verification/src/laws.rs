//! What holds of the controller on every input.

use vstd::prelude::*;
use crate::action::commands_of;
use crate::action::Action;
use crate::action::Command;
use crate::action::Outcome;
use crate::controller::chosen_action;
use crate::controller::Controller;
use crate::hotkey::Hotkey;
use crate::hotkey::HotkeyEvent;
use crate::hotkey::KeyState;
use crate::run::Run;
use crate::window::main_window_params;
use crate::window::QueryError;
use crate::window::WindowState;

verus! {

/// The decision table, row by row. Each action is chosen on the observations
/// of its row and on no others, so every observation has exactly one action.
pub proof fn lemma_decision_table(window: WindowState)
    ensures
        chosen_action(window) == Action::Create <==> !window.exists,
        chosen_action(window) == Action::Restore <==> window.exists && window.visible == Ok::<
            bool,
            QueryError,
        >(true) && window.minimized == Ok::<bool, QueryError>(true),
        chosen_action(window) == Action::Minimize <==> window.exists && window.visible == Ok::<
            bool,
            QueryError,
        >(true) && window.minimized == Ok::<bool, QueryError>(false),
        chosen_action(window) == Action::Reveal <==> window.exists && (window.visible != Ok::<
            bool,
            QueryError,
        >(true) || window.minimized is Err),
{
    match window.minimized {
        Ok(flag) => {
            assert(window.minimized == Ok::<bool, QueryError>(flag));
        },
        Err(_) => {},
    }
}

/// A failed query on either flag of an existing window leads to the fallback,
/// as does a window that is known to be hidden.
pub proof fn lemma_doubt_reveals(window: WindowState)
    requires
        window.exists,
        window.visible is Err || window.minimized is Err || window.visible == Ok::<
            bool,
            QueryError,
        >(false),
    ensures
        chosen_action(window) == Action::Reveal,
{
}

/// An accepted press leads to the commands of the table's one action, in their
/// order, and to no other command.
pub proof fn lemma_one_action_per_press(
    controller: Controller,
    event: HotkeyEvent,
    window: WindowState,
)
    requires
        event.state == KeyState::Pressed,
        event.hotkey == controller.hotkey,
    ensures
        controller.response(event, window) == Some(chosen_action(window)),
        controller.calls(event, window) == commands_of(chosen_action(window)),
{
}

/// The controller keeps no memory: on the same observation it chooses the same
/// action again, and the commands of the second press are those of the first,
/// neither merged with them nor replaced by others.
pub proof fn lemma_same_observation_same_action(
    controller: Controller,
    first: HotkeyEvent,
    second: HotkeyEvent,
    window: WindowState,
)
    requires
        controller.accepts_event(first),
        controller.accepts_event(second),
    ensures
        controller.response(first, window) == controller.response(second, window),
        controller.response(second, window) == Some(chosen_action(window)),
        controller.calls(second, window) == controller.calls(first, window),
{
}

/// A release leads to no command at all, for the registered hotkey as for any
/// other.
pub proof fn lemma_release_makes_no_call(
    controller: Controller,
    hotkey: Hotkey,
    window: WindowState,
)
    ensures
        controller.response(HotkeyEvent { hotkey, state: KeyState::Released }, window) is None,
        controller.calls(HotkeyEvent { hotkey, state: KeyState::Released }, window).len() == 0,
{
}

/// An event for any hotkey but the registered one leads to no command at all.
pub proof fn lemma_other_hotkey_makes_no_call(
    controller: Controller,
    event: HotkeyEvent,
    window: WindowState,
)
    requires
        event.hotkey != controller.hotkey,
    ensures
        controller.response(event, window) is None,
        controller.calls(event, window).len() == 0,
{
}

/// With no window, a press of the registered hotkey leads to exactly one
/// command, the creation of the window with its fixed parameters; nothing is
/// shown, focused or minimized for that press.
pub proof fn lemma_missing_window_is_created(
    controller: Controller,
    event: HotkeyEvent,
    window: WindowState,
)
    requires
        controller.accepts_event(event),
        !window.exists,
    ensures
        controller.response(event, window) == Some(Action::Create),
        controller.calls(event, window) == seq![Command::CreateWindow(main_window_params())],
        controller.calls(event, window).len() == 1,
        !controller.calls(event, window).contains(Command::Show),
        !controller.calls(event, window).contains(Command::SetFocus),
        !controller.calls(event, window).contains(Command::Minimize),
        !controller.calls(event, window).contains(Command::Unminimize),
{
    let calls = controller.calls(event, window);
    assert(calls[0] == Command::CreateWindow(main_window_params()));
}

/// Failures stop nothing. Once the host has reported on as many commands as
/// the action has, every command of the action has been issued, in order, and
/// none is pending, whatever the reports said.
pub proof fn lemma_failures_stop_nothing(action: Action, outcomes: Seq<Outcome>)
    requires
        outcomes.len() >= commands_of(action).len(),
    ensures
        Run::fresh(action).after_all(outcomes).sent() == commands_of(action),
        Run::fresh(action).after_all(outcomes).remaining().len() == 0,
{
    let start = Run::fresh(action);
    Run::lemma_fresh(action);
    start.lemma_after_all(outcomes);
}

/// The commands issued after any number of reports are the same for any two
/// series of reports of that length: what a report says never changes what
/// comes next.
pub proof fn lemma_outcomes_do_not_matter(action: Action, left: Seq<Outcome>, right: Seq<Outcome>)
    requires
        left.len() == right.len(),
    ensures
        Run::fresh(action).after_all(left).sent() == Run::fresh(action).after_all(right).sent(),
        Run::fresh(action).after_all(left).remaining() == Run::fresh(action).after_all(
            right,
        ).remaining(),
{
    let start = Run::fresh(action);
    start.lemma_after_all(left);
    start.lemma_after_all(right);
}

/// In the fallback, a failed un-minimize is followed by the show, and that by
/// the focus, whether or not the show went through.
pub proof fn lemma_fallback_survives_failure(shown: Outcome)
    ensures
        Run::fresh(Action::Reveal).remaining() == seq![
            Command::Unminimize,
            Command::Show,
            Command::SetFocus,
        ],
        Run::fresh(Action::Reveal).after(Outcome::Failed).remaining() == seq![
            Command::Show,
            Command::SetFocus,
        ],
        Run::fresh(Action::Reveal).after(Outcome::Failed).after(shown).remaining() == seq![
            Command::SetFocus,
        ],
{
    let start = Run::fresh(Action::Reveal);
    let second = start.after(Outcome::Failed);
    Run::lemma_fresh(Action::Reveal);
    start.lemma_after(Outcome::Failed);
    second.lemma_after(shown);
}

} // verus!
