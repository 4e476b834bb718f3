use window_toggle::action::Action;
use window_toggle::controller::decide;
use window_toggle::controller::Controller;
use window_toggle::hotkey::Hotkey;
use window_toggle::hotkey::HotkeyEvent;
use window_toggle::hotkey::KeyState;
use window_toggle::window::QueryError;
use window_toggle::window::WindowState;

fn every_flag() -> Vec<Result<bool, QueryError>> {
    vec![Ok(true), Ok(false), Err(QueryError)]
}

fn alt_backquote() -> Hotkey {
    Hotkey::new(0x01, 0)
}

#[test]
fn missing_window_is_created_whatever_the_flags_say() {
    for visible in every_flag() {
        for minimized in every_flag() {
            let window = WindowState { exists: false, visible, minimized };
            assert_eq!(decide(&window), Action::Create);
        }
    }
    assert_eq!(decide(&WindowState::absent()), Action::Create);
}

#[test]
fn shown_and_minimized_is_restored() {
    let window = WindowState::present(Ok(true), Ok(true));
    assert_eq!(decide(&window), Action::Restore);
}

#[test]
fn shown_and_not_minimized_is_minimized() {
    let window = WindowState::present(Ok(true), Ok(false));
    assert_eq!(decide(&window), Action::Minimize);
}

#[test]
fn hidden_window_is_revealed() {
    assert_eq!(decide(&WindowState::present(Ok(false), Ok(false))), Action::Reveal);
    assert_eq!(decide(&WindowState::present(Ok(false), Ok(true))), Action::Reveal);
}

#[test]
fn failed_visibility_query_is_revealed() {
    assert_eq!(decide(&WindowState::present(Err(QueryError), Ok(true))), Action::Reveal);
    assert_eq!(decide(&WindowState::present(Err(QueryError), Ok(false))), Action::Reveal);
}

#[test]
fn failed_minimized_query_is_revealed() {
    assert_eq!(decide(&WindowState::present(Ok(true), Err(QueryError))), Action::Reveal);
    assert_eq!(decide(&WindowState::present(Ok(false), Err(QueryError))), Action::Reveal);
}

#[test]
fn both_queries_failing_is_revealed() {
    assert_eq!(decide(&WindowState::present(Err(QueryError), Err(QueryError))), Action::Reveal);
}

#[test]
fn whole_table_has_one_action_per_observation() {
    let mut seen = 0;
    for exists in [false, true] {
        for visible in every_flag() {
            for minimized in every_flag() {
                let window = WindowState { exists, visible, minimized };
                let expected = if !exists {
                    Action::Create
                } else if visible == Ok(true) && minimized == Ok(true) {
                    Action::Restore
                } else if visible == Ok(true) && minimized == Ok(false) {
                    Action::Minimize
                } else {
                    Action::Reveal
                };
                assert_eq!(decide(&window), expected);
                seen += 1;
            }
        }
    }
    assert_eq!(seen, 18);
}

#[test]
fn sequence_of_observations_follows_the_table_each_time() {
    let observations = vec![
        WindowState::present(Ok(true), Ok(false)),
        WindowState::present(Ok(true), Ok(true)),
        WindowState::absent(),
        WindowState::present(Ok(false), Ok(false)),
        WindowState::present(Ok(true), Ok(false)),
        WindowState::present(Ok(true), Err(QueryError)),
    ];
    let expected = vec![
        Action::Minimize,
        Action::Restore,
        Action::Create,
        Action::Reveal,
        Action::Minimize,
        Action::Reveal,
    ];
    let controller = Controller::new(alt_backquote());
    let press = HotkeyEvent::pressed(alt_backquote());
    let chosen: Vec<Option<Action>> =
        observations.iter().map(|w| controller.respond(&press, w)).collect();
    let wanted: Vec<Option<Action>> = expected.into_iter().map(Some).collect();
    assert_eq!(chosen, wanted);
}

#[test]
fn same_observation_twice_gives_same_action_twice() {
    let controller = Controller::new(alt_backquote());
    let press = HotkeyEvent::pressed(alt_backquote());
    for exists in [false, true] {
        for visible in every_flag() {
            for minimized in every_flag() {
                let window = WindowState { exists, visible, minimized };
                let first = controller.respond(&press, &window);
                let second = controller.respond(&press, &window);
                assert!(first.is_some());
                assert_eq!(first, second);
                assert_eq!(first.unwrap().commands(), second.unwrap().commands());
            }
        }
    }
}

#[test]
fn pressing_alternates_between_minimize_and_restore() {
    let controller = Controller::new(alt_backquote());
    let press = HotkeyEvent::pressed(alt_backquote());
    let before = WindowState::present(Ok(true), Ok(false));
    assert_eq!(controller.respond(&press, &before), Some(Action::Minimize));
    let after = WindowState::present(Ok(true), Ok(true));
    assert_eq!(controller.respond(&press, &after), Some(Action::Restore));
    assert_eq!(controller.respond(&press, &before), Some(Action::Minimize));
}

#[test]
fn release_of_registered_hotkey_does_nothing() {
    let controller = Controller::new(alt_backquote());
    let release = HotkeyEvent::released(alt_backquote());
    assert!(!controller.accepts(&release));
    for exists in [false, true] {
        for visible in every_flag() {
            for minimized in every_flag() {
                let window = WindowState { exists, visible, minimized };
                assert_eq!(controller.respond(&release, &window), None);
            }
        }
    }
}

#[test]
fn other_hotkey_does_nothing() {
    let controller = Controller::new(alt_backquote());
    let control_n = Hotkey::new(0x08, 0x2c);
    let same_key_other_modifier = Hotkey::new(0x08, 0);
    let same_modifier_other_key = Hotkey::new(0x01, 0x2c);
    let window = WindowState::present(Ok(true), Ok(false));
    for hotkey in [control_n, same_key_other_modifier, same_modifier_other_key] {
        for state in [KeyState::Pressed, KeyState::Released] {
            let event = HotkeyEvent { hotkey, state };
            assert!(!controller.accepts(&event));
            assert_eq!(controller.respond(&event, &window), None);
            assert_eq!(controller.respond(&event, &WindowState::absent()), None);
        }
    }
}

#[test]
fn press_of_registered_hotkey_is_accepted() {
    let controller = Controller::new(alt_backquote());
    assert!(controller.accepts(&HotkeyEvent::pressed(Hotkey::new(0x01, 0))));
    assert_eq!(controller.hotkey, alt_backquote());
}

#[test]
fn hotkey_identity_needs_both_numbers() {
    let a = Hotkey::new(1, 2);
    assert!(a.same_as(&Hotkey::new(1, 2)));
    assert!(!a.same_as(&Hotkey::new(1, 3)));
    assert!(!a.same_as(&Hotkey::new(0, 2)));
    assert!(!a.same_as(&Hotkey::new(2, 1)));
    assert_eq!(a, Hotkey { modifiers: 1, key: 2 });
}

#[test]
fn events_carry_their_state() {
    let h = Hotkey::new(1, 2);
    let down = HotkeyEvent::pressed(h);
    let up = HotkeyEvent::released(h);
    assert_eq!(down, HotkeyEvent { hotkey: h, state: KeyState::Pressed });
    assert_eq!(up, HotkeyEvent { hotkey: h, state: KeyState::Released });
    assert!(down.is_press());
    assert!(!up.is_press());
}

#[test]
fn observations_are_built_as_given() {
    let absent = WindowState::absent();
    assert!(!absent.exists);
    assert_eq!(absent.visible, Err(QueryError));
    assert_eq!(absent.minimized, Err(QueryError));
    let present = WindowState::present(Ok(false), Err(QueryError));
    assert_eq!(
        present,
        WindowState { exists: true, visible: Ok(false), minimized: Err(QueryError) }
    );
}
