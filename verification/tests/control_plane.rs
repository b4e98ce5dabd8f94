use shellctl::command::{translate, Component, Message, Translation};
use shellctl::search::{select_launcher, LauncherKind};
use shellctl::state::{apply_all, Effect, ShellState, HIDE_LAUNCHER_DELAY_MS};

fn commands_of(text: &str) -> Vec<Message> {
    match translate(text) {
        Translation::Commands(v) => v,
        Translation::Passthrough(t) => panic!("expected commands for {:?}, got passthrough {:?}", text, t),
    }
}

fn passthrough_of(text: &str) -> String {
    match translate(text) {
        Translation::Commands(v) => panic!("expected passthrough for {:?}, got {:?}", text, v),
        Translation::Passthrough(t) => t,
    }
}

#[test]
fn translate_launcher() {
    assert_eq!(
        commands_of("launcher"),
        vec![Message::Toggle { component: Component::Launcher }]
    );
}

#[test]
fn translate_toggle_top() {
    assert_eq!(
        commands_of("toggle top"),
        vec![Message::Toggle { component: Component::Top }]
    );
}

#[test]
fn translate_toggle_right() {
    assert_eq!(
        commands_of("toggle right"),
        vec![Message::Toggle { component: Component::Right }]
    );
}

#[test]
fn translate_toggle_all() {
    assert_eq!(
        commands_of("toggle all"),
        vec![
            Message::Toggle { component: Component::Top },
            Message::Toggle { component: Component::Right },
        ]
    );
}

#[test]
fn translate_on_all() {
    assert_eq!(
        commands_of("on all"),
        vec![
            Message::On { component: Component::Top },
            Message::On { component: Component::Right },
        ]
    );
}

#[test]
fn translate_off_all() {
    assert_eq!(
        commands_of("off all"),
        vec![
            Message::Off { component: Component::Top },
            Message::Off { component: Component::Right },
        ]
    );
}

#[test]
fn translate_is_total_on_arbitrary_text() {
    assert_eq!(passthrough_of(""), "");
    assert_eq!(passthrough_of("Launcher"), "Launcher");
    assert_eq!(passthrough_of("toggle all "), "toggle all ");
    assert_eq!(passthrough_of("hello world"), "hello world");
    assert_eq!(passthrough_of("\u{7f}\u{0}binary\u{9}"), "\u{7f}\u{0}binary\u{9}");
}

#[test]
fn initial_state_all_hidden() {
    let s = ShellState::new();
    assert!(!s.top_reveal());
    assert!(!s.right_reveal());
    assert!(!s.launcher_reveal());
}

#[test]
fn toggle_twice_restores_flags() {
    let mut s = ShellState::new();
    s.handle_message(Message::On { component: Component::Top });
    let before = (s.top_reveal(), s.right_reveal(), s.launcher_reveal());
    for component in [Component::Top, Component::Right, Component::Launcher] {
        s.handle_message(Message::Toggle { component });
        s.handle_message(Message::Toggle { component });
    }
    assert_eq!(before, (s.top_reveal(), s.right_reveal(), s.launcher_reveal()));
}

#[test]
fn on_and_off_are_idempotent() {
    let mut s = ShellState::new();
    s.handle_message(Message::On { component: Component::Right });
    let once = s.clone();
    s.handle_message(Message::On { component: Component::Right });
    assert_eq!(s, once);

    s.handle_message(Message::Off { component: Component::Right });
    let once = s.clone();
    s.handle_message(Message::Off { component: Component::Right });
    assert_eq!(s, once);
}

#[test]
fn queue_order_decides_final_state() {
    // Two producers enqueued Off{Top} then On{Top}: whoever sent them,
    // the state after draining equals sequential application.
    let mut s = ShellState::new();
    s.handle_message(Message::On { component: Component::Top });
    let queue = vec![
        Message::Off { component: Component::Top },
        Message::On { component: Component::Top },
    ];
    apply_all(&mut s, &queue);
    assert!(s.top_reveal());

    let queue = vec![
        Message::On { component: Component::Top },
        Message::Off { component: Component::Top },
    ];
    apply_all(&mut s, &queue);
    assert!(!s.top_reveal());
}

#[test]
fn scenario_toggle_all_then_right_then_off_all() {
    let mut s = ShellState::new();
    assert_eq!(
        (s.top_reveal(), s.right_reveal(), s.launcher_reveal()),
        (false, false, false)
    );

    apply_all(&mut s, &commands_of("toggle all"));
    assert_eq!(
        (s.top_reveal(), s.right_reveal(), s.launcher_reveal()),
        (true, true, false)
    );

    apply_all(&mut s, &commands_of("toggle right"));
    assert_eq!(
        (s.top_reveal(), s.right_reveal(), s.launcher_reveal()),
        (true, false, false)
    );

    apply_all(&mut s, &commands_of("off all"));
    assert_eq!(
        (s.top_reveal(), s.right_reveal(), s.launcher_reveal()),
        (false, false, false)
    );
}

#[test]
fn scenario_launcher_debounced_hide() {
    let mut s = ShellState::new();

    // First "launcher": shown synchronously, surface mapped.
    let effects = apply_all(&mut s, &commands_of("launcher"));
    assert!(s.launcher_reveal());
    assert_eq!(effects, vec![Effect::MapLauncherSurface]);

    // Second "launcher": the flag drops immediately, the physical
    // hide is only scheduled.
    let effects = apply_all(&mut s, &commands_of("launcher"));
    assert!(!s.launcher_reveal());
    assert_eq!(effects, vec![Effect::ScheduleHideLauncher]);

    // The delayed message fires with no re-open in between: only now
    // is the surface torn down.
    let effects = s.handle_message(Message::HideLauncher);
    assert_eq!(effects, vec![Effect::UnmapLauncherSurface]);
    assert!(!s.launcher_reveal());
}

#[test]
fn launcher_reopen_beats_stale_hide() {
    let mut s = ShellState::new();
    s.handle_message(Message::On { component: Component::Launcher });
    assert!(s.launcher_reveal());

    // Hide, then re-open before the delay elapses.
    let e1 = s.handle_message(Message::Off { component: Component::Launcher });
    assert_eq!(e1, vec![Effect::ScheduleHideLauncher]);
    let e2 = s.handle_message(Message::Toggle { component: Component::Launcher });
    // The surface never went away, so nothing needs mapping.
    assert_eq!(e2, vec![]);
    assert!(s.launcher_reveal());

    // The stale delayed hide fires: a no-op, no teardown.
    let e3 = s.handle_message(Message::HideLauncher);
    assert_eq!(e3, vec![]);
    assert!(s.launcher_reveal());
}

#[test]
fn stale_hide_fires_twice_harmlessly() {
    let mut s = ShellState::new();
    s.handle_message(Message::On { component: Component::Launcher });
    s.handle_message(Message::Off { component: Component::Launcher });
    s.handle_message(Message::Off { component: Component::Launcher });
    // Two hides scheduled two delayed messages; only the first unmaps.
    let e1 = s.handle_message(Message::HideLauncher);
    assert_eq!(e1, vec![Effect::UnmapLauncherSurface]);
    let e2 = s.handle_message(Message::HideLauncher);
    assert_eq!(e2, vec![]);
}

#[test]
fn debounce_delay_is_two_hundred_milliseconds() {
    assert_eq!(HIDE_LAUNCHER_DELAY_MS, 200);
}

#[test]
fn search_entry_dispatch() {
    assert_eq!(select_launcher("= 1 + 2"), LauncherKind::Calculator);
    assert_eq!(select_launcher("; buy milk"), LauncherKind::Notes);
    assert_eq!(select_launcher("firefox"), LauncherKind::AppSearch);
    assert_eq!(select_launcher("=1+2"), LauncherKind::AppSearch);
    assert_eq!(select_launcher(""), LauncherKind::AppSearch);
}
