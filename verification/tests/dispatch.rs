use waycrust::actions::{handle_actions, DispatchEffect};
use waycrust::compositor::{FocusRequest, Waycrust, WindowHandle};
use waycrust::config::{Config, KeybindAction};
use waycrust::keybinds::{handle_keybind, handle_keyboard_event, FilterDecision};
use waycrust::socket::{parse_action, Action};
use waycrust::config::{Keybind, KeybindShortcut, KeyboardConfig, KeyboardRemap};

fn w(id: u64) -> WindowHandle {
    WindowHandle { id }
}

fn fresh() -> Waycrust {
    Waycrust::init(Config::default())
}

#[test]
fn exec_line_spawns_its_shell_words() {
    let mut st = fresh();
    let action = parse_action("EXEC /bin/true --flag value").unwrap();
    let effect = handle_actions(&mut st, action);
    assert_eq!(
        effect,
        DispatchEffect::Spawn {
            program: String::from("/bin/true"),
            args: vec![String::from("--flag"), String::from("value")],
        }
    );
}

#[test]
fn exec_honours_shell_quoting() {
    let mut st = fresh();
    let effect = handle_actions(&mut st, Action::Exec(String::from("sh -c 'echo hi there'")));
    assert_eq!(
        effect,
        DispatchEffect::Spawn {
            program: String::from("sh"),
            args: vec![String::from("-c"), String::from("echo hi there")],
        }
    );
}

#[test]
fn exec_with_an_unclosed_quote_drops_the_broken_word() {
    // The splitter ends the iteration at the erroneous token and keeps what
    // it already produced; the dispatch stays best-effort, not an error.
    let mut st = fresh();
    let effect = handle_actions(&mut st, Action::Exec(String::from("sh -c 'oops")));
    assert_eq!(
        effect,
        DispatchEffect::Spawn { program: String::from("sh"), args: vec![String::from("-c")] }
    );
}

#[test]
fn exec_of_an_empty_line_spawns_the_empty_program() {
    let mut st = fresh();
    let effect = handle_actions(&mut st, Action::Exec(String::new()));
    assert_eq!(effect, DispatchEffect::Spawn { program: String::new(), args: vec![] });
}

#[test]
fn flip_toggles_the_render_flag() {
    let mut st = fresh();
    assert!(!st.flipped);
    assert_eq!(handle_actions(&mut st, Action::Flip), DispatchEffect::Nothing);
    assert!(st.flipped);
    assert_eq!(handle_actions(&mut st, Action::Flip), DispatchEffect::Nothing);
    assert!(!st.flipped);
}

#[test]
fn exit_with_no_focused_window_is_a_no_op() {
    let mut st = fresh();
    assert_eq!(handle_actions(&mut st, Action::Exit), DispatchEffect::Nothing);
}

#[test]
fn exit_asks_the_focused_window_to_close() {
    let mut st = fresh();
    st.new_toplevel(w(4));
    assert_eq!(handle_actions(&mut st, Action::Exit), DispatchEffect::Close(w(4)));
    // Closing is asynchronous: the window stays registered until the engine
    // reports its destruction.
    assert_eq!(st.toplevels.focused, Some(w(4)));
}

#[test]
fn unbound_press_is_forwarded() {
    let mut st = fresh();
    let (decision, effect) = handle_keybind(&mut st, None);
    assert_eq!(decision, FilterDecision::Forward);
    assert_eq!(effect, DispatchEffect::Nothing);
}

#[test]
fn kill_keybind_closes_the_focused_window() {
    let mut st = fresh();
    st.new_toplevel(w(2));
    let (decision, effect) = handle_keybind(&mut st, Some(KeybindAction::Kill));
    assert_eq!(decision, FilterDecision::Intercept);
    assert_eq!(effect, DispatchEffect::Close(w(2)));
}

#[test]
fn kill_keybind_with_no_focus_is_intercepted_anyway() {
    let mut st = fresh();
    let (decision, effect) = handle_keybind(&mut st, Some(KeybindAction::Kill));
    assert_eq!(decision, FilterDecision::Intercept);
    assert_eq!(effect, DispatchEffect::Nothing);
}

#[test]
fn cycle_keybind_rotates_and_reports_the_focus_request() {
    let mut st = fresh();
    st.new_toplevel(w(1));
    st.new_toplevel(w(2));
    let (decision, effect) = handle_keybind(&mut st, Some(KeybindAction::CycleNext));
    assert_eq!(decision, FilterDecision::Intercept);
    assert_eq!(
        effect,
        DispatchEffect::Focus(FocusRequest::Focus { window: w(1), size: None, serial: 2 })
    );
    assert_eq!(st.toplevels.toplevels, vec![w(1), w(2)]);
}

#[test]
fn cycle_keybind_under_two_windows_does_nothing() {
    let mut st = fresh();
    st.new_toplevel(w(1));
    let (decision, effect) = handle_keybind(&mut st, Some(KeybindAction::CycleNext));
    assert_eq!(decision, FilterDecision::Intercept);
    assert_eq!(effect, DispatchEffect::Nothing);
    let (_, effect) = handle_keybind(&mut st, Some(KeybindAction::CyclePrev));
    assert_eq!(effect, DispatchEffect::Nothing);
    assert_eq!(st.toplevels.toplevels, vec![w(1)]);
    assert_eq!(st.toplevels.focused, Some(w(1)));
}

#[test]
fn key_releases_are_always_forwarded() {
    let mut st = Waycrust::init(Config {
        keybinds: vec![Keybind {
            shortcut: KeybindShortcut { key: 9, modifiers: 0 },
            action: KeybindAction::Kill,
        }],
        keyboard: KeyboardConfig::default(),
        remaps: vec![],
    });
    st.new_toplevel(w(1));
    let (decision, effect) =
        handle_keyboard_event(&mut st, 9, false, false, false, false, false);
    assert_eq!(decision, FilterDecision::Forward);
    assert_eq!(effect, DispatchEffect::Nothing);
}

#[test]
fn bound_press_is_intercepted_after_remap() {
    let mut st = Waycrust::init(Config {
        keybinds: vec![Keybind {
            shortcut: KeybindShortcut { key: 40, modifiers: 2 },
            action: KeybindAction::Kill,
        }],
        keyboard: KeyboardConfig::default(),
        remaps: vec![KeyboardRemap { from: 30, into: 40 }],
    });
    st.new_toplevel(w(6));
    let (decision, effect) = handle_keyboard_event(&mut st, 30, true, false, true, false, false);
    assert_eq!(decision, FilterDecision::Intercept);
    assert_eq!(effect, DispatchEffect::Close(w(6)));
    let (decision, effect) = handle_keyboard_event(&mut st, 31, true, false, true, false, false);
    assert_eq!(decision, FilterDecision::Forward);
    assert_eq!(effect, DispatchEffect::Nothing);
}
