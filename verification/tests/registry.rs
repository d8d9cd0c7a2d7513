use waycrust::compositor::{FocusRequest, Waycrust, WindowHandle};
use waycrust::config::Config;

fn w(id: u64) -> WindowHandle {
    WindowHandle { id }
}

fn fresh() -> Waycrust {
    Waycrust::init(Config::default())
}

fn focus_is_registered(st: &Waycrust) -> bool {
    match st.toplevels.focused {
        Some(f) => st.toplevels.toplevels.contains(&f),
        None => true,
    }
}

#[test]
fn register_focuses_new_window() {
    let mut st = fresh();
    let r = st.new_toplevel(w(1));
    assert_eq!(st.toplevels.focused, Some(w(1)));
    assert_eq!(r, FocusRequest::Focus { window: w(1), size: None, serial: 0 });
    let r2 = st.new_toplevel(w(2));
    assert_eq!(st.toplevels.focused, Some(w(2)));
    assert_eq!(st.toplevels.toplevels, vec![w(2), w(1)]);
    assert_eq!(r2, FocusRequest::Focus { window: w(2), size: None, serial: 1 });
}

#[test]
fn focus_pointer_never_dangles() {
    let mut st = fresh();
    assert!(focus_is_registered(&st));
    st.new_toplevel(w(1));
    assert!(focus_is_registered(&st));
    st.new_toplevel(w(2));
    assert!(focus_is_registered(&st));
    st.toplevel_destroyed(w(2));
    assert!(focus_is_registered(&st));
    st.new_toplevel(w(3));
    assert!(focus_is_registered(&st));
    st.toplevel_destroyed(w(1));
    assert!(focus_is_registered(&st));
    st.toplevel_destroyed(w(3));
    assert!(focus_is_registered(&st));
    assert_eq!(st.toplevels.focused, None);
    assert!(st.toplevels.toplevels.is_empty());
}

#[test]
fn destroy_focused_moves_focus_to_front() {
    let mut st = fresh();
    st.new_toplevel(w(1));
    st.new_toplevel(w(2));
    st.new_toplevel(w(3));
    assert_eq!(st.toplevels.toplevels, vec![w(3), w(2), w(1)]);
    let r = st.toplevel_destroyed(w(3));
    assert_eq!(st.toplevels.toplevels, vec![w(2), w(1)]);
    assert_eq!(st.toplevels.focused, Some(w(2)));
    assert_eq!(r, Some(FocusRequest::Focus { window: w(2), size: None, serial: 3 }));
}

#[test]
fn destroy_unfocused_issues_no_notification() {
    let mut st = fresh();
    st.new_toplevel(w(1));
    st.new_toplevel(w(2));
    let r = st.toplevel_destroyed(w(1));
    assert_eq!(r, None);
    assert_eq!(st.toplevels.focused, Some(w(2)));
    assert_eq!(st.toplevels.toplevels, vec![w(2)]);
}

#[test]
fn destroy_last_window_clears_focus() {
    let mut st = fresh();
    st.new_toplevel(w(7));
    let r = st.toplevel_destroyed(w(7));
    assert_eq!(st.toplevels.focused, None);
    assert!(st.toplevels.toplevels.is_empty());
    assert_eq!(r, Some(FocusRequest::Unfocus { serial: 1 }));
}

#[test]
fn unregister_is_idempotent() {
    let mut st = fresh();
    st.new_toplevel(w(1));
    st.new_toplevel(w(2));
    st.toplevel_destroyed(w(2));
    let order_once = st.toplevels.toplevels.clone();
    let focused_once = st.toplevels.focused;
    let r = st.toplevel_destroyed(w(2));
    assert_eq!(r, None);
    assert_eq!(st.toplevels.toplevels, order_once);
    assert_eq!(st.toplevels.focused, focused_once);
}

#[test]
fn unregister_unknown_handle_is_a_no_op() {
    let mut st = fresh();
    st.new_toplevel(w(1));
    let r = st.toplevel_destroyed(w(9));
    assert_eq!(r, None);
    assert_eq!(st.toplevels.toplevels, vec![w(1)]);
    assert_eq!(st.toplevels.focused, Some(w(1)));
}

#[test]
fn cycle_round_trip_restores_order_and_focus() {
    let mut st = fresh();
    st.new_toplevel(w(1));
    st.new_toplevel(w(2));
    st.new_toplevel(w(3));
    assert_eq!(st.toplevels.toplevels, vec![w(3), w(2), w(1)]);
    let n = st.next_toplevel();
    assert_eq!(st.toplevels.toplevels, vec![w(2), w(1), w(3)]);
    assert_eq!(st.toplevels.focused, Some(w(2)));
    assert!(n.is_some());
    let p = st.previous_toplevel();
    assert_eq!(st.toplevels.toplevels, vec![w(3), w(2), w(1)]);
    assert_eq!(st.toplevels.focused, Some(w(3)));
    assert!(p.is_some());
}

#[test]
fn cycle_the_other_way_round_trips_too() {
    let mut st = fresh();
    st.new_toplevel(w(1));
    st.new_toplevel(w(2));
    let p = st.previous_toplevel();
    assert_eq!(st.toplevels.toplevels, vec![w(1), w(2)]);
    assert_eq!(st.toplevels.focused, Some(w(1)));
    assert!(p.is_some());
    let n = st.next_toplevel();
    assert_eq!(st.toplevels.toplevels, vec![w(2), w(1)]);
    assert_eq!(st.toplevels.focused, Some(w(2)));
    assert!(n.is_some());
}

#[test]
fn cycling_an_empty_registry_does_nothing() {
    let mut st = fresh();
    assert_eq!(st.next_toplevel(), None);
    assert_eq!(st.previous_toplevel(), None);
    assert!(st.toplevels.toplevels.is_empty());
    assert_eq!(st.toplevels.focused, None);
    assert_eq!(st.next_serial, 0);
}

#[test]
fn cycling_a_single_window_does_nothing() {
    let mut st = fresh();
    st.new_toplevel(w(1));
    let serial_before = st.next_serial;
    assert_eq!(st.next_toplevel(), None);
    assert_eq!(st.previous_toplevel(), None);
    assert_eq!(st.toplevels.toplevels, vec![w(1)]);
    assert_eq!(st.toplevels.focused, Some(w(1)));
    assert_eq!(st.next_serial, serial_before);
}

#[test]
fn focus_serials_increase_strictly() {
    let mut st = fresh();
    let r1 = st.new_toplevel(w(1));
    let r2 = st.new_toplevel(w(2));
    let r3 = st.next_toplevel().unwrap();
    let s1: u64 = match r1 {
        FocusRequest::Focus { serial, .. } => serial,
        _ => panic!("expected a focus request"),
    };
    let s2: u64 = match r2 {
        FocusRequest::Focus { serial, .. } => serial,
        _ => panic!("expected a focus request"),
    };
    let s3: u64 = match r3 {
        FocusRequest::Focus { serial, .. } => serial,
        _ => panic!("expected a focus request"),
    };
    assert!(s1 < s2 && s2 < s3);
}

#[test]
fn focus_toplevel_none_clears_focus() {
    let mut st = fresh();
    st.new_toplevel(w(1));
    let r = st.focus_toplevel(None);
    assert_eq!(st.toplevels.focused, None);
    assert_eq!(r, FocusRequest::Unfocus { serial: 1 });
    assert_eq!(st.toplevels.toplevels, vec![w(1)]);
}
