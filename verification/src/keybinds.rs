//! The keybind resolver and the key-press dispatcher: remap substitution
//! first, then a declaration-order scan of the keybind table, then the
//! dispatch of whatever action the first matching entry names.

use vstd::prelude::*;

use crate::actions::{
    close_effect_spec, spawn_effect, spawn_effect_spec, DispatchEffect, DispatchEffectModel,
};
use crate::comp_utils::{cycle_next_spec, cycle_previous_spec, focus_request_spec};
use crate::compositor::{RegistryView, Waycrust};
use crate::config::{
    action_view, mask_from_flags, Config, Keybind, KeybindAction, KeybindActionModel,
    KeybindShortcut, KeyboardRemap,
};

verus! {

/// What a key press becomes once the remap table has spoken: the substitute
/// of the first matching rule, or the key itself.  Exactly one substitution,
/// never a chain.
pub open spec fn remap_spec(remaps: Seq<KeyboardRemap>, key: u32) -> u32
    decreases remaps.len(),
{
    if remaps.len() == 0 {
        key
    } else if remaps.first().from == key {
        remaps.first().into
    } else {
        remap_spec(remaps.drop_first(), key)
    }
}

/// The action of the first table entry whose shortcut equals the pressed
/// pair, scanning in declaration order.
pub open spec fn lookup_spec(t: Seq<Keybind>, p: KeybindShortcut) -> Option<KeybindActionModel>
    decreases t.len(),
{
    if t.len() == 0 {
        None
    } else if t.first().shortcut == p {
        Some(t.first().action@)
    } else {
        lookup_spec(t.drop_first(), p)
    }
}

/// The whole resolver: remap substitution first, then the table lookup on
/// the substituted key and the built modifier mask.
pub open spec fn resolve_press_spec(c: Config, key: u32, mask: u8) -> Option<KeybindActionModel> {
    lookup_spec(c.keybinds@, KeybindShortcut { key: remap_spec(c.remaps@, key), modifiers: mask })
}

/// Whether a matched key press is swallowed or forwarded to the client.
#[derive(Clone, Copy, PartialEq, Eq, Structural, Debug)]
pub enum FilterDecision {
    /// A matched press: not forwarded to the focused client.
    Intercept,
    /// An unmatched press, or any release: forwarded.
    Forward,
}

/// Apply the remap table to a raw key code: first matching rule wins, one
/// substitution, no chained remapping.
pub fn apply_remaps(remaps: &Vec<KeyboardRemap>, key_code: u32) -> (r: u32)
    ensures
        r == remap_spec(remaps@, key_code),
{
    let mut i: usize = 0;
    proof {
        assert(remaps@.skip(0) =~= remaps@);
    }
    while i < remaps.len()
        invariant
            0 <= i <= remaps.len(),
            remap_spec(remaps@, key_code) == remap_spec(remaps@.skip(i as int), key_code),
        decreases remaps.len() - i,
    {
        proof {
            assert(remaps@.skip(i as int).first() == remaps@[i as int]);
            assert(remaps@.skip(i as int).drop_first() =~= remaps@.skip(i + 1));
        }
        if remaps[i].from == key_code {
            return remaps[i].into;
        }
        i = i + 1;
    }
    key_code
}

/// Scan the keybind table in declaration order for the pressed pair and hand
/// back the bound action of the first match.
pub fn resolve_keybind(keybinds: &Vec<Keybind>, pressed: KeybindShortcut) -> (r: Option<
    KeybindAction,
>)
    ensures
        action_view(r) == lookup_spec(keybinds@, pressed),
{
    let mut i: usize = 0;
    proof {
        assert(keybinds@.skip(0) =~= keybinds@);
    }
    while i < keybinds.len()
        invariant
            0 <= i <= keybinds.len(),
            lookup_spec(keybinds@, pressed) == lookup_spec(keybinds@.skip(i as int), pressed),
        decreases keybinds.len() - i,
    {
        proof {
            assert(keybinds@.skip(i as int).first() == keybinds@[i as int]);
            assert(keybinds@.skip(i as int).drop_first() =~= keybinds@.skip(i + 1));
        }
        let kb: &Keybind = &keybinds[i];
        if kb.shortcut == pressed {
            return Some(kb.action.clone());
        }
        i = i + 1;
    }
    None
}

/// Resolve a pressed (key, modifier-state) pair against the configuration:
/// remap substitution first, then the table lookup.
pub fn resolve_press(
    config: &Config,
    key_code: u32,
    alt: bool,
    ctrl: bool,
    shift: bool,
    logo: bool,
) -> (r: Option<KeybindAction>)
    ensures
        action_view(r) == resolve_press_spec(
            *config,
            key_code,
            mask_from_flags(alt, ctrl, shift, logo),
        ),
{
    let remapped: u32 = apply_remaps(&config.remaps, key_code);
    let pressed = KeybindShortcut::new_verbose(remapped, alt, ctrl, shift, logo);
    resolve_keybind(&config.keybinds, pressed)
}

/// The entry the scan settles on is the first matching one: a table whose
/// lookup already succeeds keeps its result whatever is declared after it.
/// With `lookup_spec` a function of the table and the pressed pair, this is
/// the deterministic "first declared match wins" rule.
pub proof fn lemma_first_match_wins(t1: Seq<Keybind>, t2: Seq<Keybind>, p: KeybindShortcut)
    requires
        lookup_spec(t1, p) is Some,
    ensures
        lookup_spec(t1 + t2, p) == lookup_spec(t1, p),
    decreases t1.len(),
{
    assert((t1 + t2).len() == t1.len() + t2.len());
    assert((t1 + t2).first() == t1.first());
    if t1.first().shortcut != p {
        assert((t1 + t2).drop_first() =~= t1.drop_first() + t2);
        lemma_first_match_wins(t1.drop_first(), t2, p);
    }
}

/// The lookup result is exactly the action of the earliest matching index.
pub proof fn lemma_lookup_first_index(t: Seq<Keybind>, p: KeybindShortcut, i: int)
    requires
        0 <= i < t.len(),
        t[i].shortcut == p,
        forall|j: int| 0 <= j < i ==> t[j].shortcut != p,
    ensures
        lookup_spec(t, p) == Some(t[i].action@),
    decreases i,
{
    if i > 0 {
        assert(t.drop_first()[i - 1] == t[i]);
        assert forall|j: int| 0 <= j < i - 1 implies t.drop_first()[j].shortcut != p by {
            assert(t.drop_first()[j] == t[j + 1]);
        };
        lemma_lookup_first_index(t.drop_first(), p, i - 1);
    }
}

/// Remap substitution happens before table lookup: when the remap table
/// sends key `a` to key `b`, a press of `a` resolves exactly as a direct
/// press of `b` would — no binding on `a` itself is consulted, and the
/// substitute is not remapped again.
pub proof fn lemma_remap_before_lookup(c: Config, a: u32, b: u32, mask: u8)
    requires
        remap_spec(c.remaps@, a) == b,
    ensures
        resolve_press_spec(c, a, mask) == lookup_spec(
            c.keybinds@,
            KeybindShortcut { key: b, modifiers: mask },
        ),
{
}

/// The effect a focus cycle hands back: nothing under two windows, else the
/// focus notification for the new front window, stamped with the serial the
/// state held before the cycle.
pub open spec fn cycle_effect_spec(pre: Waycrust, post: RegistryView) -> DispatchEffectModel {
    if pre.toplevels@.order.len() < 2 {
        DispatchEffectModel::Nothing
    } else {
        DispatchEffectModel::Focus(
            focus_request_spec(Some(post.order[0]), pre.size, pre.next_serial),
        )
    }
}

/// Dispatch the action a matched keybind names.  A `Some` action is
/// intercepted — the press never reaches the client — whatever the action
/// then does; `None` is forwarded untouched.
pub fn handle_keybind(state: &mut Waycrust, action: Option<KeybindAction>) -> (r: (
    FilterDecision,
    DispatchEffect,
))
    requires
        old(state).toplevels@.wf(),
        old(state).next_serial < u64::MAX,
    ensures
        final(state).toplevels@.wf(),
        Waycrust::same_but_registry(*old(state), *final(state)),
        r.0 == (if action is Some {
            FilterDecision::Intercept
        } else {
            FilterDecision::Forward
        }),
        action is None ==> *final(state) == *old(state) && r.1@ == DispatchEffectModel::Nothing,
        action_view(action) matches Some(KeybindActionModel::Kill) ==> *final(state) == *old(state)
            && r.1@ == close_effect_spec(old(state).toplevels@.focused),
        (action_view(action) matches Some(KeybindActionModel::Exec(cmd)) ==> *final(state) == *old(
            state,
        ) && r.1@ == spawn_effect_spec(cmd)),
        action_view(action) matches Some(KeybindActionModel::CycleNext) ==> {
            &&& final(state).toplevels@ == cycle_next_spec(old(state).toplevels@)
            &&& r.1@ == cycle_effect_spec(*old(state), cycle_next_spec(old(state).toplevels@))
            &&& (old(state).toplevels@.order.len() < 2 ==> *final(state) == *old(state))
            &&& (old(state).toplevels@.order.len() >= 2 ==> final(state).next_serial == old(
                state,
            ).next_serial + 1)
        },
        action_view(action) matches Some(KeybindActionModel::CyclePrev) ==> {
            &&& final(state).toplevels@ == cycle_previous_spec(old(state).toplevels@)
            &&& r.1@ == cycle_effect_spec(*old(state), cycle_previous_spec(old(state).toplevels@))
            &&& (old(state).toplevels@.order.len() < 2 ==> *final(state) == *old(state))
            &&& (old(state).toplevels@.order.len() >= 2 ==> final(state).next_serial == old(
                state,
            ).next_serial + 1)
        },
{
    match action {
        None => (FilterDecision::Forward, DispatchEffect::Nothing),
        Some(KeybindAction::CycleNext) => {
            let eff = match state.next_toplevel() {
                Some(req) => DispatchEffect::Focus(req),
                None => DispatchEffect::Nothing,
            };
            (FilterDecision::Intercept, eff)
        },
        Some(KeybindAction::CyclePrev) => {
            let eff = match state.previous_toplevel() {
                Some(req) => DispatchEffect::Focus(req),
                None => DispatchEffect::Nothing,
            };
            (FilterDecision::Intercept, eff)
        },
        Some(KeybindAction::Kill) => {
            let eff = match state.toplevels.focused {
                Some(w) => DispatchEffect::Close(w),
                None => DispatchEffect::Nothing,
            };
            (FilterDecision::Intercept, eff)
        },
        Some(KeybindAction::Exec(command)) => (
            FilterDecision::Intercept,
            spawn_effect(command.as_str()),
        ),
    }
}

/// Handle one keyboard event end to end: substitute the raw key code through
/// the remap table, forward any release untouched, and on a press resolve
/// the (key, modifier) pair and dispatch what it is bound to.
pub fn handle_keyboard_event(
    state: &mut Waycrust,
    key_code: u32,
    pressed: bool,
    alt: bool,
    ctrl: bool,
    shift: bool,
    logo: bool,
) -> (r: (FilterDecision, DispatchEffect))
    requires
        old(state).toplevels@.wf(),
        old(state).next_serial < u64::MAX,
    ensures
        final(state).toplevels@.wf(),
        Waycrust::same_but_registry(*old(state), *final(state)),
        !pressed ==> *final(state) == *old(state) && r.0 == FilterDecision::Forward && r.1@
            == DispatchEffectModel::Nothing,
        pressed ==> {
            let action = resolve_press_spec(
                old(state).config,
                key_code,
                mask_from_flags(alt, ctrl, shift, logo),
            );
            &&& r.0 == (if action is Some {
                FilterDecision::Intercept
            } else {
                FilterDecision::Forward
            })
            &&& (action is None ==> *final(state) == *old(state) && r.1@
                == DispatchEffectModel::Nothing)
            &&& (action matches Some(KeybindActionModel::Kill) ==> *final(state) == *old(state)
                && r.1@ == close_effect_spec(old(state).toplevels@.focused))
            &&& (action matches Some(KeybindActionModel::Exec(cmd)) ==> *final(state) == *old(
                state,
            ) && r.1@ == spawn_effect_spec(cmd))
            &&& (action matches Some(KeybindActionModel::CycleNext) ==> final(state).toplevels@
                == cycle_next_spec(old(state).toplevels@) && r.1@ == cycle_effect_spec(
                *old(state),
                cycle_next_spec(old(state).toplevels@),
            ))
            &&& (action matches Some(KeybindActionModel::CyclePrev) ==> final(state).toplevels@
                == cycle_previous_spec(old(state).toplevels@) && r.1@ == cycle_effect_spec(
                *old(state),
                cycle_previous_spec(old(state).toplevels@),
            ))
        },
{
    let remapped: u32 = apply_remaps(&state.config.remaps, key_code);
    if !pressed {
        return (FilterDecision::Forward, DispatchEffect::Nothing);
    }
    let shortcut = KeybindShortcut::new_verbose(remapped, alt, ctrl, shift, logo);
    let action = resolve_keybind(&state.config.keybinds, shortcut);
    handle_keybind(state, action)
}

} // verus!
