//! Configuration data: keybind shortcuts, modifier masks, remap rules, and
//! the keyboard layout settings.  Loaded once at startup and read-only after
//! that; the resolver in `keybinds` consumes it.

use vstd::prelude::*;

verus! {

/// A modifier key tracked in keybind masks.
#[derive(Clone, Copy, PartialEq, Eq, Structural, Debug)]
pub enum KeyboardModifier {
    Alt,
    Ctrl,
    Shift,
    Logo,
}

impl KeyboardModifier {
    /// The bit this modifier occupies in the 4-bit modifier mask.
    pub open spec fn mask_spec(self) -> u8 {
        match self {
            KeyboardModifier::Alt => 1,
            KeyboardModifier::Ctrl => 2,
            KeyboardModifier::Shift => 4,
            KeyboardModifier::Logo => 8,
        }
    }

    pub fn mask(self) -> (r: u8)
        ensures
            r == self.mask_spec(),
    {
        match self {
            KeyboardModifier::Alt => 1,
            KeyboardModifier::Ctrl => 2,
            KeyboardModifier::Shift => 4,
            KeyboardModifier::Logo => 8,
        }
    }
}

/// The mask a sequence of modifiers folds to, or-ing left to right.
pub open spec fn mask_of_modifiers(mods: Seq<KeyboardModifier>) -> u8
    decreases mods.len(),
{
    if mods.len() == 0 {
        0
    } else {
        mask_of_modifiers(mods.drop_last()) | mods.last().mask_spec()
    }
}

/// Folds a collection of modifiers into the 4-bit mask keybinds match on.
pub trait ToMask {
    spec fn mask_spec(&self) -> u8;

    fn to_mask(&self) -> (r: u8)
        ensures
            r == self.mask_spec(),
    ;
}

impl ToMask for Vec<KeyboardModifier> {
    open spec fn mask_spec(&self) -> u8 {
        mask_of_modifiers(self@)
    }

    fn to_mask(&self) -> (r: u8) {
        let mut acc: u8 = 0;
        let mut i: usize = 0;
        while i < self.len()
            invariant
                i <= self.len(),
                acc == mask_of_modifiers(self@.take(i as int)),
            decreases self.len() - i,
        {
            proof {
                assert(self@.take(i + 1).drop_last() =~= self@.take(i as int));
            }
            acc = acc | self[i].mask();
            i = i + 1;
        }
        proof {
            assert(self@.take(self.len() as int) =~= self@);
        }
        acc
    }
}

/// The mask built from the live modifier state at key-press time.
pub open spec fn mask_from_flags(alt: bool, ctrl: bool, shift: bool, logo: bool) -> u8 {
    (if alt { 1u8 } else { 0u8 }) | (if ctrl { 2u8 } else { 0u8 }) | (if shift { 4u8 } else { 0u8 })
        | (if logo { 8u8 } else { 0u8 })
}

/// A (key symbol, modifier mask) pair a keybind is declared on.
#[derive(Clone, Copy, PartialEq, Eq, Structural, Debug)]
pub struct KeybindShortcut {
    /// The raw key symbol value.
    pub key: u32,
    /// The 4-bit modifier mask: Alt = 1, Ctrl = 2, Shift = 4, Logo = 8.
    pub modifiers: u8,
}

impl KeybindShortcut {
    pub fn new_verbose(key: u32, alt: bool, ctrl: bool, shift: bool, logo: bool) -> (r: Self)
        ensures
            r.key == key,
            r.modifiers == mask_from_flags(alt, ctrl, shift, logo),
    {
        Self {
            key,
            modifiers: (if alt { 1u8 } else { 0u8 }) | (if ctrl { 2u8 } else { 0u8 })
                | (if shift { 4u8 } else { 0u8 }) | (if logo { 8u8 } else { 0u8 }),
        }
    }

    pub fn new(key: u32, modifiers: Vec<KeyboardModifier>) -> (r: Self)
        ensures
            r.key == key,
            r.modifiers == mask_of_modifiers(modifiers@),
    {
        let m: u8 = modifiers.to_mask();
        Self { key, modifiers: m }
    }
}

/// What a keybinding or a control-socket command asks the dispatcher to do.
#[derive(Debug, PartialEq)]
pub enum KeybindAction {
    /// Ask the focused window to close.
    Kill,
    /// Spawn the command line as a detached child process.
    Exec(String),
    /// Rotate focus to the next window.
    CycleNext,
    /// Rotate focus to the previous window.
    CyclePrev,
}

/// The mathematical shape of a `KeybindAction`: the command line is a
/// character sequence.
pub ghost enum KeybindActionModel {
    Kill,
    Exec(Seq<char>),
    CycleNext,
    CyclePrev,
}

impl View for KeybindAction {
    type V = KeybindActionModel;

    open spec fn view(&self) -> KeybindActionModel {
        match self {
            KeybindAction::Kill => KeybindActionModel::Kill,
            KeybindAction::Exec(cmd) => KeybindActionModel::Exec(cmd@),
            KeybindAction::CycleNext => KeybindActionModel::CycleNext,
            KeybindAction::CyclePrev => KeybindActionModel::CyclePrev,
        }
    }
}

impl Clone for KeybindAction {
    fn clone(&self) -> (r: Self)
        ensures
            r@ == self@,
    {
        match self {
            KeybindAction::Kill => KeybindAction::Kill,
            KeybindAction::Exec(cmd) => KeybindAction::Exec(cmd.clone()),
            KeybindAction::CycleNext => KeybindAction::CycleNext,
            KeybindAction::CyclePrev => KeybindAction::CyclePrev,
        }
    }
}

/// The model of an optional action, for contracts that return one.
pub open spec fn action_view(o: Option<KeybindAction>) -> Option<KeybindActionModel> {
    match o {
        Some(a) => Some(a@),
        None => None,
    }
}

/// One configured keybinding: a shortcut bound to an action.  Uniqueness of
/// shortcuts is not enforced; the first match in declaration order wins.
#[derive(Debug)]
pub struct Keybind {
    pub shortcut: KeybindShortcut,
    pub action: KeybindAction,
}

/// One remap rule: a physical key code substituted before keybind matching.
#[derive(Clone, Copy, PartialEq, Eq, Structural, Debug)]
pub struct KeyboardRemap {
    pub from: u32,
    pub into: u32,
}

/// Rules, model, layout and variant handed opaquely to the input-layout
/// subsystem.
#[derive(Debug)]
pub struct KeyboardConfig {
    pub rules: String,
    pub model: String,
    pub layout: String,
    pub variant: String,
    pub options: Option<String>,
}

impl Default for KeyboardConfig {
    fn default() -> (r: Self)
        ensures
            r.rules@.len() == 0,
            r.model@.len() == 0,
            r.layout@.len() == 0,
            r.variant@.len() == 0,
            r.options is None,
    {
        Self {
            rules: String::new(),
            model: String::new(),
            layout: String::new(),
            variant: String::new(),
            options: None,
        }
    }
}

/// Settle a textual key name from the two keysym lookups made on it: the
/// exact, case-sensitive result wins, and only when that found no symbol
/// does the case-insensitive fallback count — a naive case-insensitive
/// lookup would make single-letter names such as "Q" and "q"
/// indistinguishable.  The caller performs the two lookups against the
/// keysym table (the input-layout library owns it) and hands in the raw
/// results, 0 standing for no symbol.  `None` means the name is invalid,
/// which is a hard configuration-load error for the caller.
pub fn resolve_key_name(exact: u32, casefold: u32) -> (r: Option<u32>)
    ensures
        exact != 0 ==> r == Some(exact),
        exact == 0 && casefold != 0 ==> r == Some(casefold),
        exact == 0 && casefold == 0 ==> r is None,
{
    if exact != 0 {
        Some(exact)
    } else if casefold != 0 {
        Some(casefold)
    } else {
        None
    }
}

/// The immutable configuration snapshot the resolver consumes.
#[derive(Debug)]
pub struct Config {
    pub keybinds: Vec<Keybind>,
    pub keyboard: KeyboardConfig,
    pub remaps: Vec<KeyboardRemap>,
}

impl Default for Config {
    fn default() -> (r: Self)
        ensures
            r.keybinds@.len() == 0,
            r.remaps@.len() == 0,
            r.keyboard.rules@.len() == 0,
            r.keyboard.model@.len() == 0,
            r.keyboard.layout@.len() == 0,
            r.keyboard.variant@.len() == 0,
            r.keyboard.options is None,
    {
        Self { keybinds: Vec::new(), keyboard: KeyboardConfig::default(), remaps: Vec::new() }
    }
}

} // verus!
