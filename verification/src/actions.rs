//! The action dispatcher: executes a decoded action against the process
//! state.  It decides the engine work — close, spawn, focus — and hands it
//! back as a plain value; the caller that owns the engine performs it,
//! best-effort and without supervision.

use vstd::prelude::*;

use crate::compositor::{FocusRequest, Waycrust, WindowHandle};
use crate::socket::{Action, ActionModel};

verus! {

/// The words of a command line under POSIX shell splitting.
pub uninterp spec fn shell_words(s: Seq<char>) -> Seq<Seq<char>>;

/// Relies on shlex's `Shlex` iterator: POSIX-shell word splitting (quoting
/// and escaping honoured) of the command line, a function of the input
/// characters alone.
#[verifier::external_body]
fn split_command(s: &str) -> (r: Vec<String>)
    ensures
        r@.map_values(|w: String| w@) == shell_words(s@),
{
    shlex::Shlex::new(s).collect()
}

/// The executable a command line names: its first shell word, or the empty
/// string for a line without words.
pub open spec fn spawn_program(cmd: Seq<char>) -> Seq<char> {
    if shell_words(cmd).len() == 0 {
        Seq::empty()
    } else {
        shell_words(cmd).first()
    }
}

/// The arguments handed to the spawned executable: every shell word after
/// the first.
pub open spec fn spawn_args(cmd: Seq<char>) -> Seq<Seq<char>> {
    if shell_words(cmd).len() == 0 {
        Seq::empty()
    } else {
        shell_words(cmd).drop_first()
    }
}

/// Work the dispatcher decided on, handed back to the caller to perform.
#[derive(Debug, PartialEq)]
pub enum DispatchEffect {
    /// Nothing to do: a structural no-op, not an error.
    Nothing,
    /// Ask this window to close; destruction is reported back later.
    Close(WindowHandle),
    /// Spawn this program with these arguments as a detached child process.
    Spawn { program: String, args: Vec<String> },
    /// Deliver this focus notification to the engine.
    Focus(FocusRequest),
}

/// The mathematical shape of a `DispatchEffect`.
pub ghost enum DispatchEffectModel {
    Nothing,
    Close(WindowHandle),
    Spawn { program: Seq<char>, args: Seq<Seq<char>> },
    Focus(FocusRequest),
}

impl View for DispatchEffect {
    type V = DispatchEffectModel;

    open spec fn view(&self) -> DispatchEffectModel {
        match self {
            DispatchEffect::Nothing => DispatchEffectModel::Nothing,
            DispatchEffect::Close(w) => DispatchEffectModel::Close(*w),
            DispatchEffect::Spawn { program, args } => DispatchEffectModel::Spawn {
                program: program@,
                args: args@.map_values(|w: String| w@),
            },
            DispatchEffect::Focus(f) => DispatchEffectModel::Focus(*f),
        }
    }
}

/// The effect of a `Run` command line: spawn its first word with the rest.
pub open spec fn spawn_effect_spec(cmd: Seq<char>) -> DispatchEffectModel {
    DispatchEffectModel::Spawn { program: spawn_program(cmd), args: spawn_args(cmd) }
}

/// The effect of a close request: the focused window is asked to close; with
/// no focused window, nothing.
pub open spec fn close_effect_spec(focused: Option<WindowHandle>) -> DispatchEffectModel {
    match focused {
        Some(w) => DispatchEffectModel::Close(w),
        None => DispatchEffectModel::Nothing,
    }
}

/// Split a command line into the spawn effect it decodes to.
pub(crate) fn spawn_effect(cmd: &str) -> (r: DispatchEffect)
    ensures
        r@ == spawn_effect_spec(cmd@),
{
    let mut words = split_command(cmd);
    let ghost ws = shell_words(cmd@);
    if words.len() == 0 {
        proof {
            assert(words@.map_values(|w: String| w@) =~= Seq::<Seq<char>>::empty());
        }
        DispatchEffect::Spawn { program: String::new(), args: words }
    } else {
        let program = words.remove(0);
        proof {
            assert(program@ == ws.first());
            assert(words@.map_values(|w: String| w@) =~= ws.drop_first());
        }
        DispatchEffect::Spawn { program, args: words }
    }
}

/// Execute a decoded control action against the current state: flip the
/// render flag directly, and hand every piece of engine work back as the
/// returned effect.  Spawns are fire-and-forget; a close with no focused
/// window does nothing.
pub fn handle_actions(state: &mut Waycrust, action: Action) -> (r: DispatchEffect)
    ensures
        final(state).toplevels@ == old(state).toplevels@,
        final(state).size == old(state).size,
        final(state).config == old(state).config,
        final(state).next_serial == old(state).next_serial,
        final(state).flipped == (if action@ is Flip {
            !old(state).flipped
        } else {
            old(state).flipped
        }),
        r@ == match action@ {
            ActionModel::Exit => close_effect_spec(old(state).toplevels@.focused),
            ActionModel::Exec(cmd) => spawn_effect_spec(cmd),
            ActionModel::Flip => DispatchEffectModel::Nothing,
        },
{
    match action {
        Action::Exit => match state.toplevels.focused {
            Some(w) => DispatchEffect::Close(w),
            None => DispatchEffect::Nothing,
        },
        Action::Exec(command) => spawn_effect(command.as_str()),
        Action::Flip => {
            state.flipped = !state.flipped;
            DispatchEffect::Nothing
        },
    }
}

} // verus!
