//! The core compositor state: the toplevel registry with its focus pointer,
//! the output size, the configuration snapshot, the render-flip flag and the
//! serial counter that stamps focus notifications.

use vstd::prelude::*;

use crate::config::Config;

verus! {

/// An opaque handle to a client's toplevel surface.  The protocol engine owns
/// the surface; the core holds only this comparable identifier.
#[derive(Clone, Copy, PartialEq, Eq, Structural, Debug)]
pub struct WindowHandle {
    pub id: u64,
}

/// A focus-related request handed back to the protocol engine.  The caller
/// that drives the engine performs it; the core only decides it.
#[derive(Clone, Copy, PartialEq, Eq, Debug)]
pub enum FocusRequest {
    /// Configure `window` fullscreen at `size` and grant it keyboard input
    /// focus, stamped with `serial`.
    Focus { window: WindowHandle, size: Option<(i32, i32)>, serial: u64 },
    /// Explicitly clear keyboard focus, stamped with `serial`.
    Unfocus { serial: u64 },
    /// Re-configure `window` to `size` without touching focus.
    Resize { window: WindowHandle, size: Option<(i32, i32)> },
}

/// The ordered registry of known windows plus the focus pointer.
/// Front of the sequence = most recently raised.
pub struct TopLevelWindows {
    pub toplevels: Vec<WindowHandle>,
    pub focused: Option<WindowHandle>,
}

/// The mathematical registry: the window order (front first) and the focus
/// pointer.
pub ghost struct RegistryView {
    pub order: Seq<WindowHandle>,
    pub focused: Option<WindowHandle>,
}

impl View for TopLevelWindows {
    type V = RegistryView;

    open spec fn view(&self) -> RegistryView {
        RegistryView { order: self.toplevels@, focused: self.focused }
    }
}

impl RegistryView {
    /// The registry invariant: no duplicate handles, and the focused window,
    /// if any, is an element of the registry.
    pub open spec fn wf(self) -> bool {
        &&& self.order.no_duplicates()
        &&& match self.focused {
            Some(w) => self.order.contains(w),
            None => true,
        }
    }
}

/// The state owned by the single event loop: every handler mutates it through
/// `&mut` and hands engine work back as plain request values.
pub struct Waycrust {
    pub toplevels: TopLevelWindows,
    /// The output's current logical size, once the backend has reported it.
    pub size: Option<(i32, i32)>,
    /// The configuration snapshot, immutable after startup.
    pub config: Config,
    /// The render-flip flag, consumed once per frame to pick a transform.
    pub flipped: bool,
    /// The next serial to stamp on a focus notification; strictly increasing.
    pub next_serial: u64,
}

impl Waycrust {
    /// Everything the registry and focus logic leaves alone.
    pub open spec fn same_but_registry(pre: Self, post: Self) -> bool {
        &&& post.size == pre.size
        &&& post.config == pre.config
        &&& post.flipped == pre.flipped
    }

    /// Create the core state for a freshly started compositor: no windows,
    /// no focus, no output size yet, flag down.
    pub fn init(config: Config) -> (r: Self)
        ensures
            r.toplevels@.order.len() == 0,
            r.toplevels@.focused is None,
            r.toplevels@.wf(),
            r.size is None,
            r.flipped == false,
            r.next_serial == 0,
            r.config == config,
    {
        Waycrust {
            toplevels: TopLevelWindows { toplevels: Vec::new(), focused: None },
            size: None,
            config,
            flipped: false,
            next_serial: 0,
        }
    }
}

} // verus!
