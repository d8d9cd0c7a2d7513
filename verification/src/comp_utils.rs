//! Focus transitions: the single choke point `focus_toplevel` that every
//! focus change funnels through, and the two rotations of the focus cycler.

use vstd::prelude::*;

use crate::compositor::{FocusRequest, RegistryView, Waycrust, WindowHandle};

verus! {

/// The notification `focus_toplevel` issues: a fullscreen configure plus
/// keyboard focus for `Some`, an explicit focus clear for `None`.
pub open spec fn focus_request_spec(
    surface: Option<WindowHandle>,
    size: Option<(i32, i32)>,
    serial: u64,
) -> FocusRequest {
    match surface {
        Some(w) => FocusRequest::Focus { window: w, size, serial },
        None => FocusRequest::Unfocus { serial },
    }
}

/// One step of the cycler: front goes to the back.
pub open spec fn rotated_next(s: Seq<WindowHandle>) -> Seq<WindowHandle> {
    s.subrange(1, s.len() as int).push(s[0])
}

/// One step of the cycler the other way: back comes to the front.
pub open spec fn rotated_previous(s: Seq<WindowHandle>) -> Seq<WindowHandle> {
    seq![s.last()] + s.drop_last()
}

/// What `next_toplevel` does to the registry: a no-op under two windows,
/// otherwise the rotation with focus moved to the new front.
pub open spec fn cycle_next_spec(v: RegistryView) -> RegistryView {
    if v.order.len() < 2 {
        v
    } else {
        RegistryView { order: rotated_next(v.order), focused: Some(rotated_next(v.order)[0]) }
    }
}

/// What `previous_toplevel` does to the registry.
pub open spec fn cycle_previous_spec(v: RegistryView) -> RegistryView {
    if v.order.len() < 2 {
        v
    } else {
        RegistryView {
            order: rotated_previous(v.order),
            focused: Some(rotated_previous(v.order)[0]),
        }
    }
}

/// Rotating front-to-back keeps the handles: same length, still duplicate
/// free, nothing gained or lost.
pub proof fn lemma_rotated_next_wf(s: Seq<WindowHandle>)
    requires
        s.len() >= 2,
        s.no_duplicates(),
    ensures
        rotated_next(s).len() == s.len(),
        rotated_next(s).no_duplicates(),
        forall|w: WindowHandle| s.contains(w) ==> rotated_next(s).contains(w),
{
    let r = rotated_next(s);
    assert(forall|k: int| 0 <= k < s.len() - 1 ==> r[k] == s[k + 1]);
    assert(r[s.len() - 1] == s[0]);
    assert forall|i: int, j: int|
        0 <= i < r.len() && 0 <= j < r.len() && i != j implies r[i] != r[j] by {
        assert(s[if i < s.len() - 1 { i + 1 } else { 0 }] != s[if j < s.len() - 1 { j + 1 } else { 0 }]);
    };
    assert forall|w: WindowHandle| s.contains(w) implies r.contains(w) by {
        let i = choose|i: int| 0 <= i < s.len() && s[i] == w;
        if i == 0 {
            assert(r[s.len() - 1] == w);
        } else {
            assert(r[i - 1] == w);
        }
    };
}

/// Rotating back-to-front keeps the handles as well.
pub proof fn lemma_rotated_previous_wf(s: Seq<WindowHandle>)
    requires
        s.len() >= 2,
        s.no_duplicates(),
    ensures
        rotated_previous(s).len() == s.len(),
        rotated_previous(s).no_duplicates(),
        forall|w: WindowHandle| s.contains(w) ==> rotated_previous(s).contains(w),
{
    let r = rotated_previous(s);
    assert(r[0] == s[s.len() - 1]);
    assert(forall|k: int| 1 <= k < s.len() ==> r[k] == s[k - 1]);
    assert forall|i: int, j: int|
        0 <= i < r.len() && 0 <= j < r.len() && i != j implies r[i] != r[j] by {
        assert(s[if i == 0 { s.len() - 1 } else { i - 1 }] != s[if j == 0 { s.len() - 1 } else { j - 1 }]);
    };
    assert forall|w: WindowHandle| s.contains(w) implies r.contains(w) by {
        let i = choose|i: int| 0 <= i < s.len() && s[i] == w;
        if i == s.len() - 1 {
            assert(r[0] == w);
        } else {
            assert(r[i + 1] == w);
        }
    };
}

/// Cycling forward and then backward (or the other way round) on a registry
/// of two or more windows restores the original order and, when the front
/// window was the focused one, the original focus pointer.
pub proof fn lemma_cycle_round_trip(v: RegistryView)
    requires
        v.order.len() >= 2,
        v.focused == Some(v.order[0]),
    ensures
        cycle_previous_spec(cycle_next_spec(v)) == v,
        cycle_next_spec(cycle_previous_spec(v)) == v,
{
    let s = v.order;
    assert(rotated_previous(rotated_next(s)) =~= s);
    assert(rotated_next(rotated_previous(s)) =~= s);
    assert(rotated_previous(rotated_next(s))[0] == s[0]);
    assert(rotated_next(rotated_previous(s))[0] == s[0]);
}

impl Waycrust {
    /// Set the focus pointer and build the one notification the engine must
    /// see for it: the single mutation point of the focus pointer.
    pub fn focus_toplevel(&mut self, surface: Option<WindowHandle>) -> (r: FocusRequest)
        requires
            old(self).toplevels@.order.no_duplicates(),
            match surface {
                Some(w) => old(self).toplevels@.order.contains(w),
                None => true,
            },
            old(self).next_serial < u64::MAX,
        ensures
            final(self).toplevels@.order == old(self).toplevels@.order,
            final(self).toplevels@.focused == surface,
            final(self).toplevels@.wf(),
            final(self).next_serial == old(self).next_serial + 1,
            Waycrust::same_but_registry(*old(self), *final(self)),
            r == focus_request_spec(surface, old(self).size, old(self).next_serial),
    {
        let r = match surface {
            Some(w) => FocusRequest::Focus { window: w, size: self.size, serial: self.next_serial },
            None => FocusRequest::Unfocus { serial: self.next_serial },
        };
        self.next_serial = self.next_serial + 1;
        self.toplevels.focused = surface;
        r
    }

    /// Rotate the registry front-to-back and focus the new front window.
    /// A no-op, with no notification, under two windows.
    pub fn next_toplevel(&mut self) -> (r: Option<FocusRequest>)
        requires
            old(self).toplevels@.wf(),
            old(self).next_serial < u64::MAX,
        ensures
            final(self).toplevels@ == cycle_next_spec(old(self).toplevels@),
            final(self).toplevels@.wf(),
            Waycrust::same_but_registry(*old(self), *final(self)),
            old(self).toplevels@.order.len() < 2 ==> r is None && *final(self) == *old(self),
            old(self).toplevels@.order.len() >= 2 ==> {
                &&& final(self).next_serial == old(self).next_serial + 1
                &&& r == Some(
                    focus_request_spec(
                        Some(cycle_next_spec(old(self).toplevels@).order[0]),
                        old(self).size,
                        old(self).next_serial,
                    ),
                )
            },
    {
        if self.toplevels.toplevels.len() < 2 {
            return None;
        }
        let ghost s = self.toplevels.toplevels@;
        let front = self.toplevels.toplevels.remove(0);
        self.toplevels.toplevels.push(front);
        proof {
            assert(self.toplevels.toplevels@ =~= rotated_next(s));
            lemma_rotated_next_wf(s);
        }
        let next = self.toplevels.toplevels[0];
        Some(self.focus_toplevel(Some(next)))
    }

    /// Rotate the registry back-to-front and focus the new front window.
    /// A no-op, with no notification, under two windows.
    pub fn previous_toplevel(&mut self) -> (r: Option<FocusRequest>)
        requires
            old(self).toplevels@.wf(),
            old(self).next_serial < u64::MAX,
        ensures
            final(self).toplevels@ == cycle_previous_spec(old(self).toplevels@),
            final(self).toplevels@.wf(),
            Waycrust::same_but_registry(*old(self), *final(self)),
            old(self).toplevels@.order.len() < 2 ==> r is None && *final(self) == *old(self),
            old(self).toplevels@.order.len() >= 2 ==> {
                &&& final(self).next_serial == old(self).next_serial + 1
                &&& r == Some(
                    focus_request_spec(
                        Some(cycle_previous_spec(old(self).toplevels@).order[0]),
                        old(self).size,
                        old(self).next_serial,
                    ),
                )
            },
    {
        if self.toplevels.toplevels.len() < 2 {
            return None;
        }
        let ghost s = self.toplevels.toplevels@;
        let back = match self.toplevels.toplevels.pop() {
            Some(b) => b,
            None => {
                return None;  // unreachable: the registry holds at least two windows
            },
        };
        self.toplevels.toplevels.insert(0, back);
        proof {
            assert(self.toplevels.toplevels@ =~= rotated_previous(s));
            lemma_rotated_previous_wf(s);
        }
        let next = self.toplevels.toplevels[0];
        Some(self.focus_toplevel(Some(next)))
    }
}

} // verus!
