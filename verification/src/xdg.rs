//! Window lifecycle: the engine reports a new toplevel or a destroyed one,
//! and the registry inserts at the front or removes and moves focus on.

use vstd::prelude::*;

use crate::comp_utils::focus_request_spec;
use crate::compositor::{FocusRequest, RegistryView, Waycrust, WindowHandle};

verus! {

/// `s` with every occurrence of `w` removed, order kept.
pub open spec fn without(s: Seq<WindowHandle>, w: WindowHandle) -> Seq<WindowHandle>
    decreases s.len(),
{
    if s.len() == 0 {
        Seq::empty()
    } else if s.first() == w {
        without(s.drop_first(), w)
    } else {
        seq![s.first()] + without(s.drop_first(), w)
    }
}

/// What registering a window does: insert at the front, focus it.
pub open spec fn register_spec(v: RegistryView, w: WindowHandle) -> RegistryView {
    RegistryView { order: seq![w] + v.order, focused: Some(w) }
}

/// What unregistering a window does: remove it, and if it was focused, hand
/// focus to the new front window or to nobody.
pub open spec fn unregister_spec(v: RegistryView, w: WindowHandle) -> RegistryView {
    let order = without(v.order, w);
    RegistryView {
        order,
        focused: if v.focused == Some(w) {
            if order.len() > 0 {
                Some(order[0])
            } else {
                None
            }
        } else {
            v.focused
        },
    }
}

/// Removal grows nothing: an element of `without(s, w)` is an element of `s`
/// other than `w`, and the other way round.
pub proof fn lemma_without_contains(s: Seq<WindowHandle>, w: WindowHandle, x: WindowHandle)
    ensures
        without(s, w).contains(x) <==> s.contains(x) && x != w,
    decreases s.len(),
{
    if s.len() > 0 {
        lemma_without_contains(s.drop_first(), w, x);
        assert(s.contains(x) <==> s.first() == x || s.drop_first().contains(x)) by {
            if s.contains(x) {
                let i = choose|i: int| 0 <= i < s.len() && s[i] == x;
                if i > 0 {
                    assert(s.drop_first()[i - 1] == x);
                }
            }
            if s.drop_first().contains(x) {
                let i = choose|i: int| 0 <= i < s.drop_first().len() && s.drop_first()[i] == x;
                assert(s[i + 1] == x);
            }
        };
        if s.first() != w {
            let rest = without(s.drop_first(), w);
            assert(without(s, w) == seq![s.first()] + rest);
            assert(without(s, w).contains(x) <==> s.first() == x || rest.contains(x)) by {
                if without(s, w).contains(x) {
                    let i = choose|i: int| 0 <= i < without(s, w).len() && without(s, w)[i] == x;
                    if i > 0 {
                        assert(rest[i - 1] == x);
                    } else {
                        assert(s.first() == x);
                    }
                }
                if s.first() == x {
                    assert(without(s, w)[0] == x);
                }
                if rest.contains(x) {
                    let i = choose|i: int| 0 <= i < rest.len() && rest[i] == x;
                    assert(without(s, w)[i + 1] == x);
                }
            };
        }
    }
}

/// Removal keeps a duplicate-free sequence duplicate free.
pub proof fn lemma_without_no_duplicates(s: Seq<WindowHandle>, w: WindowHandle)
    requires
        s.no_duplicates(),
    ensures
        without(s, w).no_duplicates(),
    decreases s.len(),
{
    if s.len() > 0 {
        assert(s.drop_first().no_duplicates());
        lemma_without_no_duplicates(s.drop_first(), w);
        if s.first() != w {
            let rest = without(s.drop_first(), w);
            assert(!rest.contains(s.first())) by {
                lemma_without_contains(s.drop_first(), w, s.first());
                if s.drop_first().contains(s.first()) {
                    let i = choose|i: int|
                        0 <= i < s.drop_first().len() && s.drop_first()[i] == s.first();
                    assert(s[i + 1] == s[0]);
                }
            };
            assert forall|i: int, j: int|
                0 <= i < without(s, w).len() && 0 <= j < without(s, w).len() && i != j
                implies without(s, w)[i] != without(s, w)[j] by {
                if i > 0 && j > 0 {
                    assert(without(s, w)[i] == rest[i - 1] && without(s, w)[j] == rest[j - 1]);
                } else if i == 0 && j > 0 {
                    assert(rest.contains(rest[j - 1]));
                } else if j == 0 && i > 0 {
                    assert(rest.contains(rest[i - 1]));
                }
            };
        }
    }
}

/// Removing from a sequence that never held the handle changes nothing.
pub proof fn lemma_without_absent(s: Seq<WindowHandle>, w: WindowHandle)
    requires
        !s.contains(w),
    ensures
        without(s, w) == s,
    decreases s.len(),
{
    if s.len() > 0 {
        assert(s.first() != w);
        assert(!s.drop_first().contains(w)) by {
            if s.drop_first().contains(w) {
                let i = choose|i: int| 0 <= i < s.drop_first().len() && s.drop_first()[i] == w;
                assert(s[i + 1] == w);
            }
        };
        lemma_without_absent(s.drop_first(), w);
        assert(without(s, w) =~= s);
    }
}

/// Unregistering the same handle a second time leaves the registry and the
/// focus pointer exactly as the first call left them.
pub proof fn lemma_unregister_idempotent(v: RegistryView, w: WindowHandle)
    ensures
        unregister_spec(unregister_spec(v, w), w) == unregister_spec(v, w),
{
    let once = unregister_spec(v, w);
    lemma_without_contains(v.order, w, w);
    lemma_without_absent(once.order, w);
    if v.focused == Some(w) && once.order.len() > 0 {
        assert(once.order.contains(once.order[0]));
    }
}

impl Waycrust {
    /// The engine reported a new toplevel: put it at the front of the
    /// registry and focus it.  The handle must be fresh; the engine reports
    /// each toplevel once.
    pub fn new_toplevel(&mut self, surface: WindowHandle) -> (r: FocusRequest)
        requires
            old(self).toplevels@.wf(),
            !old(self).toplevels@.order.contains(surface),
            old(self).next_serial < u64::MAX,
        ensures
            final(self).toplevels@ == register_spec(old(self).toplevels@, surface),
            final(self).toplevels@.focused == Some(surface),
            final(self).toplevels@.wf(),
            final(self).next_serial == old(self).next_serial + 1,
            Waycrust::same_but_registry(*old(self), *final(self)),
            r == focus_request_spec(Some(surface), old(self).size, old(self).next_serial),
    {
        let ghost s = self.toplevels.toplevels@;
        self.toplevels.toplevels.insert(0, surface);
        proof {
            assert(self.toplevels.toplevels@ =~= seq![surface] + s);
            assert(self.toplevels.toplevels@.no_duplicates()) by {
                assert forall|i: int, j: int|
                    0 <= i < s.len() + 1 && 0 <= j < s.len() + 1 && i != j
                    implies (seq![surface] + s)[i] != (seq![surface] + s)[j] by {
                    if i == 0 && j > 0 {
                        assert(s.contains(s[j - 1]));
                    } else if j == 0 && i > 0 {
                        assert(s.contains(s[i - 1]));
                    }
                };
            };
            assert(self.toplevels.toplevels@[0] == surface);
        }
        self.focus_toplevel(Some(surface))
    }

    /// The engine reported a toplevel destroyed: remove every occurrence of
    /// its handle (at most one exists; a second call is a no-op), and if it
    /// was the focused window, hand focus to the new front window, or clear
    /// focus when the registry is now empty.  Only that transfer issues a
    /// notification.
    pub fn toplevel_destroyed(&mut self, surface: WindowHandle) -> (r: Option<FocusRequest>)
        requires
            old(self).toplevels@.wf(),
            old(self).next_serial < u64::MAX,
        ensures
            final(self).toplevels@ == unregister_spec(old(self).toplevels@, surface),
            final(self).toplevels@.wf(),
            Waycrust::same_but_registry(*old(self), *final(self)),
            old(self).toplevels@.focused == Some(surface) ==> {
                &&& final(self).next_serial == old(self).next_serial + 1
                &&& r == Some(
                    focus_request_spec(
                        unregister_spec(old(self).toplevels@, surface).focused,
                        old(self).size,
                        old(self).next_serial,
                    ),
                )
            },
            old(self).toplevels@.focused != Some(surface) ==> {
                &&& r is None
                &&& final(self).next_serial == old(self).next_serial
            },
    {
        let ghost s = self.toplevels.toplevels@;
        let mut kept: Vec<WindowHandle> = Vec::new();
        let mut i: usize = 0;
        while i < self.toplevels.toplevels.len()
            invariant
                i <= self.toplevels.toplevels.len(),
                self.toplevels.toplevels@ == s,
                kept@ == without(s.take(i as int), surface),
            decreases self.toplevels.toplevels.len() - i,
        {
            let x = self.toplevels.toplevels[i];
            proof {
                assert(s.take(i + 1).drop_last() =~= s.take(i as int));
                lemma_without_snoc(s.take(i + 1), surface);
            }
            if x.id != surface.id {
                kept.push(x);
            }
            i = i + 1;
        }
        proof {
            assert(s.take(s.len() as int) =~= s);
            lemma_without_no_duplicates(s, surface);
        }
        self.toplevels.toplevels = kept;
        let was_focused = match self.toplevels.focused {
            Some(f) => f.id == surface.id,
            None => false,
        };
        if was_focused {
            let next = if self.toplevels.toplevels.len() > 0 {
                Some(self.toplevels.toplevels[0])
            } else {
                None
            };
            proof {
                if self.toplevels.toplevels@.len() > 0 {
                    assert(self.toplevels.toplevels@.contains(self.toplevels.toplevels@[0]));
                }
            }
            Some(self.focus_toplevel(next))
        } else {
            proof {
                match old(self).toplevels@.focused {
                    Some(f) => lemma_without_contains(s, surface, f),
                    None => (),
                }
            }
            None
        }
    }
}

/// Unfolding `without` at the back: removing from `s` with `x` appended is
/// removing from `s`, with `x` kept exactly when it differs from `w`.
pub proof fn lemma_without_snoc(s: Seq<WindowHandle>, w: WindowHandle)
    requires
        s.len() > 0,
    ensures
        without(s, w) == if s.last() == w {
            without(s.drop_last(), w)
        } else {
            without(s.drop_last(), w).push(s.last())
        },
    decreases s.len(),
{
    if s.len() == 1 {
        assert(without(s.drop_first(), w) == Seq::<WindowHandle>::empty());
        if s.last() != w {
            assert(without(s, w) =~= without(s.drop_last(), w).push(s.last()));
        } else {
            assert(without(s, w) =~= without(s.drop_last(), w));
        }
    } else {
        lemma_without_snoc(s.drop_first(), w);
        assert(s.drop_first().drop_last() =~= s.drop_last().drop_first());
        assert(s.drop_first().last() == s.last());
        assert(s.drop_last().first() == s.first());
        if s.first() == w {
            assert(without(s, w) == without(s.drop_first(), w));
            if s.last() == w {
                assert(without(s, w) =~= without(s.drop_last(), w));
            } else {
                assert(without(s, w) =~= without(s.drop_last(), w).push(s.last()));
            }
        } else {
            if s.last() == w {
                assert(without(s, w) =~= without(s.drop_last(), w));
            } else {
                assert(without(s, w) =~= without(s.drop_last(), w).push(s.last()));
            }
        }
    }
}

} // verus!
