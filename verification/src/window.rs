//! Output resize handling: remember the new logical size and re-configure
//! the focused window to it.

use vstd::prelude::*;

use crate::compositor::{FocusRequest, Waycrust};

verus! {

/// The backend reported a new output size: record it, and if a window is
/// focused ask the engine to re-configure that window to the new size.
/// Focus itself is untouched and no serial is consumed.
pub fn window_resize_handler(state: &mut Waycrust, width: i32, height: i32) -> (r: Option<
    FocusRequest,
>)
    ensures
        final(state).size == Some((width, height)),
        final(state).toplevels@ == old(state).toplevels@,
        final(state).config == old(state).config,
        final(state).flipped == old(state).flipped,
        final(state).next_serial == old(state).next_serial,
        r == match old(state).toplevels@.focused {
            Some(w) => Some(FocusRequest::Resize { window: w, size: Some((width, height)) }),
            None => None::<FocusRequest>,
        },
{
    state.size = Some((width, height));
    match state.toplevels.focused {
        Some(w) => Some(FocusRequest::Resize { window: w, size: state.size }),
        None => None,
    }
}

} // verus!
