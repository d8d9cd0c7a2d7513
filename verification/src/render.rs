//! The one rendering decision the core owns: which output transform the
//! render-flip flag selects for the next frame.

use vstd::prelude::*;

verus! {

/// The output transform a frame is drawn with.
#[derive(Clone, Copy, PartialEq, Eq, Structural, Debug)]
pub enum OutputTransform {
    /// The transform used while the flip flag is raised.
    Rotated180,
    /// The default transform.
    Flipped180,
}

/// Choose the output transform for the next frame from the render-flip flag;
/// the rendering collaborator queries this once per frame.
pub fn render_transform(flipped: bool) -> (r: OutputTransform)
    ensures
        r == (if flipped {
            OutputTransform::Rotated180
        } else {
            OutputTransform::Flipped180
        }),
{
    if flipped {
        OutputTransform::Rotated180
    } else {
        OutputTransform::Flipped180
    }
}

} // verus!
