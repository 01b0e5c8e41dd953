//! What makes a render job fail before anything is drawn.

use vstd::prelude::*;

verus! {

/// An input that nothing can be rendered from.
#[derive(Debug, Clone, Copy, PartialEq, Eq, Structural)]
pub enum InputError {
    /// The track holds no position.
    EmptyTrack,
    /// The background image has no pixels.
    EmptyImage,
}

} // verus!
