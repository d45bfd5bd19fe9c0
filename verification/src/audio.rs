//! Sound-cue requests handed to the audio collaborator.

use vstd::prelude::*;

verus! {

/// A request to play one sound effect.
///
/// The audio collaborator consumes these; nothing here decodes or plays
/// sound. One request is emitted per collision-start event.
#[derive(Clone, Copy, PartialEq, Eq, Structural, Debug)]
pub enum SfxRequestEvent {
    Bounce,
    Score,
}

} // verus!
