use vstd::prelude::*;

verus! {

/// An immutable command value representing a user-requested playback action.
///
/// Instructions are produced one per processed widget message and are consumed,
/// in emission order, by the external playback engine. Nothing in this crate
/// ever removes one from the queue it is appended to.
#[derive(Clone, Copy, Debug, PartialEq, Eq, Structural)]
pub enum PlaybackInstruction {
    /// Start or resume playback.
    Play,
    /// Halt playback, keeping the current position.
    Pause,
    /// Jump to the given frame. The frame comes from the scrub control's
    /// discretized range; validating it against the real media length is the
    /// playback engine's concern.
    SkipTo(usize),
}

} // verus!
