use vstd::prelude::*;

verus! {

/// A configuration invariant violation, detected when a component is
/// constructed.  Construction is rejected rather than letting a bad
/// configuration reach the per-tick update.
#[derive(Clone, Copy, Debug, PartialEq, Eq, Structural)]
pub enum ConfigError {
    /// A fixed virtual resolution with a zero width or height.
    ZeroResolution,
    /// A camera rig whose lower height bound exceeds its upper height bound.
    OffsetBoundsInverted,
    /// A camera rig whose easing rate is not positive.
    NonPositiveEasing,
}

} // verus!
