//! The control keys held during one tick.

use vstd::prelude::*;

verus! {

/// Which of the four control keys are held down during a tick.
#[derive(Clone, Copy, Debug, PartialEq, Eq, Structural)]
pub struct HeldKeys {
    pub accelerate: bool,
    pub brake: bool,
    pub left: bool,
    pub right: bool,
}

impl HeldKeys {
    /// No key is held.
    pub fn none() -> (keys: HeldKeys)
        ensures
            keys == (HeldKeys { accelerate: false, brake: false, left: false, right: false }),
    {
        HeldKeys { accelerate: false, brake: false, left: false, right: false }
    }

    /// The net number of steering steps these keys ask for in one tick:
    /// one to the left is `+1`, one to the right is `-1`, and both cancel.
    pub open spec fn steering(self) -> int {
        (if self.left { 1int } else { 0int }) - (if self.right { 1int } else { 0int })
    }
}

} // verus!
