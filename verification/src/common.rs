//! Components shared by bullets and targets.

use crate::timer::TimerState;
use vstd::prelude::*;

verus! {

/// Hit points of a target; a target whose health drops to zero or below is
/// removed from the game.
#[derive(Clone, Copy, Debug, PartialEq, Eq, Structural)]
pub struct Health {
    pub value: i32,
}

impl Default for Health {
    fn default() -> (h: Health)
        ensures
            h.value == 0,
    {
        Health { value: 0 }
    }
}

impl Health {
    /// Whether a target with this health is dead: zero or below.
    pub open spec fn is_dead(self) -> bool {
        self.value <= 0
    }
}

/// How long an entity may live before it is removed.
#[derive(Clone, Copy, Debug)]
pub struct Lifetime {
    pub timer: TimerState,
}

} // verus!
