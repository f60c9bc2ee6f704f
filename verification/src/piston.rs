//! A latched binary actuator (a pneumatic solenoid).
//!
//! The type tracks the level the robot has committed the solenoid to; driving
//! the physical output pin happens at the hardware boundary, which reads
//! [`Piston::activated`] after every change.

use vstd::prelude::*;

verus! {

pub struct Piston {
    activated: bool,
}

impl Piston {
    /// The level the solenoid is committed to.
    pub closed spec fn is_activated(self) -> bool {
        self.activated
    }

    pub fn new(initial: bool) -> (r: Piston)
        ensures
            r.is_activated() == initial,
    {
        Piston { activated: initial }
    }

    pub fn set(&mut self, state: bool)
        ensures
            final(self).is_activated() == state,
    {
        self.activated = state;
    }

    pub fn toggle(&mut self)
        ensures
            final(self).is_activated() == !old(self).is_activated(),
    {
        let flipped = !self.activated;
        self.set(flipped);
    }

    pub fn activated(&self) -> (r: bool)
        ensures
            r == self.is_activated(),
    {
        self.activated
    }
}

} // verus!
