//! A boolean signal line that remembers its previous level, so that edges
//! can be told from levels.

use vstd::prelude::*;

verus! {

/// What a pin holds: the level now and the level before the last write.
pub struct PinView {
    pub level: bool,
    pub prev_level: bool,
}

impl PinView {
    /// The pin after `level` is written: the old level becomes the
    /// previous one.
    pub open spec fn set(self, level: bool) -> PinView {
        PinView { level, prev_level: self.level }
    }

    /// The last write took the line from low to high.
    pub open spec fn is_rising(self) -> bool {
        !self.prev_level && self.level
    }

    /// The last write took the line from high to low.
    pub open spec fn is_falling(self) -> bool {
        self.prev_level && !self.level
    }
}

pub struct Pin {
    level: bool,
    prev_level: bool,
}

impl View for Pin {
    type V = PinView;

    closed spec fn view(&self) -> PinView {
        PinView { level: self.level, prev_level: self.prev_level }
    }
}

impl Pin {
    /// A line that is high and has been high.
    pub fn new_high() -> (pin: Pin)
        ensures
            pin@ == (PinView { level: true, prev_level: true }),
    {
        Pin { level: true, prev_level: true }
    }

    /// A line that is low and has been low.
    pub fn new_low() -> (pin: Pin)
        ensures
            pin@ == (PinView { level: false, prev_level: false }),
    {
        Pin { level: false, prev_level: false }
    }

    /// Drives the line to `level`, remembering the level it had.
    pub fn set(&mut self, level: bool)
        ensures
            final(self)@ == old(self)@.set(level),
    {
        self.prev_level = self.level;
        self.level = level;
    }

    pub fn is_high(&self) -> (r: bool)
        ensures
            r == self@.level,
    {
        self.level
    }

    pub fn is_low(&self) -> (r: bool)
        ensures
            r == !self@.level,
    {
        !self.level
    }

    pub fn is_rising(&self) -> (r: bool)
        ensures
            r == self@.is_rising(),
    {
        !self.prev_level && self.level
    }

    pub fn is_falling(&self) -> (r: bool)
        ensures
            r == self@.is_falling(),
    {
        self.prev_level && !self.level
    }
}

/// An edge is seen exactly once: writing the same level again ends it.
pub proof fn lemma_edge_seen_once(pin: PinView, level: bool)
    ensures
        pin.set(level).is_rising() <==> !pin.level && level,
        pin.set(level).is_falling() <==> pin.level && !level,
        !pin.set(level).set(level).is_rising(),
        !pin.set(level).set(level).is_falling(),
{
}

} // verus!
