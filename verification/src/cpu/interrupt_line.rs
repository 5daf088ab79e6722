//! An interrupt line that several chips may pull low. The line remembers
//! who pulls, so that one chip letting go does not release it for another.

use vstd::prelude::*;

verus! {

/// A chip that can pull an interrupt line low.
#[derive(Clone, Copy, Debug, PartialEq, Eq, Structural)]
pub enum Source {
    Cia,
    Vic,
}

/// The line, seen as the set of sources that pull it low.
pub struct InterruptLine {
    cia: bool,
    vic: bool,
}

impl View for InterruptLine {
    type V = Set<Source>;

    closed spec fn view(&self) -> Set<Source> {
        Set::new(
            |source: Source|
                match source {
                    Source::Cia => self.cia,
                    Source::Vic => self.vic,
                },
        )
    }
}

impl InterruptLine {
    /// A line that nobody pulls.
    pub fn new() -> (line: InterruptLine)
        ensures
            line@ == Set::<Source>::empty(),
    {
        let line = InterruptLine { cia: false, vic: false };
        assert(line@ =~= Set::<Source>::empty());
        line
    }

    /// Whether anybody pulls the line.
    pub fn is_low(&self) -> (r: bool)
        ensures
            r <==> exists|source: Source| self@.contains(source),
            r <==> self@ != Set::<Source>::empty(),
    {
        let r = self.cia || self.vic;
        proof {
            if self.cia {
                assert(self@.contains(Source::Cia));
            } else if self.vic {
                assert(self@.contains(Source::Vic));
            } else {
                assert(self@ =~= Set::<Source>::empty());
            }
        }
        r
    }

    /// Whether `source` pulls the line.
    pub fn is_set(&self, source: Source) -> (r: bool)
        ensures
            r == self@.contains(source),
    {
        match source {
            Source::Cia => self.cia,
            Source::Vic => self.vic,
        }
    }

    /// `source` pulls the line low.
    pub fn set(&mut self, source: Source)
        ensures
            final(self)@ == old(self)@.insert(source),
    {
        match source {
            Source::Cia => {
                self.cia = true;
            },
            Source::Vic => {
                self.vic = true;
            },
        }
        assert(self@ =~= old(self)@.insert(source));
    }

    /// `source` lets go of the line.
    pub fn clear(&mut self, source: Source)
        ensures
            final(self)@ == old(self)@.remove(source),
    {
        match source {
            Source::Cia => {
                self.cia = false;
            },
            Source::Vic => {
                self.vic = false;
            },
        }
        assert(self@ =~= old(self)@.remove(source));
    }

    /// Everybody lets go of the line.
    pub fn reset(&mut self)
        ensures
            final(self)@ == Set::<Source>::empty(),
    {
        self.cia = false;
        self.vic = false;
        assert(self@ =~= Set::<Source>::empty());
    }
}

} // verus!
