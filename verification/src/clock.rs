//! The master cycle counter of the machine.

use vstd::prelude::*;

verus! {

/// Counts system clock cycles. The count wraps around after `u64::MAX`.
pub struct Clock {
    counter: u64,
}

impl View for Clock {
    type V = u64;

    closed spec fn view(&self) -> u64 {
        self.counter
    }
}

/// The count `delta` cycles after `counter`.
pub open spec fn advanced(counter: u64, delta: u64) -> u64 {
    ((counter + delta) % 0x1_0000_0000_0000_0000) as u64
}

impl Clock {
    pub fn new() -> (clock: Clock)
        ensures
            clock@ == 0,
    {
        Clock { counter: 0 }
    }

    /// The cycles counted since the count was `prev`.
    pub fn elapsed(&self, prev: u64) -> (r: u64)
        requires
            prev <= self@,
        ensures
            r == self@ - prev,
    {
        self.counter - prev
    }

    pub fn get(&self) -> (r: u64)
        ensures
            r == self@,
    {
        self.counter
    }

    pub fn reset(&mut self)
        ensures
            final(self)@ == 0,
    {
        self.counter = 0;
    }

    /// Counts one cycle.
    pub fn tick(&mut self)
        ensures
            final(self)@ == advanced(old(self)@, 1),
            old(self)@ < u64::MAX ==> final(self)@ == old(self)@ + 1,
            old(self)@ == u64::MAX ==> final(self)@ == 0,
    {
        self.counter = self.counter.wrapping_add(1);
    }

    /// Counts `delta` cycles.
    pub fn tick_delta(&mut self, delta: u64)
        ensures
            final(self)@ == advanced(old(self)@, delta),
            old(self)@ + delta <= u64::MAX ==> final(self)@ == old(self)@ + delta,
    {
        self.counter = self.counter.wrapping_add(delta);
    }
}

/// Counting one by one is counting all at once: `delta` ticks and one
/// step of `delta` cycles end on the same count, and as long as the count
/// does not wrap, the cycles elapsed since a count are those counted.
pub proof fn lemma_advanced(counter: u64, a: u64, b: u64)
    ensures
        advanced(counter, 0) == counter,
        a + b <= u64::MAX ==> advanced(advanced(counter, a), b) == advanced(counter, (a + b) as u64),
        counter + a <= u64::MAX ==> advanced(counter, a) - counter == a,
{
    if a + b <= u64::MAX {
        let m = 0x1_0000_0000_0000_0000int;
        vstd::arithmetic::div_mod::lemma_add_mod_noop(counter + a, b as int, m);
        vstd::arithmetic::div_mod::lemma_mod_twice(counter + a, m);
        vstd::arithmetic::div_mod::lemma_small_mod(b as nat, m as nat);
        vstd::arithmetic::div_mod::lemma_add_mod_noop((counter + a) % m, b as int, m);
    }
}

} // verus!
