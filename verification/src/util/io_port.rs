//! An 8-bit bidirectional port: a data register, a direction register and
//! the levels that the outside forces onto the lines.

use vstd::prelude::*;

verus! {

/// What a port holds. A set bit of `direction` makes the line an output.
pub struct IoPortView {
    pub value: u8,
    pub direction: u8,
    pub external: u8,
}

impl IoPortView {
    /// What a read of the port gives: on output lines the bit driven from
    /// `value`, on input lines the bit forced from outside.
    pub open spec fn effective(self) -> u8 {
        (self.value & self.direction) | (self.external & !self.direction)
    }
}

/// The level of all lines while nothing drives them: the pull-ups hold
/// them high.
pub const PASSIVE_LEVEL: u8 = 0xff;

pub struct IoPort {
    value: u8,
    direction: u8,
    external: u8,
}

impl View for IoPort {
    type V = IoPortView;

    closed spec fn view(&self) -> IoPortView {
        IoPortView { value: self.value, direction: self.direction, external: self.external }
    }
}

impl IoPort {
    /// A port with the given direction register, a cleared data register
    /// and nothing driving its lines.
    pub fn new(direction: u8) -> (port: IoPort)
        ensures
            port@ == (IoPortView { value: 0, direction, external: PASSIVE_LEVEL }),
    {
        IoPort { value: 0, direction, external: PASSIVE_LEVEL }
    }

    pub fn get_direction(&self) -> (r: u8)
        ensures
            r == self@.direction,
    {
        self.direction
    }

    /// Reads the port.
    pub fn get_value(&self) -> (r: u8)
        ensures
            r == self@.effective(),
    {
        (self.value & self.direction) | (self.external & !self.direction)
    }

    pub fn set_direction(&mut self, direction: u8)
        ensures
            final(self)@ == (IoPortView { direction, ..old(self)@ }),
    {
        self.direction = direction;
    }

    /// Sets the levels that the outside forces onto the lines.
    pub fn set_external(&mut self, external: u8)
        ensures
            final(self)@ == (IoPortView { external, ..old(self)@ }),
    {
        self.external = external;
    }

    /// Writes the data register.
    pub fn set_value(&mut self, value: u8)
        ensures
            final(self)@ == (IoPortView { value, ..old(self)@ }),
    {
        self.value = value;
    }

    /// Clears the data and direction registers; what the outside forces
    /// onto the lines is not the port's to change.
    pub fn reset(&mut self)
        ensures
            final(self)@ == (IoPortView { value: 0, direction: 0, ..old(self)@ }),
    {
        self.direction = 0x00;
        self.value = 0x00;
    }
}

/// Bit by bit, a read gives the driven bit on an output line and the
/// forced bit on an input line.
pub proof fn lemma_effective_bitwise(port: IoPortView, line: u8)
    requires
        line < 8,
    ensures
        port.effective() & (1u8 << line) == if port.direction & (1u8 << line) != 0 {
            port.value & (1u8 << line)
        } else {
            port.external & (1u8 << line)
        },
{
    let v = port.value;
    let d = port.direction;
    let e = port.external;
    assert(((v & d) | (e & !d)) & (1u8 << line) == if d & (1u8 << line) != 0 {
        v & (1u8 << line)
    } else {
        e & (1u8 << line)
    }) by (bit_vector)
        requires
            line < 8,
    ;
}

/// A port whose lines are all outputs reads back its data register; one
/// whose lines are all inputs reads what is forced from outside.
pub proof fn lemma_effective_uniform(port: IoPortView)
    ensures
        port.direction == 0xff ==> port.effective() == port.value,
        port.direction == 0x00 ==> port.effective() == port.external,
{
    let v = port.value;
    let e = port.external;
    assert((v & 0xffu8) | (e & !0xffu8) == v) by (bit_vector);
    assert((v & 0x00u8) | (e & !0x00u8) == e) by (bit_vector);
}

} // verus!
