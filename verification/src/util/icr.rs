//! Interrupt control register: sticky event bits, a mask, and the request
//! that follows from the two.

use vstd::prelude::*;
use crate::util::bit;

verus! {

/// What the register holds.
pub struct IcrView {
    pub event: u8,
    pub mask: u8,
}

impl IcrView {
    /// An interrupt is requested while some event is both recorded and
    /// let through by the mask.
    pub open spec fn interrupt_request(self) -> bool {
        self.event & self.mask != 0
    }

    /// What the data register shows: the events, with the top bit telling
    /// whether an interrupt is requested.
    pub open spec fn data(self) -> u8 {
        bit::with_bit(self.event, 7, self.interrupt_request())
    }

    /// Event `bit` recorded on top of those already there.
    pub open spec fn set_event(self, bit: u8) -> IcrView {
        IcrView { event: self.event | bit::mask_of(bit), ..self }
    }

    /// The mask after `byte` is written to it. The low seven bits of
    /// `byte` pick the mask bits to change; its top bit says whether they
    /// are set or cleared. Mask bits that are not picked stay.
    pub open spec fn update_mask(self, byte: u8) -> IcrView {
        if bit::is_set(byte, 7) {
            IcrView { mask: self.mask | (byte & 0x7f), ..self }
        } else {
            IcrView { mask: self.mask & !(byte & 0x7f), ..self }
        }
    }

    /// All events forgotten; the mask stays.
    pub open spec fn clear(self) -> IcrView {
        IcrView { event: 0, ..self }
    }
}

pub struct Icr {
    event: u8,
    mask: u8,
}

impl View for Icr {
    type V = IcrView;

    closed spec fn view(&self) -> IcrView {
        IcrView { event: self.event, mask: self.mask }
    }
}

impl Icr {
    pub fn new() -> (icr: Icr)
        ensures
            icr@ == (IcrView { event: 0, mask: 0 }),
    {
        Icr { event: 0, mask: 0 }
    }

    /// Forgets all events.
    pub fn clear(&mut self)
        ensures
            final(self)@ == old(self)@.clear(),
    {
        self.event = 0;
    }

    /// The data register, read without side effect.
    pub fn get_data(&self) -> (r: u8)
        ensures
            r == self@.data(),
    {
        bit::set(self.event, 7, self.get_interrupt_request())
    }

    pub fn get_interrupt_request(&self) -> (r: bool)
        ensures
            r == self@.interrupt_request(),
    {
        (self.event & self.mask) != 0
    }

    pub fn get_mask(&self) -> (r: u8)
        ensures
            r == self@.mask,
    {
        self.mask
    }

    /// The recorded events alone.
    pub fn get_raw_data(&self) -> (r: u8)
        ensures
            r == self@.event,
    {
        self.event
    }

    pub fn reset(&mut self)
        ensures
            final(self)@ == (IcrView { event: 0, mask: 0 }),
    {
        self.event = 0;
        self.mask = 0;
    }

    /// Records event `bit`; it stays until `clear`.
    pub fn set_event(&mut self, bit: u8)
        requires
            bit < 8,
        ensures
            final(self)@ == old(self)@.set_event(bit),
    {
        self.event = self.event | (1u8 << bit);
    }

    /// Writes `byte` to the mask register.
    pub fn update_mask(&mut self, byte: u8)
        ensures
            final(self)@ == old(self)@.update_mask(byte),
    {
        if bit::test(byte, 7) {
            self.mask = self.mask | (byte & 0x7f);
        } else {
            self.mask = self.mask & !(byte & 0x7f);
        }
    }
}

/// The data register carries the events in its low bits and the request in
/// its top bit; with events among the five sources only, it is the event
/// byte plus the request bit.
pub proof fn lemma_data_layout(icr: IcrView)
    ensures
        icr.data() & 0x7f == icr.event & 0x7f,
        icr.data() & 0x80 != 0 <==> icr.interrupt_request(),
        icr.event < 0x20 ==> icr.data() == icr.event + if icr.interrupt_request() {
            0x80int
        } else {
            0int
        },
{
    let e = icr.event;
    assert((e | (1u8 << 7u8)) & 0x7f == e & 0x7f && (e | (1u8 << 7u8)) & 0x80 != 0 && (e
        & !(1u8 << 7u8)) & 0x7f == e & 0x7f && (e & !(1u8 << 7u8)) & 0x80 == 0 && (e < 0x20 ==> (e
        | (1u8 << 7u8)) == e + 0x80 && (e & !(1u8 << 7u8)) == e)) by (bit_vector);
}

/// Without an event there is no request, whatever the mask.
pub proof fn lemma_no_event_no_request(icr: IcrView)
    requires
        icr.event == 0,
    ensures
        !icr.interrupt_request(),
        icr.data() == 0,
{
    let m = icr.mask;
    assert(0u8 & m == 0 && 0u8 & !(1u8 << 7u8) == 0) by (bit_vector);
}

/// A recorded event stays recorded, and recording changes no other bit.
pub proof fn lemma_set_event_sticky(icr: IcrView, bit: u8, other: u8)
    requires
        bit < 8,
        other < 8,
    ensures
        bit::is_set(icr.set_event(bit).event, bit),
        other != bit ==> bit::is_set(icr.set_event(bit).event, other) == bit::is_set(
            icr.event,
            other,
        ),
        icr.set_event(bit).set_event(bit) == icr.set_event(bit),
{
    let e = icr.event;
    assert((e | (1u8 << bit)) & (1u8 << bit) != 0 && (other != bit ==> ((e | (1u8 << bit)) & (1u8
        << other) != 0) == (e & (1u8 << other) != 0)) && (e | (1u8 << bit)) | (1u8 << bit) == e | (
    1u8 << bit)) by (bit_vector)
        requires
            bit < 8,
            other < 8,
    ;
}

/// Writing the mask with the top bit set turns on exactly the picked
/// bits; writing the same low bits with the top bit clear turns exactly
/// those off again. Either way the bits that were not picked keep their
/// value, and the events are not touched.
pub proof fn lemma_mask_set_then_clear(icr: IcrView, m: u8)
    requires
        m < 0x80,
    ensures
        icr.update_mask(0x80 | m).mask == icr.mask | m,
        icr.update_mask(0x80 | m).update_mask(m).mask == icr.mask & !m,
        icr.update_mask(0x80 | m).event == icr.event,
        icr.update_mask(0x80 | m).update_mask(m).event == icr.event,
        forall|b: u8|
            b < 8 ==> #[trigger] bit::is_set(icr.update_mask(0x80 | m).mask, b) == (bit::is_set(
                icr.mask,
                b,
            ) || bit::is_set(m, b)),
        forall|b: u8|
            b < 8 ==> #[trigger] bit::is_set(icr.update_mask(0x80 | m).update_mask(m).mask, b) == (
            bit::is_set(icr.mask, b) && !bit::is_set(m, b)),
{
    let k = icr.mask;
    assert((0x80u8 | m) & (1u8 << 7u8) != 0 && (0x80u8 | m) & 0x7f == m && m & (1u8 << 7u8) == 0
        && m & 0x7f == m && (k | m) & !m == k & !m) by (bit_vector)
        requires
            m < 0x80,
    ;
    assert forall|b: u8| b < 8 implies #[trigger] bit::is_set(k | m, b) == (bit::is_set(k, b)
        || bit::is_set(m, b)) by {
        assert(((k | m) & (1u8 << b) != 0) == ((k & (1u8 << b) != 0) || (m & (1u8 << b) != 0)))
            by (bit_vector)
            requires
                b < 8,
        ;
    }
    assert forall|b: u8| b < 8 implies #[trigger] bit::is_set(k & !m, b) == (bit::is_set(k, b)
        && !bit::is_set(m, b)) by {
        assert(((k & !m) & (1u8 << b) != 0) == ((k & (1u8 << b) != 0) && !(m & (1u8 << b) != 0)))
            by (bit_vector)
            requires
                b < 8,
        ;
    }
}

} // verus!
