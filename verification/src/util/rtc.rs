//! Time-of-day register file: tenths of a second, seconds, minutes and a
//! twelve-hour count with an AM/PM flag, all held as plain numbers.

use vstd::prelude::*;

verus! {

/// What the register file holds. The registers take any byte; the
/// numbers of a clock face are those for which `is_valid` holds.
pub struct RtcView {
    pub enabled: bool,
    pub hours: u8,
    pub minutes: u8,
    pub seconds: u8,
    pub tenth: u8,
    pub pm: bool,
}

/// Tenths of a second in half a day.
pub const TENTHS_PER_HALF_DAY: u32 = 432_000;

impl RtcView {
    /// The registers show a time of a twelve-hour clock.
    pub open spec fn is_valid(self) -> bool {
        &&& self.tenth <= 9
        &&& self.seconds <= 59
        &&& self.minutes <= 59
        &&& 1 <= self.hours <= 12
    }

    /// The same time on both, whether or not either is counting.
    pub open spec fn same_time(self, other: RtcView) -> bool {
        &&& self.hours == other.hours
        &&& self.minutes == other.minutes
        &&& self.seconds == other.seconds
        &&& self.tenth == other.tenth
        &&& self.pm == other.pm
    }

    /// The registers after one tenth of a second. A stopped clock stays
    /// as it is. A register at or beyond its last value goes back to its
    /// first value and carries into the next; the hour after twelve is
    /// one, and that step flips AM/PM.
    pub open spec fn tick(self) -> RtcView {
        if !self.enabled {
            self
        } else if self.tenth < 9 {
            RtcView { tenth: (self.tenth + 1) as u8, ..self }
        } else if self.seconds < 59 {
            RtcView { tenth: 0, seconds: (self.seconds + 1) as u8, ..self }
        } else if self.minutes < 59 {
            RtcView { tenth: 0, seconds: 0, minutes: (self.minutes + 1) as u8, ..self }
        } else if self.hours < 12 {
            RtcView { tenth: 0, seconds: 0, minutes: 0, hours: (self.hours + 1) as u8, ..self }
        } else {
            RtcView { tenth: 0, seconds: 0, minutes: 0, hours: 1, pm: !self.pm, ..self }
        }
    }

    /// Tenths of a second since the hour last went from twelve to one
    /// with the flag turning to AM.
    pub open spec fn tenths_of_day(self) -> int {
        (if self.pm {
            TENTHS_PER_HALF_DAY
        } else {
            0
        }) + (((self.hours - 1) * 60 + self.minutes) * 60 + self.seconds) * 10 + self.tenth
    }
}

pub struct Rtc {
    enabled: bool,
    hours: u8,
    minutes: u8,
    seconds: u8,
    tenth: u8,
    pm: bool,
}

impl View for Rtc {
    type V = RtcView;

    closed spec fn view(&self) -> RtcView {
        RtcView {
            enabled: self.enabled,
            hours: self.hours,
            minutes: self.minutes,
            seconds: self.seconds,
            tenth: self.tenth,
            pm: self.pm,
        }
    }
}

impl Rtc {
    /// A counting clock with every register at zero.
    pub fn new() -> (rtc: Rtc)
        ensures
            rtc@ == (RtcView {
                enabled: true,
                hours: 0,
                minutes: 0,
                seconds: 0,
                tenth: 0,
                pm: false,
            }),
    {
        Rtc { enabled: true, hours: 0, minutes: 0, seconds: 0, tenth: 0, pm: false }
    }

    pub fn get_hours(&self) -> (r: u8)
        ensures
            r == self@.hours,
    {
        self.hours
    }

    pub fn get_minutes(&self) -> (r: u8)
        ensures
            r == self@.minutes,
    {
        self.minutes
    }

    pub fn get_seconds(&self) -> (r: u8)
        ensures
            r == self@.seconds,
    {
        self.seconds
    }

    pub fn get_tenth(&self) -> (r: u8)
        ensures
            r == self@.tenth,
    {
        self.tenth
    }

    pub fn get_pm(&self) -> (r: bool)
        ensures
            r == self@.pm,
    {
        self.pm
    }

    pub fn is_enabled(&self) -> (r: bool)
        ensures
            r == self@.enabled,
    {
        self.enabled
    }

    /// Starts or stops the counting.
    pub fn set_enabled(&mut self, enabled: bool)
        ensures
            final(self)@ == (RtcView { enabled, ..old(self)@ }),
    {
        self.enabled = enabled;
    }

    pub fn set_hours(&mut self, hours: u8)
        ensures
            final(self)@ == (RtcView { hours, ..old(self)@ }),
    {
        self.hours = hours;
    }

    pub fn set_minutes(&mut self, minutes: u8)
        ensures
            final(self)@ == (RtcView { minutes, ..old(self)@ }),
    {
        self.minutes = minutes;
    }

    pub fn set_seconds(&mut self, seconds: u8)
        ensures
            final(self)@ == (RtcView { seconds, ..old(self)@ }),
    {
        self.seconds = seconds;
    }

    pub fn set_tenth(&mut self, tenth: u8)
        ensures
            final(self)@ == (RtcView { tenth, ..old(self)@ }),
    {
        self.tenth = tenth;
    }

    pub fn set_pm(&mut self, pm: bool)
        ensures
            final(self)@ == (RtcView { pm, ..old(self)@ }),
    {
        self.pm = pm;
    }

    /// Advances the clock by one tenth of a second, if it is counting.
    pub fn tick(&mut self)
        ensures
            final(self)@ == old(self)@.tick(),
    {
        if !self.enabled {
            return;
        }
        if self.tenth < 9 {
            self.tenth = self.tenth + 1;
            return;
        }
        self.tenth = 0;
        if self.seconds < 59 {
            self.seconds = self.seconds + 1;
            return;
        }
        self.seconds = 0;
        if self.minutes < 59 {
            self.minutes = self.minutes + 1;
            return;
        }
        self.minutes = 0;
        if self.hours < 12 {
            self.hours = self.hours + 1;
            return;
        }
        self.hours = 1;
        self.pm = !self.pm;
    }
}

impl PartialEq for Rtc {
    /// Two clocks are equal when they show the same time.
    fn eq(&self, other: &Rtc) -> (r: bool) {
        self.hours == other.hours && self.minutes == other.minutes && self.seconds == other.seconds
            && self.tenth == other.tenth && self.pm == other.pm
    }
}

impl vstd::std_specs::cmp::PartialEqSpecImpl for Rtc {
    open spec fn obeys_eq_spec() -> bool {
        true
    }

    open spec fn eq_spec(&self, other: &Rtc) -> bool {
        self@.same_time(other@)
    }
}

/// A clock that shows a time of day and is counting still does so after a
/// tick, one tenth of a second later, and after the last tenth of the day
/// the first.
pub proof fn lemma_tick_counts(rtc: RtcView)
    requires
        rtc.is_valid(),
        rtc.enabled,
    ensures
        rtc.tick().is_valid(),
        rtc.tick().enabled,
        0 <= rtc.tenths_of_day() < 2 * TENTHS_PER_HALF_DAY,
        rtc.tick().tenths_of_day() == (rtc.tenths_of_day() + 1) % (2 * TENTHS_PER_HALF_DAY),
{
    let next = rtc.tenths_of_day() + 1;
    if next < 2 * TENTHS_PER_HALF_DAY {
        vstd::arithmetic::div_mod::lemma_small_mod(next as nat, (2 * TENTHS_PER_HALF_DAY) as nat);
    } else {
        vstd::arithmetic::div_mod::lemma_mod_self_0(2 * TENTHS_PER_HALF_DAY);
    }
}

/// Whatever the registers hold, a stopped clock does not move, and a tick
/// brings the tenths onto the clock face and takes no other register off
/// it.
pub proof fn lemma_tick_total(rtc: RtcView)
    ensures
        !rtc.enabled ==> rtc.tick() == rtc,
        rtc.tick().enabled == rtc.enabled,
        rtc.enabled ==> rtc.tick().tenth <= 9,
        rtc.enabled && rtc.seconds <= 59 ==> rtc.tick().seconds <= 59,
        rtc.enabled && rtc.minutes <= 59 ==> rtc.tick().minutes <= 59,
        rtc.enabled && 1 <= rtc.hours <= 12 ==> 1 <= rtc.tick().hours <= 12,
{
}

} // verus!
