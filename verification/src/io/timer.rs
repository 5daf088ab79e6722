//! A 16-bit interval timer: a down-counter that reloads from a latch when
//! it is pulsed at zero.

use vstd::prelude::*;

verus! {

/// What the timer does after an underflow.
#[derive(Clone, Copy, Debug, PartialEq, Eq, Structural)]
pub enum Mode {
    /// Reload and stop.
    OneShot,
    /// Reload and go on counting.
    Continuous,
}

/// Where the timer's pulses come from.
#[derive(Clone, Copy, Debug, PartialEq, Eq, Structural)]
pub enum Input {
    /// One pulse every system clock cycle.
    SystemClock,
    /// One pulse on every rising edge of the CNT pin.
    External,
    /// One pulse on every underflow of timer A.
    TimerA,
    /// One pulse on every underflow of timer A while the CNT pin is high.
    TimerAWithCNT,
}

impl Input {
    /// The input that a two-bit selector stands for, if it is one.
    pub open spec fn selected(selector: u8) -> Option<Input> {
        if selector == 0 {
            Some(Input::SystemClock)
        } else if selector == 1 {
            Some(Input::External)
        } else if selector == 2 {
            Some(Input::TimerA)
        } else if selector == 3 {
            Some(Input::TimerAWithCNT)
        } else {
            None
        }
    }

    /// Decodes a two-bit input selector; any larger number is refused.
    pub fn from_selector(selector: u8) -> (r: Option<Input>)
        ensures
            r == Input::selected(selector),
            r.is_some() <==> selector <= 3,
    {
        match selector {
            0 => Some(Input::SystemClock),
            1 => Some(Input::External),
            2 => Some(Input::TimerA),
            3 => Some(Input::TimerAWithCNT),
            _ => None,
        }
    }
}

/// The waveform that the timer would put on its port line.
#[derive(Clone, Copy, Debug, PartialEq, Eq, Structural)]
pub enum Output {
    Pulse,
    Toggle,
}

/// The value that a reset puts into the latch.
pub const RESET_LATCH: u16 = 0xffff;

/// The value that a reset puts into the counter.
pub const RESET_VALUE: u16 = 0x0000;

#[derive(Clone, Copy, Debug, PartialEq, Eq, Structural)]
pub struct Timer {
    pub enabled: bool,
    pub mode: Mode,
    pub input: Input,
    pub output: Output,
    pub output_enabled: bool,
    pub latch: u16,
    pub value: u16,
}

impl Timer {
    /// The timer as a reset leaves it: stopped, one-shot, clocked by the
    /// system, its output off, the latch at its reset value.
    pub open spec fn initial() -> Timer {
        Timer {
            enabled: false,
            mode: Mode::OneShot,
            input: Input::SystemClock,
            output: Output::Pulse,
            output_enabled: false,
            latch: RESET_LATCH,
            value: RESET_VALUE,
        }
    }

    /// The timer underflows when a running timer is pulsed at zero.
    pub open spec fn underflows(self, pulse: bool) -> bool {
        self.enabled && pulse && self.value == 0
    }

    /// The timer after one cycle. Without a pulse, or stopped, it stays.
    /// A pulse at zero reloads the counter from the latch; any other
    /// pulse takes one off the counter.
    pub open spec fn count(self, pulse: bool) -> Timer {
        if !self.enabled || !pulse {
            self
        } else if self.value == 0 {
            Timer { value: self.latch, ..self }
        } else {
            Timer { value: (self.value - 1) as u16, ..self }
        }
    }

    /// The timer after `n` cycles with a pulse in each.
    pub open spec fn count_n(self, n: nat) -> Timer
        decreases n,
    {
        if n == 0 {
            self
        } else {
            self.count(true).count_n((n - 1) as nat)
        }
    }

    pub fn new() -> (timer: Timer)
        ensures
            timer == Timer::initial(),
    {
        Timer {
            enabled: false,
            mode: Mode::OneShot,
            input: Input::SystemClock,
            output: Output::Pulse,
            output_enabled: false,
            latch: RESET_LATCH,
            value: RESET_VALUE,
        }
    }

    pub fn reset(&mut self)
        ensures
            *final(self) == Timer::initial(),
    {
        self.enabled = false;
        self.mode = Mode::OneShot;
        self.input = Input::SystemClock;
        self.output = Output::Pulse;
        self.output_enabled = false;
        self.latch = RESET_LATCH;
        self.value = RESET_VALUE;
    }

    /// Advances the timer by one cycle in which `pulse` pulses arrived,
    /// and tells whether it underflowed. Stopping a one-shot timer after
    /// its underflow is left to the caller.
    pub fn update(&mut self, pulse: u16) -> (underflow: bool)
        requires
            pulse <= 1,
        ensures
            *final(self) == old(self).count(pulse == 1),
            underflow == old(self).underflows(pulse == 1),
    {
        if !self.enabled || pulse == 0 {
            false
        } else if self.value == 0 {
            self.value = self.latch;
            true
        } else {
            self.value = self.value - pulse;
            false
        }
    }
}

/// A running timer that holds `v` and is pulsed every cycle counts down
/// to zero in `v` cycles without underflowing, underflows in the cycle
/// after that, and then holds the latch again.
pub proof fn lemma_countdown(timer: Timer, k: nat)
    requires
        timer.enabled,
        k <= timer.value,
    ensures
        timer.count_n(k) == (Timer { value: (timer.value - k) as u16, ..timer }),
        timer.count_n(k).underflows(true) <==> k == timer.value,
        timer.count_n(timer.value as nat).count(true) == (Timer { value: timer.latch, ..timer }),
{
    lemma_countdown_step(timer, k);
    lemma_countdown_step(timer, timer.value as nat);
}

proof fn lemma_countdown_step(timer: Timer, k: nat)
    requires
        timer.enabled,
        k <= timer.value,
    ensures
        timer.count_n(k) == (Timer { value: (timer.value - k) as u16, ..timer }),
    decreases k,
{
    if k > 0 {
        lemma_countdown_step(timer.count(true), (k - 1) as nat);
    }
}

} // verus!
