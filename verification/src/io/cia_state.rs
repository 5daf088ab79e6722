//! The interface adapter as a state machine: what the chip holds, and what
//! each bus access and each clock pulse makes of it.

use vstd::prelude::*;
use crate::cpu::interrupt_line::Source;
use crate::device::joystick::JoystickView;
use crate::io::cia::{Mode, Reg};
use crate::io::timer::{Input, Timer};
use crate::io::timer;
use crate::util::bcd;
use crate::util::bit;
use crate::util::icr::IcrView;
use crate::util::io_port::{IoPortView, PASSIVE_LEVEL};
use crate::util::pin::PinView;
use crate::util::rtc::RtcView;

verus! {

/// Event bit of a timer A underflow.
pub const EVENT_TIMER_A: u8 = 0;

/// Event bit of a timer B underflow.
pub const EVENT_TIMER_B: u8 = 1;

/// Event bit of the time-of-day alarm.
pub const EVENT_ALARM: u8 = 2;

/// Event bit of a falling edge on the FLAG pin.
pub const EVENT_FLAG: u8 = 4;

/// Everything the chip holds, together with the lines and devices wired
/// to it.
pub struct CiaState {
    pub mode: Mode,
    pub port_a: IoPortView,
    pub port_b: IoPortView,
    pub timer_a: Timer,
    pub timer_b: Timer,
    pub tod_alarm: RtcView,
    pub tod_clock: RtcView,
    /// Whether writes to the time-of-day registers go to the alarm.
    pub tod_set_alarm: bool,
    pub int_control: IcrView,
    /// Whether the chip holds its interrupt line low.
    pub int_triggered: bool,
    pub cnt: PinView,
    pub flag: PinView,
    pub irq: Set<Source>,
    pub nmi: Set<Source>,
    pub joystick_1: Option<JoystickView>,
    pub joystick_2: Option<JoystickView>,
    pub keyboard: Seq<u8>,
}

/// The low byte of a 16-bit register.
pub open spec fn low_byte(word: u16) -> u8 {
    (word % 256) as u8
}

/// The high byte of a 16-bit register.
pub open spec fn high_byte(word: u16) -> u8 {
    (word / 256) as u8
}

/// `word` with its low byte replaced.
pub open spec fn with_low_byte(word: u16, byte: u8) -> u16 {
    ((word / 256) * 256 + byte) as u16
}

/// `word` with its high byte replaced.
pub open spec fn with_high_byte(word: u16, byte: u8) -> u16 {
    (byte * 256 + word % 256) as u16
}

/// Whether a timer with the given input receives a pulse in this cycle.
/// `chained` tells whether the timer before it underflowed in this cycle.
pub open spec fn pulse(input: Input, cnt: PinView, chained: bool) -> bool {
    match input {
        Input::SystemClock => true,
        Input::External => cnt.is_rising(),
        Input::TimerA => chained,
        Input::TimerAWithCNT => chained && cnt.level,
    }
}

/// A timer after one cycle of the chip: it counts, and a one-shot timer
/// that underflows is stopped.
pub open spec fn advance(timer: Timer, pulse: bool) -> Timer {
    if timer.underflows(pulse) && timer.mode == timer::Mode::OneShot {
        Timer { enabled: false, ..timer.count(pulse) }
    } else {
        timer.count(pulse)
    }
}

/// The register after the events of one cycle are recorded: an underflow
/// of timer A, one of timer B, a falling edge on the FLAG pin.
pub open spec fn recorded(
    icr: IcrView,
    timer_a_underflow: bool,
    timer_b_underflow: bool,
    flag_falling: bool,
) -> IcrView {
    let after_a = if timer_a_underflow {
        icr.set_event(EVENT_TIMER_A)
    } else {
        icr
    };
    let after_b = if timer_b_underflow {
        after_a.set_event(EVENT_TIMER_B)
    } else {
        after_a
    };
    if flag_falling {
        after_b.set_event(EVENT_FLAG)
    } else {
        after_b
    }
}

/// What a joystick puts on a port: bits 0 to 4 are low for up, down,
/// left, right and fire; the other bits are high. No joystick pulls
/// nothing low.
pub open spec fn joystick_mask(joystick: Option<JoystickView>) -> u8 {
    match joystick {
        Some(joy) => !(bit::flag(0, joy.up()) | bit::flag(1, joy.down()) | bit::flag(
            2,
            joy.left(),
        ) | bit::flag(3, joy.right()) | bit::flag(4, joy.button)),
        None => 0xff,
    }
}

/// The states of the first `n` rows of the keyboard that `selected`
/// picks, or-ed together.
pub open spec fn scan_rows(selected: u8, rows: Seq<u8>, n: nat) -> u8
    decreases n,
{
    if n == 0 {
        0
    } else if bit::is_set(selected, (n - 1) as u8) {
        scan_rows(selected, rows, (n - 1) as nat) | rows[n - 1]
    } else {
        scan_rows(selected, rows, (n - 1) as nat)
    }
}

/// The control register of a timer, without its input bits.
pub open spec fn control_bits(timer: Timer) -> u8 {
    bit::flag(0, timer.enabled) | bit::flag(1, timer.output_enabled) | bit::flag(
        2,
        timer.output == timer::Output::Toggle,
    ) | bit::flag(3, timer.mode == timer::Mode::OneShot)
}

/// The input bits in the control register of timer A.
pub open spec fn input_bits_a(input: Input) -> u8 {
    bit::flag(5, input == Input::External)
}

/// The input bits in the control register of timer B.
pub open spec fn input_bits_b(input: Input) -> u8 {
    match input {
        Input::SystemClock => 0,
        Input::External => bit::mask_of(5),
        Input::TimerA => bit::mask_of(6),
        Input::TimerAWithCNT => bit::mask_of(6) | bit::mask_of(7),
    }
}

/// The input that bits 5 and 6 of a byte written to the control register
/// of timer B select.
pub open spec fn selected_input_b(value: u8) -> Input {
    if !bit::is_set(value, 6) {
        if !bit::is_set(value, 5) {
            Input::SystemClock
        } else {
            Input::External
        }
    } else {
        if !bit::is_set(value, 5) {
            Input::TimerA
        } else {
            Input::TimerAWithCNT
        }
    }
}

/// A timer after `value` is written to its control register, its input
/// aside: bit 0 starts or stops it, bit 3 makes it one-shot, bit 4 loads
/// the counter from the latch.
pub open spec fn configured(timer: Timer, value: u8) -> Timer {
    Timer {
        enabled: bit::is_set(value, 0),
        mode: if bit::is_set(value, 3) {
            timer::Mode::OneShot
        } else {
            timer::Mode::Continuous
        },
        value: if bit::is_set(value, 4) {
            timer.latch
        } else {
            timer.value
        },
        ..timer
    }
}

/// A timer after `byte` is written to the high byte of its latch: a
/// stopped timer takes the new latch into its counter at once.
pub open spec fn with_latch_high(timer: Timer, byte: u8) -> Timer {
    let latch = with_high_byte(timer.latch, byte);
    Timer {
        latch,
        value: if timer.enabled {
            timer.value
        } else {
            latch
        },
        ..timer
    }
}

/// A timer after `byte` is written to the low byte of its latch.
pub open spec fn with_latch_low(timer: Timer, byte: u8) -> Timer {
    Timer { latch: with_low_byte(timer.latch, byte), ..timer }
}

impl CiaState {
    /// What holds of the chip at all times. Timer A has no timer before
    /// it to count; while an interrupt is requested the chip has
    /// triggered it; and while it has, it pulls its line low.
    pub open spec fn wf(self) -> bool {
        &&& self.timer_a.input == Input::SystemClock || self.timer_a.input == Input::External
        &&& self.int_control.interrupt_request() ==> self.int_triggered
        &&& self.int_triggered ==> self.line().contains(Source::Cia)
    }

    /// The chip as it is built around the given lines and devices.
    pub open spec fn initial(
        mode: Mode,
        cnt: PinView,
        flag: PinView,
        irq: Set<Source>,
        nmi: Set<Source>,
        joystick_1: Option<JoystickView>,
        joystick_2: Option<JoystickView>,
        keyboard: Seq<u8>,
    ) -> CiaState {
        CiaState {
            mode,
            port_a: IoPortView { value: 0, direction: 0, external: PASSIVE_LEVEL },
            port_b: IoPortView { value: 0, direction: 0, external: PASSIVE_LEVEL },
            timer_a: Timer::initial(),
            timer_b: Timer::initial(),
            tod_alarm: RtcView {
                enabled: true,
                hours: 0,
                minutes: 0,
                seconds: 0,
                tenth: 0,
                pm: false,
            },
            tod_clock: RtcView {
                enabled: true,
                hours: 0,
                minutes: 0,
                seconds: 0,
                tenth: 0,
                pm: false,
            },
            tod_set_alarm: false,
            int_control: IcrView { event: 0, mask: 0 },
            int_triggered: false,
            cnt,
            flag,
            irq,
            nmi,
            joystick_1,
            joystick_2,
            keyboard,
        }
    }

    /// The interrupt line that this chip drives: the first adapter drives
    /// IRQ, the second NMI.
    pub open spec fn line(self) -> Set<Source> {
        match self.mode {
            Mode::Cia1 => self.irq,
            Mode::Cia2 => self.nmi,
        }
    }

    /// The chip with its interrupt line replaced.
    pub open spec fn with_line(self, line: Set<Source>) -> CiaState {
        match self.mode {
            Mode::Cia1 => CiaState { irq: line, ..self },
            Mode::Cia2 => CiaState { nmi: line, ..self },
        }
    }

    /// The chip pulls its line low.
    pub open spec fn trigger_interrupt(self) -> CiaState {
        CiaState { int_triggered: true, ..self.with_line(self.line().insert(Source::Cia)) }
    }

    /// The chip lets go of its line.
    pub open spec fn clear_interrupt(self) -> CiaState {
        CiaState { int_triggered: false, ..self.with_line(self.line().remove(Source::Cia)) }
    }

    /// The chip pulls its line low if an interrupt is requested and it
    /// does not pull already.
    pub open spec fn raise_if_requested(self) -> CiaState {
        if self.int_control.interrupt_request() && !self.int_triggered {
            self.trigger_interrupt()
        } else {
            self
        }
    }

    /// Whether timer A underflows in the coming cycle.
    pub open spec fn timer_a_underflows(self) -> bool {
        self.timer_a.underflows(pulse(self.timer_a.input, self.cnt, false))
    }

    /// Whether timer B underflows in the coming cycle. Timer A goes
    /// first, so a chained timer B sees its underflow of the same cycle.
    pub open spec fn timer_b_underflows(self) -> bool {
        self.timer_b.underflows(pulse(self.timer_b.input, self.cnt, self.timer_a_underflows()))
    }

    /// The events that the coming cycle records on top of those held.
    pub open spec fn clocked_events(self) -> IcrView {
        recorded(
            self.int_control,
            self.timer_a_underflows(),
            self.timer_b_underflows(),
            self.flag.is_falling(),
        )
    }

    /// The chip after one system clock cycle.
    pub open spec fn clock(self) -> CiaState {
        CiaState {
            timer_a: advance(self.timer_a, pulse(self.timer_a.input, self.cnt, false)),
            timer_b: advance(
                self.timer_b,
                pulse(self.timer_b.input, self.cnt, self.timer_a_underflows()),
            ),
            int_control: self.clocked_events(),
            ..self
        }.raise_if_requested()
    }

    /// The chip after one tick of the time-of-day clock: the clock moves,
    /// and if it then shows the alarm time, the alarm event is recorded.
    pub open spec fn tod_tick(self) -> CiaState {
        let ticked = CiaState { tod_clock: self.tod_clock.tick(), ..self };
        if ticked.tod_clock.same_time(ticked.tod_alarm) {
            CiaState {
                int_control: ticked.int_control.set_event(EVENT_ALARM),
                ..ticked
            }.raise_if_requested()
        } else {
            ticked
        }
    }

    /// The chip after a reset. The time-of-day registers and the devices
    /// wired to the ports are not the reset's to change.
    pub open spec fn reset(self) -> CiaState {
        CiaState {
            port_a: IoPortView { value: 0, direction: 0, external: PASSIVE_LEVEL },
            port_b: IoPortView { value: 0, direction: 0, external: PASSIVE_LEVEL },
            timer_a: Timer::initial(),
            timer_b: Timer::initial(),
            tod_set_alarm: false,
            int_control: IcrView { event: 0, mask: 0 },
            cnt: PinView { level: true, prev_level: true },
            flag: PinView { level: false, prev_level: false },
            ..self.clear_interrupt()
        }
    }

    /// What the keyboard puts on port B. Port A selects a row of the
    /// matrix with every line that it holds low. With all lines low or
    /// all lines high the keyboard is not scanned.
    pub open spec fn keyboard_scan(self) -> u8 {
        let select = self.port_a.effective();
        if select == 0x00 {
            0x00
        } else if select == 0xff {
            0xff
        } else {
            scan_rows(!select, self.keyboard, 8)
        }
    }

    /// What a read of port A gives.
    pub open spec fn read_port_a(self) -> u8 {
        match self.mode {
            Mode::Cia1 => self.port_a.effective() & joystick_mask(self.joystick_2),
            Mode::Cia2 => self.port_a.effective(),
        }
    }

    /// What a read of port B gives.
    pub open spec fn read_port_b(self) -> u8 {
        match self.mode {
            Mode::Cia1 => self.port_b.effective() & self.keyboard_scan() & joystick_mask(
                self.joystick_1,
            ),
            Mode::Cia2 => self.port_b.effective(),
        }
    }

    /// The byte that a read of `reg` returns.
    pub open spec fn read_value(self, reg: Reg) -> u8 {
        match reg {
            Reg::PRA => self.read_port_a(),
            Reg::PRB => self.read_port_b(),
            Reg::DDRA => self.port_a.direction,
            Reg::DDRB => self.port_b.direction,
            Reg::TALO => low_byte(self.timer_a.value),
            Reg::TAHI => high_byte(self.timer_a.value),
            Reg::TBLO => low_byte(self.timer_b.value),
            Reg::TBHI => high_byte(self.timer_b.value),
            Reg::TODTS => bcd::encoded(self.tod_clock.tenth),
            Reg::TODSEC => bcd::encoded(self.tod_clock.seconds),
            Reg::TODMIN => bcd::encoded(self.tod_clock.minutes),
            Reg::TODHR => bit::with_bit(bcd::encoded(self.tod_clock.hours), 7, self.tod_clock.pm),
            Reg::SDR => 0,
            Reg::ICR => self.int_control.data(),
            Reg::CRA => control_bits(self.timer_a) | input_bits_a(self.timer_a.input),
            Reg::CRB => control_bits(self.timer_b) | input_bits_b(self.timer_b.input) | bit::flag(
                7,
                self.tod_set_alarm,
            ),
        }
    }

    /// The chip after a read of `reg`. A read of the tenths lets the
    /// clock run; a read of the interrupt data forgets the events and
    /// lets go of the interrupt line; any other read changes nothing.
    pub open spec fn after_read(self, reg: Reg) -> CiaState {
        match reg {
            Reg::TODTS => CiaState {
                tod_clock: RtcView { enabled: true, ..self.tod_clock },
                ..self
            },
            Reg::ICR => CiaState {
                int_control: self.int_control.clear(),
                ..self
            }.clear_interrupt(),
            _ => self,
        }
    }

    /// The time-of-day registers that a write goes to.
    pub open spec fn tod_target(self) -> RtcView {
        if self.tod_set_alarm {
            self.tod_alarm
        } else {
            self.tod_clock
        }
    }

    /// The chip with the time-of-day registers that a write goes to
    /// replaced.
    pub open spec fn with_tod_target(self, tod: RtcView) -> CiaState {
        if self.tod_set_alarm {
            CiaState { tod_alarm: tod, ..self }
        } else {
            CiaState { tod_clock: tod, ..self }
        }
    }

    /// The chip after `value` is written to `reg`.
    pub open spec fn write(self, reg: Reg, value: u8) -> CiaState {
        match reg {
            Reg::PRA => CiaState { port_a: IoPortView { value, ..self.port_a }, ..self },
            Reg::PRB => CiaState { port_b: IoPortView { value, ..self.port_b }, ..self },
            Reg::DDRA => CiaState {
                port_a: IoPortView { direction: value, ..self.port_a },
                ..self
            },
            Reg::DDRB => CiaState {
                port_b: IoPortView { direction: value, ..self.port_b },
                ..self
            },
            Reg::TALO => CiaState { timer_a: with_latch_low(self.timer_a, value), ..self },
            Reg::TAHI => CiaState { timer_a: with_latch_high(self.timer_a, value), ..self },
            Reg::TBLO => CiaState { timer_b: with_latch_low(self.timer_b, value), ..self },
            Reg::TBHI => CiaState { timer_b: with_latch_high(self.timer_b, value), ..self },
            Reg::TODTS => self.with_tod_target(
                RtcView {
                    tenth: bcd::decoded(value & 0x0f),
                    enabled: if self.tod_set_alarm {
                        self.tod_alarm.enabled
                    } else {
                        true
                    },
                    ..self.tod_target()
                },
            ),
            Reg::TODSEC => self.with_tod_target(
                RtcView { seconds: bcd::decoded(value & 0x7f), ..self.tod_target() },
            ),
            Reg::TODMIN => self.with_tod_target(
                RtcView { minutes: bcd::decoded(value & 0x7f), ..self.tod_target() },
            ),
            Reg::TODHR => self.with_tod_target(
                RtcView {
                    enabled: false,
                    hours: bcd::decoded(value & 0x7f),
                    pm: bit::is_set(value, 7),
                    ..self.tod_target()
                },
            ),
            Reg::SDR => self,
            Reg::ICR => CiaState {
                int_control: self.int_control.update_mask(value),
                ..self
            }.raise_if_requested(),
            Reg::CRA => CiaState {
                timer_a: Timer {
                    input: if bit::is_set(value, 5) {
                        Input::External
                    } else {
                        Input::SystemClock
                    },
                    ..configured(self.timer_a, value)
                },
                ..self
            },
            Reg::CRB => CiaState {
                timer_b: Timer {
                    input: selected_input_b(value),
                    ..configured(self.timer_b, value)
                },
                tod_set_alarm: bit::is_set(value, 7),
                ..self
            },
        }
    }
}

/// The chip is well formed when it is built.
pub proof fn lemma_initial_wf(
    mode: Mode,
    cnt: PinView,
    flag: PinView,
    irq: Set<Source>,
    nmi: Set<Source>,
    joystick_1: Option<JoystickView>,
    joystick_2: Option<JoystickView>,
    keyboard: Seq<u8>,
)
    ensures
        CiaState::initial(mode, cnt, flag, irq, nmi, joystick_1, joystick_2, keyboard).wf(),
{
    crate::util::icr::lemma_no_event_no_request(IcrView { event: 0, mask: 0 });
}

/// Raising the interrupt on request makes a chip well formed, if its
/// line and timer A allow it.
pub proof fn lemma_raise_wf(s: CiaState)
    requires
        s.timer_a.input == Input::SystemClock || s.timer_a.input == Input::External,
        s.int_triggered ==> s.line().contains(Source::Cia),
    ensures
        s.raise_if_requested().wf(),
        s.raise_if_requested().int_control == s.int_control,
        s.raise_if_requested().int_triggered == (s.int_triggered
            || s.int_control.interrupt_request()),
        s.raise_if_requested().line() == if s.int_triggered
            || s.int_control.interrupt_request() {
            s.line().insert(Source::Cia)
        } else {
            s.line()
        },
{
    if s.int_triggered {
        assert(s.line().insert(Source::Cia) =~= s.line());
    }
}

/// A clock cycle keeps the chip well formed.
pub proof fn lemma_clock_wf(s: CiaState)
    requires
        s.wf(),
    ensures
        s.clock().wf(),
{
    let stepped = CiaState {
        timer_a: advance(s.timer_a, pulse(s.timer_a.input, s.cnt, false)),
        timer_b: advance(s.timer_b, pulse(s.timer_b.input, s.cnt, s.timer_a_underflows())),
        int_control: s.clocked_events(),
        ..s
    };
    lemma_raise_wf(stepped);
}

/// A tick of the time-of-day clock keeps the chip well formed.
pub proof fn lemma_tod_tick_wf(s: CiaState)
    requires
        s.wf(),
    ensures
        s.tod_tick().wf(),
{
    let ticked = CiaState { tod_clock: s.tod_clock.tick(), ..s };
    lemma_raise_wf(
        CiaState { int_control: ticked.int_control.set_event(EVENT_ALARM), ..ticked },
    );
}

/// A reset makes any chip well formed.
pub proof fn lemma_reset_wf(s: CiaState)
    ensures
        s.reset().wf(),
{
    crate::util::icr::lemma_no_event_no_request(IcrView { event: 0, mask: 0 });
}

/// A read keeps the chip well formed.
pub proof fn lemma_after_read_wf(s: CiaState, reg: Reg)
    requires
        s.wf(),
    ensures
        s.after_read(reg).wf(),
{
    crate::util::icr::lemma_no_event_no_request(s.int_control.clear());
}

/// A write keeps the chip well formed.
pub proof fn lemma_write_wf(s: CiaState, reg: Reg, value: u8)
    requires
        s.wf(),
    ensures
        s.write(reg, value).wf(),
{
    if reg == Reg::ICR {
        lemma_raise_wf(CiaState { int_control: s.int_control.update_mask(value), ..s });
    }
}

} // verus!
