//! The MOS 6526 Complex Interface Adapter: two interval timers, a
//! time-of-day clock with alarm, two 8-bit ports and an interrupt control
//! register, behind sixteen bus registers.

use vstd::prelude::*;
use crate::cpu::CpuIo;
use crate::cpu::interrupt_line::Source;
use crate::device::joystick::{AxisMotion, JoystickView};
use crate::device::{Joystick, Keyboard};
use crate::io::cia_state::{
    advance,
    joystick_mask,
    recorded,
    scan_rows,
    CiaState,
    EVENT_ALARM,
    EVENT_FLAG,
    EVENT_TIMER_A,
    EVENT_TIMER_B,
};
use crate::io::cia_state;
use crate::io::timer::Timer;
use crate::io::timer;
use crate::util::bcd;
use crate::util::bit;
use crate::util::io_port::PASSIVE_LEVEL;
use crate::util::pin::PinView;
use crate::util::{Icr, IoPort, Pin, Rtc};

verus! {

/// The two input pins of the chip that the timers and the interrupt logic
/// watch.
pub struct CiaIo {
    pub cnt: Pin,
    pub flag: Pin,
}

impl CiaIo {
    /// CNT high, FLAG low, no edge on either.
    pub fn new() -> (io: CiaIo)
        ensures
            io.cnt@ == (PinView { level: true, prev_level: true }),
            io.flag@ == (PinView { level: false, prev_level: false }),
    {
        CiaIo { cnt: Pin::new_high(), flag: Pin::new_low() }
    }

    pub fn reset(&mut self)
        ensures
            final(self).cnt@ == (PinView { level: true, prev_level: true }),
            final(self).flag@ == (PinView { level: false, prev_level: false }),
    {
        self.cnt = Pin::new_high();
        self.flag = Pin::new_low();
    }
}

/// Which of the two adapters of the machine a chip is. The first scans
/// keyboard and joysticks and drives IRQ; the second drives NMI.
#[derive(Clone, Copy, Debug, PartialEq, Eq, Structural)]
pub enum Mode {
    Cia1,
    Cia2,
}

/// The sixteen registers of the chip.
#[derive(Clone, Copy, Debug, PartialEq, Eq, Structural)]
pub enum Reg {
    PRA,
    PRB,
    DDRA,
    DDRB,
    TALO,
    TAHI,
    TBLO,
    TBHI,
    TODTS,
    TODSEC,
    TODMIN,
    TODHR,
    SDR,
    ICR,
    CRA,
    CRB,
}

impl Reg {
    /// The bus address of the register.
    pub open spec fn address(self) -> u8 {
        match self {
            Reg::PRA => 0x00,
            Reg::PRB => 0x01,
            Reg::DDRA => 0x02,
            Reg::DDRB => 0x03,
            Reg::TALO => 0x04,
            Reg::TAHI => 0x05,
            Reg::TBLO => 0x06,
            Reg::TBHI => 0x07,
            Reg::TODTS => 0x08,
            Reg::TODSEC => 0x09,
            Reg::TODMIN => 0x0a,
            Reg::TODHR => 0x0b,
            Reg::SDR => 0x0c,
            Reg::ICR => 0x0d,
            Reg::CRA => 0x0e,
            Reg::CRB => 0x0f,
        }
    }

    /// The register at a bus address. Addresses have four bits.
    pub open spec fn at(reg: u8) -> Reg
        recommends
            reg <= 0x0f,
    {
        if reg == 0x00 {
            Reg::PRA
        } else if reg == 0x01 {
            Reg::PRB
        } else if reg == 0x02 {
            Reg::DDRA
        } else if reg == 0x03 {
            Reg::DDRB
        } else if reg == 0x04 {
            Reg::TALO
        } else if reg == 0x05 {
            Reg::TAHI
        } else if reg == 0x06 {
            Reg::TBLO
        } else if reg == 0x07 {
            Reg::TBHI
        } else if reg == 0x08 {
            Reg::TODTS
        } else if reg == 0x09 {
            Reg::TODSEC
        } else if reg == 0x0a {
            Reg::TODMIN
        } else if reg == 0x0b {
            Reg::TODHR
        } else if reg == 0x0c {
            Reg::SDR
        } else if reg == 0x0d {
            Reg::ICR
        } else if reg == 0x0e {
            Reg::CRA
        } else {
            Reg::CRB
        }
    }

    /// Decodes a bus address.
    pub fn from(reg: u8) -> (r: Reg)
        requires
            reg <= 0x0f,
        ensures
            r == Reg::at(reg),
            r.address() == reg,
    {
        match reg {
            0x00 => Reg::PRA,
            0x01 => Reg::PRB,
            0x02 => Reg::DDRA,
            0x03 => Reg::DDRB,
            0x04 => Reg::TALO,
            0x05 => Reg::TAHI,
            0x06 => Reg::TBLO,
            0x07 => Reg::TBHI,
            0x08 => Reg::TODTS,
            0x09 => Reg::TODSEC,
            0x0a => Reg::TODMIN,
            0x0b => Reg::TODHR,
            0x0c => Reg::SDR,
            0x0d => Reg::ICR,
            0x0e => Reg::CRA,
            _ => Reg::CRB,
        }
    }

    /// The bus address of the register.
    pub fn addr(&self) -> (r: u8)
        ensures
            r == self.address(),
            r <= 0x0f,
            Reg::at(r) == *self,
    {
        match self {
            Reg::PRA => 0x00,
            Reg::PRB => 0x01,
            Reg::DDRA => 0x02,
            Reg::DDRB => 0x03,
            Reg::TALO => 0x04,
            Reg::TAHI => 0x05,
            Reg::TBLO => 0x06,
            Reg::TBHI => 0x07,
            Reg::TODTS => 0x08,
            Reg::TODSEC => 0x09,
            Reg::TODMIN => 0x0a,
            Reg::TODHR => 0x0b,
            Reg::SDR => 0x0c,
            Reg::ICR => 0x0d,
            Reg::CRA => 0x0e,
            Reg::CRB => 0x0f,
        }
    }
}

/// What an optional joystick holds.
pub open spec fn joystick_view(joystick: Option<Joystick>) -> Option<JoystickView> {
    match joystick {
        Some(joy) => Some(joy@),
        None => None,
    }
}

proof fn lemma_word_bytes(word: u16, byte: u8)
    ensures
        (word & 0xff) as u8 == (word % 256) as u8,
        (word >> 8) as u8 == (word / 256) as u8,
        (word & 0xff00) | (byte as u16) == (word / 256) * 256 + byte,
        ((byte as u16) << 8) | (word & 0x00ff) == byte * 256 + word % 256,
{
    assert(word & 0xff == word % 256 && word >> 8 == word / 256) by (bit_vector);
    let wide = byte as u16;
    assert((word & 0xff00) | wide == (word / 256) * 256 + wide && (wide << 8) | (word & 0x00ff)
        == wide * 256 + word % 256) by (bit_vector)
        requires
            wide < 256,
    ;
}

proof fn lemma_input_selector(value: u8)
    ensures
        (value & 0x60) >> 5 <= 3,
        (value & 0x60) >> 5 == 0 <==> value & (1u8 << 5u8) == 0 && value & (1u8 << 6u8) == 0,
        (value & 0x60) >> 5 == 1 <==> value & (1u8 << 5u8) != 0 && value & (1u8 << 6u8) == 0,
        (value & 0x60) >> 5 == 2 <==> value & (1u8 << 5u8) == 0 && value & (1u8 << 6u8) != 0,
        (value & 0x60) >> 5 == 3 <==> value & (1u8 << 5u8) != 0 && value & (1u8 << 6u8) != 0,
{
    let s = (value & 0x60) >> 5;
    assert(s <= 3 && (s == 0 <==> value & (1u8 << 5u8) == 0 && value & (1u8 << 6u8) == 0) && (s
        == 1 <==> value & (1u8 << 5u8) != 0 && value & (1u8 << 6u8) == 0) && (s == 2 <==> value & (
    1u8 << 5u8) == 0 && value & (1u8 << 6u8) != 0) && (s == 3 <==> value & (1u8 << 5u8) != 0
        && value & (1u8 << 6u8) != 0)) by (bit_vector)
        requires
            s == (value & 0x60) >> 5,
    ;
}

pub struct Cia {
    mode: Mode,
    cpu_io: CpuIo,
    joystick_1: Option<Joystick>,
    joystick_2: Option<Joystick>,
    keyboard: Keyboard,
    port_a: IoPort,
    port_b: IoPort,
    timer_a: Timer,
    timer_b: Timer,
    tod_alarm: Rtc,
    tod_clock: Rtc,
    tod_set_alarm: bool,
    int_control: Icr,
    int_triggered: bool,
    cia_io: CiaIo,
}

impl View for Cia {
    type V = CiaState;

    closed spec fn view(&self) -> CiaState {
        CiaState {
            mode: self.mode,
            port_a: self.port_a@,
            port_b: self.port_b@,
            timer_a: self.timer_a,
            timer_b: self.timer_b,
            tod_alarm: self.tod_alarm@,
            tod_clock: self.tod_clock@,
            tod_set_alarm: self.tod_set_alarm,
            int_control: self.int_control@,
            int_triggered: self.int_triggered,
            cnt: self.cia_io.cnt@,
            flag: self.cia_io.flag@,
            irq: self.cpu_io.irq@,
            nmi: self.cpu_io.nmi@,
            joystick_1: joystick_view(self.joystick_1),
            joystick_2: joystick_view(self.joystick_2),
            keyboard: self.keyboard@,
        }
    }
}

impl Cia {
    /// Builds the chip around the lines and devices wired to it. The
    /// registers start as a reset leaves them, the time of day at zero.
    pub fn new(
        mode: Mode,
        cia_io: CiaIo,
        cpu_io: CpuIo,
        joystick1: Option<Joystick>,
        joystick2: Option<Joystick>,
        keyboard: Keyboard,
    ) -> (cia: Cia)
        ensures
            cia@ == CiaState::initial(
                mode,
                cia_io.cnt@,
                cia_io.flag@,
                cpu_io.irq@,
                cpu_io.nmi@,
                joystick_view(joystick1),
                joystick_view(joystick2),
                keyboard@,
            ),
            cia@.wf(),
    {
        proof {
            cia_state::lemma_initial_wf(
                mode,
                cia_io.cnt@,
                cia_io.flag@,
                cpu_io.irq@,
                cpu_io.nmi@,
                joystick_view(joystick1),
                joystick_view(joystick2),
                keyboard@,
            );
        }
        Cia {
            mode,
            cpu_io,
            joystick_1: joystick1,
            joystick_2: joystick2,
            keyboard,
            port_a: IoPort::new(0x00),
            port_b: IoPort::new(0x00),
            timer_a: Timer::new(),
            timer_b: Timer::new(),
            tod_alarm: Rtc::new(),
            tod_clock: Rtc::new(),
            tod_set_alarm: false,
            int_control: Icr::new(),
            int_triggered: false,
            cia_io,
        }
    }

    pub fn get_mode(&self) -> (r: Mode)
        ensures
            r == self@.mode,
    {
        self.mode
    }

    pub fn get_port_a(&self) -> (r: &IoPort)
        ensures
            r@ == self@.port_a,
    {
        &self.port_a
    }

    pub fn get_port_b(&self) -> (r: &IoPort)
        ensures
            r@ == self@.port_b,
    {
        &self.port_b
    }

    /// Port A, for whatever is wired to its lines. What is done to the
    /// port is done to the chip, and to nothing else of it.
    pub fn get_port_a_mut(&mut self) -> (r: &mut IoPort)
        ensures
            r@ == old(self)@.port_a,
            final(self)@ == (CiaState { port_a: final(r)@, ..old(self)@ }),
            old(self)@.wf() ==> final(self)@.wf(),
    {
        &mut self.port_a
    }

    /// Port B, for whatever is wired to its lines.
    pub fn get_port_b_mut(&mut self) -> (r: &mut IoPort)
        ensures
            r@ == old(self)@.port_b,
            final(self)@ == (CiaState { port_b: final(r)@, ..old(self)@ }),
            old(self)@.wf() ==> final(self)@.wf(),
    {
        &mut self.port_b
    }

    pub fn get_timer_a(&self) -> (r: &Timer)
        ensures
            *r == self@.timer_a,
    {
        &self.timer_a
    }

    pub fn get_timer_b(&self) -> (r: &Timer)
        ensures
            *r == self@.timer_b,
    {
        &self.timer_b
    }

    pub fn get_tod_clock(&self) -> (r: &Rtc)
        ensures
            r@ == self@.tod_clock,
    {
        &self.tod_clock
    }

    pub fn get_tod_alarm(&self) -> (r: &Rtc)
        ensures
            r@ == self@.tod_alarm,
    {
        &self.tod_alarm
    }

    pub fn get_int_control(&self) -> (r: &Icr)
        ensures
            r@ == self@.int_control,
    {
        &self.int_control
    }

    /// Whether the chip holds its interrupt line low.
    pub fn is_int_triggered(&self) -> (r: bool)
        ensures
            r == self@.int_triggered,
    {
        self.int_triggered
    }

    pub fn get_cia_io(&self) -> (r: &CiaIo)
        ensures
            r.cnt@ == self@.cnt,
            r.flag@ == self@.flag,
    {
        &self.cia_io
    }

    /// The CNT and FLAG pins, for whatever drives them.
    pub fn get_cia_io_mut(&mut self) -> (r: &mut CiaIo)
        ensures
            r.cnt@ == old(self)@.cnt,
            r.flag@ == old(self)@.flag,
            final(self)@ == (CiaState {
                cnt: final(r).cnt@,
                flag: final(r).flag@,
                ..old(self)@
            }),
            old(self)@.wf() ==> final(self)@.wf(),
    {
        &mut self.cia_io
    }

    /// The interrupt lines as the chip drives them.
    pub fn get_cpu_io(&self) -> (r: &CpuIo)
        ensures
            r.irq@ == self@.irq,
            r.nmi@ == self@.nmi,
    {
        &self.cpu_io
    }

    pub fn get_keyboard(&self) -> (r: &Keyboard)
        ensures
            r@ == self@.keyboard,
    {
        &self.keyboard
    }

    /// The keyboard, for whatever presses its keys.
    pub fn get_keyboard_mut(&mut self) -> (r: &mut Keyboard)
        ensures
            r@ == old(self)@.keyboard,
            final(self)@ == (CiaState { keyboard: final(r)@, ..old(self)@ }),
            old(self)@.wf() ==> final(self)@.wf(),
    {
        &mut self.keyboard
    }

    /// Plugs a joystick into the first control port, or unplugs it.
    pub fn set_joystick_1(&mut self, joystick: Option<Joystick>)
        ensures
            final(self)@ == (CiaState { joystick_1: joystick_view(joystick), ..old(self)@ }),
            old(self)@.wf() ==> final(self)@.wf(),
    {
        self.joystick_1 = joystick;
    }

    /// Plugs a joystick into the second control port, or unplugs it.
    pub fn set_joystick_2(&mut self, joystick: Option<Joystick>)
        ensures
            final(self)@ == (CiaState { joystick_2: joystick_view(joystick), ..old(self)@ }),
            old(self)@.wf() ==> final(self)@.wf(),
    {
        self.joystick_2 = joystick;
    }

    /// Advances the chip by one system clock cycle: timer A, then timer
    /// B, then the events of the cycle and the interrupt they may raise.
    pub fn clock(&mut self)
        requires
            old(self)@.wf(),
        ensures
            final(self)@ == old(self)@.clock(),
            final(self)@.wf(),
    {
        proof {
            cia_state::lemma_clock_wf(self@);
        }
        let cnt_rising = self.cia_io.cnt.is_rising();
        let cnt_high = self.cia_io.cnt.is_high();
        let timer_a_underflow = if self.timer_a.enabled {
            let pulse: u16 = match self.timer_a.input {
                timer::Input::SystemClock => 1,
                timer::Input::External => if cnt_rising {
                    1
                } else {
                    0
                },
                _ => vstd::pervasive::unreached(),
            };
            Self::advance_timer(&mut self.timer_a, pulse)
        } else {
            false
        };
        let timer_b_underflow = if self.timer_b.enabled {
            let pulse: u16 = match self.timer_b.input {
                timer::Input::SystemClock => 1,
                timer::Input::External => if cnt_rising {
                    1
                } else {
                    0
                },
                timer::Input::TimerA => if timer_a_underflow {
                    1
                } else {
                    0
                },
                timer::Input::TimerAWithCNT => if timer_a_underflow && cnt_high {
                    1
                } else {
                    0
                },
            };
            Self::advance_timer(&mut self.timer_b, pulse)
        } else {
            false
        };
        let flag_falling = self.cia_io.flag.is_falling();
        Self::record_events(
            &mut self.int_control,
            timer_a_underflow,
            timer_b_underflow,
            flag_falling,
        );
        self.raise_if_requested();
    }

    /// Puts the chip's registers back to their reset state and lets go of
    /// the interrupt line.
    pub fn reset(&mut self)
        ensures
            final(self)@ == old(self)@.reset(),
            final(self)@.wf(),
    {
        proof {
            cia_state::lemma_reset_wf(self@);
        }
        self.port_a.reset();
        self.port_a.set_external(PASSIVE_LEVEL);
        self.port_b.reset();
        self.port_b.set_external(PASSIVE_LEVEL);
        self.timer_a.reset();
        self.timer_b.reset();
        self.tod_set_alarm = false;
        self.int_control.reset();
        self.clear_interrupt();
        self.cia_io.reset();
    }

    /// Advances the time-of-day clock by one tick and raises the alarm if
    /// the clock then shows the alarm time.
    pub fn tod_tick(&mut self)
        requires
            old(self)@.wf(),
        ensures
            final(self)@ == old(self)@.tod_tick(),
            final(self)@.wf(),
    {
        proof {
            cia_state::lemma_tod_tick_wf(self@);
        }
        self.tod_clock.tick();
        if self.tod_clock == self.tod_alarm {
            self.int_control.set_event(EVENT_ALARM);
            self.raise_if_requested();
        }
    }

    /// Records the events of one cycle.
    fn record_events(
        int_control: &mut Icr,
        timer_a_underflow: bool,
        timer_b_underflow: bool,
        flag_falling: bool,
    )
        ensures
            final(int_control)@ == recorded(
                old(int_control)@,
                timer_a_underflow,
                timer_b_underflow,
                flag_falling,
            ),
    {
        if timer_a_underflow {
            int_control.set_event(EVENT_TIMER_A);
        }
        if timer_b_underflow {
            int_control.set_event(EVENT_TIMER_B);
        }
        if flag_falling {
            int_control.set_event(EVENT_FLAG);
        }
    }

    /// One cycle of a timer, with the stop that follows a one-shot
    /// underflow.
    fn advance_timer(timer: &mut Timer, pulse: u16) -> (underflow: bool)
        requires
            pulse <= 1,
        ensures
            *final(timer) == advance(*old(timer), pulse == 1),
            underflow == old(timer).underflows(pulse == 1),
    {
        let underflow = timer.update(pulse);
        if underflow && timer.mode == timer::Mode::OneShot {
            timer.enabled = false;
        }
        underflow
    }

    fn read_cia1_port_a(&self) -> (r: u8)
        requires
            self@.mode == Mode::Cia1,
        ensures
            r == self@.read_port_a(),
    {
        let joystick = Self::scan_joystick(&self.joystick_2);
        self.port_a.get_value() & joystick
    }

    fn read_cia1_port_b(&self) -> (r: u8)
        requires
            self@.mode == Mode::Cia1,
        ensures
            r == self@.read_port_b(),
    {
        let select = self.port_a.get_value();
        let keyboard = if select == 0x00 {
            0x00
        } else if select == 0xff {
            0xff
        } else {
            self.scan_keyboard(!select)
        };
        let joystick = Self::scan_joystick(&self.joystick_1);
        self.port_b.get_value() & keyboard & joystick
    }

    fn read_cia2_port_a(&self) -> (r: u8)
        requires
            self@.mode == Mode::Cia2,
        ensures
            r == self@.read_port_a(),
    {
        self.port_a.get_value()
    }

    fn read_cia2_port_b(&self) -> (r: u8)
        requires
            self@.mode == Mode::Cia2,
        ensures
            r == self@.read_port_b(),
    {
        self.port_b.get_value()
    }

    /// What a joystick puts on a port.
    fn scan_joystick(joystick: &Option<Joystick>) -> (r: u8)
        ensures
            r == joystick_mask(joystick_view(*joystick)),
    {
        match joystick {
            Some(joy) => {
                let joy_up = bit::value(0, joy.get_y_axis() == AxisMotion::Positive);
                let joy_down = bit::value(1, joy.get_y_axis() == AxisMotion::Negative);
                let joy_left = bit::value(2, joy.get_x_axis() == AxisMotion::Negative);
                let joy_right = bit::value(3, joy.get_x_axis() == AxisMotion::Positive);
                let joy_fire = bit::value(4, joy.get_button());
                !(joy_up | joy_down | joy_left | joy_right | joy_fire)
            },
            None => 0xff,
        }
    }

    /// The states of the selected keyboard rows, or-ed together.
    fn scan_keyboard(&self, columns: u8) -> (r: u8)
        ensures
            r == scan_rows(columns, self@.keyboard, 8),
    {
        let mut result: u8 = 0;
        let mut i: u8 = 0;
        while i < 8
            invariant
                i <= 8,
                result == scan_rows(columns, self@.keyboard, i as nat),
            decreases 8 - i,
        {
            if bit::test(columns, i) {
                result = result | self.keyboard.get_row(i);
            }
            i = i + 1;
        }
        result
    }

    fn clear_interrupt(&mut self)
        ensures
            final(self)@ == old(self)@.clear_interrupt(),
    {
        match self.mode {
            Mode::Cia1 => self.cpu_io.irq.clear(Source::Cia),
            Mode::Cia2 => self.cpu_io.nmi.clear(Source::Cia),
        }
        self.int_triggered = false;
    }

    fn trigger_interrupt(&mut self)
        ensures
            final(self)@ == old(self)@.trigger_interrupt(),
    {
        match self.mode {
            Mode::Cia1 => self.cpu_io.irq.set(Source::Cia),
            Mode::Cia2 => self.cpu_io.nmi.set(Source::Cia),
        }
        self.int_triggered = true;
    }

    fn raise_if_requested(&mut self)
        ensures
            final(self)@ == old(self)@.raise_if_requested(),
    {
        if self.int_control.get_interrupt_request() && !self.int_triggered {
            self.trigger_interrupt();
        }
    }

    /// The low byte of a timer's counter.
    fn read_timer_low(timer: &Timer) -> (r: u8)
        ensures
            r == cia_state::low_byte(timer.value),
    {
        proof {
            lemma_word_bytes(timer.value, 0);
        }
        (timer.value & 0xff) as u8
    }

    /// The high byte of a timer's counter.
    fn read_timer_high(timer: &Timer) -> (r: u8)
        ensures
            r == cia_state::high_byte(timer.value),
    {
        proof {
            lemma_word_bytes(timer.value, 0);
        }
        (timer.value >> 8) as u8
    }

    /// The control register of a timer, without its input bits.
    fn read_control(timer: &Timer) -> (r: u8)
        ensures
            r == cia_state::control_bits(*timer),
    {
        let timer_enabled = bit::value(0, timer.enabled);
        let timer_output = bit::value(1, timer.output_enabled);
        let timer_output_mode = bit::value(2, timer.output == timer::Output::Toggle);
        let timer_mode = bit::value(3, timer.mode == timer::Mode::OneShot);
        timer_enabled | timer_output | timer_output_mode | timer_mode
    }

    /// Reads the interrupt data register, which forgets the events and
    /// lets go of the interrupt line.
    fn read_int_data(&mut self) -> (data: u8)
        ensures
            data == old(self)@.int_control.data(),
            final(self)@ == old(self)@.after_read(Reg::ICR),
    {
        let data = self.int_control.get_data();
        self.int_control.clear();
        self.clear_interrupt();
        data
    }

    /// Reads the register at bus address `reg`.
    pub fn read(&mut self, reg: u8) -> (value: u8)
        requires
            reg <= 0x0f,
            old(self)@.wf(),
        ensures
            value == old(self)@.read_value(Reg::at(reg)),
            final(self)@ == old(self)@.after_read(Reg::at(reg)),
            final(self)@.wf(),
    {
        proof {
            cia_state::lemma_after_read_wf(self@, Reg::at(reg));
        }
        match Reg::from(reg) {
            Reg::PRA => match self.mode {
                Mode::Cia1 => self.read_cia1_port_a(),
                Mode::Cia2 => self.read_cia2_port_a(),
            },
            Reg::PRB => match self.mode {
                Mode::Cia1 => self.read_cia1_port_b(),
                Mode::Cia2 => self.read_cia2_port_b(),
            },
            Reg::DDRA => self.port_a.get_direction(),
            Reg::DDRB => self.port_b.get_direction(),
            Reg::TALO => Self::read_timer_low(&self.timer_a),
            Reg::TAHI => Self::read_timer_high(&self.timer_a),
            Reg::TBLO => Self::read_timer_low(&self.timer_b),
            Reg::TBHI => Self::read_timer_high(&self.timer_b),
            Reg::TODTS => {
                self.tod_clock.set_enabled(true);
                bcd::to_bcd(self.tod_clock.get_tenth())
            },
            Reg::TODSEC => bcd::to_bcd(self.tod_clock.get_seconds()),
            Reg::TODMIN => bcd::to_bcd(self.tod_clock.get_minutes()),
            Reg::TODHR => bit::set(
                bcd::to_bcd(self.tod_clock.get_hours()),
                7,
                self.tod_clock.get_pm(),
            ),
            Reg::SDR => 0,
            Reg::ICR => self.read_int_data(),
            Reg::CRA => {
                let timer_input = match self.timer_a.input {
                    timer::Input::SystemClock => 0,
                    timer::Input::External => bit::value(5, true),
                    _ => vstd::pervasive::unreached(),
                };
                Self::read_control(&self.timer_a) | timer_input
            },
            Reg::CRB => {
                let timer_input = match self.timer_b.input {
                    timer::Input::SystemClock => 0,
                    timer::Input::External => bit::value(5, true),
                    timer::Input::TimerA => bit::value(6, true),
                    timer::Input::TimerAWithCNT => bit::value(6, true) | bit::value(7, true),
                };
                let tod_set = bit::value(7, self.tod_set_alarm);
                Self::read_control(&self.timer_b) | timer_input | tod_set
            },
        }
    }

    /// Writes the low byte of a timer's latch.
    fn write_latch_low(timer: &mut Timer, value: u8)
        ensures
            *final(timer) == cia_state::with_latch_low(*old(timer), value),
    {
        proof {
            lemma_word_bytes(timer.latch, value);
        }
        let result = (timer.latch & 0xff00) | (value as u16);
        timer.latch = result;
    }

    /// Writes the high byte of a timer's latch; a stopped timer takes the
    /// latch into its counter.
    fn write_latch_high(timer: &mut Timer, value: u8)
        ensures
            *final(timer) == cia_state::with_latch_high(*old(timer), value),
    {
        proof {
            lemma_word_bytes(timer.latch, value);
        }
        let result = ((value as u16) << 8) | (timer.latch & 0x00ff);
        timer.latch = result;
        if !timer.enabled {
            timer.value = result;
        }
    }

    /// Writes the control bits that both timers share.
    fn write_control(timer: &mut Timer, value: u8)
        ensures
            *final(timer) == cia_state::configured(*old(timer), value),
    {
        timer.enabled = bit::test(value, 0);
        timer.mode = if bit::test(value, 3) {
            timer::Mode::OneShot
        } else {
            timer::Mode::Continuous
        };
        if bit::test(value, 4) {
            timer.value = timer.latch;
        }
    }

    /// The input that a byte written to the control register of timer B
    /// selects.
    fn select_input_b(value: u8) -> (input: timer::Input)
        ensures
            input == cia_state::selected_input_b(value),
    {
        proof {
            lemma_input_selector(value);
        }
        let selector = (value & 0x60) >> 5;
        match timer::Input::from_selector(selector) {
            Some(input) => input,
            None => vstd::pervasive::unreached(),
        }
    }

    /// Writes the tenths of the clock or the alarm; the clock runs again
    /// once its tenths are written.
    fn write_tod_tenth(&mut self, value: u8)
        ensures
            final(self)@ == old(self)@.write(Reg::TODTS, value),
    {
        let tenth = bcd::from_bcd(value & 0x0f);
        if !self.tod_set_alarm {
            self.tod_clock.set_tenth(tenth);
            self.tod_clock.set_enabled(true);
        } else {
            self.tod_alarm.set_tenth(tenth);
        }
    }

    /// Writes the seconds of the clock or the alarm.
    fn write_tod_seconds(&mut self, value: u8)
        ensures
            final(self)@ == old(self)@.write(Reg::TODSEC, value),
    {
        let seconds = bcd::from_bcd(value & 0x7f);
        if !self.tod_set_alarm {
            self.tod_clock.set_seconds(seconds);
        } else {
            self.tod_alarm.set_seconds(seconds);
        }
    }

    /// Writes the minutes of the clock or the alarm.
    fn write_tod_minutes(&mut self, value: u8)
        ensures
            final(self)@ == old(self)@.write(Reg::TODMIN, value),
    {
        let minutes = bcd::from_bcd(value & 0x7f);
        if !self.tod_set_alarm {
            self.tod_clock.set_minutes(minutes);
        } else {
            self.tod_alarm.set_minutes(minutes);
        }
    }

    /// Writes hour and AM/PM flag of the clock or the alarm, and stops
    /// the registers written to.
    fn write_tod_hours(&mut self, value: u8)
        ensures
            final(self)@ == old(self)@.write(Reg::TODHR, value),
    {
        let hours = bcd::from_bcd(value & 0x7f);
        let pm = bit::test(value, 7);
        if !self.tod_set_alarm {
            self.tod_clock.set_enabled(false);
            self.tod_clock.set_hours(hours);
            self.tod_clock.set_pm(pm);
        } else {
            self.tod_alarm.set_enabled(false);
            self.tod_alarm.set_hours(hours);
            self.tod_alarm.set_pm(pm);
        }
    }

    /// Writes `value` to the register at bus address `reg`.
    pub fn write(&mut self, reg: u8, value: u8)
        requires
            reg <= 0x0f,
            old(self)@.wf(),
        ensures
            final(self)@ == old(self)@.write(Reg::at(reg), value),
            final(self)@.wf(),
    {
        proof {
            cia_state::lemma_write_wf(self@, Reg::at(reg), value);
        }
        match Reg::from(reg) {
            Reg::PRA => {
                self.port_a.set_value(value);
            },
            Reg::PRB => {
                self.port_b.set_value(value);
            },
            Reg::DDRA => {
                self.port_a.set_direction(value);
            },
            Reg::DDRB => {
                self.port_b.set_direction(value);
            },
            Reg::TALO => {
                Self::write_latch_low(&mut self.timer_a, value);
            },
            Reg::TAHI => {
                Self::write_latch_high(&mut self.timer_a, value);
            },
            Reg::TBLO => {
                Self::write_latch_low(&mut self.timer_b, value);
            },
            Reg::TBHI => {
                Self::write_latch_high(&mut self.timer_b, value);
            },
            Reg::TODTS => {
                self.write_tod_tenth(value);
            },
            Reg::TODSEC => {
                self.write_tod_seconds(value);
            },
            Reg::TODMIN => {
                self.write_tod_minutes(value);
            },
            Reg::TODHR => {
                self.write_tod_hours(value);
            },
            Reg::SDR => {},
            Reg::ICR => {
                self.int_control.update_mask(value);
                self.raise_if_requested();
            },
            Reg::CRA => {
                Self::write_control(&mut self.timer_a, value);
                self.timer_a.input = if bit::test(value, 5) {
                    timer::Input::External
                } else {
                    timer::Input::SystemClock
                };
            },
            Reg::CRB => {
                Self::write_control(&mut self.timer_b, value);
                self.timer_b.input = Self::select_input_b(value);
                self.tod_set_alarm = bit::test(value, 7);
            },
        }
    }
}

} // verus!
