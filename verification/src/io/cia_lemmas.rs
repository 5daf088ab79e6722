//! What follows from the chip's state machine, for every state.

use vstd::prelude::*;
use crate::cpu::interrupt_line::Source;
use crate::device::keyboard::pressed_keys;
use crate::io::cia::{Mode, Reg};
use crate::io::cia_state::{
    joystick_mask,
    scan_rows,
    CiaState,
    EVENT_ALARM,
    EVENT_FLAG,
    EVENT_TIMER_A,
    EVENT_TIMER_B,
};
use crate::io::timer::{RESET_LATCH, RESET_VALUE};
use crate::util::bit;
use crate::util::icr;
use crate::util::io_port;
use crate::util::io_port::PASSIVE_LEVEL;

verus! {

/// Writing the high byte of a latch while its timer is stopped loads the
/// counter from the latch, and after the low byte and then the high byte
/// are written, latch and counter hold the 16-bit number that the two
/// bytes make.
pub proof fn lemma_latch_write_loads_stopped_timer(s: CiaState, low: u8, high: u8)
    ensures
        !s.timer_a.enabled ==> s.write(Reg::TAHI, high).timer_a.value == s.write(
            Reg::TAHI,
            high,
        ).timer_a.latch,
        !s.timer_b.enabled ==> s.write(Reg::TBHI, high).timer_b.value == s.write(
            Reg::TBHI,
            high,
        ).timer_b.latch,
        s.write(Reg::TALO, low).write(Reg::TAHI, high).timer_a.latch == high * 256 + low,
        s.write(Reg::TBLO, low).write(Reg::TBHI, high).timer_b.latch == high * 256 + low,
        !s.timer_a.enabled ==> s.write(Reg::TALO, low).write(Reg::TAHI, high).timer_a.value
            == high * 256 + low,
        !s.timer_b.enabled ==> s.write(Reg::TBLO, low).write(Reg::TBHI, high).timer_b.value
            == high * 256 + low,
        s.timer_a.enabled ==> s.write(Reg::TALO, low).write(Reg::TAHI, high).timer_a.value
            == s.timer_a.value,
        s.timer_b.enabled ==> s.write(Reg::TBLO, low).write(Reg::TBHI, high).timer_b.value
            == s.timer_b.value,
{
}

/// What a timer's counter registers show are the two bytes of the
/// counter.
pub proof fn lemma_counter_bytes(s: CiaState)
    ensures
        s.read_value(Reg::TAHI) * 256 + s.read_value(Reg::TALO) == s.timer_a.value,
        s.read_value(Reg::TBHI) * 256 + s.read_value(Reg::TBLO) == s.timer_b.value,
{
}

/// A timer that underflows records its event in the same cycle, and if
/// the mask lets the event through, the chip pulls its interrupt line low
/// in that cycle. A cycle without an underflow and without an edge on
/// FLAG changes neither the events nor the line.
pub proof fn lemma_underflow_interrupts(s: CiaState)
    requires
        s.wf(),
    ensures
        s.timer_a_underflows() ==> bit::is_set(s.clock().int_control.event, EVENT_TIMER_A),
        s.timer_b_underflows() ==> bit::is_set(s.clock().int_control.event, EVENT_TIMER_B),
        s.flag.is_falling() ==> bit::is_set(s.clock().int_control.event, EVENT_FLAG),
        s.timer_a_underflows() && bit::is_set(s.int_control.mask, EVENT_TIMER_A)
            ==> s.clock().int_triggered && s.clock().line().contains(Source::Cia),
        s.timer_b_underflows() && bit::is_set(s.int_control.mask, EVENT_TIMER_B)
            ==> s.clock().int_triggered && s.clock().line().contains(Source::Cia),
        s.flag.is_falling() && bit::is_set(s.int_control.mask, EVENT_FLAG)
            ==> s.clock().int_triggered && s.clock().line().contains(Source::Cia),
        !s.timer_a_underflows() && !s.timer_b_underflows() && !s.flag.is_falling() ==> s.clock().int_control
            == s.int_control && s.clock().int_triggered == s.int_triggered && s.clock().irq == s.irq
            && s.clock().nmi == s.nmi,
        s.clock().int_control.mask == s.int_control.mask,
{
    crate::io::cia_state::lemma_clock_wf(s);
    let e = s.int_control.event;
    let m = s.int_control.mask;
    let e2 = s.clock().int_control.event;
    let a = s.timer_a_underflows();
    let b = s.timer_b_underflows();
    let f = s.flag.is_falling();
    let ea = if a {
        e | (1u8 << 0u8)
    } else {
        e
    };
    let eb = if b {
        ea | (1u8 << 1u8)
    } else {
        ea
    };
    let ef = if f {
        eb | (1u8 << 4u8)
    } else {
        eb
    };
    assert(e2 == ef);
    assert((a ==> ef & (1u8 << 0u8) != 0) && (b ==> ef & (1u8 << 1u8) != 0) && (f ==> ef & (1u8
        << 4u8) != 0) && (a && m & (1u8 << 0u8) != 0 ==> ef & m != 0) && (b && m & (1u8 << 1u8) != 0
        ==> ef & m != 0) && (f && m & (1u8 << 4u8) != 0 ==> ef & m != 0)) by (bit_vector)
        requires
            ea == if a {
                e | (1u8 << 0u8)
            } else {
                e
            },
            eb == if b {
                ea | (1u8 << 1u8)
            } else {
                ea
            },
            ef == if f {
                eb | (1u8 << 4u8)
            } else {
                eb
            },
    ;
}

/// Writing the mask with the top bit set turns on exactly the mask bits
/// picked by the low seven bits of the byte; writing the same low bits
/// with the top bit clear turns exactly those off again. Mask bits that
/// were not picked keep their value, and no event is touched.
pub proof fn lemma_mask_set_then_clear(s: CiaState, m: u8)
    requires
        m < 0x80,
    ensures
        s.write(Reg::ICR, 0x80 | m).int_control.mask == s.int_control.mask | m,
        s.write(Reg::ICR, 0x80 | m).write(Reg::ICR, m).int_control.mask == s.int_control.mask
            & !m,
        s.write(Reg::ICR, 0x80 | m).int_control.event == s.int_control.event,
        s.write(Reg::ICR, 0x80 | m).write(Reg::ICR, m).int_control.event == s.int_control.event,
        forall|b: u8|
            b < 8 ==> #[trigger] bit::is_set(s.write(Reg::ICR, 0x80 | m).int_control.mask, b) == (
            bit::is_set(s.int_control.mask, b) || bit::is_set(m, b)),
        forall|b: u8|
            b < 8 ==> #[trigger] bit::is_set(
                s.write(Reg::ICR, 0x80 | m).write(Reg::ICR, m).int_control.mask,
                b,
            ) == (bit::is_set(s.int_control.mask, b) && !bit::is_set(m, b)),
{
    icr::lemma_mask_set_then_clear(s.int_control, m);
}

/// Once the mask is written, the chip pulls its line low if an event that
/// the new mask lets through is held.
pub proof fn lemma_mask_write_interrupts(s: CiaState, value: u8)
    requires
        s.wf(),
    ensures
        s.write(Reg::ICR, value).int_control.interrupt_request() ==> s.write(
            Reg::ICR,
            value,
        ).int_triggered && s.write(Reg::ICR, value).line().contains(Source::Cia),
{
    crate::io::cia_state::lemma_write_wf(s, Reg::ICR, value);
}

/// A read of the interrupt data register returns the events held, with
/// the top bit set exactly if an interrupt is requested; after it no
/// event is held, none is requested, and the chip has let go of its
/// interrupt line. The mask stays.
pub proof fn lemma_read_interrupt_data(s: CiaState)
    ensures
        s.read_value(Reg::ICR) & 0x7f == s.int_control.event & 0x7f,
        s.read_value(Reg::ICR) & 0x80 != 0 <==> s.int_control.interrupt_request(),
        s.int_control.event < 0x20 ==> s.read_value(Reg::ICR) == s.int_control.event
            + if s.int_control.interrupt_request() {
            0x80int
        } else {
            0int
        },
        s.after_read(Reg::ICR).int_control.event == 0,
        s.after_read(Reg::ICR).int_control.mask == s.int_control.mask,
        !s.after_read(Reg::ICR).int_control.interrupt_request(),
        !s.after_read(Reg::ICR).int_triggered,
        !s.after_read(Reg::ICR).line().contains(Source::Cia),
        s.after_read(Reg::ICR).read_value(Reg::ICR) == 0,
{
    icr::lemma_data_layout(s.int_control);
    icr::lemma_no_event_no_request(s.int_control.clear());
}

/// Whenever the clock, after a tick, shows the alarm time, the alarm
/// event is recorded, and the chip pulls its line low if the mask lets it
/// through; a tick that does not end on the alarm time records nothing.
pub proof fn lemma_alarm(s: CiaState)
    requires
        s.wf(),
    ensures
        s.tod_tick().tod_clock == s.tod_clock.tick(),
        s.tod_tick().tod_alarm == s.tod_alarm,
        s.tod_clock.tick().same_time(s.tod_alarm) ==> bit::is_set(
            s.tod_tick().int_control.event,
            EVENT_ALARM,
        ),
        s.tod_clock.tick().same_time(s.tod_alarm) && bit::is_set(s.int_control.mask, EVENT_ALARM)
            ==> s.tod_tick().int_triggered && s.tod_tick().line().contains(Source::Cia),
        !s.tod_clock.tick().same_time(s.tod_alarm) ==> s.tod_tick().int_control == s.int_control
            && s.tod_tick().int_triggered == s.int_triggered && s.tod_tick().irq == s.irq
            && s.tod_tick().nmi == s.nmi,
{
    crate::io::cia_state::lemma_tod_tick_wf(s);
    let e = s.int_control.event;
    let m = s.int_control.mask;
    assert((e | (1u8 << 2u8)) & (1u8 << 2u8) != 0 && (m & (1u8 << 2u8) != 0 ==> (e | (1u8 << 2u8))
        & m != 0)) by (bit_vector);
}

/// A row mask with one bit set picks the state of that row alone.
proof fn lemma_scan_single(row: u8, rows: Seq<u8>, n: nat)
    requires
        row < 8,
        n <= 8,
    ensures
        scan_rows(1u8 << row, rows, n) == if row < n {
            rows[row as int]
        } else {
            0u8
        },
    decreases n,
{
    if n > 0 {
        lemma_scan_single(row, rows, (n - 1) as nat);
        let j = (n - 1) as u8;
        let x = rows[row as int];
        assert((((1u8 << row) & (1u8 << j)) != 0) == (row == j) && 0u8 | x == x) by (bit_vector)
            requires
                row < 8,
                j < 8,
        ;
    }
}

/// With every line of port A an output and exactly one of them held low,
/// and every line of port B an input, a read of port B on the first
/// adapter gives the state of the selected keyboard row, whatever the
/// other rows hold, as far as no joystick and nothing else pulls a line
/// of port B low: the complement of the keys held down in that row.
pub proof fn lemma_single_row_scan(s: CiaState, row: u8)
    requires
        row < 8,
        s.mode == Mode::Cia1,
        s.port_a.direction == 0xff,
        s.port_a.value == !(1u8 << row),
        s.port_b.direction == 0x00,
    ensures
        s.keyboard_scan() == s.keyboard[row as int],
        s.read_value(Reg::PRB) == s.port_b.external & s.keyboard[row as int] & joystick_mask(
            s.joystick_1,
        ),
        s.port_b.external == PASSIVE_LEVEL && joystick_mask(s.joystick_1) == 0xff
            ==> s.read_value(Reg::PRB) == s.keyboard[row as int] && s.read_value(Reg::PRB)
            == !pressed_keys(s.keyboard[row as int]),
{
    io_port::lemma_effective_uniform(s.port_a);
    io_port::lemma_effective_uniform(s.port_b);
    lemma_scan_single(row, s.keyboard, 8);
    let x = s.keyboard[row as int];
    assert(!(1u8 << row) != 0x00 && !(1u8 << row) != 0xff && !!(1u8 << row) == 1u8 << row
        && 0xffu8 & x & 0xffu8 == x && !!x == x) by (bit_vector)
        requires
            row < 8,
    ;
}

/// After a reset both ports are inputs that read all ones, both timers
/// are stopped with their latches at the reset value, no event is held
/// and none let through, writes to the time of day go to the clock, and
/// the chip has let go of its interrupt line.
pub proof fn lemma_reset_state(s: CiaState)
    ensures
        s.reset().port_a.direction == 0 && s.reset().port_a.value == 0,
        s.reset().port_b.direction == 0 && s.reset().port_b.value == 0,
        s.reset().port_a.effective() == PASSIVE_LEVEL,
        s.reset().port_b.effective() == PASSIVE_LEVEL,
        !s.reset().timer_a.enabled && s.reset().timer_a.latch == RESET_LATCH
            && s.reset().timer_a.value == RESET_VALUE,
        !s.reset().timer_b.enabled && s.reset().timer_b.latch == RESET_LATCH
            && s.reset().timer_b.value == RESET_VALUE,
        s.reset().int_control.event == 0 && s.reset().int_control.mask == 0,
        !s.reset().int_control.interrupt_request(),
        !s.reset().tod_set_alarm,
        !s.reset().int_triggered,
        !s.reset().line().contains(Source::Cia),
        s.reset().tod_clock == s.tod_clock && s.reset().tod_alarm == s.tod_alarm,
        s.reset().wf(),
        s.reset().reset() == s.reset(),
{
    crate::io::cia_state::lemma_reset_wf(s);
    io_port::lemma_effective_uniform(s.reset().port_a);
    io_port::lemma_effective_uniform(s.reset().port_b);
    assert(s.reset().line().remove(Source::Cia) =~= s.reset().line());
}

} // verus!
