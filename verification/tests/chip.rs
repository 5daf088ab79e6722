use zinc64::cpu::interrupt_line::Source;
use zinc64::cpu::CpuIo;
use zinc64::device::joystick::AxisMotion;
use zinc64::device::{Joystick, Keyboard};
use zinc64::io::cia::{CiaIo, Mode, Reg};
use zinc64::io::timer;
use zinc64::io::Cia;

fn new_cia(mode: Mode) -> Cia {
    let mut cia = Cia::new(mode, CiaIo::new(), CpuIo::new(), None, None, Keyboard::new());
    cia.reset();
    cia
}

#[test]
fn reg_addresses_round_trip() {
    let mut addr: u8 = 0;
    while addr <= 0x0f {
        assert_eq!(addr, Reg::from(addr).addr());
        addr += 1;
    }
    assert_eq!(Reg::TODHR, Reg::from(0x0b));
    assert_eq!(Reg::ICR, Reg::from(0x0d));
}

#[test]
fn high_byte_write_loads_stopped_timer() {
    let mut cia = new_cia(Mode::Cia1);
    cia.write(Reg::TALO.addr(), 0x34);
    cia.write(Reg::TAHI.addr(), 0x12);
    assert_eq!(0x1234, cia.get_timer_a().latch);
    assert_eq!(0x1234, cia.get_timer_a().value);
    assert_eq!(0x34, cia.read(Reg::TALO.addr()));
    assert_eq!(0x12, cia.read(Reg::TAHI.addr()));
}

#[test]
fn high_byte_write_leaves_running_timer() {
    let mut cia = new_cia(Mode::Cia1);
    cia.write(Reg::TBLO.addr(), 0x10);
    cia.write(Reg::TBHI.addr(), 0x00);
    cia.write(Reg::CRB.addr(), 0x01);
    cia.write(Reg::TBLO.addr(), 0x78);
    cia.write(Reg::TBHI.addr(), 0x56);
    assert_eq!(0x5678, cia.get_timer_b().latch);
    assert_eq!(0x0010, cia.get_timer_b().value);
}

#[test]
fn continuous_timer_a_with_latch_one() {
    let mut cia = new_cia(Mode::Cia1);
    cia.write(Reg::TALO.addr(), 0x01);
    cia.write(Reg::TAHI.addr(), 0x00);
    cia.write(Reg::ICR.addr(), 0x81);
    cia.write(Reg::CRA.addr(), 0b00010001u8);
    assert_eq!(timer::Mode::Continuous, cia.get_timer_a().mode);
    cia.clock();
    assert_eq!(false, cia.get_cpu_io().irq.is_low());
    assert_eq!(0, cia.get_timer_a().value);
    cia.clock();
    assert_eq!(true, cia.get_cpu_io().irq.is_low());
    assert_eq!(true, cia.get_cpu_io().irq.is_set(Source::Cia));
    assert_eq!(1, cia.get_timer_a().value);
    assert_eq!(true, cia.get_timer_a().enabled);
    assert_eq!(0x81, cia.read(Reg::ICR.addr()));
}

#[test]
fn one_shot_timer_stops_after_underflow() {
    let mut cia = new_cia(Mode::Cia1);
    cia.write(Reg::TALO.addr(), 0x02);
    cia.write(Reg::TAHI.addr(), 0x00);
    cia.write(Reg::CRA.addr(), 0b00011001u8);
    cia.clock();
    cia.clock();
    assert_eq!(true, cia.get_timer_a().enabled);
    cia.clock();
    assert_eq!(false, cia.get_timer_a().enabled);
    assert_eq!(2, cia.get_timer_a().value);
    assert_eq!(0x01, cia.get_int_control().get_raw_data());
    assert_eq!(false, cia.is_int_triggered());
}

#[test]
fn masked_event_is_recorded_without_interrupt() {
    let mut cia = new_cia(Mode::Cia1);
    cia.write(Reg::TALO.addr(), 0x00);
    cia.write(Reg::TAHI.addr(), 0x00);
    cia.write(Reg::CRA.addr(), 0x01);
    cia.clock();
    assert_eq!(false, cia.get_cpu_io().irq.is_low());
    assert_eq!(0x01, cia.get_int_control().get_data());
    cia.write(Reg::ICR.addr(), 0x81);
    assert_eq!(true, cia.get_cpu_io().irq.is_low());
}

#[test]
fn second_adapter_drives_nmi() {
    let mut cia = new_cia(Mode::Cia2);
    cia.write(Reg::TALO.addr(), 0x00);
    cia.write(Reg::TAHI.addr(), 0x00);
    cia.write(Reg::ICR.addr(), 0x81);
    cia.write(Reg::CRA.addr(), 0x01);
    cia.clock();
    assert_eq!(false, cia.get_cpu_io().irq.is_low());
    assert_eq!(true, cia.get_cpu_io().nmi.is_low());
}

#[test]
fn timer_b_counts_timer_a_underflows() {
    let mut cia = new_cia(Mode::Cia1);
    cia.write(Reg::TALO.addr(), 0x00);
    cia.write(Reg::TAHI.addr(), 0x00);
    cia.write(Reg::TBLO.addr(), 0x02);
    cia.write(Reg::TBHI.addr(), 0x00);
    cia.write(Reg::CRB.addr(), 0b01000001u8);
    assert_eq!(timer::Input::TimerA, cia.get_timer_b().input);
    cia.clock();
    assert_eq!(2, cia.get_timer_b().value);
    cia.write(Reg::CRA.addr(), 0x01);
    cia.clock();
    assert_eq!(1, cia.get_timer_b().value);
    cia.clock();
    assert_eq!(0, cia.get_timer_b().value);
    cia.clock();
    assert_eq!(2, cia.get_timer_b().value);
    assert_eq!(0x03, cia.get_int_control().get_raw_data());
}

#[test]
fn external_input_counts_rising_edges_of_cnt() {
    let mut cia = new_cia(Mode::Cia1);
    cia.write(Reg::TALO.addr(), 0x05);
    cia.write(Reg::TAHI.addr(), 0x00);
    cia.write(Reg::CRA.addr(), 0b00100001u8);
    cia.clock();
    assert_eq!(5, cia.get_timer_a().value);
    cia.get_cia_io_mut().cnt.set(false);
    cia.clock();
    assert_eq!(5, cia.get_timer_a().value);
    cia.get_cia_io_mut().cnt.set(true);
    cia.clock();
    assert_eq!(4, cia.get_timer_a().value);
    cia.get_cia_io_mut().cnt.set(true);
    cia.clock();
    assert_eq!(4, cia.get_timer_a().value);
}

#[test]
fn chained_input_with_cnt_needs_cnt_high() {
    let mut cia = new_cia(Mode::Cia1);
    cia.write(Reg::TALO.addr(), 0x00);
    cia.write(Reg::TAHI.addr(), 0x00);
    cia.write(Reg::TBLO.addr(), 0x09);
    cia.write(Reg::TBHI.addr(), 0x00);
    cia.write(Reg::CRA.addr(), 0x01);
    cia.write(Reg::CRB.addr(), 0b01100001u8);
    assert_eq!(timer::Input::TimerAWithCNT, cia.get_timer_b().input);
    cia.get_cia_io_mut().cnt.set(false);
    cia.clock();
    assert_eq!(9, cia.get_timer_b().value);
    cia.get_cia_io_mut().cnt.set(true);
    cia.clock();
    assert_eq!(8, cia.get_timer_b().value);
    assert_eq!(0xc1, cia.read(Reg::CRB.addr()));
}

#[test]
fn falling_flag_raises_event_four() {
    let mut cia = new_cia(Mode::Cia1);
    cia.write(Reg::ICR.addr(), 0x90);
    cia.get_cia_io_mut().flag.set(true);
    cia.clock();
    assert_eq!(0x00, cia.get_int_control().get_raw_data());
    cia.get_cia_io_mut().flag.set(false);
    cia.clock();
    assert_eq!(0x10, cia.get_int_control().get_raw_data());
    assert_eq!(true, cia.get_cpu_io().irq.is_low());
}

#[test]
fn mask_set_then_clear() {
    let mut cia = new_cia(Mode::Cia1);
    cia.write(Reg::ICR.addr(), 0x80 | 0x14);
    assert_eq!(0x14, cia.get_int_control().get_mask());
    cia.write(Reg::ICR.addr(), 0x80 | 0x03);
    assert_eq!(0x17, cia.get_int_control().get_mask());
    cia.write(Reg::ICR.addr(), 0x03);
    assert_eq!(0x14, cia.get_int_control().get_mask());
    cia.write(Reg::ICR.addr(), 0x80 | 0x60);
    assert_eq!(0x74, cia.get_int_control().get_mask());
}

#[test]
fn interrupt_data_read_clears() {
    let mut cia = new_cia(Mode::Cia1);
    cia.write(Reg::TALO.addr(), 0x00);
    cia.write(Reg::TAHI.addr(), 0x00);
    cia.write(Reg::ICR.addr(), 0x81);
    cia.write(Reg::CRA.addr(), 0x01);
    cia.clock();
    assert_eq!(true, cia.is_int_triggered());
    assert_eq!(0x81, cia.read(Reg::ICR.addr()));
    assert_eq!(0x00, cia.get_int_control().get_raw_data());
    assert_eq!(0x01, cia.get_int_control().get_mask());
    assert_eq!(false, cia.get_cpu_io().irq.is_low());
    assert_eq!(false, cia.is_int_triggered());
    assert_eq!(0x00, cia.read(Reg::ICR.addr()));
}

#[test]
fn tod_carries_tenths_into_seconds() {
    let mut cia = new_cia(Mode::Cia1);
    cia.write(Reg::TODHR.addr(), 0x01);
    cia.write(Reg::TODMIN.addr(), 0x00);
    cia.write(Reg::TODSEC.addr(), 0x58);
    cia.write(Reg::TODTS.addr(), 0x09);
    let mut i = 0;
    while i < 10 {
        cia.tod_tick();
        i += 1;
    }
    assert_eq!(0x59, cia.read(Reg::TODSEC.addr()));
    assert_eq!(0x09, cia.read(Reg::TODTS.addr()));
    cia.tod_tick();
    assert_eq!(0x01, cia.read(Reg::TODMIN.addr()));
    assert_eq!(0x00, cia.read(Reg::TODSEC.addr()));
    assert_eq!(0x00, cia.read(Reg::TODTS.addr()));
    assert_eq!(0x01, cia.read(Reg::TODHR.addr()));
}

#[test]
fn tod_alarm_raises_event_two_once() {
    let mut cia = new_cia(Mode::Cia1);
    cia.write(Reg::ICR.addr(), 0x84);
    // the alarm: 1:00:00.3 am
    cia.write(Reg::CRB.addr(), 0x80);
    cia.write(Reg::TODHR.addr(), 0x01);
    cia.write(Reg::TODMIN.addr(), 0x00);
    cia.write(Reg::TODSEC.addr(), 0x00);
    cia.write(Reg::TODTS.addr(), 0x03);
    // the clock: 1:00:00.0 am
    cia.write(Reg::CRB.addr(), 0x00);
    cia.write(Reg::TODHR.addr(), 0x01);
    cia.write(Reg::TODMIN.addr(), 0x00);
    cia.write(Reg::TODSEC.addr(), 0x00);
    cia.write(Reg::TODTS.addr(), 0x00);
    let mut raised = 0;
    let mut i = 0;
    while i < 20 {
        cia.tod_tick();
        if cia.get_cpu_io().irq.is_low() {
            raised += 1;
            assert_eq!(3, cia.get_tod_clock().get_tenth());
            assert_eq!(0x84, cia.read(Reg::ICR.addr()));
        }
        i += 1;
    }
    assert_eq!(1, raised);
}

#[test]
fn tod_hours_write_stops_clock_until_tenths_written() {
    let mut cia = new_cia(Mode::Cia1);
    cia.write(Reg::TODHR.addr(), 0x91);
    assert_eq!(false, cia.get_tod_clock().is_enabled());
    assert_eq!(11, cia.get_tod_clock().get_hours());
    assert_eq!(true, cia.get_tod_clock().get_pm());
    cia.tod_tick();
    assert_eq!(0, cia.get_tod_clock().get_tenth());
    cia.write(Reg::TODTS.addr(), 0x05);
    assert_eq!(true, cia.get_tod_clock().is_enabled());
    cia.tod_tick();
    assert_eq!(6, cia.get_tod_clock().get_tenth());
    assert_eq!(0x91, cia.read(Reg::TODHR.addr()));
}

#[test]
fn tod_writes_go_to_alarm_when_selected() {
    let mut cia = new_cia(Mode::Cia1);
    cia.write(Reg::CRB.addr(), 0x80);
    cia.write(Reg::TODMIN.addr(), 0x42);
    cia.write(Reg::TODTS.addr(), 0x07);
    assert_eq!(42, cia.get_tod_alarm().get_minutes());
    assert_eq!(7, cia.get_tod_alarm().get_tenth());
    assert_eq!(0, cia.get_tod_clock().get_minutes());
    assert_eq!(0x80, cia.read(Reg::CRB.addr()));
}

#[test]
fn single_row_scan_ignores_other_rows() {
    let mut cia = new_cia(Mode::Cia1);
    cia.get_keyboard_mut().set_key(3, 2, true);
    cia.get_keyboard_mut().set_key(3, 6, true);
    cia.get_keyboard_mut().set_key(5, 0, true);
    cia.write(Reg::DDRA.addr(), 0xff);
    cia.write(Reg::DDRB.addr(), 0x00);
    cia.write(Reg::PRA.addr(), !(1u8 << 3));
    assert_eq!(!0b01000100u8, cia.read(Reg::PRB.addr()));
    cia.write(Reg::PRA.addr(), !(1u8 << 5));
    assert_eq!(!0b00000001u8, cia.read(Reg::PRB.addr()));
    cia.write(Reg::PRA.addr(), !(1u8 << 4));
    assert_eq!(0xff, cia.read(Reg::PRB.addr()));
}

#[test]
fn keyboard_scan_shortcuts() {
    let mut cia = new_cia(Mode::Cia1);
    cia.get_keyboard_mut().set_key(0, 0, true);
    cia.write(Reg::DDRA.addr(), 0xff);
    cia.write(Reg::PRA.addr(), 0xff);
    assert_eq!(0xff, cia.read(Reg::PRB.addr()));
    cia.write(Reg::PRA.addr(), 0x00);
    assert_eq!(0x00, cia.read(Reg::PRB.addr()));
}

#[test]
fn joysticks_pull_port_lines_low() {
    let mut stick_1 = Joystick::new();
    stick_1.set_button(true);
    stick_1.set_x_axis(AxisMotion::Negative);
    let mut stick_2 = Joystick::new();
    stick_2.set_y_axis(AxisMotion::Positive);
    stick_2.set_x_axis(AxisMotion::Positive);
    let mut cia = Cia::new(
        Mode::Cia1,
        CiaIo::new(),
        CpuIo::new(),
        Some(stick_1),
        Some(stick_2),
        Keyboard::new(),
    );
    cia.reset();
    assert_eq!(!0b00001001u8, cia.read(Reg::PRA.addr()));
    assert_eq!(!0b00010100u8, cia.read(Reg::PRB.addr()));
    cia.set_joystick_1(None);
    assert_eq!(0xff, cia.read(Reg::PRB.addr()));
}

#[test]
fn second_adapter_ports_are_plain() {
    let mut stick = Joystick::new();
    stick.set_button(true);
    let mut keyboard = Keyboard::new();
    keyboard.set_row(2, 0x00);
    let mut cia = Cia::new(Mode::Cia2, CiaIo::new(), CpuIo::new(), Some(stick), None, keyboard);
    cia.reset();
    cia.write(Reg::DDRA.addr(), 0x0f);
    cia.write(Reg::PRA.addr(), 0xa5);
    cia.get_port_a_mut().set_external(0x3c);
    assert_eq!(0x35, cia.read(Reg::PRA.addr()));
    cia.get_port_b_mut().set_external(0x5a);
    assert_eq!(0x5a, cia.read(Reg::PRB.addr()));
}

#[test]
fn reset_restores_defaults() {
    let mut cia = new_cia(Mode::Cia1);
    cia.write(Reg::DDRA.addr(), 0xff);
    cia.write(Reg::PRA.addr(), 0x12);
    cia.write(Reg::DDRB.addr(), 0xf0);
    cia.write(Reg::TALO.addr(), 0x00);
    cia.write(Reg::TAHI.addr(), 0x00);
    cia.write(Reg::ICR.addr(), 0x9f);
    cia.write(Reg::CRA.addr(), 0x01);
    cia.write(Reg::CRB.addr(), 0x81);
    cia.get_cia_io_mut().flag.set(true);
    cia.get_cia_io_mut().cnt.set(false);
    cia.clock();
    assert_eq!(true, cia.get_cpu_io().irq.is_low());
    cia.reset();
    assert_eq!(0x00, cia.get_port_a().get_direction());
    assert_eq!(0x00, cia.get_port_b().get_direction());
    assert_eq!(0xff, cia.get_port_a().get_value());
    assert_eq!(0xff, cia.get_port_b().get_value());
    assert_eq!(false, cia.get_timer_a().enabled);
    assert_eq!(false, cia.get_timer_b().enabled);
    assert_eq!(0xffff, cia.get_timer_a().latch);
    assert_eq!(0xffff, cia.get_timer_b().latch);
    assert_eq!(0x0000, cia.get_timer_a().value);
    assert_eq!(0x00, cia.get_int_control().get_raw_data());
    assert_eq!(0x00, cia.get_int_control().get_mask());
    assert_eq!(false, cia.get_cpu_io().irq.is_low());
    assert_eq!(false, cia.is_int_triggered());
    assert_eq!(true, cia.get_cia_io().cnt.is_high());
    assert_eq!(true, cia.get_cia_io().flag.is_low());
    assert_eq!(0x08, cia.read(Reg::CRB.addr()));
}
