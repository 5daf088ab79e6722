use zinc64::cpu::CpuIo;
use zinc64::device::Keyboard;
use zinc64::io::cia::{CiaIo, Mode, Reg};
use zinc64::io::timer;
use zinc64::io::Cia;

fn setup_cia() -> Cia {
    let cpu_io = CpuIo::new();
    let cia_io = CiaIo::new();
    let mut keyboard = Keyboard::new();
    keyboard.reset();
    let mut cia = Cia::new(Mode::Cia1, cia_io, cpu_io, None, None, keyboard);
    cia.reset();
    cia
}

#[test]
fn read_regs() {
    let mut cia = setup_cia();
    assert_eq!(0xff, cia.read(Reg::PRA.addr()));
    assert_eq!(0xff, cia.read(Reg::PRB.addr()));
    assert_eq!(0x00, cia.read(Reg::DDRA.addr()));
    assert_eq!(0x00, cia.read(Reg::DDRB.addr()));
    assert_eq!(0x00, cia.read(Reg::TALO.addr()));
    assert_eq!(0x00, cia.read(Reg::TAHI.addr()));
    assert_eq!(0x00, cia.read(Reg::TBLO.addr()));
    assert_eq!(0x00, cia.read(Reg::TBHI.addr()));
    assert_eq!(0x00, cia.read(Reg::TODTS.addr()));
    assert_eq!(0x00, cia.read(Reg::TODSEC.addr()));
    assert_eq!(0x00, cia.read(Reg::TODMIN.addr()));
    assert_eq!(0x00, cia.read(Reg::TODHR.addr()));
    assert_eq!(0x00, cia.read(Reg::SDR.addr()));
    assert_eq!(0x00, cia.read(Reg::ICR.addr()));
    assert_eq!(0x08, cia.read(Reg::CRA.addr()));
    assert_eq!(0x08, cia.read(Reg::CRB.addr()));
}

#[test]
fn read_keyboard_s() {
    let mut cia = setup_cia();
    // The key S sits in row 1 of the matrix, on line 5.
    cia.get_keyboard_mut().set_key(1, 5, true);
    cia.write(Reg::DDRA.addr(), 0xff);
    cia.write(Reg::DDRB.addr(), 0x00);
    cia.write(Reg::PRA.addr(), 0xfd);
    assert_eq!(!(1 << 5), cia.read(Reg::PRB.addr()));
}

#[test]
fn trigger_timer_a_interrupt() {
    let mut cia = setup_cia();
    cia.write(Reg::TALO.addr(), 0x01);
    cia.write(Reg::TAHI.addr(), 0x00);
    cia.write(Reg::ICR.addr(), 0x81);
    cia.write(Reg::CRA.addr(), 0b00011001u8);
    cia.clock();
    assert_eq!(false, cia.get_cpu_io().irq.is_low());
    cia.clock();
    assert_eq!(true, cia.get_cpu_io().irq.is_low());
}

#[test]
fn trigger_timer_b_interrupt() {
    let mut cia = setup_cia();
    cia.write(Reg::TBLO.addr(), 0x01);
    cia.write(Reg::TBHI.addr(), 0x00);
    cia.write(Reg::ICR.addr(), 0x82);
    cia.write(Reg::CRB.addr(), 0b00011001u8);
    cia.clock();
    assert_eq!(false, cia.get_cpu_io().irq.is_low());
    cia.clock();
    assert_eq!(true, cia.get_cpu_io().irq.is_low());
}

#[test]
fn write_reg_0x00() {
    let mut cia = setup_cia();
    cia.write(Reg::PRA.addr(), 0xff);
    assert_eq!(0xff, cia.get_port_a().get_value());
}

#[test]
fn write_reg_0x01() {
    let mut cia = setup_cia();
    cia.write(Reg::PRB.addr(), 0xff);
    assert_eq!(0xff, cia.get_port_b().get_value());
}

#[test]
fn write_reg_0x02() {
    let mut cia = setup_cia();
    cia.write(Reg::DDRA.addr(), 0xff);
    assert_eq!(0xff, cia.get_port_a().get_direction());
}

#[test]
fn write_reg_0x03() {
    let mut cia = setup_cia();
    cia.write(Reg::DDRB.addr(), 0xff);
    assert_eq!(0xff, cia.get_port_b().get_direction());
}

#[test]
fn write_reg_0x04() {
    let mut cia = setup_cia();
    cia.write(Reg::TALO.addr(), 0xab);
    assert_eq!(0xab, cia.get_timer_a().latch & 0x00ff);
}

#[test]
fn write_reg_0x05() {
    let mut cia = setup_cia();
    cia.write(Reg::TAHI.addr(), 0xcd);
    assert_eq!(0xcd, (cia.get_timer_a().latch & 0xff00) >> 8);
}

#[test]
fn write_reg_0x06() {
    let mut cia = setup_cia();
    cia.write(Reg::TBLO.addr(), 0xab);
    assert_eq!(0xab, cia.get_timer_b().latch & 0x00ff);
}

#[test]
fn write_reg_0x07() {
    let mut cia = setup_cia();
    cia.write(Reg::TBHI.addr(), 0xcd);
    assert_eq!(0xcd, (cia.get_timer_b().latch & 0xff00) >> 8);
}

#[test]
fn write_reg_0x0d() {
    let mut cia = setup_cia();
    cia.write(Reg::ICR.addr(), 0b10000011u8);
    assert_eq!(0b00000011u8, cia.get_int_control().get_mask());
    cia.write(Reg::ICR.addr(), 0b00000010u8);
    assert_eq!(0b00000001u8, cia.get_int_control().get_mask());
}

#[test]
fn write_reg_0x0e() {
    let mut cia = setup_cia();
    cia.write(Reg::CRA.addr(), 0b00101001u8);
    assert_eq!(true, cia.get_timer_a().enabled);
    assert_eq!(timer::Mode::OneShot, cia.get_timer_a().mode);
    assert_eq!(timer::Input::External, cia.get_timer_a().input);
}

#[test]
fn write_reg_0x0f() {
    let mut cia = setup_cia();
    cia.write(Reg::CRB.addr(), 0b00101001u8);
    assert_eq!(true, cia.get_timer_b().enabled);
    assert_eq!(timer::Mode::OneShot, cia.get_timer_b().mode);
    assert_eq!(timer::Input::External, cia.get_timer_b().input);
}

#[test]
fn write_timer_a_value() {
    let mut cia = setup_cia();
    cia.write(Reg::TALO.addr(), 0xab);
    assert_eq!(0x00, cia.get_timer_a().value);
    cia.write(Reg::TAHI.addr(), 0xcd);
    assert_eq!(0xcdab, cia.get_timer_a().value);
}

#[test]
fn write_timer_b_value() {
    let mut cia = setup_cia();
    cia.write(Reg::TBLO.addr(), 0xab);
    assert_eq!(0x00, cia.get_timer_b().value);
    cia.write(Reg::TBHI.addr(), 0xcd);
    assert_eq!(0xcdab, cia.get_timer_b().value);
}
