use std::rc::Rc;
use zinc64::clock::Clock;
use zinc64::cpu::interrupt_line::Source;
use zinc64::cpu::{CpuIo, InterruptLine};
use zinc64::device::Keyboard;
use zinc64::io::cia::{CiaIo, Mode};
use zinc64::io::timer::{Input, Timer};
use zinc64::io::timer;
use zinc64::loader::p00::{Error, Header};
use zinc64::loader::P00Loader;
use zinc64::system::c64_factory::SamplingMethod;
use zinc64::system::config::{SoundConfig, SystemModel};
use zinc64::system::{C64Factory, Config};
use zinc64::device::Joystick;
use zinc64::util::bcd;
use zinc64::util::bit;
use zinc64::util::{Icr, IoPort, Pin, Rtc};

#[test]
fn bit_helpers() {
    assert_eq!(0b0001_0000, bit::value(4, true));
    assert_eq!(0, bit::value(4, false));
    assert_eq!(0b1000_0001, bit::set(0b0000_0001, 7, true));
    assert_eq!(0b0000_0001, bit::set(0b1000_0001, 7, false));
    assert_eq!(true, bit::test(0b0100_0000, 6));
    assert_eq!(false, bit::test(0b0100_0000, 5));
}

#[test]
fn bcd_round_trip() {
    assert_eq!(59, bcd::from_bcd(0x59));
    assert_eq!(0x59, bcd::to_bcd(59));
    assert_eq!(0x00, bcd::to_bcd(0));
    assert_eq!(0x12, bcd::to_bcd(12));
    assert_eq!(85, bcd::from_bcd(0x7f));
    assert_eq!(165, bcd::from_bcd(0xff));
    assert_eq!(0x05, bcd::to_bcd(165));
    let mut v: u8 = 0;
    while v < 100 {
        assert_eq!(v, bcd::from_bcd(bcd::to_bcd(v)));
        v += 1;
    }
}

#[test]
fn pin_edges() {
    let mut pin = Pin::new_low();
    assert_eq!(true, pin.is_low());
    assert_eq!(false, pin.is_rising());
    pin.set(true);
    assert_eq!(true, pin.is_high());
    assert_eq!(true, pin.is_rising());
    assert_eq!(false, pin.is_falling());
    pin.set(true);
    assert_eq!(false, pin.is_rising());
    pin.set(false);
    assert_eq!(true, pin.is_falling());
    pin.set(false);
    assert_eq!(false, pin.is_falling());
    let high = Pin::new_high();
    assert_eq!(true, high.is_high());
    assert_eq!(false, high.is_falling());
}

#[test]
fn io_port_mixes_output_and_input() {
    let mut port = IoPort::new(0x00);
    assert_eq!(0xff, port.get_value());
    port.set_direction(0xf0);
    port.set_value(0xa5);
    port.set_external(0x3c);
    assert_eq!(0xac, port.get_value());
    assert_eq!(0xf0, port.get_direction());
    port.reset();
    assert_eq!(0x00, port.get_direction());
    assert_eq!(0x3c, port.get_value());
}

#[test]
fn icr_events_and_mask() {
    let mut icr = Icr::new();
    icr.set_event(1);
    icr.set_event(1);
    assert_eq!(0x02, icr.get_raw_data());
    assert_eq!(false, icr.get_interrupt_request());
    assert_eq!(0x02, icr.get_data());
    icr.update_mask(0x82);
    assert_eq!(true, icr.get_interrupt_request());
    assert_eq!(0x82, icr.get_data());
    icr.update_mask(0x02);
    assert_eq!(0x00, icr.get_mask());
    assert_eq!(0x02, icr.get_data());
    icr.update_mask(0xff);
    assert_eq!(0x7f, icr.get_mask());
    icr.clear();
    assert_eq!(0x00, icr.get_data());
    assert_eq!(0x7f, icr.get_mask());
    icr.reset();
    assert_eq!(0x00, icr.get_mask());
}

#[test]
fn rtc_rolls_over_at_twelve() {
    let mut rtc = Rtc::new();
    rtc.set_hours(12);
    rtc.set_minutes(59);
    rtc.set_seconds(59);
    rtc.set_tenth(9);
    rtc.tick();
    assert_eq!(1, rtc.get_hours());
    assert_eq!(0, rtc.get_minutes());
    assert_eq!(0, rtc.get_seconds());
    assert_eq!(0, rtc.get_tenth());
    assert_eq!(true, rtc.get_pm());
    rtc.set_hours(11);
    rtc.set_minutes(59);
    rtc.set_seconds(59);
    rtc.set_tenth(9);
    rtc.tick();
    assert_eq!(12, rtc.get_hours());
    assert_eq!(true, rtc.get_pm());
}

#[test]
fn rtc_stopped_does_not_tick_and_equality_ignores_it() {
    let mut a = Rtc::new();
    let mut b = Rtc::new();
    a.set_enabled(false);
    a.tick();
    assert_eq!(0, a.get_tenth());
    assert_eq!(true, a == b);
    b.tick();
    assert_eq!(1, b.get_tenth());
    assert_eq!(false, a == b);
    b.set_tenth(0);
    b.set_pm(true);
    assert_eq!(false, a == b);
}

#[test]
fn rtc_out_of_range_registers_roll_over() {
    let mut rtc = Rtc::new();
    rtc.set_tenth(15);
    rtc.set_seconds(85);
    rtc.tick();
    assert_eq!(0, rtc.get_tenth());
    assert_eq!(0, rtc.get_seconds());
    assert_eq!(1, rtc.get_minutes());
}

#[test]
fn timer_counts_and_reloads() {
    let mut timer = Timer::new();
    assert_eq!(0xffff, timer.latch);
    assert_eq!(timer::Mode::OneShot, timer.mode);
    assert_eq!(false, timer.update(1));
    assert_eq!(0, timer.value);
    timer.enabled = true;
    timer.latch = 3;
    timer.value = 1;
    assert_eq!(false, timer.update(0));
    assert_eq!(1, timer.value);
    assert_eq!(false, timer.update(1));
    assert_eq!(0, timer.value);
    assert_eq!(false, timer.update(0));
    assert_eq!(0, timer.value);
    assert_eq!(true, timer.update(1));
    assert_eq!(3, timer.value);
    assert_eq!(true, timer.enabled);
    timer.reset();
    assert_eq!(false, timer.enabled);
    assert_eq!(0xffff, timer.latch);
    assert_eq!(0, timer.value);
}

#[test]
fn input_selector() {
    assert_eq!(Some(Input::SystemClock), Input::from_selector(0));
    assert_eq!(Some(Input::External), Input::from_selector(1));
    assert_eq!(Some(Input::TimerA), Input::from_selector(2));
    assert_eq!(Some(Input::TimerAWithCNT), Input::from_selector(3));
    assert_eq!(None, Input::from_selector(4));
}

#[test]
fn interrupt_line_is_shared() {
    let mut line = InterruptLine::new();
    assert_eq!(false, line.is_low());
    line.set(Source::Cia);
    line.set(Source::Vic);
    line.clear(Source::Cia);
    assert_eq!(true, line.is_low());
    assert_eq!(false, line.is_set(Source::Cia));
    line.clear(Source::Vic);
    assert_eq!(false, line.is_low());
    let mut io = CpuIo::new();
    io.nmi.set(Source::Cia);
    io.reset();
    assert_eq!(false, io.nmi.is_low());
}

#[test]
fn keyboard_matrix() {
    let mut keyboard = Keyboard::new();
    assert_eq!(0xff, keyboard.get_row(7));
    keyboard.set_key(7, 0, true);
    keyboard.set_key(7, 3, true);
    assert_eq!(0b1111_0110, keyboard.get_row(7));
    assert_eq!(true, keyboard.is_pressed(7, 3));
    assert_eq!(false, keyboard.is_pressed(7, 1));
    keyboard.set_key(7, 0, false);
    assert_eq!(0b1111_0111, keyboard.get_row(7));
    keyboard.set_row(2, 0x0f);
    keyboard.reset();
    assert_eq!(0xff, keyboard.get_row(2));
    assert_eq!(0xff, keyboard.get_row(7));
}

#[test]
fn clock_counts_and_wraps() {
    let mut clock = Clock::new();
    assert_eq!(0, clock.get());
    clock.tick();
    clock.tick_delta(41);
    assert_eq!(42, clock.get());
    assert_eq!(40, clock.elapsed(2));
    clock.tick_delta(u64::MAX);
    assert_eq!(41, clock.get());
    clock.reset();
    clock.tick_delta(u64::MAX);
    clock.tick();
    assert_eq!(0, clock.get());
}

fn p00_file(signature: &[u8], rest: &[u8]) -> Vec<u8> {
    let mut bytes = Vec::new();
    bytes.extend_from_slice(signature);
    bytes.push(0);
    bytes.extend_from_slice(b"PROGRAM NAME\0\0\0\0");
    bytes.push(0);
    bytes.push(0);
    bytes.extend_from_slice(rest);
    bytes
}

#[test]
fn p00_parse_reads_offset_low_byte_first() {
    let bytes = p00_file(b"C64File", &[0x01, 0x08, 0xa9, 0x00, 0x60]);
    let image = P00Loader::new().parse(&bytes).unwrap();
    assert_eq!(0x0801, image.offset);
    assert_eq!(vec![0xa9, 0x00, 0x60], image.data);
    let empty = p00_file(b"C64File", &[0x34, 0x12]);
    let image = P00Loader::new().parse(&empty).unwrap();
    assert_eq!(0x1234, image.offset);
    assert_eq!(true, image.data.is_empty());
}

#[test]
fn p00_parse_errors() {
    let loader = P00Loader::new();
    assert_eq!(Some(Error::InvalidHeader), loader.parse(&[]).err());
    assert_eq!(Some(Error::InvalidHeader), loader.parse(&b"C64File"[..]).err());
    let unsigned = p00_file(b"C64file", &[0x01, 0x08]);
    assert_eq!(Some(Error::InvalidSignature), loader.parse(&unsigned).err());
    let cut = p00_file(b"C64File", &[0x01]);
    assert_eq!(Some(Error::UnexpectedEof), loader.parse(&cut).err());
    let bare = p00_file(b"C64File", &[]);
    assert_eq!(Some(Error::UnexpectedEof), loader.parse(&bare).err());
    assert_eq!("invalid P00 header", Error::InvalidHeader.message());
    assert_eq!("invalid P00 signature", Error::InvalidSignature.message());
}

#[test]
fn p00_header() {
    let loader = P00Loader::new();
    let bytes = p00_file(b"C64File", &[0x01, 0x08]);
    let header = loader.read_header(&bytes).unwrap();
    assert_eq!(*b"C64File", header.signature);
    assert_eq!(*b"PROGRAM NAME\0\0\0\0", header.filename);
    assert_eq!(Ok(()), loader.validate_header(&header));
    assert_eq!(Some(Error::UnexpectedEof), loader.read_header(&bytes[..25]).err());
    let bad = Header {
        signature: *b"C64Fil\xff",
        reserved_1: 0,
        filename: [0; 16],
        reserved_2: 0,
        reserved_3: 0,
    };
    assert_eq!(Err(Error::InvalidSignature), loader.validate_header(&bad));
}

#[test]
fn factory_builds_both_adapters() {
    let config = Config {
        model: SystemModel { cpu_freq: 985_248 },
        sound: SoundConfig { sample_rate: 44_100, sid_filters: true },
    };
    let factory = C64Factory::new(Rc::new(config));
    let cia_1 = factory.new_cia_1(
        CiaIo::new(),
        CpuIo::new(),
        Joystick::new(),
        Joystick::new(),
        Keyboard::new(),
    );
    assert_eq!(Mode::Cia1, cia_1.get_mode());
    assert_eq!(false, cia_1.get_timer_a().enabled);
    let cia_2 = factory.new_cia_2(CiaIo::new(), CpuIo::new(), Keyboard::new());
    assert_eq!(Mode::Cia2, cia_2.get_mode());
    let sid = factory.sid_settings();
    assert_eq!(SamplingMethod::ResampleFast, sid.sampling_method);
    assert_eq!(985_248, sid.clock_freq);
    assert_eq!(44_100, sid.sample_freq);
    assert_eq!(true, sid.filter);
}
