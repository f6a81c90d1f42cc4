use gbcemu::cartridge::{Cartridge, Controller};
use gbcemu::error::Error;
use gbcemu::interrupts::Interrupt;
use gbcemu::joypad::{Joypad, JoypadEvent, JoypadInput};
use gbcemu::memory::MemoryBus;
use gbcemu::timer::Timer;

/// An image of so many ROM banks with these header bytes, whose banks begin with their
/// number.
fn image(banks: usize, kind: u8, ram: u8, color: u8) -> Cartridge {
    let mut data = vec![0u8; 0x4000 * banks];
    for bank in 0..banks {
        data[0x4000 * bank] = bank as u8;
    }
    data[0x143] = color;
    data[0x147] = kind;
    data[0x149] = ram;
    Cartridge::from_bytes(data, false)
}

fn text_of(e: Error) -> String {
    match e {
        Error::InvalidValue(text) => text,
    }
}

#[test]
fn image_without_header_is_refused() {
    let short = Cartridge::from_bytes(vec![0u8; 0x14F], false);
    assert_eq!(text_of(Controller::from_cartridge(short).err().unwrap()), "Invalid ROM header");
    let short = Cartridge::from_bytes(vec![0u8; 0x14F], false);
    assert_eq!(text_of(MemoryBus::from_cartridge(short).err().unwrap()), "Invalid ROM header");
    assert!(Controller::from_cartridge(Cartridge::from_bytes(vec![0u8; 0x150], false)).is_ok());
}

#[test]
fn header_asks_for_color_ram_and_clock() {
    assert!(image(2, 0, 0, 0x80).cgb());
    assert!(image(2, 0, 0, 0xC0).cgb());
    assert!(!image(2, 0, 0, 0x00).cgb());
    let controller = Controller::from_cartridge(image(2, 0x10, 3, 0)).unwrap();
    assert_eq!(controller.ram.as_ref().unwrap().data().len(), 0x8000);
    assert!(controller.rtc.is_some());
    let controller = Controller::from_cartridge(image(2, 0x00, 0, 0)).unwrap();
    assert!(controller.ram.is_none());
    assert!(controller.rtc.is_none());
}

#[test]
fn cartridge_ram_is_shut_until_enabled() {
    let mut bus = MemoryBus::from_cartridge(image(2, 3, 2, 0)).unwrap();
    bus.write(0xA000, 0x12);
    assert_eq!(bus.read(0xA000), 0xFF);
    bus.write(0x0000, 0x0A);
    assert_eq!(bus.read(0xA000), 0x00);
    bus.write(0xA000, 0x12);
    assert_eq!(bus.read(0xA000), 0x12);
    assert_eq!(bus.persist_ram().unwrap()[0], 0x12);
    // Nothing new since
    assert!(bus.persist_ram().is_none());
    bus.write(0x0000, 0x00);
    assert_eq!(bus.read(0xA000), 0xFF);
}

#[test]
fn rom_banks_are_switched() {
    let mut bus = MemoryBus::from_cartridge(image(8, 3, 0, 0)).unwrap();
    assert_eq!(bus.read(0x0000), 0);
    assert_eq!(bus.read(0x4000), 1);
    bus.write(0x2000, 5);
    assert_eq!(bus.read(0x4000), 5);
    assert_eq!(bus.read(0x0000), 0);
}

#[test]
fn put_back_ram_must_fit() {
    let mut bus = MemoryBus::from_cartridge(image(2, 3, 2, 0)).unwrap();
    assert_eq!(text_of(bus.put_ram(&[0u8; 10]).err().unwrap()), "Invalid RAM size");
    let mut contents = vec![0u8; 0x2000];
    contents[5] = 0x77;
    assert!(bus.put_ram(&contents).is_ok());
    bus.write(0x0000, 0x0A);
    assert_eq!(bus.read(0xA005), 0x77);
}

#[test]
fn put_back_clock_must_fit() {
    let mut bus = MemoryBus::from_cartridge(image(2, 0x0F, 0, 0)).unwrap();
    assert_eq!(text_of(bus.put_rtc(&[0u8; 3]).err().unwrap()), "Invalid RTC state");
    let dump = bus.dump_rtc().unwrap();
    assert_eq!(dump.len(), 40);
    assert!(bus.put_rtc(&dump).is_ok());
}

#[test]
fn clock_register_stands_in_for_ram() {
    let mut bus = MemoryBus::from_cartridge(image(2, 0x10, 2, 0)).unwrap();
    bus.write(0x0000, 0x0A);
    bus.write(0x4000, 0x08);
    bus.write(0xA000, 42);
    bus.write(0x6000, 0);
    bus.write(0x6000, 1);
    assert_eq!(bus.read(0xA000), 42);
    bus.write(0x4000, 0x00);
    assert_eq!(bus.read(0xA000), 0);
}

#[test]
fn working_ram_and_its_echo() {
    let mut bus = MemoryBus::new(true);
    bus.write(0xC123, 0x45);
    assert_eq!(bus.read(0xC123), 0x45);
    assert_eq!(bus.read(0xE123), 0x45);
    bus.write(0xE456, 0x67);
    assert_eq!(bus.read(0xC456), 0x67);
    bus.write(0xFF80, 0x89);
    assert_eq!(bus.read(0xFF80), 0x89);
    bus.write_word(0xC200, 0x1234);
    assert_eq!(bus.read(0xC200), 0x34);
    assert_eq!(bus.read(0xC201), 0x12);
    assert_eq!(bus.read(0xFEA0), 0xFF);
}

#[test]
fn banks_of_working_ram() {
    let mut bus = MemoryBus::new(true);
    bus.write(0xD000, 0x11);
    bus.write(0xFF70, 3);
    assert_eq!(bus.read(0xD000), 0x00);
    bus.write(0xD000, 0x33);
    // Bank zero is bank one
    bus.write(0xFF70, 0);
    assert_eq!(bus.read(0xFF70), 1);
    assert_eq!(bus.read(0xD000), 0x11);
    let mut bus = MemoryBus::new(false);
    bus.write(0xFF70, 3);
    assert_eq!(bus.read(0xFF70), 1);
}

#[test]
fn serial_port_sends_bytes() {
    let mut bus = MemoryBus::new(false);
    bus.write(0xFF01, b'x');
    bus.write(0xFF02, 0x81);
    assert_eq!(bus.io().serial_buffer(), b"x");
    let mut interrupts = Vec::new();
    bus.step_at(4, false, 0, &mut interrupts);
    assert_eq!(interrupts, vec![Interrupt::Serial]);
    assert_eq!(bus.read(0xFF02), 0x01);
    // A transfer with the other side's clock sends nothing
    bus.write(0xFF02, 0x80);
    assert_eq!(bus.io().serial_buffer(), b"x");
}

#[test]
fn reset_keeps_the_cartridge() {
    let mut bus = MemoryBus::from_cartridge(image(4, 3, 2, 0)).unwrap();
    bus.write(0x0000, 0x0A);
    bus.write(0xA000, 0x12);
    bus.write(0x2000, 3);
    bus.write(0xC000, 0x34);
    bus.reset();
    assert_eq!(bus.read(0xC000), 0);
    assert_eq!(bus.read(0x4000), 1);
    assert_eq!(bus.read(0xA000), 0xFF);
    bus.write(0x0000, 0x0A);
    assert_eq!(bus.read(0xA000), 0x12);
}

#[test]
fn saved_bus_is_loaded() {
    let mut bus = MemoryBus::from_cartridge(image(2, 0x10, 2, 0x80)).unwrap();
    bus.write(0xC000, 0x34);
    bus.write(0xFF80, 0x56);
    bus.write(0xFF06, 0x78);
    bus.write(0xFFFF, 0x1F);
    let mut bytes = Vec::new();
    bus.save_to_bytes(&mut bytes);
    assert_eq!(MemoryBus::stored_end(&bytes, 0), Some(bytes.len()));
    assert_eq!(MemoryBus::stored_end(&bytes[..bytes.len() - 1], 0), None);
    let mut pos = 0;
    let back = MemoryBus::load_from_bytes(&bytes, &mut pos).unwrap();
    assert_eq!(pos, bytes.len());
    assert!(back.is_consistent());
    assert_eq!(back.read(0xC000), 0x34);
    assert_eq!(back.read(0xFF80), 0x56);
    assert_eq!(back.read(0xFF06), 0x78);
    assert_eq!(back.read(0xFFFF), 0x1F);
}

#[test]
fn timer_counts_at_its_rate() {
    let mut timer = Timer::new();
    timer.write(0xFF06, 0xF0);
    timer.write(0xFF05, 0xFE);
    timer.write(0xFF07, 0x05);
    assert!(!timer.step(15));
    assert_eq!(timer.read(0xFF05), 0xFE);
    assert!(!timer.step(1));
    assert_eq!(timer.read(0xFF05), 0xFF);
    assert!(timer.step(16));
    assert_eq!(timer.read(0xFF05), 0xF0);
    assert_eq!(timer.read(0xFF07), 0xFD);
    // The divider counts on its own and is cleared by any write
    timer.step(256);
    assert_eq!(timer.read(0xFF04), 1);
    timer.write(0xFF04, 0x99);
    assert_eq!(timer.read(0xFF04), 0);
    // A timer that is off does not count
    timer.write(0xFF07, 0x01);
    timer.write(0xFF05, 0x10);
    assert!(!timer.step(5000));
    assert_eq!(timer.read(0xFF05), 0x10);
    let mut bytes = Vec::new();
    timer.save_to_bytes(&mut bytes);
    let mut pos = 0;
    assert_eq!(Timer::load_from_bytes(&bytes, &mut pos), timer);
}

#[test]
fn joypad_shows_the_selected_row() {
    let mut joypad = Joypad::new();
    assert_eq!(joypad.read(), 0xFF);
    assert!(joypad.handle_event(&JoypadEvent::Down(JoypadInput::A)));
    // Held down already
    assert!(!joypad.handle_event(&JoypadEvent::Down(JoypadInput::A)));
    assert!(joypad.handle_event(&JoypadEvent::Down(JoypadInput::Up)));
    assert_eq!(joypad.read(), 0xFF);
    joypad.write(0x10);
    assert_eq!(joypad.read(), 0xDE);
    joypad.write(0x20);
    assert_eq!(joypad.read(), 0xEB);
    assert!(!joypad.handle_event(&JoypadEvent::Up(JoypadInput::Up)));
    assert_eq!(joypad.read(), 0xEF);
}

#[test]
fn title_of_a_cartridge() {
    let mut cartridge = image(2, 0, 0, 0x80);
    assert_eq!(cartridge.title(), Some(String::new()));
    cartridge.data[0x134..0x138].copy_from_slice(b"TEST");
    assert_eq!(cartridge.title(), Some("TEST".to_string()));
    cartridge.data[0x134..0x143].copy_from_slice(b"FIFTEEN LETTERS");
    assert_eq!(cartridge.title(), Some("FIFTEEN LETTERS".to_string()));
    cartridge.data[0x136] = 0xE9;
    assert_eq!(cartridge.title(), None);
    assert_eq!(Cartridge::from_bytes(vec![0u8; 0x14F], false).title(), None);
}
