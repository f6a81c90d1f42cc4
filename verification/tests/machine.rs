use gbcemu::apu::AudioEvent;
use gbcemu::cartridge::Cartridge;
use gbcemu::cpu::Cpu;
use gbcemu::error::Error;
use gbcemu::gameboy::watch::{FrameWatch, Sleep};
use gbcemu::gameboy::{Frame, Gameboy, Run};
use gbcemu::instructions::{is_valid_opcode, Arg, Cond, Cycles, Instruction};
use gbcemu::interrupts::Interrupt;
use gbcemu::joypad::{JoypadEvent, JoypadInput};
use gbcemu::registers::{Flag, Reg16, Reg8, RegisterFile, RegisterOps};

/// A cartridge with these header bytes whose program starts at 0x150.
fn cartridge(program: &[u8], kind: u8, ram: u8) -> Cartridge {
    let mut data = vec![0u8; 0x8000];
    data[0x100..0x104].copy_from_slice(&[0x00, 0xC3, 0x50, 0x01]);
    data[0x147] = kind;
    data[0x149] = ram;
    data[0x150..0x150 + program.len()].copy_from_slice(program);
    Cartridge::from_bytes(data, false)
}

/// A machine whose program loops.
fn looping(kind: u8, ram: u8) -> Gameboy {
    Gameboy::init(cartridge(&[0x18, 0xFE], kind, ram)).unwrap()
}

fn text_of(e: Error) -> String {
    match e {
        Error::InvalidValue(text) => text,
    }
}

#[test]
fn machine_refuses_an_image_without_header() {
    let r = Gameboy::init(Cartridge::from_bytes(vec![0u8; 100], false));
    assert_eq!(text_of(r.err().unwrap()), "Invalid ROM header");
    let mut gameboy = looping(0, 0);
    gameboy.step();
    let pc = gameboy.cpu().registers.PC;
    let r = gameboy.insert(Cartridge::from_bytes(vec![0u8; 100], false));
    assert_eq!(text_of(r.err().unwrap()), "Invalid ROM header");
    assert_eq!(gameboy.cpu().registers.PC, pc);
    assert!(gameboy.insert(cartridge(&[0x00], 0, 0)).is_ok());
    assert_eq!(gameboy.cpu().registers.PC, 0x0100);
}

#[test]
fn machine_starts_behind_the_boot_program() {
    let mut gameboy = looping(0, 0);
    assert_eq!(gameboy.cpu().registers.PC, 0x0100);
    assert_eq!(gameboy.cpu().registers.SP, 0xFFFE);
    assert_eq!(gameboy.step(), 4);
    assert_eq!(gameboy.step(), 16);
    assert_eq!(gameboy.cpu().registers.PC, 0x0150);
    // With the boot program the registers start empty
    let image = cartridge(&[], 0, 0);
    let booting = Cartridge::from_bytes(image.data, true);
    let mut gameboy = Gameboy::init(booting).unwrap();
    assert_eq!(gameboy.cpu().registers.PC, 0x0000);
}

#[test]
fn frames_come_one_by_one() {
    let mut gameboy = looping(0, 0);
    for _ in 0..3 {
        match gameboy.frame(None, 100_000) {
            Frame::Ready(frame) => assert!(!frame.ready),
            _ => panic!("no frame"),
        }
        assert_eq!(gameboy.cpu().memory.ppu().ly(), 144);
    }
}

#[test]
fn frame_that_does_not_come() {
    // The program switches the display off
    let mut gameboy =
        Gameboy::init(cartridge(&[0xAF, 0xE0, 0x40, 0x18, 0xFE], 0, 0)).unwrap();
    assert!(matches!(gameboy.frame(None, 1000), Frame::Spent));
    assert_eq!(gameboy.cpu().registers.PC, 0x0153);
    assert!(matches!(gameboy.run(10), Run::Spent));
}

#[test]
fn program_runs_into_an_invalid_byte() {
    let mut gameboy = Gameboy::init(cartridge(&[0x00, 0xD3], 0, 0)).unwrap();
    assert!(matches!(gameboy.frame(None, 1000), Frame::InvalidOpcode(0xD3)));
    assert_eq!(gameboy.cpu().registers.PC, 0x0151);
    assert_eq!(gameboy.try_step_at(0), Err(0xD3));
    assert!(gameboy.cpu().try_step().is_none());
}

#[test]
fn joypad_events_raise_an_interrupt() {
    let mut gameboy = looping(0, 0);
    let events = [JoypadEvent::Down(JoypadInput::Start)];
    match gameboy.frame(Some(&events), 100_000) {
        Frame::Ready(_) => {}
        _ => panic!("no frame"),
    }
    assert_eq!(gameboy.cpu().memory.read(0xFF0F) & 0x10, 0x10);
    gameboy.cpu().memory.write(0xFF00, 0x10);
    assert_eq!(gameboy.cpu().memory.read(0xFF00), 0xD7);
    gameboy.cpu().memory.write(0xFF0F, 0);
    gameboy.update_joypad(Some(&[JoypadEvent::Up(JoypadInput::Start)]));
    gameboy.update_joypad(None);
    assert_eq!(gameboy.cpu().memory.read(0xFF0F), 0);
    assert_eq!(gameboy.cpu().memory.read(0xFF00), 0xDF);
}

#[test]
fn saved_machine_is_loaded() {
    let mut gameboy =
        Gameboy::init(cartridge(&[0x3C, 0x04, 0x18, 0xFC], 0x10, 2)).unwrap();
    gameboy.set_verbose(true);
    for _ in 0..1000 {
        gameboy.step_at(7);
    }
    gameboy.cpu().registers.write(Reg16::HL, 0xBEEF);
    gameboy.cpu().memory.write(0xC000, 0x99);
    let data = gameboy.save().unwrap();
    assert_eq!(&data[0..8], &[0x47, 0x42, 0x43, 0x53, 1, 0, 0, 0]);
    assert!(Gameboy::is_complete(&data));
    let mut back = Gameboy::load(&data, cartridge(&[0x3C, 0x04, 0x18, 0xFC], 0x10, 2)).unwrap();
    assert!(back.is_consistent());
    assert!(!back.verbose);
    assert_eq!(back.cpu().registers.read(Reg16::HL), 0xBEEF);
    assert_eq!(back.cpu().registers.PC, gameboy.cpu().registers.PC);
    assert_eq!(back.cpu().memory.read(0xC000), 0x99);
    assert_eq!(back.save().unwrap(), data);
    // Both go on alike
    for _ in 0..1000 {
        assert_eq!(back.step_at(7), gameboy.step_at(7));
    }
    assert_eq!(back.cpu().registers.PC, gameboy.cpu().registers.PC);
    assert_eq!(back.cpu().registers.read(Reg8::B), gameboy.cpu().registers.read(Reg8::B));
    assert_eq!(back.cpu().memory.ppu().dot, gameboy.cpu().memory.ppu().dot);
}

#[test]
fn saved_data_needs_its_mark() {
    let gameboy = looping(0, 0);
    let mut data = gameboy.save().unwrap();
    assert!(!Gameboy::is_complete(&data[..data.len() - 1]));
    data[0] = b'X';
    assert!(!Gameboy::is_complete(&data));
    let r = Gameboy::load(&data, cartridge(&[], 0, 0));
    assert_eq!(text_of(r.err().unwrap()), "Invalid save data header");
    let r = Gameboy::load(b"GBCS", cartridge(&[], 0, 0));
    assert_eq!(text_of(r.err().unwrap()), "Invalid save data header");
}

#[test]
fn persisted_state_is_put_back() {
    let mut gameboy = looping(0x10, 2);
    assert!(gameboy.is_persist_required() && gameboy.is_persist_ram() && gameboy.is_persist_rtc());
    gameboy.cpu().memory.write(0x0000, 0x0A);
    gameboy.cpu().memory.write(0xA007, 0x55);
    let (ram, rtc) = {
        let state = gameboy.persist().unwrap();
        (state.ram.unwrap().to_vec(), state.rtc.unwrap())
    };
    assert_eq!(ram.len(), 0x2000);
    assert_eq!(rtc.len(), 40);
    // The RAM only comes again when it changed
    assert!(gameboy.persist().unwrap().ram.is_none());
    let mut other = looping(0x10, 2);
    assert!(other.unpersist(Some(&ram), Some(&rtc)).is_ok());
    other.cpu().memory.write(0x0000, 0x0A);
    assert_eq!(other.cpu().memory.read(0xA007), 0x55);
    assert_eq!(
        text_of(other.unpersist(Some(&ram[1..]), None).err().unwrap()),
        "Invalid RAM size"
    );
    assert_eq!(
        text_of(other.unpersist(None, Some(&rtc[1..])).err().unwrap()),
        "Invalid RTC state"
    );
    assert!(other.unpersist(None, None).is_ok());
    // A cartridge without either persists nothing
    let mut plain = looping(0, 0);
    assert!(!plain.is_persist_required());
    assert!(plain.persist().is_none());
    assert!(plain.unpersist(Some(&ram), Some(&rtc)).is_ok());
}

#[test]
fn reset_starts_anew() {
    let mut gameboy = looping(3, 2);
    for _ in 0..100 {
        gameboy.step();
    }
    gameboy.cpu().memory.write(0xC000, 1);
    gameboy.controller().enabled = true;
    gameboy.reset();
    assert_eq!(gameboy.cpu().registers.PC, 0x0100);
    assert_eq!(gameboy.cpu().memory.read(0xC000), 0);
    assert!(!gameboy.controller().enabled);
    assert_eq!(gameboy.cpu().memory.read(0x0150), 0x18);
}

#[test]
fn audio_records_are_drained_once() {
    let mut gameboy = looping(0, 0);
    match gameboy.frame(None, 100_000) {
        Frame::Ready(_) => {}
        _ => panic!("no frame"),
    }
    let events = gameboy.drain_audio();
    // 144 lines of 456 cycles at a sample per 95 and a fraction
    assert!(events.len() > 650 && events.len() < 720);
    assert!(events.iter().all(|e| *e == AudioEvent::Silence));
    assert!(gameboy.drain_audio().is_empty());
}

#[test]
fn serial_text_keeps_its_bytes() {
    let mut gameboy = looping(0, 0);
    for byte in [b'a', b'b', 0xE9u8] {
        gameboy.cpu().memory.write(0xFF01, byte);
        gameboy.cpu().memory.write(0xFF02, 0x81);
    }
    assert_eq!(gameboy.serial_output(), "ab\u{E9}");
}

#[test]
fn speed_switch_alternates() {
    // LDH (0x4D), 1; STOP; then again
    let mut program = [0x3E, 0x01, 0xE0, 0x4D, 0x10, 0x00].repeat(2);
    program.extend_from_slice(&[0x18, 0xFE]);
    let mut image = cartridge(&program, 0, 0);
    image.data[0x143] = 0x80;
    let mut gameboy = Gameboy::init(image).unwrap();
    for _ in 0..5 {
        gameboy.step();
    }
    assert!(gameboy.cpu().speed);
    assert!(!gameboy.cpu().stopped);
    assert_eq!(gameboy.cpu().memory.read(0xFF4D) & 0x81, 0x80);
    for _ in 0..3 {
        gameboy.step();
    }
    assert!(!gameboy.cpu().speed);
    assert_eq!(Cpu::cycle_time(false), 238);
    assert_eq!(Cpu::cycle_time(true), 119);
}

#[test]
fn halted_processor_waits_for_a_request() {
    let mut cpu = Cpu::new(false);
    cpu.registers.PC = 0xC000;
    cpu.memory.write(0xC000, 0x76);
    cpu.step();
    assert!(cpu.halted);
    let (cycles, inst) = cpu.step();
    assert_eq!(cycles, 4);
    assert_eq!(inst, Instruction::Nop);
    assert!(cpu.halted);
    // A request wakes it though interrupts are disabled
    cpu.memory.write(0xFFFF, 0x04);
    cpu.trigger_interrupt(Interrupt::Timer);
    cpu.step();
    assert!(!cpu.halted);
    assert_eq!(cpu.registers.PC, 0xC002);
    assert_eq!(cpu.memory.read(0xFF0F), 0x04);
}

#[test]
fn interrupt_is_served_by_priority() {
    let mut cpu = Cpu::new(false);
    cpu.registers.PC = 0x1234;
    cpu.registers.SP = 0xD000;
    cpu.ime = true;
    cpu.memory.write(0xFFFF, 0x1F);
    cpu.memory.write(0xFF0F, 0x14);
    assert_eq!(cpu.service_interrupts(), 20);
    assert_eq!(cpu.registers.PC, 0x50);
    assert_eq!(cpu.memory.read(0xFF0F), 0x10);
    assert!(!cpu.ime);
    assert_eq!(cpu.pop(), 0x1234);
    assert_eq!(cpu.service_interrupts(), 0);
}

#[test]
fn sprite_table_is_transferred() {
    let mut cpu = Cpu::new(false);
    for i in 0..160u16 {
        cpu.memory.write(0xC100 + i, i as u8);
    }
    cpu.registers.PC = 0xC000;
    cpu.memory.write(0xFF46, 0xC1);
    cpu.step();
    assert_eq!(cpu.memory.read(0xFE00), 0);
    assert_eq!(cpu.memory.read(0xFE9F), 159);
    assert_eq!(cpu.memory.read(0xFF46), 0xC1);
}

#[test]
fn instructions_are_decoded() {
    assert_eq!(
        Instruction::decode([0xC3, 0x34, 0x12]),
        (Instruction::Jp { addr: 0x1234, cond: Cond::Always }, 3, Cycles(16, 12))
    );
    assert_eq!(
        Instruction::decode([0x28, 0xFE, 0]),
        (Instruction::Jr { offset: -2, cond: Cond::Zero }, 2, Cycles(12, 8))
    );
    assert_eq!(
        Instruction::decode([0xCB, 0x46, 0]),
        (Instruction::Bit { dst: Arg::MemHl, bit: 0 }, 2, Cycles(12, 12))
    );
    assert_eq!(
        Instruction::decode([0xC9, 0, 0]),
        (Instruction::Ret { cond: Cond::Always }, 1, Cycles(20, 8))
    );
    assert_eq!(Cycles::from(4).taken(), 4);
    assert_eq!(Cycles(16, 12).not_taken(), 12);
}

#[test]
fn program_is_disassembled() {
    let mut cpu = Cpu::new(false);
    for (i, byte) in [0x00u8, 0xC3, 0x34, 0x12, 0x3C].iter().enumerate() {
        cpu.memory.write(0xC000 + i as u16, *byte);
    }
    let list = cpu.disassemble(3, Some(0xC000));
    assert_eq!(list[0], (Instruction::Nop, 0xC000));
    assert_eq!(list[1], (Instruction::Jp { addr: 0x1234, cond: Cond::Always }, 0xC001));
    assert_eq!(list[2], (Instruction::Inc { dst: Arg::Reg8(Reg8::A) }, 0xC004));
    cpu.registers.PC = 0xC001;
    assert_eq!(cpu.fetch(None).1, 3);
}

#[test]
fn registers_and_pairs() {
    let mut registers = RegisterFile::empty();
    registers.write(Reg16::BC, 0x1234u16);
    assert_eq!(registers.read(Reg8::B), 0x12);
    assert_eq!(registers.read(Reg8::C), 0x34);
    registers.write(Reg16::AF, 0xABCD);
    assert_eq!(registers.read(Reg16::AF), 0xABC0);
    registers.set_flags(true, false, true, false);
    assert_eq!(registers.read(Reg8::F), 0xA0);
    registers.set(Flag::Carry, true);
    assert!(registers.carry() && registers.zero() && !registers.subtract());
    registers.clear(Flag::Zero);
    assert!(!registers.zero() && registers.half_carry());
    let mut bytes = Vec::new();
    registers.save_to_bytes(&mut bytes);
    let mut pos = 0;
    assert_eq!(RegisterFile::load_from_bytes(&bytes, &mut pos).unwrap(), registers);
    assert_eq!(pos, bytes.len());
}

#[test]
fn sums_of_decimals_are_adjusted() {
    let mut cpu = Cpu::new(false);
    for a in 0..100u32 {
        for b in 0..100u32 {
            let coded = |n: u32| ((n / 10) * 16 + n % 10) as u8;
            cpu.registers.write(Reg8::A, coded(a));
            cpu.add(Arg::Imm8(coded(b)));
            cpu.daa();
            assert_eq!(cpu.registers.read(Reg8::A), coded((a + b) % 100));
            assert_eq!(cpu.registers.carry(), a + b >= 100);
            cpu.registers.write(Reg8::A, coded(a));
            cpu.sub(Arg::Imm8(coded(b)), true);
            cpu.daa();
            assert_eq!(cpu.registers.read(Reg8::A), coded((a + 100 - b) % 100));
            assert_eq!(cpu.registers.carry(), a < b);
        }
    }
}

#[test]
fn operations_undo_each_other() {
    let mut cpu = Cpu::new(false);
    for value in 0..=255u8 {
        cpu.registers.write(Reg8::A, value);
        cpu.add(Arg::Imm8(0x5D));
        cpu.sub(Arg::Imm8(0x5D), true);
        assert_eq!(cpu.registers.read(Reg8::A), value);
        cpu.registers.write(Reg8::B, value);
        cpu.execute(Instruction::Rlc { dst: Reg8::B.into() });
        cpu.execute(Instruction::Rrc { dst: Reg8::B.into() });
        assert_eq!(cpu.registers.read(Reg8::B), value);
        cpu.execute(Instruction::Swap { dst: Reg8::B.into() });
        cpu.execute(Instruction::Swap { dst: Reg8::B.into() });
        assert_eq!(cpu.registers.read(Reg8::B), value);
    }
}

#[test]
fn saved_processor_is_loaded() {
    let mut cpu = Cpu::new(true);
    cpu.ime = true;
    cpu.speed = true;
    cpu.registers.PC = 0x4321;
    let mut bytes = Vec::new();
    cpu.save_to_bytes(&mut bytes);
    assert!(Cpu::is_stored(&bytes, 0));
    assert!(!Cpu::is_stored(&bytes[..bytes.len() - 1], 0));
    let mut pos = 0;
    let back = Cpu::load_from_bytes(&bytes, &mut pos).unwrap();
    assert_eq!(pos, bytes.len());
    assert!(back.ime && back.speed && back.cgb && !back.halted && !back.stopped);
    assert_eq!(back.registers, cpu.registers);
}

#[test]
fn stuck_program_is_reported_at_the_fifth_look() {
    let mut watch = FrameWatch::new(0x1234);
    for _ in 0..4 {
        assert!(!watch.observe(0x1234, 0x91, false, 0, 0, false).stuck);
    }
    assert!(watch.observe(0x1234, 0x91, false, 0, 0, false).stuck);
    assert!(!watch.observe(0x1234, 0x91, false, 0, 0, false).stuck);
    // A program that moves starts the count again
    assert!(!watch.observe(0x1235, 0x91, false, 0, 0, false).stuck);
    for _ in 0..4 {
        assert!(!watch.observe(0x1235, 0x91, false, 0, 0, false).stuck);
    }
    assert!(watch.observe(0x1235, 0x11, true, 4, 3, true).lcd_off);
    assert_eq!(watch.observe(0, 0x91, true, 4, 3, true).sleep, Sleep::Forever);
    assert_eq!(watch.observe(0, 0x91, true, 4, 4, false).sleep, Sleep::Forever);
    assert_eq!(watch.observe(0, 0x91, true, 4, 4, true).sleep, Sleep::Waiting);
    assert_eq!(watch.observe(0, 0x91, false, 0, 0, false).sleep, Sleep::Awake);
}

#[test]
fn runs_add_up() {
    let mut whole = looping(0, 0);
    let mut parts = looping(0, 0);
    assert!(matches!(whole.run(100), Run::Spent));
    assert!(matches!(parts.run(60), Run::Spent));
    assert!(matches!(parts.run(40), Run::Spent));
    assert_eq!(whole.save().unwrap(), parts.save().unwrap());
}

#[test]
fn serial_text_only_grows() {
    // LD A, 'x'; LDH (1), A; LD A, 0x81; LDH (2), A; JR to the start
    let program = [0x3E, b'x', 0xE0, 0x01, 0x3E, 0x81, 0xE0, 0x02, 0x18, 0xF6];
    let mut gameboy = Gameboy::init(cartridge(&program, 0, 0)).unwrap();
    let mut before = String::new();
    for _ in 0..40 {
        gameboy.step();
        let now = gameboy.serial_output();
        assert!(now.starts_with(&before));
        before = now;
    }
    assert!(before.len() > 5);
    // A write to the ROM switches banks and changes no byte of it
    gameboy.cpu().memory.write(0x2150, 0x00);
    assert_eq!(gameboy.cpu().memory.read(0x0150), 0x3E);
}

#[test]
fn sizes_and_cycles_lie_in_their_ranges() {
    for op in 0..=255u8 {
        if !is_valid_opcode(op) {
            continue;
        }
        for second in 0..=255u8 {
            let (inst, size, cycles) = Instruction::decode([op, second, 0x12]);
            assert!(1 <= size && size <= 3);
            assert!(4 <= cycles.not_taken() && cycles.not_taken() <= cycles.taken());
            assert!(cycles.taken() <= 24);
            assert_eq!(cycles.taken() % 4, 0);
            assert_eq!(inst.size(), size);
            assert_eq!(inst.cycles(), cycles);
            // An instruction is encoded by the opcode that it was decoded from
            let (code, byte, _) = inst.encode();
            if op == 0xCB {
                assert_eq!((code, byte), (0xCB, second));
            } else {
                assert_eq!(code, op);
            }
        }
    }
}

#[test]
fn only_jumps_set_the_program_counter() {
    for op in 0..=255u8 {
        if !is_valid_opcode(op) || op == 0xCB {
            continue;
        }
        let mut cpu = Cpu::new(true);
        cpu.registers.PC = 0x1234;
        cpu.registers.write(Reg16::HL, 0xC400);
        cpu.registers.SP = 0xD000;
        let (inst, _, _) = Instruction::decode([op, 0x40, 0xC3]);
        cpu.execute(inst);
        let jumps = matches!(
            inst,
            Instruction::Jp { .. }
                | Instruction::Jr { .. }
                | Instruction::Call { .. }
                | Instruction::Ret { .. }
                | Instruction::RetI
                | Instruction::Rst { .. }
                | Instruction::JpHl
        );
        assert!(jumps || cpu.registers.PC == 0x1234);
    }
}
