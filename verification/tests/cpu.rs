use gbcemu::cpu::Cpu;
use gbcemu::instructions::{Arg, Cond, Instruction};
use gbcemu::interrupts::Interrupt;
use gbcemu::registers::{Flag, Reg16, Reg8, RegisterOps};

fn get_cpu() -> Cpu {
    Cpu::new(true)
}

#[test]
fn interrupts() {
    let mut cpu = get_cpu();

    cpu.registers.PC = 0x1000;
    cpu.registers.write(Reg8::A, 0x01u8);
    cpu.registers.write(Reg8::B, 0x40u8);

    // Enable interrupts
    let inst = Instruction::Ei;
    cpu.execute(inst);

    // Enable VBLANK and LCD STAT
    cpu.memory.write(0xFFFF, 0x03u8);

    // Prepare basic ISRs in ROM:
    //
    // Vblank:
    // 1. ADD A, B
    // 2. RETI
    //
    // LcdStat:
    // 1. NOP
    // 2. RET
    let controller = cpu.memory.controller_mut();
    controller.rom.write(0x40, 0x80u8);
    controller.rom.write(0x41, 0xD9u8);
    controller.rom.write(0x48, 0x00u8);
    controller.rom.write(0x49, 0xC9u8);

    // Trigger VBLANK and LCD interrupts
    cpu.trigger_interrupt(Interrupt::Vblank);
    cpu.trigger_interrupt(Interrupt::LcdStat);

    // Execute a CPU step and verify that the ADD
    // in the VBLANK ISR was executed
    cpu.step();
    assert!(!cpu.ime);
    assert_eq!(cpu.registers.PC, 0x41);
    assert_eq!(cpu.registers.read(Reg8::A), 0x41);

    // Step again
    // RETI should restore original PC and re-enable interrupts
    cpu.step();
    assert!(cpu.ime);
    assert_eq!(cpu.registers.PC, 0x1000);

    // Step again -> this should trigger LcdStat and execute a NOP
    cpu.step();
    assert!(!cpu.ime);
    assert_eq!(cpu.registers.PC, 0x49);

    // Last step -> verify PC is restored
    cpu.step();
    assert!(!cpu.ime);
    assert_eq!(cpu.registers.PC, 0x1000);
}

#[test]
fn add() {
    let mut cpu = get_cpu();

    cpu.registers.write(Reg8::A, 0);

    // Normal add
    let inst = Instruction::Add { src: 0x10u8.into() };
    cpu.execute(inst);
    assert_eq!(cpu.registers.read(Reg8::A), 0x10);

    // Overflow
    cpu.registers.write(Reg8::B, 0xF0);
    let inst = Instruction::Add {
        src: Reg8::B.into(),
    };
    cpu.execute(inst);
    assert_eq!(cpu.registers.read(Reg8::A), 0x00);
    assert!(cpu.registers.zero());
    assert!(cpu.registers.carry());

    // Half overflow
    cpu.registers.write(Reg8::A, 0x3C);
    let inst = Instruction::Add { src: 0xFFu8.into() };
    cpu.execute(inst);
    assert_eq!(cpu.registers.read(Reg8::A), 0x3B);
    assert!(!cpu.registers.zero());
    assert!(!cpu.registers.subtract());
    assert!(cpu.registers.half_carry());
    assert!(cpu.registers.carry());
}

#[test]
fn add_hl() {
    let mut cpu = get_cpu();

    let old_zero = cpu.registers.zero();

    cpu.registers.write(Reg8::A, 0);
    cpu.registers.write(Reg16::HL, 0);
    cpu.registers.write(Reg16::DE, 0x1234);

    let inst = Instruction::AddHlReg16 { src: Reg16::DE };

    // Normal add
    cpu.execute(inst);
    assert_eq!(cpu.registers.read(Reg16::HL), 0x1234);
    assert!(cpu.registers.zero() == old_zero);
    assert!(!cpu.registers.subtract());
    assert!(!cpu.registers.half_carry());
    assert!(!cpu.registers.carry());

    // Overflow
    cpu.registers.write(Reg16::DE, 0xEDCC);
    cpu.execute(inst);
    assert_eq!(cpu.registers.read(Reg16::HL), 0x0);
    assert!(cpu.registers.zero() == old_zero);
    assert!(!cpu.registers.subtract());
    assert!(cpu.registers.half_carry());
    assert!(cpu.registers.carry());
}

#[test]
fn adc() {
    let mut cpu = get_cpu();

    cpu.registers.write(Reg8::A, 0);

    // Normal add
    let inst = Instruction::Adc { src: 0x10u8.into() };
    cpu.registers.set(Flag::Carry, true);
    cpu.execute(inst);
    assert_eq!(cpu.registers.read(Reg8::A), 0x11);
    assert!(!cpu.registers.zero());
    assert!(!cpu.registers.carry());

    // Overflow
    let inst = Instruction::Adc {
        src: Reg8::B.into(),
    };
    cpu.registers.set(Flag::Carry, true);
    cpu.registers.write(Reg8::A, 0xE1);
    cpu.registers.write(Reg8::B, 0x1E);
    cpu.execute(inst);
    assert_eq!(cpu.registers.read(Reg8::A), 0x00);
    assert!(cpu.registers.zero());
    assert!(cpu.registers.half_carry());
    assert!(cpu.registers.carry());
}

#[test]
fn sub() {
    let mut cpu = get_cpu();

    cpu.registers.write(Reg8::A, 0x10);

    // Normal sub
    let inst = Instruction::Sub { src: 0x10u8.into() };
    cpu.execute(inst);
    assert_eq!(cpu.registers.read(Reg8::A), 0);
    assert!(cpu.registers.zero());
    assert!(cpu.registers.subtract());

    // Underflow
    let inst = Instruction::Sub { src: 0x10u8.into() };
    cpu.execute(inst);
    assert_eq!(cpu.registers.read(Reg8::A), 0xF0);
    assert!(!cpu.registers.zero());
    assert!(cpu.registers.subtract());
    assert!(cpu.registers.carry());

    // Half underflow
    cpu.registers.write(Reg8::A, 0x3E);
    let inst = Instruction::Sub { src: 0xFu8.into() };
    cpu.execute(inst);
    assert_eq!(cpu.registers.read(Reg8::A), 0x2F);
    assert!(!cpu.registers.zero());
    assert!(cpu.registers.subtract());

    cpu.registers.write(Reg8::F, 0);
    cpu.registers.write(Reg8::A, 0x83);
    cpu.registers.write(Reg8::B, 0x38);
    let inst = Instruction::Sub {
        src: Reg8::B.into(),
    };
    cpu.execute(inst);
    assert_eq!(cpu.registers.read(Reg8::A), 0x4B);
    assert!(!cpu.registers.zero());
    assert!(cpu.registers.subtract());
    assert!(cpu.registers.half_carry());
}

#[test]
fn sbc() {
    let mut cpu = get_cpu();

    // Normal sub
    let inst = Instruction::Sbc { src: 0x09u8.into() };
    cpu.registers.write(Reg8::A, 0x0A);
    cpu.registers.set(Flag::Carry, true);
    cpu.execute(inst);
    assert_eq!(cpu.registers.read(Reg8::A), 0x00);
    assert!(cpu.registers.zero());
    assert!(!cpu.registers.carry());

    // Overflow
    let inst = Instruction::Sbc {
        src: Reg8::B.into(),
    };
    cpu.registers.set(Flag::Carry, true);
    cpu.registers.write(Reg8::A, 0x3B);
    cpu.registers.write(Reg8::B, 0x4F);
    cpu.execute(inst);
    assert_eq!(cpu.registers.read(Reg8::A), 0xEB);
    assert!(!cpu.registers.zero());
    assert!(cpu.registers.subtract());
    assert!(cpu.registers.half_carry());
    assert!(cpu.registers.carry());
}

#[test]
fn logical() {
    let mut cpu = get_cpu();

    // AND
    let inst = Instruction::And { src: 0x02u8.into() };
    cpu.registers.write(Reg8::A, 0x0A);
    cpu.execute(inst);
    assert_eq!(cpu.registers.read(Reg8::A), 0x02);
    assert!(!cpu.registers.zero());
    assert!(cpu.registers.half_carry());

    // OR
    let inst = Instruction::Or { src: 0xF0u8.into() };
    cpu.registers.write(Reg8::A, 0x0A);
    cpu.execute(inst);
    assert_eq!(cpu.registers.read(Reg8::A), 0xFA);
    assert!(!cpu.registers.zero());
    assert!(!cpu.registers.half_carry());

    // XOR
    let inst = Instruction::Xor { src: 0xFFu8.into() };
    cpu.registers.write(Reg8::A, 0x0F);
    cpu.execute(inst);
    assert_eq!(cpu.registers.read(Reg8::A), 0xF0);
    assert!(!cpu.registers.zero());
    assert!(!cpu.registers.half_carry());
}

#[test]
fn inc() {
    let mut cpu = get_cpu();

    cpu.registers.write(Reg8::A, 0xFF);

    // Overflow
    let inst = Instruction::Inc {
        dst: Reg8::A.into(),
    };
    cpu.execute(inst);
    assert_eq!(cpu.registers.read(Reg8::A), 0);
    assert!(cpu.registers.zero());
    assert!(cpu.registers.half_carry());
    assert!(!cpu.registers.subtract());
}

#[test]
fn dec() {
    let mut cpu = get_cpu();

    cpu.registers.write(Reg8::A, 0);

    // Underflow
    let inst = Instruction::Dec {
        dst: Reg8::A.into(),
    };
    cpu.execute(inst);
    assert_eq!(cpu.registers.read(Reg8::A), 0xFF);
    assert!(!cpu.registers.zero());
    assert!(cpu.registers.half_carry());
    assert!(cpu.registers.subtract());
}

#[test]
fn cp() {
    let mut cpu = get_cpu();

    cpu.registers.write(Reg8::A, 0x3C);
    cpu.registers.write(Reg8::B, 0x2F);

    let inst = Instruction::Cp {
        src: Reg8::B.into(),
    };
    cpu.execute(inst);
    assert!(!cpu.registers.zero());
    assert!(cpu.registers.subtract());
    assert!(cpu.registers.half_carry());
    assert!(!cpu.registers.carry());

    let inst = Instruction::Cp { src: 0x3Cu8.into() };
    cpu.execute(inst);
    assert!(cpu.registers.zero());
    assert!(cpu.registers.subtract());

    let (addr, value) = (0xC000, 0x40u8);
    cpu.memory.write(addr, value);
    cpu.registers.write(Reg16::HL, addr);
    let inst = Instruction::Cp { src: Arg::MemHl };
    cpu.execute(inst);
    assert!(!cpu.registers.zero());
    assert!(cpu.registers.subtract());
    assert!(!cpu.registers.half_carry());
    assert!(cpu.registers.carry());
}

#[test]
fn daa() {
    let mut cpu = get_cpu();

    cpu.registers.write(Reg8::A, 0x45);
    cpu.registers.write(Reg8::B, 0x38);

    // ADD, then DAA
    let inst = Instruction::Add {
        src: Reg8::B.into(),
    };
    cpu.execute(inst);
    assert_eq!(cpu.registers.read(Reg8::A), 0x7D);

    let inst = Instruction::Daa;
    cpu.execute(inst);
    assert_eq!(cpu.registers.read(Reg8::A), 0x83);
    assert!(!cpu.registers.carry());

    // SUB, then DAA
    let inst = Instruction::Sub {
        src: Reg8::B.into(),
    };
    cpu.execute(inst);
    assert_eq!(cpu.registers.read(Reg8::A), 0x4B);
    assert!(cpu.registers.subtract());

    let inst = Instruction::Daa;
    cpu.execute(inst);
    assert_eq!(cpu.registers.read(Reg8::A), 0x45);
}

#[test]
fn push_and_pop() {
    let mut cpu = get_cpu();

    cpu.registers.write(Reg16::SP, 0xFFFE);
    cpu.registers.write(Reg16::HL, 0x1234);

    let inst = Instruction::Push {
        src: Reg16::HL.into(),
    };
    cpu.execute(inst);
    assert_eq!(cpu.registers.SP, 0xFFFC);

    let inst = Instruction::Pop {
        dst: Reg16::AF.into(),
    };
    cpu.execute(inst);
    assert_eq!(cpu.registers.SP, 0xFFFE);
    assert_eq!(cpu.registers.read(Reg16::AF), 0x1230);
}

#[test]
fn jumps() {
    let mut cpu = get_cpu();

    let inst = Instruction::Jp {
        addr: 0x2345,
        cond: Cond::Always,
    };
    cpu.execute(inst);
    assert_eq!(cpu.registers.PC, 0x2345);

    let inst = Instruction::Jp {
        addr: 0x1234,
        cond: Cond::Zero,
    };
    cpu.registers.set(Flag::Zero, true);
    cpu.execute(inst);
    assert_eq!(cpu.registers.PC, 0x1234);

    let inst = Instruction::Jr {
        offset: -0x36,
        cond: Cond::Always,
    };
    cpu.execute(inst);
    assert_eq!(cpu.registers.PC, 0x1200);

    let inst = Instruction::Jr {
        offset: 1,
        cond: Cond::NotCarry,
    };
    cpu.registers.write(Reg16::PC, 0xFFFF);
    cpu.registers.set(Flag::Carry, false);
    cpu.execute(inst);
    assert_eq!(cpu.registers.PC, 0x2);

    let inst = Instruction::JpHl;
    cpu.registers.write(Reg16::HL, 0x1234);
    cpu.execute(inst);
    assert_eq!(cpu.registers.PC, 0x1234);

    // CALL, then RET
    let inst = Instruction::Call {
        addr: 0x1234,
        cond: Cond::Always,
    };
    cpu.registers.write(Reg16::PC, 0xFF00);
    cpu.registers.write(Reg16::SP, 0xFFFE);
    cpu.execute(inst);
    assert_eq!(cpu.registers.PC, 0x1234);
    assert_eq!(cpu.registers.SP, 0xFFFC);

    let inst = Instruction::Ret { cond: Cond::Always };
    cpu.execute(inst);
    assert_eq!(cpu.registers.PC, 0xFF03); // Next PC pushed during CALL
    assert_eq!(cpu.registers.SP, 0xFFFE);

    // RST
    let inst = Instruction::Rst { offset: 0x10 };
    cpu.registers.write(Reg16::PC, 0xFF00);
    cpu.registers.write(Reg16::SP, 0xFFFE);
    cpu.execute(inst);
    assert_eq!(cpu.registers.PC, 0x0010);
    assert_eq!(cpu.registers.SP, 0xFFFC);
    assert_eq!(cpu.pop(), 0xFF01);
}

#[test]
fn ret() {
    let mut cpu = get_cpu();

    let inst = Instruction::Ret { cond: Cond::Always };
    cpu.push(0x1234);
    cpu.execute(inst);
    assert_eq!(cpu.registers.PC, 0x1234);

    let inst = Instruction::RetI;
    cpu.push(0x1234);
    cpu.execute(inst);
    assert_eq!(cpu.registers.PC, 0x1234);
}

#[test]
fn rotate_shift_swap() {
    let mut cpu = get_cpu();

    let inst = Instruction::Rlc {
        dst: Reg8::B.into(),
    };
    cpu.registers.write(Reg8::B, 0x85);
    cpu.execute(inst);
    assert_eq!(cpu.registers.read(Reg8::B), 0x0B);
    assert!(!cpu.registers.zero());
    assert!(!cpu.registers.subtract());
    assert!(!cpu.registers.half_carry());
    assert!(cpu.registers.carry());

    let inst = Instruction::Rl {
        dst: Reg8::L.into(),
    };
    cpu.registers.clear(Flag::Carry);
    cpu.registers.write(Reg8::L, 0x80);
    cpu.execute(inst);
    assert_eq!(cpu.registers.read(Reg8::L), 0);
    assert!(cpu.registers.zero());
    assert!(!cpu.registers.subtract());
    assert!(!cpu.registers.half_carry());
    assert!(cpu.registers.carry());

    let inst = Instruction::Rrc {
        dst: Reg8::C.into(),
    };
    cpu.registers.clear(Flag::Carry);
    cpu.registers.write(Reg8::C, 0x1);
    cpu.execute(inst);
    assert_eq!(cpu.registers.read(Reg8::C), 0x80);
    assert!(!cpu.registers.zero());
    assert!(!cpu.registers.subtract());
    assert!(!cpu.registers.half_carry());
    assert!(cpu.registers.carry());

    let inst = Instruction::Rr {
        dst: Reg8::A.into(),
    };
    cpu.registers.clear(Flag::Carry);
    cpu.registers.write(Reg8::A, 0x1);
    cpu.execute(inst);
    assert_eq!(cpu.registers.read(Reg8::A), 0);
    assert!(cpu.registers.zero());
    assert!(!cpu.registers.subtract());
    assert!(!cpu.registers.half_carry());
    assert!(cpu.registers.carry());

    let inst = Instruction::Sla {
        dst: Reg8::D.into(),
    };
    cpu.registers.write(Reg8::D, 0x80);
    cpu.execute(inst);
    assert_eq!(cpu.registers.read(Reg8::D), 0);
    assert!(cpu.registers.zero());
    assert!(!cpu.registers.subtract());
    assert!(!cpu.registers.half_carry());
    assert!(cpu.registers.carry());

    let inst = Instruction::Sra {
        dst: Reg8::A.into(),
    };
    cpu.registers.write(Reg8::A, 0x8A);
    cpu.execute(inst);
    assert_eq!(cpu.registers.read(Reg8::A), 0xC5);
    assert!(!cpu.registers.zero());
    assert!(!cpu.registers.subtract());
    assert!(!cpu.registers.half_carry());
    assert!(!cpu.registers.carry());

    cpu.registers.write(Reg8::A, 0x1);
    cpu.execute(inst);
    assert_eq!(cpu.registers.read(Reg8::A), 0);
    assert!(cpu.registers.zero());
    assert!(!cpu.registers.subtract());
    assert!(!cpu.registers.half_carry());
    assert!(cpu.registers.carry());

    let inst = Instruction::Srl {
        dst: Reg8::A.into(),
    };
    cpu.registers.clear(Flag::Carry);
    cpu.registers.write(Reg8::A, 0xFF);
    cpu.execute(inst);
    assert_eq!(cpu.registers.read(Reg8::A), 0x7F);
    assert!(!cpu.registers.zero());
    assert!(!cpu.registers.subtract());
    assert!(!cpu.registers.half_carry());
    assert!(cpu.registers.carry());

    let inst = Instruction::Swap {
        dst: Reg8::A.into(),
    };
    cpu.registers.write(Reg8::A, 0xF1);
    cpu.execute(inst);
    assert_eq!(cpu.registers.read(Reg8::A), 0x1F);
    assert!(!cpu.registers.zero());
    assert!(!cpu.registers.subtract());
    assert!(!cpu.registers.half_carry());
    assert!(!cpu.registers.carry());
}

#[test]
fn bit() {
    let mut cpu = get_cpu();

    let inst = Instruction::Bit {
        dst: Reg8::B.into(),
        bit: 2,
    };
    cpu.registers.write(Reg8::B, 0x4);
    cpu.execute(inst);
    assert!(!cpu.registers.zero());
    assert!(!cpu.registers.subtract());
    assert!(cpu.registers.half_carry());

    let inst = Instruction::SetBit {
        dst: Reg8::B.into(),
        bit: 3,
    };
    cpu.registers.write(Reg8::B, 0x7);
    cpu.execute(inst);
    assert_eq!(cpu.registers.read(Reg8::B), 0xF);

    let inst = Instruction::Res {
        dst: Reg8::B.into(),
        bit: 3,
    };
    cpu.registers.write(Reg8::B, 0xF);
    cpu.execute(inst);
    assert_eq!(cpu.registers.read(Reg8::B), 0x7);
}
