//! Programs that check the processor from the inside and report over the serial port.
use std::time::{Duration, Instant};

use gbcemu::cartridge::Cartridge;
use gbcemu::gameboy::{Frame, Gameboy};

/// Address of the routine that reports a failure.
const FAIL: u16 = 0x0100 + 0x60;
/// Address of the routine that prints the text at `HL`.
const PRINT: u16 = 0x0100 + 0x70;
/// Address of the first check.
const START: u16 = 0x0100 + 0x100;

struct Program {
    code: Vec<u8>,
}

impl Program {
    fn new() -> Self {
        Self { code: Vec::new() }
    }

    fn here(&self) -> u16 {
        START + self.code.len() as u16
    }

    fn put(&mut self, bytes: &[u8]) -> &mut Self {
        self.code.extend_from_slice(bytes);
        self
    }

    /// Runs the bytes and fails unless `A` then holds the value.
    fn check_a(&mut self, bytes: &[u8], value: u8) -> &mut Self {
        self.put(bytes);
        // CP value; JP NZ, FAIL
        self.put(&[0xFE, value, 0xC2, FAIL as u8, (FAIL >> 8) as u8])
    }

    /// Runs the bytes and fails unless `A` and `F` then hold the values.
    fn check_af(&mut self, bytes: &[u8], a: u8, f: u8) -> &mut Self {
        self.put(bytes);
        // PUSH AF; POP BC
        self.put(&[0xF5, 0xC1]);
        self.check_a(&[0x78], a);
        self.check_a(&[0x79], f)
    }

    /// Runs the bytes between two looks at the timer and fails unless they took so many
    /// cycles, to the nearest sixteen.
    fn check_cycles(&mut self, bytes: &[u8], cycles: u16) -> &mut Self {
        // A tick per sixteen cycles; divider and counter cleared
        self.put(&[0x3E, 0x05, 0xE0, 0x07, 0xAF, 0xE0, 0x04, 0xE0, 0x05]);
        self.put(bytes);
        // The two writes that cleared them count for twenty-four cycles
        self.check_a(&[0xF0, 0x05], ((cycles + 24) / 16) as u8)
    }

    fn image(&self) -> Vec<u8> {
        let mut rom = vec![0u8; 0x8000];
        let mut place = |addr: u16, bytes: &[u8]| {
            let addr = addr as usize;
            rom[addr..addr + bytes.len()].copy_from_slice(bytes);
        };
        // RST 8: LD D, 0x77; RET
        place(0x08, &[0x16, 0x77, 0xC9]);
        // Timer interrupt: LD E, 0x55; RETI
        place(0x50, &[0x1E, 0x55, 0xD9]);
        place(0x100, &[0x00, 0xC3, START as u8, (START >> 8) as u8]);
        // LD HL, "Failed"; CALL PRINT; JR -2
        place(FAIL, &[0x21, 0x00, 0x40, 0xCD, PRINT as u8, (PRINT >> 8) as u8, 0x18, 0xFE]);
        // LD A, (HL+); OR A; RET Z; LDH (1), A; LD A, 0x81; LDH (2), A
        // LDH A, (2); AND 0x80; JR NZ, -6; JR -17
        place(
            PRINT,
            &[
                0x2A, 0xB7, 0xC8, 0xE0, 0x01, 0x3E, 0x81, 0xE0, 0x02, 0xF0, 0x02, 0xE6, 0x80, 0x20,
                0xFA, 0x18, 0xEF,
            ],
        );
        place(START, &self.code);
        // LD HL, "Passed"; CALL PRINT; JR -2
        place(
            self.here(),
            &[0x21, 0x10, 0x40, 0xCD, PRINT as u8, (PRINT >> 8) as u8, 0x18, 0xFE],
        );
        place(0x4000, b"Failed\n\0");
        place(0x4010, b"Passed\n\0");
        rom
    }
}

fn run_single_test_rom(
    rom: Vec<u8>,
    timeout: Option<u64>,
    output_check_fn: impl Fn(String) -> Option<bool>,
) -> bool {
    let cartridge = Cartridge::from_bytes(rom, false);
    let mut gameboy = Gameboy::init(cartridge).unwrap();

    let start = Instant::now();
    let timeout = Duration::from_secs(timeout.unwrap_or(60));

    let mut passed = false;

    loop {
        if start.elapsed() > timeout {
            println!("Test timed out after {:?}", timeout);
            break;
        }

        match gameboy.frame(None, 1_000_000) {
            Frame::Ready(_) => {}
            _ => break,
        }

        let serial = gameboy.serial_output();

        if let Some(result) = output_check_fn(serial) {
            passed = result;
            break;
        }
    }

    passed
}

#[test]
fn test_cpu_instrs() {
    let timeout = 180;
    let mut p = Program::new();

    // Special: JR backwards, JP HL, POP AF, DAA
    p.check_a(&[0x3E, 0x00, 0x18, 0x02, 0x18, 0x03, 0x3C, 0x18, 0xFB, 0x3C], 0x02);
    p.check_af(&[0x01, 0xFF, 0x12, 0xC5, 0xF1], 0x12, 0xF0);
    p.check_af(&[0x3E, 0x45, 0xC6, 0x38, 0x27], 0x83, 0x00);
    p.check_af(&[0x3E, 0x83, 0xD6, 0x38, 0x27], 0x45, 0x40);
    p.check_af(&[0x3E, 0x99, 0xC6, 0x01, 0x27], 0x00, 0x90);

    // Interrupts: EI and a pending timer interrupt, HALT with interrupts off
    p.put(&[0x1E, 0x00, 0x3E, 0x04, 0xE0, 0xFF, 0xE0, 0x0F, 0xFB, 0x00, 0x00, 0xF3]);
    p.check_a(&[0x7B], 0x55);
    p.put(&[0x1E, 0x00, 0x3E, 0x04, 0xE0, 0x0F, 0x76, 0x00]);
    p.check_a(&[0x7B], 0x00);
    p.check_a(&[0xF0, 0x0F, 0xE6, 0x04], 0x04);
    p.put(&[0xAF, 0xE0, 0x0F, 0xE0, 0xFF]);

    // Stack pointer and HL
    p.put(&[0x31, 0x00, 0xD0, 0xE8, 0x10, 0xF8, 0xFE]);
    p.check_a(&[0x7C], 0xD0);
    p.check_a(&[0x7D], 0x0E);
    p.put(&[0x08, 0x00, 0xC1]);
    p.check_a(&[0xFA, 0x00, 0xC1], 0x10);
    p.check_a(&[0xFA, 0x01, 0xC1], 0xD0);
    p.put(&[0x33, 0x3B, 0x31, 0xFE, 0xFF]);

    // Operations with an immediate
    p.check_af(&[0x3E, 0x3C, 0xC6, 0xFF], 0x3B, 0x30);
    p.check_af(&[0x37, 0x3E, 0xE1, 0xCE, 0x1E], 0x00, 0xB0);
    p.check_af(&[0x3E, 0x3E, 0xD6, 0x0F], 0x2F, 0x60);
    p.check_af(&[0x37, 0x3E, 0x3B, 0xDE, 0x4F], 0xEB, 0x70);
    p.check_af(&[0x3E, 0x0A, 0xE6, 0x02], 0x02, 0x20);
    p.check_af(&[0x3E, 0x0A, 0xF6, 0xF0], 0xFA, 0x00);
    p.check_af(&[0x3E, 0x0F, 0xEE, 0x0F], 0x00, 0x80);
    p.check_af(&[0x3E, 0x3C, 0xFE, 0x40], 0x3C, 0x50);

    // Register pairs
    p.put(&[0x21, 0xFF, 0x8F, 0x11, 0x01, 0x70, 0x19]);
    p.check_a(&[0x7C], 0x00);
    p.check_a(&[0x7D], 0x00);
    p.put(&[0x01, 0xFF, 0x00, 0x03]);
    p.check_a(&[0x78], 0x01);
    p.put(&[0x0B]);
    p.check_a(&[0x79], 0xFF);

    // Loads
    p.put(&[0x3E, 0x12, 0x47, 0x48, 0x51, 0x5A, 0x63, 0x6C, 0x3E, 0x00]);
    p.check_a(&[0x7D], 0x12);
    p.put(&[0x21, 0x00, 0xC2, 0x36, 0x5A, 0x23, 0x36, 0xA5, 0x2B, 0x2A]);
    p.check_a(&[0x00], 0x5A);
    p.check_a(&[0x3A], 0xA5);
    p.put(&[0x0E, 0x80, 0x3E, 0x99, 0xE2, 0x3E, 0x00]);
    p.check_a(&[0xF2], 0x99);
    p.check_a(&[0xF0, 0x80], 0x99);

    // Jumps, calls and restarts
    let at = p.here();
    let target = at + 6;
    p.put(&[0x3E, 0x01, 0xC3, target as u8, (target >> 8) as u8, 0x3C]);
    p.check_a(&[], 0x01);
    p.put(&[0x16, 0x00, 0xCF]);
    p.check_a(&[0x7A], 0x77);
    p.put(&[0x16, 0x00, 0xCD, 0x08, 0x00]);
    p.check_a(&[0x7A], 0x77);
    p.check_a(&[0x3E, 0x01, 0xB7, 0x28, 0x01, 0x3C], 0x02);

    // Miscellaneous
    p.check_af(&[0xB7, 0x3E, 0x80, 0x07], 0x01, 0x10);
    p.check_af(&[0xB7, 0x3E, 0x01, 0x1F], 0x00, 0x10);
    p.check_af(&[0xAF, 0x37, 0x3F, 0x3E, 0xF0, 0x2F], 0x0F, 0xE0);

    // Operations with a register and with memory
    p.check_af(&[0x3E, 0xFF, 0x3C], 0x00, 0xA0);
    p.check_af(&[0x37, 0x06, 0x10, 0x05, 0x78], 0x0F, 0x70);
    p.check_af(&[0x21, 0x00, 0xC2, 0x36, 0x0F, 0x3E, 0x01, 0x86], 0x10, 0x20);
    p.check_af(&[0x21, 0x00, 0xC2, 0x36, 0xFF, 0xB7, 0x34, 0x7E], 0x00, 0xA0);

    // Bit operations
    p.check_af(&[0x06, 0x85, 0xB7, 0xCB, 0x00, 0x78], 0x0B, 0x10);
    p.check_af(&[0x3E, 0x8A, 0xCB, 0x2F], 0xC5, 0x00);
    p.check_af(&[0x3E, 0xFF, 0xCB, 0x3F], 0x7F, 0x10);
    p.check_af(&[0x3E, 0xF1, 0xCB, 0x37], 0x1F, 0x00);
    p.check_af(&[0x37, 0x3E, 0x7F, 0xCB, 0x7F], 0x7F, 0xB0);
    p.check_a(&[0x3E, 0x07, 0xCB, 0xDF], 0x0F);
    p.check_a(&[0x3E, 0x0F, 0xCB, 0x9F], 0x07);

    let passed = run_single_test_rom(p.image(), Some(timeout), |line| {
        if line.contains("Passed") {
            Some(true)
        } else if line.contains("Failed") {
            Some(false)
        } else {
            None
        }
    });

    assert!(passed);
}

#[test]
fn test_instr_timing() {
    let timeout = 120;
    let mut p = Program::new();

    // Sixteen of each, so that the cycles of one are what the timer counts
    let timed: [(&[u8], u16); 24] = [
        (&[0x00], 4),
        (&[0x3C], 4),
        (&[0x80], 4),
        (&[0x06, 0x12], 8),
        (&[0xC6, 0x12], 8),
        (&[0x03], 8),
        (&[0x09], 8),
        (&[0x7E], 8),
        (&[0x77], 8),
        (&[0x36, 0x12], 12),
        (&[0x34], 12),
        (&[0x01, 0x34, 0x12], 12),
        (&[0xFA, 0x00, 0xC2], 16),
        (&[0xEA, 0x00, 0xC2], 16),
        (&[0x08, 0x00, 0xC1], 20),
        (&[0xC5], 16),
        (&[0xC1], 12),
        (&[0xF0, 0x80], 12),
        (&[0x18, 0x00], 12),
        (&[0xCB, 0x00], 8),
        (&[0xCB, 0x46], 12),
        (&[0xCB, 0x06], 16),
        (&[0xE8, 0x00], 16),
        (&[0xF8, 0x00], 12),
    ];
    for (bytes, cycles) in timed {
        p.put(&[0x21, 0x00, 0xC2, 0x31, 0x00, 0xDF]);
        let block = bytes.repeat(16);
        p.check_cycles(&block, 16 * cycles);
    }
    p.put(&[0x31, 0xFE, 0xFF]);
    // INC A clears the zero flag: JR NZ is taken, JR Z is passed over
    let mut jumps = vec![0x3Cu8];
    jumps.extend_from_slice(&[0x20u8, 0x00, 0x28, 0x00].repeat(8));
    p.check_cycles(&jumps, 4 + 8 * (12 + 8));

    let passed = run_single_test_rom(p.image(), Some(timeout), |line| {
        if line.contains("Passed") {
            Some(true)
        } else if line.contains("Failed") {
            Some(false)
        } else {
            None
        }
    });

    assert!(passed);
}

#[test]
fn a_wrong_result_is_reported() {
    let mut p = Program::new();
    p.check_a(&[0x3E, 0x01], 0x02);
    let passed = run_single_test_rom(p.image(), None, |line| {
        if line.contains("Passed") {
            Some(true)
        } else if line.contains("Failed") {
            Some(false)
        } else {
            None
        }
    });
    assert!(!passed);
}
