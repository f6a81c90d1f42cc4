//! What a step, an event, a start and a save do to the whole machine.
use vstd::prelude::*;

use crate::apu::ApuView;
use crate::bits::{bit, lemma_mask_tests_bit};
use crate::cartridge::{Cartridge, ControllerView};
use crate::cpu::CpuView;
use crate::gameboy::state::{law_load_restores_saved, state_header};
use crate::interrupts::Interrupt;
use crate::joypad::{JoypadEvent, JoypadInput};
use crate::memory::{BusView, IoView};
use crate::ppu::PpuView;

verus! {

/// The place of a source's bit in the interrupt registers.
pub open spec fn place_of_source(source: Interrupt) -> int {
    match source {
        Interrupt::Vblank => 0,
        Interrupt::LcdStat => 1,
        Interrupt::Timer => 2,
        Interrupt::Serial => 3,
        Interrupt::Joypad => 4,
    }
}

impl CpuView {
    /// After a step an interrupt is pending exactly if the instruction left it pending, or a
    /// unit raised it in the cycles that the step took. The units have run for these cycles,
    /// and a stop is over.
    pub proof fn law_raised_is_pending(self, now: u64, source: Interrupt)
        ensures
            ({
                let s = self.stepped();
                let cycles = self.step_cycles() as u16;
                let ran = s.bus.stepped(cycles, self.speed, now);
                let t = self.machine_stepped(now);
                let n = place_of_source(source);
                &&& bit(t.bus.int_flags, n) <==> bit(s.bus.int_flags, n) || s.bus.raised(
                    cycles,
                    self.speed,
                ).contains(source)
                &&& t.registers == s.registers
                &&& t.bus.ppu == ran.ppu && t.bus.io == ran.io && t.bus.controller
                    == ran.controller && t.bus.ram == ran.ram && t.bus.high_ram == ran.high_ram
                &&& t.bus.int_enable == ran.int_enable
                &&& !t.stopped
                &&& !s.stopped ==> t.bus.timer == ran.timer
                &&& s.stopped ==> t.bus.timer.divider == 0
                &&& t.ime == s.ime && t.halted == s.halted && t.speed == s.speed
            }),
    {
        let s = self.stepped();
        let cycles = self.step_cycles() as u16;
        let raised = s.bus.raised(cycles, self.speed);
        let ran = CpuView { bus: s.bus.stepped(cycles, self.speed, now), ..s };
        let told = ran.all_triggered(raised);
        ran.lemma_all_triggered(raised, source);
        s.bus.law_step_runs_all_units(cycles, self.speed, now);
        assert(self.machine_stepped(now) == told.resumed()) by {
            reveal(CpuView::machine_stepped);
        }
        assert(told.resumed().bus.int_flags == told.bus.int_flags) by {
            reveal(BusView::poked);
        }
        told.bus.law_ports(0xFF04, 0);
    }

    proof fn lemma_all_triggered(self, raised: Seq<Interrupt>, source: Interrupt)
        ensures
            ({
                let t = self.all_triggered(raised);
                let n = place_of_source(source);
                &&& bit(t.bus.int_flags, n) <==> bit(self.bus.int_flags, n) || raised.contains(
                    source,
                )
                &&& t == (CpuView {
                    bus: BusView { int_flags: t.bus.int_flags, ..self.bus },
                    ..self
                })
            }),
        decreases raised.len(),
    {
        if raised.len() > 0 {
            let rest = raised.drop_last();
            let before = self.all_triggered(rest);
            let flags = before.bus.int_flags;
            self.lemma_all_triggered(rest, source);
            before.law_sources_set_their_bits();
            lemma_mask_tests_bit(flags);
            lemma_mask_tests_bit(self.all_triggered(raised).bus.int_flags);
            lemma_or_bits(flags);
            assert(raised.contains(source) <==> rest.contains(source) || raised.last() == source)
                by {
                assert(raised =~= rest.push(raised.last()));
                if raised.contains(source) && raised.last() != source {
                    let i = choose|i: int| 0 <= i < raised.len() && raised[i] == source;
                    assert(rest[i] == source);
                }
                if rest.contains(source) {
                    let i = choose|i: int| 0 <= i < rest.len() && rest[i] == source;
                    assert(raised[i] == source);
                }
                assert(raised[raised.len() - 1] == raised.last());
            }
        }
    }

    /// A button that goes down asks for the joypad's interrupt, bit 4, unless it was down
    /// before; one that goes up does not. Nothing but the joypad and that bit changes.
    pub proof fn law_press_asks_for_interrupt(self, input: JoypadInput)
        ensures
            ({
                let d = self.joypad_moved(JoypadEvent::Down(input));
                let u = self.joypad_moved(JoypadEvent::Up(input));
                let flags = self.bus.int_flags;
                &&& d.bus.joypad == self.bus.joypad.after(JoypadEvent::Down(input))
                &&& u.bus.joypad == self.bus.joypad.after(JoypadEvent::Up(input))
                &&& u.bus.int_flags == flags
                &&& d.bus.int_flags == (if self.bus.joypad.holds(input) {
                    flags
                } else {
                    flags | 0x10
                })
                &&& d == (CpuView {
                    bus: BusView {
                        joypad: d.bus.joypad,
                        int_flags: d.bus.int_flags,
                        ..self.bus
                    },
                    ..self
                })
                &&& u == (CpuView {
                    bus: BusView { joypad: u.bus.joypad, ..self.bus },
                    ..self
                })
            }),
    {
        (CpuView {
            bus: BusView {
                joypad: self.bus.joypad.after(JoypadEvent::Down(input)),
                ..self.bus
            },
            ..self
        }).law_sources_set_their_bits();
    }

    /// A machine with a cartridge starts at 0x100 with the stack at 0xFFFE and its registers
    /// as the boot program leaves them, by the kind of the machine; or at zero with all of
    /// them zero, if the boot program is still to run.
    pub proof fn law_start(cartridge: Cartridge, now: u64)
        ensures
            ({
                let s = CpuView::with_cartridge(cartridge, now);
                let r = s.registers;
                &&& s.cgb == cartridge.wants_color()
                &&& s.bus.cgb == s.cgb && s.bus.ppu.cgb == s.cgb && s.bus.ppu.vram.cgb == s.cgb
                &&& !s.halted && !s.stopped && !s.speed && !s.ime
                &&& s.bus.controller == ControllerView::inserted(cartridge, now)
                &&& s.bus.ram_bank == 1 && s.bus.int_flags == 0 && s.bus.int_enable == 0
                &&& s.bus.ram == Seq::new(32768, |i: int| 0u8)
                &&& s.bus.high_ram == Seq::new(127, |i: int| 0u8)
                &&& s.bus.io.serial.len() == 0 && !s.bus.io.serial_pending
                &&& cartridge.boot_rom ==> r.PC == 0 && r.SP == 0 && r.A == 0 && r.F == 0 && r.B
                    == 0 && r.C == 0 && r.D == 0 && r.E == 0 && r.H == 0 && r.L == 0
                &&& !cartridge.boot_rom ==> r.PC == 256 && r.SP == 65534 && r.B == 0
                &&& !cartridge.boot_rom && s.cgb ==> r.A == 17 && r.F == 128 && r.C == 0 && r.D
                    == 255 && r.E == 86 && r.H == 0 && r.L == 13
                &&& !cartridge.boot_rom && !s.cgb ==> r.A == 1 && r.F == 176 && r.C == 19 && r.D
                    == 0 && r.E == 216 && r.H == 1 && r.L == 77
            }),
    {
    }

    /// A reset starts the machine anew without the boot program, and keeps the cartridge: its
    /// image, its RAM and its clock; its switches go back to where they start.
    pub proof fn law_reset_keeps_cartridge(self)
        ensures
            ({
                let b = self.bus.reset_done();
                &&& b.controller.rom == self.bus.controller.rom
                &&& b.controller.ram == self.bus.controller.ram
                &&& b.controller.rtc == self.bus.controller.rtc
                &&& b.controller.rom_bank == 1 && !b.controller.enabled
                    && !b.controller.rtc_mapped
                &&& b.cgb == self.bus.cgb && b.ppu.cgb == self.bus.cgb
                &&& b.ppu.lcdc.raw == 145 && b.ppu.ly == 0 && b.ppu.dot == 0
                &&& b.ram_bank == 1 && b.int_flags == 0 && b.int_enable == 0
                &&& b.ram == Seq::new(32768, |i: int| 0u8)
                &&& b.high_ram == Seq::new(127, |i: int| 0u8)
                &&& b.timer.counter == 0 && b.timer.control == 0 && b.timer.divider == 0
                &&& b.joypad.buttons == 0 && b.joypad.directions == 0
            }),
    {
    }
}

/// A saved machine begins with a mark of four letters and the version, low byte first, and
/// gives back its registers, its state, its memories and its units when it is loaded.
pub proof fn law_saved_machine_returns(machine: CpuView)
    requires
        machine.bus.wf(),
        machine.bus.storable(),
    ensures
        ({
            let data = state_header() + machine.encode();
            let m = CpuView::decode(data, 8);
            &&& data.take(8) == seq![71u8, 66, 67, 83, 1, 0, 0, 0]
            &&& m.registers == machine.registers
            &&& m.cgb == machine.cgb && m.halted == machine.halted && m.stopped == machine.stopped
            &&& m.speed == machine.speed && m.ime == machine.ime
            &&& m.bus.ram == machine.bus.ram && m.bus.high_ram == machine.bus.high_ram
            &&& m.bus.ram_bank == machine.bus.ram_bank
            &&& m.bus.int_flags == machine.bus.int_flags
            &&& m.bus.int_enable == machine.bus.int_enable
            &&& m.bus.timer == machine.bus.timer && m.bus.joypad == machine.bus.joypad
            &&& m.bus.cgb == machine.bus.cgb
            &&& m.bus.controller.ram == machine.bus.controller.ram
            &&& m.bus.controller.rtc == machine.bus.controller.rtc
            &&& m.bus.controller.rom_bank == machine.bus.controller.rom_bank
            &&& m.bus.controller.enabled == machine.bus.controller.enabled
            &&& m.bus.controller.rtc_mapped == machine.bus.controller.rtc_mapped
            &&& m.bus.io.serial_data == machine.bus.io.serial_data
            &&& m.bus.io.serial_control == machine.bus.io.serial_control
            &&& m.bus.io.serial_pending == machine.bus.io.serial_pending
            &&& m.bus.io.prep_speed_switch == machine.bus.io.prep_speed_switch
        }),
{
    law_load_restores_saved(machine);
    let data = state_header() + machine.encode();
    assert(data.take(8) =~= state_header());
    assert(state_header() =~= seq![71u8, 66, 67, 83, 1, 0, 0, 0]);
}

/// What the picture unit and the sound unit of a saved machine give back.
pub proof fn law_saved_units_return(machine: CpuView)
    requires
        machine.bus.wf(),
        machine.bus.storable(),
    ensures
        ({
            let m = CpuView::decode(state_header() + machine.encode(), 8);
            let p = m.bus.ppu;
            let q = machine.bus.ppu;
            let a = m.bus.io.apu;
            let b = machine.bus.io.apu;
            &&& p.vram == q.vram && p.oam == q.oam && p.frame_buffer == q.frame_buffer
            &&& p.lcdc == q.lcdc && p.stat == q.stat && p.scx == q.scx && p.scy == q.scy
            &&& p.ly == q.ly && p.lyc == q.lyc && p.dot == q.dot
            &&& p.oam_dma == q.oam_dma && p.oam_dma_active == q.oam_dma_active
            &&& p.bgp == q.bgp && p.obp0 == q.obp0 && p.obp1 == q.obp1
            &&& p.wx == q.wx && p.wy == q.wy && p.window_line_counter == q.window_line_counter
            &&& p.bcps == q.bcps && p.ocps == q.ocps && p.opri == q.opri
            &&& p.bg_palette_ram == q.bg_palette_ram
            &&& p.sprite_palette_ram == q.sprite_palette_ram
            &&& p.prev_stat_interrupt == q.prev_stat_interrupt && p.cgb == q.cgb
            &&& a.nr50 == b.nr50 && a.nr51 == b.nr51 && a.nr52 == b.nr52
            &&& a.ch1.freq == b.ch1.freq && a.ch1.enabled == b.ch1.enabled
            &&& a.ch1.duty == b.ch1.duty && a.ch1.length == b.ch1.length
            &&& a.ch1.envelope.cur_vol == b.ch1.envelope.cur_vol
            &&& a.ch2.freq == b.ch2.freq && a.ch2.enabled == b.ch2.enabled
            &&& a.ch2.duty == b.ch2.duty && a.ch2.length == b.ch2.length
            &&& a.ch2.envelope.cur_vol == b.ch2.envelope.cur_vol
            &&& a.ch3 == b.ch3 && a.ch1_sweep == b.ch1_sweep
            &&& a.ch4.lfsr == b.ch4.lfsr && a.ch4.enabled == b.ch4.enabled
            &&& a.ch4.divisor_code == b.ch4.divisor_code && a.ch4.clock_shift == b.ch4.clock_shift
            &&& a.ch4.width_mode == b.ch4.width_mode && a.ch4.length == b.ch4.length
            &&& a.ch4.envelope.cur_vol == b.ch4.envelope.cur_vol
            &&& a.frame_step == b.frame_step && a.frame_cycle == b.frame_cycle
            &&& a.sample_cycle == b.sample_cycle && a.sample_frac == b.sample_frac
            &&& a.filter == b.filter
        }),
{
    law_load_restores_saved(machine);
}

proof fn lemma_or_bits(v: u8)
    by (bit_vector)
    ensures
        ({
            let same = |w: u8, m: u8| (w & m != 0) == (v & m != 0);
            &&& (v | 0x01) & 0x01 != 0
            &&& same(v | 0x01, 0x02) && same(v | 0x01, 0x04) && same(v | 0x01, 0x08) && same(
                v | 0x01,
                0x10,
            )
            &&& (v | 0x02) & 0x02 != 0
            &&& same(v | 0x02, 0x01) && same(v | 0x02, 0x04) && same(v | 0x02, 0x08) && same(
                v | 0x02,
                0x10,
            )
            &&& (v | 0x04) & 0x04 != 0
            &&& same(v | 0x04, 0x01) && same(v | 0x04, 0x02) && same(v | 0x04, 0x08) && same(
                v | 0x04,
                0x10,
            )
            &&& (v | 0x08) & 0x08 != 0
            &&& same(v | 0x08, 0x01) && same(v | 0x08, 0x02) && same(v | 0x08, 0x04) && same(
                v | 0x08,
                0x10,
            )
            &&& (v | 0x10) & 0x10 != 0
            &&& same(v | 0x10, 0x01) && same(v | 0x10, 0x02) && same(v | 0x10, 0x04) && same(
                v | 0x10,
                0x08,
            )
        }),
{
}

impl CpuView {
    /// Events of the joypad take effect one after the other.
    pub proof fn law_events_in_order(self, first: Seq<JoypadEvent>, second: Seq<JoypadEvent>)
        ensures
            self.joypad_updated(first + second) == self.joypad_updated(first).joypad_updated(
                second,
            ),
            forall|event: JoypadEvent| #[trigger]
                self.joypad_updated(seq![event]) == self.joypad_moved(event),
        decreases second.len(),
    {
        if second.len() == 0 {
            assert(first + second =~= first);
        } else {
            assert((first + second).drop_last() =~= first + second.drop_last());
            self.law_events_in_order(first, second.drop_last());
        }
        assert forall|event: JoypadEvent| #[trigger]
            self.joypad_updated(seq![event]) == self.joypad_moved(event) by {
            assert(seq![event].drop_last() =~= Seq::empty());
            reveal_with_fuel(CpuView::joypad_updated, 2);
        }
    }

    /// State outlives a run if the cartridge has RAM or a clock. Taking the records of the
    /// sound unit, or the frame, changes nothing but them.
    pub proof fn law_what_is_taken(self)
        ensures
            self.persists() <==> self.bus.controller.ram is Some || self.bus.controller.rtc is Some,
            ({
                let s = self.audio_drained();
                &&& s.bus.io.apu.buffer.len() == 0
                &&& self == (CpuView {
                    bus: BusView {
                        io: IoView {
                            apu: ApuView {
                                buffer: self.bus.io.apu.buffer,
                                ..s.bus.io.apu
                            },
                            ..s.bus.io
                        },
                        ..s.bus
                    },
                    ..s
                })
            }),
            ({
                let s = self.frame_taken();
                &&& !s.bus.ppu.frame_buffer.ready
                &&& s.bus.ppu.frame_buffer.data == self.bus.ppu.frame_buffer.data
                &&& self == (CpuView {
                    bus: BusView {
                        ppu: PpuView {
                            frame_buffer: self.bus.ppu.frame_buffer,
                            ..s.bus.ppu
                        },
                        ..s.bus
                    },
                    ..s
                })
            }),
    {
    }
}

} // verus!
