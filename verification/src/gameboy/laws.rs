//! What holds of the machine across steps.
use vstd::prelude::*;

use crate::cpu::effects::Group;
use crate::cpu::CpuView;
use crate::instructions::{Arg, Instruction};
use crate::interrupts::Interrupt;
use crate::memory::BusView;
use crate::registers::Reg16;

verus! {

impl BusView {
    /// The bus as it may be after `earlier`: the image of the cartridge and the kind of the
    /// machine are the same, and the bytes sent over the serial port begin with those sent
    /// before.
    #[verifier::opaque]
    pub open spec fn follows(self, earlier: BusView) -> bool {
        &&& self.controller.rom == earlier.controller.rom
        &&& self.cgb == earlier.cgb
        &&& earlier.io.serial.is_prefix_of(self.io.serial)
    }
}

broadcast proof fn lemma_same_follows(later: BusView, earlier: BusView)
    requires
        later.controller.rom == earlier.controller.rom,
        later.cgb == earlier.cgb,
        later.io.serial == earlier.io.serial,
    ensures
        #[trigger] later.follows(earlier),
{
    reveal(BusView::follows);
    let sent = earlier.io.serial;
    assert(sent.subrange(0, sent.len() as int) =~= sent);
}

proof fn lemma_follows_on(a: BusView, b: BusView, c: BusView)
    requires
        b.follows(a),
        c.follows(b),
    ensures
        c.follows(a),
{
    reveal(BusView::follows);
    let n = a.io.serial.len() as int;
    assert(c.io.serial.subrange(0, n) =~= b.io.serial.subrange(0, n));
}

broadcast proof fn lemma_poked_follows(bus: BusView, addr: u16, value: u8)
    ensures
        (#[trigger] bus.poked(addr, value)).follows(bus),
{
    broadcast use lemma_same_follows;

    reveal(BusView::poked);
    if addr == 0xFF02 && value & 0x81 == 0x81 {
        reveal(BusView::follows);
        let sent = bus.io.serial;
        assert(sent.push(bus.io.serial_data).subrange(0, sent.len() as int) =~= sent);
    }
}

broadcast proof fn lemma_poked_twice_follows(bus: BusView, a: u16, v: u8, b: u16, w: u8)
    ensures
        (#[trigger] bus.poked(a, v).poked(b, w)).follows(bus),
{
    broadcast use lemma_poked_follows;

    lemma_follows_on(bus, bus.poked(a, v), bus.poked(a, v).poked(b, w));
}

impl BusView {
    proof fn lemma_bus_stepped_follows(self, cycles: u16, speed: bool, now: u64)
        ensures
            self.stepped(cycles, speed, now).follows(self),
    {
        broadcast use lemma_same_follows;

        reveal(BusView::stepped);
    }
}

broadcast group group_follows {
    lemma_same_follows,
    lemma_poked_follows,
    lemma_poked_twice_follows,
}

broadcast proof fn lemma_stored_follows(s: CpuView, arg: Arg, value: u8)
    ensures
        (#[trigger] s.stored(arg, value)).bus.follows(s.bus),
{
    broadcast use lemma_same_follows, lemma_poked_follows;

}

broadcast proof fn lemma_pushed_follows(s: CpuView, value: u16)
    ensures
        (#[trigger] s.pushed(value)).bus.follows(s.bus),
{
    broadcast use lemma_poked_twice_follows;

}

broadcast proof fn lemma_accumulator_done_follows(s: CpuView, inst: Instruction, src: Arg)
    ensures
        (#[trigger] s.accumulator_done(inst, src)).bus.follows(s.bus),
{
    assert(s.accumulator_done(inst, src).bus == s.bus) by {
        reveal(CpuView::accumulator_done);
    }
    lemma_same_follows(s.bus, s.bus);
}

broadcast proof fn lemma_incremented_follows(s: CpuView, dst: Arg)
    ensures
        (#[trigger] s.incremented(dst)).bus.follows(s.bus),
{
    broadcast use lemma_same_follows, lemma_stored_follows;

    reveal(CpuView::incremented);
}

broadcast proof fn lemma_decremented_follows(s: CpuView, dst: Arg)
    ensures
        (#[trigger] s.decremented(dst)).bus.follows(s.bus),
{
    broadcast use lemma_same_follows, lemma_stored_follows;

    reveal(CpuView::decremented);
}

broadcast proof fn lemma_hl_added_follows(s: CpuView, src: Reg16)
    ensures
        (#[trigger] s.hl_added(src)).bus.follows(s.bus),
{
    broadcast use lemma_same_follows, lemma_stored_follows;

    reveal(CpuView::hl_added);
}

broadcast proof fn lemma_sp_moved_follows(s: CpuView, dst: Reg16, offset: i8)
    ensures
        (#[trigger] s.sp_moved(dst, offset)).bus.follows(s.bus),
{
    broadcast use lemma_same_follows, lemma_stored_follows;

    reveal(CpuView::sp_moved);
}

broadcast proof fn lemma_rotated_in_follows(
    s: CpuView,
    dst: Arg,
    left: bool,
    through: bool,
    a: bool,
)
    ensures
        (#[trigger] s.rotated_in(dst, left, through, a)).bus.follows(s.bus),
{
    broadcast use lemma_same_follows, lemma_stored_follows;

    reveal(CpuView::rotated_in);
}

broadcast proof fn lemma_shifted_in_follows(s: CpuView, dst: Arg, left: bool, arithmetic: bool)
    ensures
        (#[trigger] s.shifted_in(dst, left, arithmetic)).bus.follows(s.bus),
{
    broadcast use lemma_same_follows, lemma_stored_follows;

    reveal(CpuView::shifted_in);
}

broadcast proof fn lemma_swapped_in_follows(s: CpuView, dst: Arg)
    ensures
        (#[trigger] s.swapped_in(dst)).bus.follows(s.bus),
{
    broadcast use lemma_same_follows, lemma_stored_follows;

    reveal(CpuView::swapped_in);
}

broadcast proof fn lemma_bit_tested_follows(s: CpuView, dst: Arg, bit: u8)
    ensures
        (#[trigger] s.bit_tested(dst, bit)).bus.follows(s.bus),
{
    broadcast use lemma_same_follows, lemma_stored_follows;

    reveal(CpuView::bit_tested);
}

broadcast proof fn lemma_bit_put_follows(s: CpuView, dst: Arg, bit: u8, on: bool)
    ensures
        (#[trigger] s.bit_put(dst, bit, on)).bus.follows(s.bus),
{
    broadcast use lemma_same_follows, lemma_stored_follows;

    reveal(CpuView::bit_put);
}

broadcast proof fn lemma_stop_done_follows(s: CpuView)
    ensures
        (#[trigger] s.stop_done()).bus.follows(s.bus),
{
    broadcast use group_follows;

    reveal(CpuView::stop_done);
}

broadcast proof fn lemma_decimal_adjusted_follows(s: CpuView)
    ensures
        (#[trigger] s.decimal_adjusted()).bus.follows(s.bus),
{
    broadcast use lemma_same_follows, lemma_stored_follows;

    reveal(CpuView::decimal_adjusted);
}

broadcast proof fn lemma_complemented_follows(s: CpuView)
    ensures
        (#[trigger] s.complemented()).bus.follows(s.bus),
{
    broadcast use lemma_same_follows, lemma_stored_follows;

    reveal(CpuView::complemented);
}

broadcast proof fn lemma_carry_put_follows(s: CpuView, carry: bool)
    ensures
        (#[trigger] s.carry_put(carry)).bus.follows(s.bus),
{
    broadcast use lemma_same_follows, lemma_stored_follows;

    reveal(CpuView::carry_put);
}

broadcast proof fn lemma_loaded_follows(s: CpuView, dst: Arg, src: Arg)
    ensures
        (#[trigger] s.loaded(dst, src)).bus.follows(s.bus),
{
    broadcast use group_follows, lemma_stored_follows;

    reveal(CpuView::loaded);
}

broadcast proof fn lemma_port_stored_follows(s: CpuView, offset: u8)
    ensures
        (#[trigger] s.port_stored(offset)).bus.follows(s.bus),
{
    broadcast use group_follows;

    reveal(CpuView::port_stored);
}

broadcast proof fn lemma_port_loaded_follows(s: CpuView, offset: u8)
    ensures
        (#[trigger] s.port_loaded(offset)).bus.follows(s.bus),
{
    broadcast use lemma_same_follows, lemma_stored_follows;

    reveal(CpuView::port_loaded);
}

broadcast proof fn lemma_hl_loaded_follows(s: CpuView, from_memory: bool, next: u16)
    ensures
        (#[trigger] s.hl_loaded(from_memory, next)).bus.follows(s.bus),
{
    broadcast use group_follows, lemma_stored_follows;

    reveal(CpuView::hl_loaded);
}

broadcast proof fn lemma_pair_pushed_follows(s: CpuView, src: Reg16)
    ensures
        (#[trigger] s.pair_pushed(src)).bus.follows(s.bus),
{
    broadcast use lemma_pushed_follows;

    reveal(CpuView::pair_pushed);
}

broadcast proof fn lemma_pair_popped_follows(s: CpuView, dst: Reg16)
    ensures
        (#[trigger] s.pair_popped(dst)).bus.follows(s.bus),
{
    broadcast use lemma_same_follows, lemma_stored_follows;

    reveal(CpuView::pair_popped);
}

impl CpuView {
    proof fn lemma_computed_follows(self, inst: Instruction)
        ensures
            self.computed(inst).bus.follows(self.bus),
    {
        broadcast use
            lemma_same_follows,
            lemma_accumulator_done_follows,
            lemma_incremented_follows,
            lemma_decremented_follows,
            lemma_hl_added_follows,
            lemma_sp_moved_follows,
        ;

        reveal(CpuView::computed);
    }

    proof fn lemma_bits_follow(self, inst: Instruction)
        ensures
            self.bits_done(inst).bus.follows(self.bus),
    {
        broadcast use
            lemma_same_follows,
            lemma_rotated_in_follows,
            lemma_shifted_in_follows,
            lemma_swapped_in_follows,
            lemma_bit_tested_follows,
            lemma_bit_put_follows,
        ;

        reveal(CpuView::bits_done);
    }

    proof fn lemma_controlled_follows(self, inst: Instruction)
        ensures
            self.controlled(inst).bus.follows(self.bus),
    {
        broadcast use
            lemma_same_follows,
            lemma_stop_done_follows,
            lemma_decimal_adjusted_follows,
            lemma_complemented_follows,
            lemma_carry_put_follows,
            lemma_rotated_in_follows,
        ;

        reveal(CpuView::controlled);
    }

    proof fn lemma_moved_follows(self, inst: Instruction)
        ensures
            self.moved(inst).bus.follows(self.bus),
    {
        broadcast use
            lemma_same_follows,
            lemma_loaded_follows,
            lemma_port_stored_follows,
            lemma_port_loaded_follows,
            lemma_hl_loaded_follows,
            lemma_sp_moved_follows,
            lemma_pair_pushed_follows,
            lemma_pair_popped_follows,
        ;

        reveal(CpuView::moved);
    }

    proof fn lemma_jumped_follows(self, inst: Instruction)
        ensures
            self.jumped(inst).bus.follows(self.bus),
    {
        let next = self.registers.PC.wrapping_add(if inst is Rst { 1 } else { 3 });
        assert(self.jumped(inst).bus == self.bus || self.jumped(inst).bus == self.pushed(next).bus)
            by {
            reveal(CpuView::jumped);
        }
        lemma_pushed_follows(self, next);
        lemma_same_follows(self.bus, self.bus);
    }

    proof fn lemma_effect_follows(self, inst: Instruction)
        ensures
            self.effect(inst).bus.follows(self.bus),
    {
        reveal(CpuView::effect);
        match inst.group() {
            Group::Jump => self.lemma_jumped_follows(inst),
            Group::Arithmetic => self.lemma_computed_follows(inst),
            Group::Bits => self.lemma_bits_follow(inst),
            Group::Control => self.lemma_controlled_follows(inst),
            Group::Move => self.lemma_moved_follows(inst),
        }
    }

    proof fn lemma_serviced_follows(self)
        ensures
            self.serviced().0.bus.follows(self.bus),
    {
        broadcast use group_follows;

        reveal(CpuView::serviced);
        let flags = self.bus.peek(0xFF0F);
        match crate::cpu::step::first_requested(self.bus.peek(0xFFFF), flags, 0) {
            Some(n) => {
                let taken = self.bus.poked(0xFF0F, flags & !(1u8 << n));
                lemma_follows_on(self.bus, taken, self.entered(flags, n).bus);
            },
            None => {},
        }
    }

    proof fn lemma_stepped_follows(self)
        ensures
            self.stepped().bus.follows(self.bus),
    {
        broadcast use lemma_same_follows;

        let (s, int_cycles) = self.serviced();
        self.lemma_serviced_follows();
        if !s.halted {
            let inst = s.instruction_at(s.registers.PC);
            let done = s.advanced().0;
            s.lemma_effect_follows(inst);
            assert(done.bus == s.effect(inst).bus) by {
                reveal(CpuView::advanced);
            }
            lemma_follows_on(self.bus, s.bus, done.bus);
            assert(done.transferred().bus.follows(done.bus)) by {
                reveal(CpuView::transferred);
            }
            lemma_follows_on(self.bus, done.bus, done.transferred().bus);
        }
    }

    proof fn lemma_triggered_follows(self, interrupts: Seq<Interrupt>)
        ensures
            self.all_triggered(interrupts).bus.follows(self.bus),
        decreases interrupts.len(),
    {
        broadcast use lemma_same_follows, lemma_poked_follows;

        if interrupts.len() > 0 {
            let before = self.all_triggered(interrupts.drop_last());
            self.lemma_triggered_follows(interrupts.drop_last());
            lemma_follows_on(self.bus, before.bus, before.triggered(interrupts.last()).bus);
        }
    }

    proof fn lemma_resumed_follows(self)
        ensures
            self.resumed().bus.follows(self.bus),
    {
        broadcast use lemma_same_follows, lemma_poked_follows;

    }

    proof fn lemma_machine_stepped_follows(self, now: u64)
        ensures
            self.machine_stepped(now).bus.follows(self.bus),
    {
        let s = self.stepped();
        let cycles = self.step_cycles() as u16;
        let run = CpuView { bus: s.bus.stepped(cycles, self.speed, now), ..s };
        let told = run.all_triggered(s.bus.raised(cycles, self.speed));
        self.lemma_stepped_follows();
        s.bus.lemma_bus_stepped_follows(cycles, self.speed, now);
        lemma_follows_on(self.bus, s.bus, run.bus);
        run.lemma_triggered_follows(s.bus.raised(cycles, self.speed));
        lemma_follows_on(self.bus, run.bus, told.bus);
        told.lemma_resumed_follows();
        lemma_follows_on(self.bus, told.bus, told.resumed().bus);
        assert(self.machine_stepped(now) == told.resumed()) by {
            reveal(CpuView::machine_stepped);
        }
    }

    /// However long the machine runs, the text sent over the serial port only grows, and
    /// the image of the cartridge does not change.
    pub proof fn law_serial_is_cumulative(self, times: Seq<u64>)
        ensures
            self.bus.io.serial.is_prefix_of(self.machine_ran(times).bus.io.serial),
            self.machine_ran(times).bus.controller.rom == self.bus.controller.rom,
        decreases times.len(),
    {
        self.lemma_ran_follows(times);
        reveal(BusView::follows);
    }

    proof fn lemma_ran_follows(self, times: Seq<u64>)
        ensures
            self.machine_ran(times).bus.follows(self.bus),
        decreases times.len(),
    {
        broadcast use lemma_same_follows;

        if times.len() > 0 {
            let before = self.machine_ran(times.drop_last());
            self.lemma_ran_follows(times.drop_last());
            before.lemma_machine_stepped_follows(times.last());
            lemma_follows_on(self.bus, before.bus, self.machine_ran(times).bus);
        }
    }

    /// Running for some steps and then for some more is running for all of them.
    pub proof fn law_runs_add_up(self, first: Seq<u64>, second: Seq<u64>)
        ensures
            self.machine_ran(first + second) == self.machine_ran(first).machine_ran(second),
        decreases second.len(),
    {
        if second.len() == 0 {
            assert(first + second =~= first);
        } else {
            assert((first + second).drop_last() =~= first + second.drop_last());
            self.law_runs_add_up(first, second.drop_last());
        }
    }

    /// A frame is handed out once: when it has been picked up none is ready.
    pub proof fn law_frame_is_taken_once(self)
        ensures
            !self.frame_taken().frame_ready(),
            self.frame_taken().bus.ppu.frame_buffer.data == self.bus.ppu.frame_buffer.data,
            self.frame_taken().frame_taken() == self.frame_taken(),
    {
    }

    /// RAM that has been persisted is not handed out again until it is written to.
    pub proof fn law_ram_is_persisted_once(self, addr: u16, value: u8)
        requires
            self.bus.wf(),
            self.bus.controller.ram is Some,
        ensures
            !self.ram_persisted().bus.controller.ram->0.is_dirty,
            self.ram_persisted().bus.controller.ram->0.data == self.bus.controller.ram->0.data,
            ({
                let persisted = self.ram_persisted().bus;
                let written = persisted.poked(addr, value).controller.ram->0;
                written.data != persisted.controller.ram->0.data ==> written.is_dirty
            }),
    {
        reveal(BusView::poked);
    }
}

} // verus!
