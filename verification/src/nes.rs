//! The orchestrator: owns the whole machine and drives the documented clock
//! ratio of one CPU step for every three PPU ticks.

use vstd::prelude::*;
use crate::cartridge::Cartridge;
use crate::cpu::CPU;
use crate::isa;
use crate::isa::Machine;
use crate::memory::MemSnap;
use crate::memory::Memory;
use crate::ppu::PPU;
use crate::ppu::ppu_run_spec;
use crate::registers::Registers;
use crate::registers::initial_registers;

verus! {

/// One orchestrator tick: the PPU always runs; the CPU is clocked only on
/// the tick whose phase counter stands at zero.
pub open spec fn nes_clock_spec(s: Machine, clock_count: u8) -> Machine {
    let s1 = Machine { mem: MemSnap { ppu: ppu_run_spec(s.mem.ppu), ..s.mem }, ..s };
    if clock_count % 3 == 0 {
        isa::clock_spec(s1)
    } else {
        s1
    }
}

/// Clock-ratio law: starting at phase zero, three consecutive master-clock
/// ticks advance the PPU by exactly three of its own ticks and the CPU by
/// exactly one clock step, taken on the first tick against the PPU state of
/// that moment.  This is the documented 3:1 ratio, exact over every cycle
/// of the phase counter.
pub proof fn lemma_three_ticks_one_cpu_step(s: Machine)
    requires
        s.wf(),
    ensures
        ({
            let s3 = nes_clock_spec(nes_clock_spec(nes_clock_spec(s, 0), 1), 2);
            let c = isa::clock_spec(
                Machine { mem: MemSnap { ppu: ppu_run_spec(s.mem.ppu), ..s.mem }, ..s },
            );
            &&& s3.regs == c.regs
            &&& s3.cycles == c.cycles
            &&& s3.mem.ram == c.mem.ram
            &&& s3.mem.cart == c.mem.cart
            &&& s3.mem.ppu == ppu_run_spec(ppu_run_spec(ppu_run_spec(s.mem.ppu)))
        }),
{
    let m1 = Machine { mem: MemSnap { ppu: ppu_run_spec(s.mem.ppu), ..s.mem }, ..s };
    if s.cycles == 0 {
        crate::isa::lemma_step_preserves_ppu(m1);
    }
}

/// Owns the CPU, which in turn owns the bus with the cartridge and the PPU:
/// a single owner for all mutable machine state.
pub struct NES {
    pub cpu: CPU,
    pub clock_count: u8,
}

impl NES {
    /// The whole machine is well formed: the bus is, the PPU counters sit
    /// in range, and the clock phase stays below three so the 3:1 ratio
    /// holds exactly, tick after tick, without the phase ever slipping.
    pub open spec fn wf(self) -> bool {
        &&& self.cpu.wf()
        &&& self.cpu.memory@.ppu.wf()
        &&& self.clock_count < 3
    }

    /// Builds the machine around a cartridge - fresh PPU, zeroed RAM,
    /// power-on registers - and seeds the program counter from the reset
    /// vector, the one sanctioned way to start.
    pub fn new(cartridge: Cartridge) -> (r: NES)
        requires
            cartridge@.cpu_ok(),
        ensures
            r.wf(),
            r.clock_count == 0,
            r.cpu.remaining_cycles == 0,
            r.cpu.memory@.cart == cartridge@,
            r.cpu.memory@.ram == Seq::new(0x800nat, |i: int| 0u8),
            r.cpu.memory@.ppu.frame_complete == false,
            r.cpu.memory@.ppu.cycle == 0,
            r.cpu.memory@.ppu.scanline == -1,
            r.cpu.registers == (Registers {
                program_counter: isa::read16(r.cpu.memory@, 0xfffc),
                ..initial_registers()
            }),
    {
        let ppu = PPU::new();
        let memory = Memory::new(cartridge, ppu);
        let mut cpu = CPU::new(memory);
        cpu.init();
        NES { cpu, clock_count: 0 }
    }

    /// One tick of the master clock: the PPU runs every tick and the CPU
    /// every third, the only timing contract the core upholds.
    #[verifier::rlimit(100)]
    #[verifier::spinoff_prover]
    pub fn clock(&mut self)
        requires
            old(self).wf(),
        ensures
            final(self).wf(),
            final(self).cpu.snap() == nes_clock_spec(old(self).cpu.snap(), old(self).clock_count),
            final(self).clock_count == (old(self).clock_count + 1) % 3,
    {
        self.cpu.memory.ppu.run();
        if self.clock_count % 3 == 0 {
            self.cpu.clock();
        }
        self.clock_count = (self.clock_count + 1) % 3;
    }

    /// The PPU, for presentation-layer queries.
    pub fn ppu(&self) -> (r: &PPU)
        ensures
            r == &self.cpu.memory.ppu,
    {
        &self.cpu.memory.ppu
    }

    /// The cartridge, shared read-only with pattern-table queries.
    pub fn cartridge(&self) -> (r: &Cartridge)
        ensures
            r == &self.cpu.memory.cartridge,
    {
        &self.cpu.memory.cartridge
    }

    /// The bus.
    pub fn memory(&self) -> (r: &Memory)
        ensures
            r == &self.cpu.memory,
    {
        &self.cpu.memory
    }
}

} // verus!
