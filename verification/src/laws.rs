//! Laws that relate several operations of the machine, stated over the same
//! specification functions the executable contracts use.

use vstd::prelude::*;
use crate::isa;
use crate::isa::Machine;
use crate::memory::MemSnap;
use crate::memory::mem_read_spec;
use crate::memory::mem_write_spec;

verus! {

/// Bus precedence: an address the cartridge claims is served by the
/// cartridge alone.  A read returns the cartridge's byte, and a write is
/// handled while RAM and the PPU stay untouched, whatever ranges the
/// address would otherwise fall into.
pub proof fn lemma_bus_precedence(m: MemSnap, address: u16, data: u8)
    requires
        m.cart.cpu_read_spec(address) is Some,
    ensures
        mem_read_spec(m, address) == m.cart.cpu_read_spec(address),
        mem_write_spec(m, address, data).0.ram == m.ram,
        mem_write_spec(m, address, data).0.ppu == m.ppu,
        mem_write_spec(m, address, data).1,
{
}

/// Stack round trip: popping immediately after pushing returns the pushed
/// value and restores the stack pointer, for every byte value and every
/// well-formed machine.  The stack page sits below the cartridge window, so
/// the byte lands either in RAM or in mapper-claimed memory, and both hand
/// it back.
pub proof fn lemma_stack_round_trip(s: Machine, value: u8)
    requires
        s.wf(),
    ensures
        isa::pop_value(isa::push_spec(s, value)) == value,
        isa::pop_spec(isa::push_spec(s, value)).regs.stack_pointer == s.regs.stack_pointer,
        isa::push_spec(s, value).regs.stack_pointer == s.regs.stack_pointer.wrapping_sub(1),
{
    let sp = s.regs.stack_pointer.wrapping_sub(1);
    let addr = (sp as u16 + 0x100) as u16;
    assert(addr & 0x7ff < 0x800 && (addr & 0x7ff) == addr) by (bit_vector)
        requires
            0x100 <= addr < 0x200,
    ;
}

/// Subroutine round trip: a return right after a jump-to-subroutine brings
/// the program counter to the instruction after the three-byte call, and
/// restores the stack pointer, for every starting position.  The call
/// pushes the bytes of the return address minus one, and the return adds
/// the one back after reassembling them.
pub proof fn lemma_jsr_rts_round_trip(s: Machine)
    requires
        s.wf(),
    ensures
        isa::rts_spec(isa::jsr_spec(s)).regs.program_counter == s.regs.program_counter.wrapping_add(
            2,
        ),
        isa::rts_spec(isa::jsr_spec(s)).regs.stack_pointer == s.regs.stack_pointer,
{
    let pc = s.regs.program_counter;
    let ret = pc.wrapping_add(1);
    let hi: u8 = ((ret & 0xff00) >> 8) as u8;
    let lo: u8 = ret as u8;
    let sp1 = s.regs.stack_pointer.wrapping_sub(1);
    let sp2 = sp1.wrapping_sub(1);
    let a1 = (sp1 as u16 + 0x100) as u16;
    let a2 = (sp2 as u16 + 0x100) as u16;
    assert(a1 & 0x7ff == a1 && a2 & 0x7ff == a2 && a1 & 0x7ff < 0x800 && a2 & 0x7ff < 0x800)
        by (bit_vector)
        requires
            0x100 <= a1 < 0x200,
            0x100 <= a2 < 0x200,
    ;
    assert(sp1 != sp2);
    let j = isa::jsr_spec(s);
    assert(isa::pop_value(j) == lo);
    let s1 = isa::pop_spec(j);
    assert(isa::pop_value(s1) == hi);
    assert((hi as u16) << 8 | lo as u16 == ret) by (bit_vector)
        requires
            hi == ((ret & 0xff00) >> 8) as u8,
            lo == ret as u8,
    ;
}

} // verus!
