//! The CPU's architectural state: accumulator, index registers, stack
//! pointer, program counter and the five tracked status flags, together with
//! the packed flag-byte layout used by the stack instructions.

use vstd::prelude::*;

verus! {

/// Architectural registers of the CPU.
///
/// The packed flag byte places negative at bit 0, overflow at bit 1,
/// interrupt-disable at bit 5, zero at bit 6 and carry at bit 7; the other
/// bits are unused.  This layout is this machine's own convention and the
/// push/pop instructions round-trip through it.
#[derive(Debug, Clone, Copy, PartialEq, Eq, Structural)]
pub struct Registers {
    pub a: u8,
    pub x: u8,
    pub y: u8,
    pub stack_pointer: u8,
    pub program_counter: u16,
    pub negative: bool,
    pub overflow: bool,
    pub interrupt_disable: bool,
    pub zero: bool,
    pub carry: bool,
}

/// The mask of flag-byte bits that carry a meaning: bits 0, 1, 5, 6 and 7.
pub open spec fn flag_mask() -> u8 {
    0xe3
}

/// The packed flag byte of a register file, bit for bit.
pub open spec fn flags_to_byte(r: Registers) -> u8 {
    ((if r.negative {
        1u8
    } else {
        0u8
    }) + (if r.overflow {
        2u8
    } else {
        0u8
    }) + (if r.interrupt_disable {
        0x20u8
    } else {
        0u8
    }) + (if r.zero {
        0x40u8
    } else {
        0u8
    }) + (if r.carry {
        0x80u8
    } else {
        0u8
    })) as u8
}

/// The register file after unpacking a flag byte: the five flags take the
/// byte's bits, everything else is kept.
pub open spec fn apply_flag_byte(r: Registers, flags: u8) -> Registers {
    Registers {
        negative: flags & 1 == 1,
        overflow: flags & 2 == 2,
        interrupt_disable: flags & 0x20 == 0x20,
        zero: flags & 0x40 == 0x40,
        carry: flags & 0x80 == 0x80,
        ..r
    }
}

impl Registers {
    /// The power-on register file: cleared data registers, interrupts
    /// disabled, and the program counter parked on the reset-vector address
    /// until `init` loads the vector.  The stack pointer starts at an
    /// arbitrary fixed value, as the hardware leaves it undefined.
    pub fn new() -> (r: Registers)
        ensures
            r == initial_registers(),
    {
        Registers {
            a: 0,
            x: 0,
            y: 0,
            negative: false,
            overflow: false,
            interrupt_disable: true,
            zero: false,
            carry: false,
            stack_pointer: 0x24,
            program_counter: 0xfffc,
        }
    }

    /// Unpacks a flag byte into the five tracked flags.
    pub fn set_flags_from_byte(&mut self, flags: u8)
        ensures
            *final(self) == apply_flag_byte(*old(self), flags),
    {
        self.negative = flags & 1 == 1;
        self.overflow = flags & 2 == 2;
        self.interrupt_disable = flags & 0x20 == 0x20;
        self.zero = flags & 0x40 == 0x40;
        self.carry = flags & 0x80 == 0x80;
    }

    /// Packs the five tracked flags into one byte.
    pub fn get_flags(&self) -> (r: u8)
        ensures
            r == flags_to_byte(*self),
    {
        let mut result: u8 = 0;
        if self.negative {
            result = result + 1;
        }
        if self.overflow {
            result = result + 2;
        }
        if self.interrupt_disable {
            result = result + 0x20;
        }
        if self.zero {
            result = result + 0x40;
        }
        if self.carry {
            result = result + 0x80;
        }
        result
    }
}

/// The register file `Registers::new` returns.
pub open spec fn initial_registers() -> Registers {
    Registers {
        a: 0,
        x: 0,
        y: 0,
        negative: false,
        overflow: false,
        interrupt_disable: true,
        zero: false,
        carry: false,
        stack_pointer: 0x24,
        program_counter: 0xfffc,
    }
}

/// Flag round-trip, one direction: packing the flags right after unpacking a
/// byte gives the byte back, up to the unused bits.
pub proof fn lemma_flag_byte_round_trip(r: Registers, b: u8)
    ensures
        flags_to_byte(apply_flag_byte(r, b)) == b & flag_mask(),
{
    assert((if b & 1 == 1 {
        1u8
    } else {
        0u8
    }) + (if b & 2 == 2 {
        2u8
    } else {
        0u8
    }) + (if b & 0x20 == 0x20 {
        0x20u8
    } else {
        0u8
    }) + (if b & 0x40 == 0x40 {
        0x40u8
    } else {
        0u8
    }) + (if b & 0x80 == 0x80 {
        0x80u8
    } else {
        0u8
    }) == b & 0xe3) by (bit_vector);
}

/// Flag round-trip, the other direction: unpacking the packed byte restores
/// every tracked flag and leaves the rest of the register file alone.
pub proof fn lemma_flags_survive_packing(r: Registers)
    ensures
        apply_flag_byte(r, flags_to_byte(r)) == r,
{
    let n: u8 = if r.negative {
        1
    } else {
        0
    };
    let v: u8 = if r.overflow {
        2
    } else {
        0
    };
    let i: u8 = if r.interrupt_disable {
        0x20
    } else {
        0
    };
    let z: u8 = if r.zero {
        0x40
    } else {
        0
    };
    let c: u8 = if r.carry {
        0x80
    } else {
        0
    };
    let b = flags_to_byte(r);
    assert((b & 1 == 1) == (n == 1) && (b & 2 == 2) == (v == 2) && (b & 0x20 == 0x20) == (i
        == 0x20) && (b & 0x40 == 0x40) == (z == 0x40) && (b & 0x80 == 0x80) == (c == 0x80))
        by (bit_vector)
        requires
            b == (n + v + i + z + c) as u8,
            n == 0 || n == 1,
            v == 0 || v == 2,
            i == 0 || i == 0x20,
            z == 0 || z == 0x40,
            c == 0 || c == 0x80,
    ;
}

} // verus!
