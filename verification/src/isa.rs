//! The instruction-set semantics: one specification function per
//! instruction over a mathematical machine snapshot, and the `step` function
//! that fetches, dispatches and sets the cycle budget exactly as `CPU::exec`
//! does.  These functions are the contract language of the CPU.

use vstd::prelude::*;
use crate::cpu::AddressingMode;
use crate::memory::MemSnap;
use crate::memory::mem_read_spec;
use crate::memory::mem_write_spec;
use crate::registers::Registers;
use crate::registers::apply_flag_byte;
use crate::registers::flags_to_byte;

verus! {

/// A snapshot of everything an instruction can see or change: the register
/// file, the bus with all it owns, and the remaining-cycle counter.
#[verifier::ext_equal]
pub struct Machine {
    pub regs: Registers,
    pub mem: MemSnap,
    pub cycles: u32,
}

impl Machine {
    pub open spec fn wf(self) -> bool {
        self.mem.wf()
    }
}

/// A CPU read through the bus, with zero substituted for an unmapped or
/// unimplemented address, as the CPU's own read does.
pub open spec fn read8(m: MemSnap, address: u16) -> u8 {
    match mem_read_spec(m, address) {
        Some(value) => value,
        None => 0,
    }
}

/// A little-endian 16-bit read of two consecutive bus addresses.
pub open spec fn read16(m: MemSnap, address: u16) -> u16 {
    read8(m, address) as u16 | ((read8(m, address.wrapping_add(1)) as u16) << 8)
}

/// A machine after one bus write; whether it was handled does not change
/// the machine further.
pub open spec fn write8(s: Machine, address: u16, value: u8) -> Machine {
    Machine { mem: mem_write_spec(s.mem, address, value).0, ..s }
}

/// The same machine with a new cycle budget.
pub open spec fn with_cycles(s: Machine, cycles: u32) -> Machine {
    Machine { cycles, ..s }
}

/// How many operand bytes an addressing mode consumes after the opcode.
pub open spec fn operand_length(mode: AddressingMode) -> u16 {
    match mode {
        AddressingMode::Immediate => 1,
        AddressingMode::ZeroPage => 1,
        AddressingMode::ZeroPageX => 1,
        AddressingMode::ZeroPageY => 1,
        AddressingMode::IndirectX => 1,
        AddressingMode::IndirectY => 1,
        AddressingMode::Absolute => 2,
        AddressingMode::AbsoluteX => 2,
        AddressingMode::AbsoluteY => 2,
        AddressingMode::Indirect => 2,
        AddressingMode::NoneAddressing => 0,
    }
}

/// The operand address an addressing mode resolves to, with the program
/// counter standing on the first operand byte.  Zero-page indexing wraps
/// within page zero; absolute indexing wraps the full address space; the
/// indirect modes read their pointer from page zero with wrap-around.
pub open spec fn operand_addr(mode: AddressingMode, regs: Registers, m: MemSnap) -> u16 {
    let pc = regs.program_counter;
    match mode {
        AddressingMode::Immediate => pc,
        AddressingMode::ZeroPage => read8(m, pc) as u16,
        AddressingMode::ZeroPageX => read8(m, pc).wrapping_add(regs.x) as u16,
        AddressingMode::ZeroPageY => read8(m, pc).wrapping_add(regs.y) as u16,
        AddressingMode::Absolute => read16(m, pc),
        AddressingMode::AbsoluteX => read16(m, pc).wrapping_add(regs.x as u16),
        AddressingMode::AbsoluteY => read16(m, pc).wrapping_add(regs.y as u16),
        AddressingMode::Indirect => read16(m, read16(m, pc)),
        AddressingMode::IndirectX => {
            let ptr = read8(m, pc).wrapping_add(regs.x);
            (read8(m, ptr.wrapping_add(1) as u16) as u16) << 8 | read8(m, ptr as u16) as u16
        },
        AddressingMode::IndirectY => {
            let base = read8(m, pc);
            let word = (read8(m, base.wrapping_add(1) as u16) as u16) << 8 | read8(
                m,
                base as u16,
            ) as u16;
            word.wrapping_add(regs.y as u16)
        },
        AddressingMode::NoneAddressing => 0,
    }
}

/// The register file after the operand bytes have been consumed.
pub open spec fn regs_after_operand(mode: AddressingMode, regs: Registers) -> Registers {
    Registers {
        program_counter: regs.program_counter.wrapping_add(operand_length(mode)),
        ..regs
    }
}

/// The machine after the operand bytes have been consumed.
pub open spec fn after_operand(mode: AddressingMode, s: Machine) -> Machine {
    Machine { regs: regs_after_operand(mode, s.regs), ..s }
}


/// Loads the operand into the accumulator; zero and negative follow the
/// loaded value.
pub open spec fn lda_spec(s: Machine, mode: AddressingMode) -> Machine {
    let addr = operand_addr(mode, s.regs, s.mem);
    let v = read8(s.mem, addr);
    Machine {
        regs: Registers {
            a: v,
            zero: v == 0,
            negative: v >= 0x80,
            ..regs_after_operand(mode, s.regs)
        },
        ..s
    }
}

/// Loads the operand into X; zero and negative follow the loaded value.
pub open spec fn ldx_spec(s: Machine, mode: AddressingMode) -> Machine {
    let addr = operand_addr(mode, s.regs, s.mem);
    let v = read8(s.mem, addr);
    Machine {
        regs: Registers {
            x: v,
            zero: v == 0,
            negative: v >= 0x80,
            ..regs_after_operand(mode, s.regs)
        },
        ..s
    }
}

/// Loads the operand into Y; zero and negative follow the loaded value.
pub open spec fn ldy_spec(s: Machine, mode: AddressingMode) -> Machine {
    let addr = operand_addr(mode, s.regs, s.mem);
    let v = read8(s.mem, addr);
    Machine {
        regs: Registers {
            y: v,
            zero: v == 0,
            negative: v >= 0x80,
            ..regs_after_operand(mode, s.regs)
        },
        ..s
    }
}

/// Stores the register at the operand address.
pub open spec fn sta_spec(s: Machine, mode: AddressingMode) -> Machine {
    let addr = operand_addr(mode, s.regs, s.mem);
    write8(after_operand(mode, s), addr, s.regs.a)
}

/// Stores the register at the operand address.
pub open spec fn stx_spec(s: Machine, mode: AddressingMode) -> Machine {
    let addr = operand_addr(mode, s.regs, s.mem);
    write8(after_operand(mode, s), addr, s.regs.x)
}

/// Stores the register at the operand address.
pub open spec fn sty_spec(s: Machine, mode: AddressingMode) -> Machine {
    let addr = operand_addr(mode, s.regs, s.mem);
    write8(after_operand(mode, s), addr, s.regs.y)
}

/// Bitwise conjunction of the accumulator with the operand; zero and negative
/// follow the result.
pub open spec fn and_spec(s: Machine, mode: AddressingMode) -> Machine {
    let addr = operand_addr(mode, s.regs, s.mem);
    let a = s.regs.a & read8(s.mem, addr);
    Machine {
        regs: Registers { a, zero: a == 0, negative: a >= 0x80, ..regs_after_operand(mode, s.regs) },
        ..s
    }
}

/// Bitwise disjunction of the accumulator with the operand; zero and negative
/// follow the result.
pub open spec fn ora_spec(s: Machine, mode: AddressingMode) -> Machine {
    let addr = operand_addr(mode, s.regs, s.mem);
    let a = s.regs.a | read8(s.mem, addr);
    Machine {
        regs: Registers { a, zero: a == 0, negative: a >= 0x80, ..regs_after_operand(mode, s.regs) },
        ..s
    }
}

/// Bitwise exclusive disjunction of the accumulator with the operand; zero and negative
/// follow the result.
pub open spec fn xor_spec(s: Machine, mode: AddressingMode) -> Machine {
    let addr = operand_addr(mode, s.regs, s.mem);
    let a = s.regs.a ^ read8(s.mem, addr);
    Machine {
        regs: Registers { a, zero: a == 0, negative: a >= 0x80, ..regs_after_operand(mode, s.regs) },
        ..s
    }
}

/// The add-with-carry core shared by ADC and SBC: the full 9-bit sum decides
/// the carry, and signed overflow holds exactly when both addends share a
/// sign that the result does not.
pub open spec fn adc_core(regs: Registers, value: u8) -> Registers {
    let sum = (regs.a as u16 + value as u16 + (if regs.carry {
        1u16
    } else {
        0u16
    })) as u16;
    let result = (sum & 0xff) as u8;
    let a_sign = regs.a & 0x80 > 0;
    let value_sign = value & 0x80 > 0;
    let result_sign = result & 0x80 > 0;
    Registers {
        a: result,
        carry: sum > 0xff,
        overflow: (a_sign != result_sign) && (a_sign == value_sign),
        zero: result == 0,
        negative: result >= 0x80,
        ..regs
    }
}

/// Add with carry.
pub open spec fn adc_spec(s: Machine, mode: AddressingMode) -> Machine {
    let addr = operand_addr(mode, s.regs, s.mem);
    Machine { regs: adc_core(regs_after_operand(mode, s.regs), read8(s.mem, addr)), ..s }
}

/// Subtract with carry: the bitwise complement of the operand is added, so
/// subtraction shares the adder and its flag rules.
pub open spec fn sbc_spec(s: Machine, mode: AddressingMode) -> Machine {
    let addr = operand_addr(mode, s.regs, s.mem);
    Machine { regs: adc_core(regs_after_operand(mode, s.regs), !read8(s.mem, addr)), ..s }
}

/// A conditional relative branch: the signed offset byte is consumed either
/// way; a taken branch applies it to the program counter first.
pub open spec fn branch_spec(s: Machine, taken: bool) -> Machine {
    let pc = s.regs.program_counter;
    let target = if taken {
        let value = read8(s.mem, pc);
        if value > 0x7f {
            pc.wrapping_sub((!value).wrapping_add(1) as u16)
        } else {
            pc.wrapping_add(value as u16)
        }
    } else {
        pc
    };
    Machine {
        regs: Registers { program_counter: target.wrapping_add(1), ..s.regs },
        ..s
    }
}


/// Increments the index register with wrap-around; zero and negative follow.
pub open spec fn inx_spec(s: Machine) -> Machine {
    let v = s.regs.x.wrapping_add(1);
    Machine { regs: Registers { x: v, zero: v == 0, negative: v >= 0x80, ..s.regs }, ..s }
}

/// Increments the index register with wrap-around; zero and negative follow.
pub open spec fn iny_spec(s: Machine) -> Machine {
    let v = s.regs.y.wrapping_add(1);
    Machine { regs: Registers { y: v, zero: v == 0, negative: v >= 0x80, ..s.regs }, ..s }
}

/// Decrements the index register with wrap-around; zero and negative follow.
pub open spec fn dex_spec(s: Machine) -> Machine {
    let v = s.regs.x.wrapping_sub(1);
    Machine { regs: Registers { x: v, zero: v == 0, negative: v >= 0x80, ..s.regs }, ..s }
}

/// Decrements the index register with wrap-around; zero and negative follow.
pub open spec fn dey_spec(s: Machine) -> Machine {
    let v = s.regs.y.wrapping_sub(1);
    Machine { regs: Registers { y: v, zero: v == 0, negative: v >= 0x80, ..s.regs }, ..s }
}

/// Increments the byte at the operand address with wrap-around; zero and
/// negative follow the stored value.
pub open spec fn inc_spec(s: Machine, mode: AddressingMode) -> Machine {
    let addr = operand_addr(mode, s.regs, s.mem);
    let v = read8(s.mem, addr).wrapping_add(1);
    let s2 = write8(after_operand(mode, s), addr, v);
    Machine { regs: Registers { zero: v == 0, negative: v >= 0x80, ..s2.regs }, ..s2 }
}

/// Decrements the byte at the operand address with wrap-around; zero and
/// negative follow the stored value.
pub open spec fn dec_spec(s: Machine, mode: AddressingMode) -> Machine {
    let addr = operand_addr(mode, s.regs, s.mem);
    let v = read8(s.mem, addr).wrapping_sub(1);
    let s2 = write8(after_operand(mode, s), addr, v);
    Machine { regs: Registers { zero: v == 0, negative: v >= 0x80, ..s2.regs }, ..s2 }
}

/// Compares the operand with the register: zero records equality and
/// negative follows the register's own sign bit.
pub open spec fn cmp_spec(s: Machine, mode: AddressingMode) -> Machine {
    let addr = operand_addr(mode, s.regs, s.mem);
    let v = read8(s.mem, addr);
    Machine {
        regs: Registers {
            zero: v == s.regs.a,
            negative: s.regs.a >= 0x80,
            ..regs_after_operand(mode, s.regs)
        },
        ..s
    }
}

/// Compares the operand with the register: zero records equality and
/// negative follows the register's own sign bit.
pub open spec fn cpx_spec(s: Machine, mode: AddressingMode) -> Machine {
    let addr = operand_addr(mode, s.regs, s.mem);
    let v = read8(s.mem, addr);
    Machine {
        regs: Registers {
            zero: v == s.regs.x,
            negative: s.regs.x >= 0x80,
            ..regs_after_operand(mode, s.regs)
        },
        ..s
    }
}

/// Compares the operand with the register: zero records equality and
/// negative follows the register's own sign bit.
pub open spec fn cpy_spec(s: Machine, mode: AddressingMode) -> Machine {
    let addr = operand_addr(mode, s.regs, s.mem);
    let v = read8(s.mem, addr);
    Machine {
        regs: Registers {
            zero: v == s.regs.y,
            negative: s.regs.y >= 0x80,
            ..regs_after_operand(mode, s.regs)
        },
        ..s
    }
}

/// Bit test: zero from the masked accumulator, negative and overflow copied
/// from the operand's two top bits.
pub open spec fn bit_spec(s: Machine, mode: AddressingMode) -> Machine {
    let addr = operand_addr(mode, s.regs, s.mem);
    let v = read8(s.mem, addr);
    Machine {
        regs: Registers {
            zero: s.regs.a & v == 0,
            negative: v & 0x80 != 0,
            overflow: v & 0x40 != 0,
            ..regs_after_operand(mode, s.regs)
        },
        ..s
    }
}

/// Arithmetic shift left.  On the accumulator only the carry is updated; on
/// memory the shifted value is stored and the carry takes the bit shifted
/// out.
pub open spec fn asl_spec(s: Machine, mode: AddressingMode) -> Machine {
    match mode {
        AddressingMode::NoneAddressing => Machine {
            regs: Registers { a: s.regs.a << 1, carry: s.regs.a >= 0x80, ..s.regs },
            ..s
        },
        _ => {
            let addr = operand_addr(mode, s.regs, s.mem);
            let v = read8(s.mem, addr);
            let s2 = write8(after_operand(mode, s), addr, v << 1);
            Machine { regs: Registers { carry: v >= 0x80, ..s2.regs }, ..s2 }
        },
    }
}

/// Logical shift right; carry, negative and zero are judged on the value
/// before the shift, zero in particular exactly when that value was one.
pub open spec fn lsr_spec(s: Machine, mode: AddressingMode) -> Machine {
    match mode {
        AddressingMode::NoneAddressing => {
            let v = s.regs.a;
            Machine {
                regs: Registers {
                    a: v >> 1,
                    carry: v & 1 == 1,
                    negative: v >= 0x80,
                    zero: v == 1,
                    ..s.regs
                },
                ..s
            }
        },
        _ => {
            let addr = operand_addr(mode, s.regs, s.mem);
            let v = read8(s.mem, addr);
            let s2 = write8(after_operand(mode, s), addr, v >> 1);
            Machine {
                regs: Registers {
                    carry: v & 1 == 1,
                    negative: v >= 0x80,
                    zero: v == 1,
                    ..s2.regs
                },
                ..s2
            }
        },
    }
}

/// Rotate left: the carry first takes the top bit, and that same fresh
/// carry is rotated into bit zero.
pub open spec fn rol_spec(s: Machine, mode: AddressingMode) -> Machine {
    match mode {
        AddressingMode::NoneAddressing => {
            let carry = s.regs.a >= 0x80;
            let v = (s.regs.a << 1) | (if carry {
                1u8
            } else {
                0u8
            });
            Machine { regs: Registers { a: v, carry, ..s.regs }, ..s }
        },
        _ => {
            let addr = operand_addr(mode, s.regs, s.mem);
            let v0 = read8(s.mem, addr);
            let carry = v0 >= 0x80;
            let v = (v0 << 1) | (if carry {
                1u8
            } else {
                0u8
            });
            let s2 = write8(after_operand(mode, s), addr, v);
            Machine { regs: Registers { carry, ..s2.regs }, ..s2 }
        },
    }
}

/// Rotate right: the carry first takes bit zero, and that same fresh carry
/// is rotated into the top bit.
pub open spec fn ror_spec(s: Machine, mode: AddressingMode) -> Machine {
    match mode {
        AddressingMode::NoneAddressing => {
            let carry = s.regs.a & 1 > 0;
            let v = (s.regs.a >> 1) | (if carry {
                0x80u8
            } else {
                0u8
            });
            Machine { regs: Registers { a: v, carry, ..s.regs }, ..s }
        },
        _ => {
            let addr = operand_addr(mode, s.regs, s.mem);
            let v0 = read8(s.mem, addr);
            let carry = v0 & 1 > 0;
            let v = (v0 >> 1) | (if carry {
                0x80u8
            } else {
                0u8
            });
            let s2 = write8(after_operand(mode, s), addr, v);
            Machine { regs: Registers { carry, ..s2.regs }, ..s2 }
        },
    }
}

/// A push: the stack pointer steps down with wrap-around, then the value is
/// written into the stack page at the new pointer.
pub open spec fn push_spec(s: Machine, value: u8) -> Machine {
    let sp = s.regs.stack_pointer.wrapping_sub(1);
    write8(
        Machine { regs: Registers { stack_pointer: sp, ..s.regs }, ..s },
        (sp as u16 + 0x100) as u16,
        value,
    )
}

/// What a pop returns: the byte in the stack page at the current pointer.
pub open spec fn pop_value(s: Machine) -> u8 {
    read8(s.mem, (s.regs.stack_pointer as u16 + 0x100) as u16)
}

/// A pop: the read slot is zeroed behind it, then the stack pointer steps
/// up with wrap-around.
pub open spec fn pop_spec(s: Machine) -> Machine {
    let addr = (s.regs.stack_pointer as u16 + 0x100) as u16;
    write8(
        Machine {
            regs: Registers { stack_pointer: s.regs.stack_pointer.wrapping_add(1), ..s.regs },
            ..s
        },
        addr,
        0,
    )
}

/// Push the accumulator.
pub open spec fn pha_spec(s: Machine) -> Machine {
    push_spec(s, s.regs.a)
}

/// Pop into the accumulator; zero and negative follow it.
pub open spec fn pla_spec(s: Machine) -> Machine {
    let a = pop_value(s);
    let s2 = pop_spec(s);
    Machine {
        regs: Registers { a, zero: a == 0, negative: a >= 0x80, ..s2.regs },
        ..s2
    }
}

/// Push the packed flag byte.
pub open spec fn php_spec(s: Machine) -> Machine {
    push_spec(s, flags_to_byte(s.regs))
}

/// Pop the packed flag byte back into the flags.
pub open spec fn plp_spec(s: Machine) -> Machine {
    let b = pop_value(s);
    let s2 = pop_spec(s);
    Machine { regs: apply_flag_byte(s2.regs, b), ..s2 }
}

/// Jump to subroutine: the return address minus one - the last byte of the
/// three-byte call - is pushed high byte first, then the 16-bit operand
/// word, read after those pushes, becomes the program counter.
pub open spec fn jsr_spec(s: Machine) -> Machine {
    let pc = s.regs.program_counter;
    let ret = pc.wrapping_add(1);
    let s1 = push_spec(s, ((ret & 0xff00) >> 8) as u8);
    let s2 = push_spec(s1, ret as u8);
    Machine {
        regs: Registers { program_counter: read16(s2.mem, pc), ..s2.regs },
        ..s2
    }
}

/// Return from subroutine: pop the low byte, then the high byte, and
/// resume one past the address they form - the instruction after the call.
pub open spec fn rts_spec(s: Machine) -> Machine {
    let lo = pop_value(s);
    let s1 = pop_spec(s);
    let hi = pop_value(s1);
    let s2 = pop_spec(s1);
    Machine {
        regs: Registers {
            program_counter: ((hi as u16) << 8 | lo as u16).wrapping_add(1),
            ..s2.regs
        },
        ..s2
    }
}

/// The BRK/IRQ entry: with interrupts disabled it is a no-op; otherwise the
/// program counter's bytes and the flag byte are pushed and the interrupt
/// vector at `0xfffe` is taken.
pub open spec fn irq_spec(s: Machine) -> Machine {
    if s.regs.interrupt_disable {
        s
    } else {
        let pc = s.regs.program_counter;
        let s1 = push_spec(s, ((pc & 0xff00) >> 8) as u8);
        let s2 = push_spec(s1, pc as u8);
        let s3 = push_spec(s2, flags_to_byte(s2.regs));
        Machine {
            regs: Registers { program_counter: read16(s3.mem, 0xfffe), ..s3.regs },
            ..s3
        }
    }
}

/// The non-maskable interrupt entry: like `irq_spec` but unconditional,
/// disabling further interrupts and taking the vector at `0xfffa`.
pub open spec fn nmi_spec(s: Machine) -> Machine {
    let pc = s.regs.program_counter;
    let s1 = push_spec(s, ((pc & 0xff00) >> 8) as u8);
    let s2 = push_spec(s1, pc as u8);
    let s3 = push_spec(s2, flags_to_byte(s2.regs));
    Machine {
        regs: Registers {
            program_counter: read16(s3.mem, 0xfffa),
            interrupt_disable: true,
            ..s3.regs
        },
        ..s3
    }
}

/// Return from interrupt: pop the flag byte, then return as RTS does.
pub open spec fn rti_spec(s: Machine) -> Machine {
    let b = pop_value(s);
    let s1 = pop_spec(s);
    rts_spec(Machine { regs: apply_flag_byte(s1.regs, b), ..s1 })
}

/// Jump: the operand address is resolved, and the 16-bit word found there
/// becomes the program counter.
pub open spec fn jmp_spec(s: Machine, mode: AddressingMode) -> Machine {
    let addr = operand_addr(mode, s.regs, s.mem);
    let s2 = after_operand(mode, s);
    Machine {
        regs: Registers { program_counter: read16(s2.mem, addr), ..s2.regs },
        ..s2
    }
}


/// Transfers the accumulator to X.
pub open spec fn tax_spec(s: Machine) -> Machine {
    Machine { regs: Registers { x: s.regs.a, ..s.regs }, ..s }
}

/// Transfers X to the accumulator.
pub open spec fn txa_spec(s: Machine) -> Machine {
    Machine { regs: Registers { a: s.regs.x, ..s.regs }, ..s }
}

/// Transfers the accumulator to Y.
pub open spec fn tay_spec(s: Machine) -> Machine {
    Machine { regs: Registers { y: s.regs.a, ..s.regs }, ..s }
}

/// Transfers Y to the accumulator.
pub open spec fn tya_spec(s: Machine) -> Machine {
    Machine { regs: Registers { a: s.regs.y, ..s.regs }, ..s }
}

/// Transfers X to the stack pointer.
pub open spec fn txs_spec(s: Machine) -> Machine {
    Machine { regs: Registers { stack_pointer: s.regs.x, ..s.regs }, ..s }
}

/// Transfers the stack pointer to X.
pub open spec fn tsx_spec(s: Machine) -> Machine {
    Machine { regs: Registers { x: s.regs.stack_pointer, ..s.regs }, ..s }
}

/// Clears the carry flag.
pub open spec fn clc_spec(s: Machine) -> Machine {
    Machine { regs: Registers { carry: false, ..s.regs }, ..s }
}

/// Sets the carry flag.
pub open spec fn sec_spec(s: Machine) -> Machine {
    Machine { regs: Registers { carry: true, ..s.regs }, ..s }
}

/// Clears the overflow flag.
pub open spec fn clv_spec(s: Machine) -> Machine {
    Machine { regs: Registers { overflow: false, ..s.regs }, ..s }
}

/// Sets the interrupt-disable flag.
pub open spec fn sei_spec(s: Machine) -> Machine {
    Machine { regs: Registers { interrupt_disable: true, ..s.regs }, ..s }
}

/// Clears the interrupt-disable flag.
pub open spec fn cli_spec(s: Machine) -> Machine {
    Machine { regs: Registers { interrupt_disable: false, ..s.regs }, ..s }
}

/// Branch when carry is clear.
pub open spec fn bcc_spec(s: Machine) -> Machine {
    branch_spec(s, !s.regs.carry)
}

/// Branch when carry is set.
pub open spec fn bcs_spec(s: Machine) -> Machine {
    branch_spec(s, s.regs.carry)
}

/// Branch when overflow is clear.
pub open spec fn bvc_spec(s: Machine) -> Machine {
    branch_spec(s, !s.regs.overflow)
}

/// Branch when overflow is set.
pub open spec fn bvs_spec(s: Machine) -> Machine {
    branch_spec(s, s.regs.overflow)
}

/// Branch when zero is set.
pub open spec fn beq_spec(s: Machine) -> Machine {
    branch_spec(s, s.regs.zero)
}

/// Branch when zero is clear.
pub open spec fn bne_spec(s: Machine) -> Machine {
    branch_spec(s, !s.regs.zero)
}

/// Branch when negative is clear.
pub open spec fn bpl_spec(s: Machine) -> Machine {
    branch_spec(s, !s.regs.negative)
}

/// Branch when negative is set.
pub open spec fn bmi_spec(s: Machine) -> Machine {
    branch_spec(s, s.regs.negative)
}

/// One external clock tick of the CPU: it spends a remaining cycle of the
/// instruction in flight, or executes the next instruction.
pub open spec fn clock_spec(s: Machine) -> Machine {
    if s.cycles > 0 {
        Machine { cycles: (s.cycles - 1) as u32, ..s }
    } else {
        step(s)
    }
}

/// The effect of one decoded opcode on the machine standing just past the
/// opcode byte, cycle budget included.  An opcode outside the implemented
/// set changes nothing.
#[verifier::opaque]
pub open spec fn apply_op(s1: Machine, opcode: u8) -> Machine {
    match opcode {
        0xea => with_cycles(s1, 2),
        0x09 => with_cycles(ora_spec(s1, AddressingMode::Immediate), 2),
        0x05 => with_cycles(ora_spec(s1, AddressingMode::ZeroPage), 3),
        0x15 => with_cycles(ora_spec(s1, AddressingMode::ZeroPageX), 4),
        0x0d => with_cycles(ora_spec(s1, AddressingMode::Absolute), 4),
        0x1d => with_cycles(ora_spec(s1, AddressingMode::AbsoluteX), 4),
        0x19 => with_cycles(ora_spec(s1, AddressingMode::AbsoluteY), 4),
        0x01 => with_cycles(ora_spec(s1, AddressingMode::IndirectX), 4),
        0x11 => with_cycles(ora_spec(s1, AddressingMode::IndirectY), 4),
        0x69 => with_cycles(adc_spec(s1, AddressingMode::Immediate), 2),
        0x65 => with_cycles(adc_spec(s1, AddressingMode::ZeroPage), 3),
        0x75 => with_cycles(adc_spec(s1, AddressingMode::ZeroPageX), 4),
        0x6d => with_cycles(adc_spec(s1, AddressingMode::Absolute), 4),
        0x7d => with_cycles(adc_spec(s1, AddressingMode::AbsoluteX), 4),
        0x79 => with_cycles(adc_spec(s1, AddressingMode::AbsoluteY), 4),
        0x61 => with_cycles(adc_spec(s1, AddressingMode::IndirectX), 6),
        0x71 => with_cycles(adc_spec(s1, AddressingMode::IndirectY), 5),
        0xa9 => with_cycles(lda_spec(s1, AddressingMode::Immediate), 2),
        0xa5 => with_cycles(lda_spec(s1, AddressingMode::ZeroPage), 3),
        0xb5 => with_cycles(lda_spec(s1, AddressingMode::ZeroPageX), 4),
        0xad => with_cycles(lda_spec(s1, AddressingMode::Absolute), 4),
        0xbd => with_cycles(lda_spec(s1, AddressingMode::AbsoluteX), 4),
        0xb9 => with_cycles(lda_spec(s1, AddressingMode::AbsoluteY), 4),
        0xa1 => with_cycles(lda_spec(s1, AddressingMode::IndirectX), 6),
        0xb1 => with_cycles(lda_spec(s1, AddressingMode::IndirectY), 5),
        0xa2 => with_cycles(ldx_spec(s1, AddressingMode::Immediate), 2),
        0xa6 => with_cycles(ldx_spec(s1, AddressingMode::ZeroPage), 3),
        0xb6 => with_cycles(ldx_spec(s1, AddressingMode::ZeroPageY), 4),
        0xae => with_cycles(ldx_spec(s1, AddressingMode::Absolute), 4),
        0xbe => with_cycles(ldx_spec(s1, AddressingMode::AbsoluteY), 4),
        0xa0 => with_cycles(ldy_spec(s1, AddressingMode::Immediate), 2),
        0xa4 => with_cycles(ldy_spec(s1, AddressingMode::ZeroPage), 3),
        0xb4 => with_cycles(ldy_spec(s1, AddressingMode::ZeroPageX), 4),
        0xac => with_cycles(ldy_spec(s1, AddressingMode::Absolute), 4),
        0xbc => with_cycles(ldy_spec(s1, AddressingMode::AbsoluteX), 4),
        0x29 => with_cycles(and_spec(s1, AddressingMode::Immediate), 2),
        0x25 => with_cycles(and_spec(s1, AddressingMode::ZeroPage), 3),
        0x35 => with_cycles(and_spec(s1, AddressingMode::ZeroPageX), 4),
        0x2d => with_cycles(and_spec(s1, AddressingMode::Absolute), 4),
        0x3d => with_cycles(and_spec(s1, AddressingMode::AbsoluteX), 4),
        0x39 => with_cycles(and_spec(s1, AddressingMode::AbsoluteY), 4),
        0x21 => with_cycles(and_spec(s1, AddressingMode::IndirectX), 6),
        0x31 => with_cycles(and_spec(s1, AddressingMode::IndirectY), 5),
        0x49 => with_cycles(xor_spec(s1, AddressingMode::Immediate), 2),
        0x45 => with_cycles(xor_spec(s1, AddressingMode::ZeroPage), 3),
        0x55 => with_cycles(xor_spec(s1, AddressingMode::ZeroPageX), 4),
        0x4d => with_cycles(xor_spec(s1, AddressingMode::Absolute), 4),
        0x5d => with_cycles(xor_spec(s1, AddressingMode::AbsoluteX), 4),
        0x59 => with_cycles(xor_spec(s1, AddressingMode::AbsoluteY), 4),
        0x41 => with_cycles(xor_spec(s1, AddressingMode::IndirectX), 6),
        0x51 => with_cycles(xor_spec(s1, AddressingMode::IndirectY), 5),
        0x4a => with_cycles(lsr_spec(s1, AddressingMode::NoneAddressing), 2),
        0x46 => with_cycles(lsr_spec(s1, AddressingMode::ZeroPage), 5),
        0x56 => with_cycles(lsr_spec(s1, AddressingMode::ZeroPageX), 6),
        0x4e => with_cycles(lsr_spec(s1, AddressingMode::Absolute), 6),
        0x5e => with_cycles(lsr_spec(s1, AddressingMode::AbsoluteX), 7),
        0x0a => with_cycles(asl_spec(s1, AddressingMode::NoneAddressing), 2),
        0x06 => with_cycles(asl_spec(s1, AddressingMode::ZeroPage), 5),
        0x16 => with_cycles(asl_spec(s1, AddressingMode::ZeroPageX), 6),
        0x0e => with_cycles(asl_spec(s1, AddressingMode::Absolute), 6),
        0x1e => with_cycles(asl_spec(s1, AddressingMode::AbsoluteX), 7),
        0x90 => with_cycles(bcc_spec(s1), 2),
        0xb0 => with_cycles(bcs_spec(s1), 2),
        0x50 => with_cycles(bvc_spec(s1), 2),
        0x70 => with_cycles(bvs_spec(s1), 2),
        0xf0 => with_cycles(beq_spec(s1), 2),
        0xd0 => with_cycles(bne_spec(s1), 2),
        0x10 => with_cycles(bpl_spec(s1), 2),
        0x30 => with_cycles(bmi_spec(s1), 2),
        0x58 => with_cycles(cli_spec(s1), 2),
        0x78 => with_cycles(sei_spec(s1), 2),
        0x20 => with_cycles(jsr_spec(s1), 6),
        0x60 => with_cycles(rts_spec(s1), 6),
        0x18 => with_cycles(clc_spec(s1), 2),
        0x38 => with_cycles(sec_spec(s1), 2),
        0xb8 => with_cycles(clv_spec(s1), 2),
        0x48 => with_cycles(pha_spec(s1), 3),
        0x68 => with_cycles(pla_spec(s1), 4),
        0x08 => with_cycles(php_spec(s1), 3),
        0x28 => with_cycles(plp_spec(s1), 3),
        0x9a => with_cycles(txs_spec(s1), 2),
        0xba => with_cycles(tsx_spec(s1), 2),
        0x24 => with_cycles(bit_spec(s1, AddressingMode::ZeroPage), 3),
        0x2c => with_cycles(bit_spec(s1, AddressingMode::Absolute), 4),
        0xaa => with_cycles(tax_spec(s1), 2),
        0x8a => with_cycles(txa_spec(s1), 2),
        0xa8 => with_cycles(tay_spec(s1), 2),
        0x98 => with_cycles(tya_spec(s1), 2),
        0x85 => with_cycles(sta_spec(s1, AddressingMode::ZeroPage), 3),
        0x95 => with_cycles(sta_spec(s1, AddressingMode::ZeroPageX), 4),
        0x8d => with_cycles(sta_spec(s1, AddressingMode::Absolute), 4),
        0x9d => with_cycles(sta_spec(s1, AddressingMode::AbsoluteX), 5),
        0x99 => with_cycles(sta_spec(s1, AddressingMode::AbsoluteY), 5),
        0x81 => with_cycles(sta_spec(s1, AddressingMode::IndirectX), 6),
        0x91 => with_cycles(sta_spec(s1, AddressingMode::IndirectY), 6),
        0x86 => with_cycles(stx_spec(s1, AddressingMode::ZeroPage), 3),
        0x96 => with_cycles(stx_spec(s1, AddressingMode::ZeroPageY), 4),
        0x8e => with_cycles(stx_spec(s1, AddressingMode::Absolute), 4),
        0x84 => with_cycles(sty_spec(s1, AddressingMode::ZeroPage), 3),
        0x94 => with_cycles(sty_spec(s1, AddressingMode::ZeroPageX), 4),
        0x8c => with_cycles(sty_spec(s1, AddressingMode::Absolute), 4),
        0x00 => with_cycles(irq_spec(s1), 7),
        0xc9 => with_cycles(cmp_spec(s1, AddressingMode::Immediate), 2),
        0xc5 => with_cycles(cmp_spec(s1, AddressingMode::ZeroPage), 3),
        0xd5 => with_cycles(cmp_spec(s1, AddressingMode::ZeroPageX), 4),
        0xcd => with_cycles(cmp_spec(s1, AddressingMode::Absolute), 4),
        0xdd => with_cycles(cmp_spec(s1, AddressingMode::AbsoluteX), 4),
        0xd9 => with_cycles(cmp_spec(s1, AddressingMode::AbsoluteY), 4),
        0xc1 => with_cycles(cmp_spec(s1, AddressingMode::IndirectX), 6),
        0xd1 => with_cycles(cmp_spec(s1, AddressingMode::IndirectY), 5),
        0xe0 => with_cycles(cpx_spec(s1, AddressingMode::Immediate), 2),
        0xe4 => with_cycles(cpx_spec(s1, AddressingMode::ZeroPage), 3),
        0xec => with_cycles(cpx_spec(s1, AddressingMode::Absolute), 4),
        0xc0 => with_cycles(cpy_spec(s1, AddressingMode::Immediate), 2),
        0xc4 => with_cycles(cpy_spec(s1, AddressingMode::ZeroPage), 3),
        0xcc => with_cycles(cpy_spec(s1, AddressingMode::Absolute), 4),
        0xc6 => with_cycles(dec_spec(s1, AddressingMode::ZeroPage), 5),
        0xd6 => with_cycles(dec_spec(s1, AddressingMode::ZeroPageX), 5),
        0xce => with_cycles(dec_spec(s1, AddressingMode::Absolute), 5),
        0xde => with_cycles(dec_spec(s1, AddressingMode::AbsoluteX), 5),
        0xe6 => with_cycles(inc_spec(s1, AddressingMode::ZeroPage), 5),
        0xf6 => with_cycles(inc_spec(s1, AddressingMode::ZeroPageX), 6),
        0xee => with_cycles(inc_spec(s1, AddressingMode::Absolute), 6),
        0xfe => with_cycles(inc_spec(s1, AddressingMode::AbsoluteX), 7),
        0x4c => with_cycles(jmp_spec(s1, AddressingMode::Absolute), 3),
        0x6c => with_cycles(jmp_spec(s1, AddressingMode::Indirect), 3),
        0xe9 => with_cycles(sbc_spec(s1, AddressingMode::Immediate), 2),
        0xe5 => with_cycles(sbc_spec(s1, AddressingMode::ZeroPage), 3),
        0xf5 => with_cycles(sbc_spec(s1, AddressingMode::ZeroPageX), 4),
        0xed => with_cycles(sbc_spec(s1, AddressingMode::Absolute), 4),
        0xfd => with_cycles(sbc_spec(s1, AddressingMode::AbsoluteX), 4),
        0xf9 => with_cycles(sbc_spec(s1, AddressingMode::AbsoluteY), 4),
        0xe1 => with_cycles(sbc_spec(s1, AddressingMode::IndirectX), 6),
        0xf1 => with_cycles(sbc_spec(s1, AddressingMode::IndirectY), 5),
        0xca => with_cycles(dex_spec(s1), 2),
        0x88 => with_cycles(dey_spec(s1), 2),
        0xe8 => with_cycles(inx_spec(s1), 2),
        0xc8 => with_cycles(iny_spec(s1), 2),
        0x2a => with_cycles(rol_spec(s1, AddressingMode::NoneAddressing), 2),
        0x26 => with_cycles(rol_spec(s1, AddressingMode::ZeroPage), 5),
        0x36 => with_cycles(rol_spec(s1, AddressingMode::ZeroPageX), 6),
        0x2e => with_cycles(rol_spec(s1, AddressingMode::Absolute), 6),
        0x3e => with_cycles(rol_spec(s1, AddressingMode::AbsoluteX), 7),
        0x6a => with_cycles(ror_spec(s1, AddressingMode::NoneAddressing), 2),
        0x66 => with_cycles(ror_spec(s1, AddressingMode::ZeroPage), 5),
        0x76 => with_cycles(ror_spec(s1, AddressingMode::ZeroPageX), 6),
        0x6e => with_cycles(ror_spec(s1, AddressingMode::Absolute), 6),
        0x7e => with_cycles(ror_spec(s1, AddressingMode::AbsoluteX), 7),
        0x40 => with_cycles(rti_spec(s1), 6),
        0xd8 => with_cycles(s1, 2),
        0xf8 => with_cycles(s1, 2),
        _ => s1,
    }
}

/// No instruction reaches the PPU's own state: every memory effect goes
/// through the bus, which never routes a CPU write into the PPU beyond its
/// register window, and that window drops every write while unimplemented.
/// Well-formedness of the bus is preserved along the way.
pub proof fn lemma_step_preserves_ppu(s: Machine)
    requires
        s.wf(),
    ensures
        step(s).wf(),
        step(s).mem.ppu == s.mem.ppu,
{
    let opcode = read8(s.mem, s.regs.program_counter);
    let s1 = Machine {
        regs: Registers {
            program_counter: s.regs.program_counter.wrapping_add(1),
            ..s.regs
        },
        ..s
    };
    if opcode < 0x40 {
        lemma_apply_op_preserves_ppu_00(s1, opcode);
    } else if opcode < 0x80 {
        lemma_apply_op_preserves_ppu_40(s1, opcode);
    } else if opcode < 0xc0 {
        lemma_apply_op_preserves_ppu_80(s1, opcode);
    } else {
        lemma_apply_op_preserves_ppu_c0(s1, opcode);
    }
}

#[verifier::rlimit(100)]
#[verifier::spinoff_prover]
proof fn lemma_apply_op_preserves_ppu_00(s1: Machine, opcode: u8)
    requires
        s1.wf(),
        0x00 <= opcode < 0x40,
    ensures
        apply_op(s1, opcode).wf(),
        apply_op(s1, opcode).mem.ppu == s1.mem.ppu,
{
    reveal(apply_op);
    assert forall|m2: MemSnap, a: u16, v: u8| m2.wf() implies {
        &&& (#[trigger] mem_write_spec(m2, a, v)).0.wf()
        &&& mem_write_spec(m2, a, v).0.ppu == m2.ppu
    } by {
        crate::memory::lemma_mem_write_preserves_wf(m2, a, v);
    }
}

#[verifier::rlimit(100)]
#[verifier::spinoff_prover]
proof fn lemma_apply_op_preserves_ppu_40(s1: Machine, opcode: u8)
    requires
        s1.wf(),
        0x40 <= opcode < 0x80,
    ensures
        apply_op(s1, opcode).wf(),
        apply_op(s1, opcode).mem.ppu == s1.mem.ppu,
{
    reveal(apply_op);
    assert forall|m2: MemSnap, a: u16, v: u8| m2.wf() implies {
        &&& (#[trigger] mem_write_spec(m2, a, v)).0.wf()
        &&& mem_write_spec(m2, a, v).0.ppu == m2.ppu
    } by {
        crate::memory::lemma_mem_write_preserves_wf(m2, a, v);
    }
}

#[verifier::rlimit(100)]
#[verifier::spinoff_prover]
proof fn lemma_apply_op_preserves_ppu_80(s1: Machine, opcode: u8)
    requires
        s1.wf(),
        0x80 <= opcode < 0xc0,
    ensures
        apply_op(s1, opcode).wf(),
        apply_op(s1, opcode).mem.ppu == s1.mem.ppu,
{
    reveal(apply_op);
    assert forall|m2: MemSnap, a: u16, v: u8| m2.wf() implies {
        &&& (#[trigger] mem_write_spec(m2, a, v)).0.wf()
        &&& mem_write_spec(m2, a, v).0.ppu == m2.ppu
    } by {
        crate::memory::lemma_mem_write_preserves_wf(m2, a, v);
    }
}

#[verifier::rlimit(100)]
#[verifier::spinoff_prover]
proof fn lemma_apply_op_preserves_ppu_c0(s1: Machine, opcode: u8)
    requires
        s1.wf(),
        0xc0 <= opcode < 0x100,
    ensures
        apply_op(s1, opcode).wf(),
        apply_op(s1, opcode).mem.ppu == s1.mem.ppu,
{
    reveal(apply_op);
    assert forall|m2: MemSnap, a: u16, v: u8| m2.wf() implies {
        &&& (#[trigger] mem_write_spec(m2, a, v)).0.wf()
        &&& mem_write_spec(m2, a, v).0.ppu == m2.ppu
    } by {
        crate::memory::lemma_mem_write_preserves_wf(m2, a, v);
    }
}

/// One full instruction: the opcode is fetched at the program counter, the
/// counter steps past it, and the opcode's effect is applied.
pub open spec fn step(s: Machine) -> Machine {
    let opcode = read8(s.mem, s.regs.program_counter);
    let s1 = Machine {
        regs: Registers {
            program_counter: s.regs.program_counter.wrapping_add(1),
            ..s.regs
        },
        ..s
    };
    apply_op(s1, opcode)
}

} // verus!
