//! The execution engine: one handler per opcode, each verified against the
//! transition functions of the instruction-set model, and the trap
//! dispatcher. Traps that print hand back the bytes to write; traps that
//! read ask the caller for a byte, which `store_input` then stores.

use vstd::prelude::*;

verus! {

use crate::isa::{
    base_rel_addr, do_add, do_and, do_br, do_jmp, do_jsr, do_ld, do_ldi, do_ldr, do_lea, do_not,
    do_st, do_sti, do_str, execute_post, low_byte, packed_byte, pc_rel_addr, putsp_post,
    puts_post, second_operand, sext, signed_val, trap_post, wadd, wrap_idx, ExecOutcome, Fault,
    InputRequest,
};
use crate::memory::{Memory, MEMORY_SIZE};
use crate::opcode::{extract_opcode, Opcode};
use crate::register::{
    lemma_read_gpr, lemma_write_gpr, Register, RegisterFile, FL_NEG, FL_POS, FL_ZRO,
};

/// Sign extension: given a `bit_count`-bit two's-complement field packed in
/// the low bits of `x`, fills the remaining high bits with the sign bit.
pub fn sign_extend(x: u16, bit_count: u16) -> (r: u16)
    requires
        1 <= bit_count <= 15,
        x < (1u16 << bit_count),
    ensures
        r == sext(x, bit_count),
{
    proof {
        assert((x >> ((bit_count - 1) as u16)) & 1 == 0 || (x >> ((bit_count - 1) as u16)) & 1
            == 1) by (bit_vector);
    }
    if ((x >> (bit_count - 1)) & 1) != 0 {
        x | (0xFFFF << bit_count)
    } else {
        x
    }
}

/// Law: for each field width the architecture uses (5, 6, 9 and 11 bits)
/// and every value of such a field, sign extension yields the 16-bit word
/// whose two's-complement value equals the field's own two's-complement
/// value.
pub proof fn lemma_sign_extend_correct(x: u16, n: u16)
    requires
        n == 5 || n == 6 || n == 9 || n == 11,
        x < (1u16 << n),
    ensures
        signed_val(sext(x, n), 16) == signed_val(x, n),
{
    if n == 5 {
        assert(x < (1u16 << 5) ==> signed_val(sext(x, 5), 16) == signed_val(x, 5))
            by (bit_vector);
    } else if n == 6 {
        assert(x < (1u16 << 6) ==> signed_val(sext(x, 6), 16) == signed_val(x, 6))
            by (bit_vector);
    } else if n == 9 {
        assert(x < (1u16 << 9) ==> signed_val(sext(x, 9), 16) == signed_val(x, 9))
            by (bit_vector);
    } else {
        assert(x < (1u16 << 11) ==> signed_val(sext(x, 11), 16) == signed_val(x, 11))
            by (bit_vector);
    }
}

/// ADD: the destination register takes the wrapping sum of the first source
/// register and the second operand (a register, or the sign-extended 5-bit
/// immediate, per the mode bit); the condition flags follow the result.
pub fn execute_add(raw: u16, registers: &mut RegisterFile)
    ensures
        final(registers)@ == do_add(raw, old(registers)@),
{
    let dr = (raw >> 9) & 0x7;
    let sr1 = (raw >> 6) & 0x7;
    let mode = (raw >> 5) & 0x1;
    proof {
        assert((raw >> 9) & 0x7 <= 7 && (raw >> 6) & 0x7 <= 7 && (raw & 0x7) <= 7 && (raw & 0x1F)
            < (1u16 << 5)) by (bit_vector);
        assert((raw >> 5) & 0x1 == 0 || (raw >> 5) & 0x1 == 1) by (bit_vector);
        lemma_read_gpr(old(registers)@, sr1 as int);
        lemma_read_gpr(old(registers)@, (raw & 0x7) as int);
        lemma_write_gpr(old(registers)@, dr as int, wadd(old(registers)@.gprs[sr1 as int],
            second_operand(raw, old(registers)@)));
    }
    let val1 = registers.read(Register::from_index(sr1));
    let val2 = if mode == 0 {
        let sr2 = raw & 0x7;
        registers.read(Register::from_index(sr2))
    } else {
        sign_extend(raw & 0x1F, 5)
    };
    let result = val1.wrapping_add(val2);
    registers.write(Register::from_index(dr), result);
    registers.update_flags(result);
}

/// AND: the destination register takes the bitwise conjunction of the first
/// source register and the second operand; the condition flags follow.
pub fn execute_and(raw: u16, registers: &mut RegisterFile)
    ensures
        final(registers)@ == do_and(raw, old(registers)@),
{
    let dr = (raw >> 9) & 0x7;
    let sr1 = (raw >> 6) & 0x7;
    let mode = (raw >> 5) & 0x1;
    proof {
        assert((raw >> 9) & 0x7 <= 7 && (raw >> 6) & 0x7 <= 7 && (raw & 0x7) <= 7 && (raw & 0x1F)
            < (1u16 << 5)) by (bit_vector);
        assert((raw >> 5) & 0x1 == 0 || (raw >> 5) & 0x1 == 1) by (bit_vector);
        lemma_read_gpr(old(registers)@, sr1 as int);
        lemma_read_gpr(old(registers)@, (raw & 0x7) as int);
        lemma_write_gpr(old(registers)@, dr as int, old(registers)@.gprs[sr1 as int]
            & second_operand(raw, old(registers)@));
    }
    let val1 = registers.read(Register::from_index(sr1));
    let val2 = if mode == 0 {
        let sr2 = raw & 0x7;
        registers.read(Register::from_index(sr2))
    } else {
        sign_extend(raw & 0x1F, 5)
    };
    let result = val1 & val2;
    registers.write(Register::from_index(dr), result);
    registers.update_flags(result);
}

/// NOT: the destination register takes the bitwise complement of the source
/// register; the condition flags follow the result.
pub fn execute_not(raw: u16, registers: &mut RegisterFile)
    ensures
        final(registers)@ == do_not(raw, old(registers)@),
{
    let dr = (raw >> 9) & 0x7;
    let sr = (raw >> 6) & 0x7;
    proof {
        assert((raw >> 9) & 0x7 <= 7 && (raw >> 6) & 0x7 <= 7) by (bit_vector);
        lemma_read_gpr(old(registers)@, sr as int);
        lemma_write_gpr(old(registers)@, dr as int, !old(registers)@.gprs[sr as int]);
    }
    let val = registers.read(Register::from_index(sr));
    let result = !val;
    registers.write(Register::from_index(dr), result);
    registers.update_flags(result);
}

/// BR: if any of the instruction's requested negative/zero/positive bits
/// matches the condition register, the program counter (already past the
/// fetch) moves by the sign-extended 9-bit offset. No flag update.
pub fn execute_br(raw: u16, registers: &mut RegisterFile)
    ensures
        final(registers)@ == do_br(raw, old(registers)@),
{
    proof {
        assert(raw & 0x1FF < (1u16 << 9)) by (bit_vector);
    }
    let pc = registers.read(Register::PC);
    let cond = registers.read(Register::COND);
    let n = (raw >> 11) & 0x1;
    let z = (raw >> 10) & 0x1;
    let p = (raw >> 9) & 0x1;
    if (n == 1 && cond & FL_NEG != 0) || (z == 1 && cond & FL_ZRO != 0) || (p == 1 && cond & FL_POS
        != 0) {
        let pc_offset = sign_extend(raw & 0x1FF, 9);
        registers.write(Register::PC, pc.wrapping_add(pc_offset));
    }
}

/// JMP: the program counter takes the base register's value. A return from
/// subroutine is this instruction with base register R7; it needs no
/// special case. No flag update.
pub fn execute_jmp(raw: u16, registers: &mut RegisterFile)
    ensures
        final(registers)@ == do_jmp(raw, old(registers)@),
{
    let base_r = (raw >> 6) & 0x7;
    proof {
        assert((raw >> 6) & 0x7 <= 7) by (bit_vector);
        lemma_read_gpr(old(registers)@, base_r as int);
    }
    let base = registers.read(Register::from_index(base_r));
    registers.write(Register::PC, base);
}

/// JSR/JSRR: R7 saves the already-incremented program counter; then the
/// counter moves by the sign-extended 11-bit offset if instruction bit 11
/// is set, else it takes the base register's value (read after the save).
pub fn execute_jsr(raw: u16, registers: &mut RegisterFile)
    ensures
        final(registers)@ == do_jsr(raw, old(registers)@),
{
    proof {
        assert(raw & 0x7FF < (1u16 << 11)) by (bit_vector);
    }
    let pc = registers.read(Register::PC);
    registers.write(Register::R7, pc);
    if (raw >> 11) & 0x1 == 1 {
        let pc_offset = sign_extend(raw & 0x7FF, 11);
        registers.write(Register::PC, pc.wrapping_add(pc_offset));
    } else {
        let base_r = (raw >> 6) & 0x7;
        proof {
            assert((raw >> 6) & 0x7 <= 7) by (bit_vector);
            lemma_read_gpr(old(registers)@.write_reg(Register::R7, old(registers)@.pc),
                base_r as int);
        }
        let base = registers.read(Register::from_index(base_r));
        registers.write(Register::PC, base);
    }
}

/// LD: the destination register takes the word at the program-counter-
/// relative address; the condition flags follow the loaded value.
pub fn execute_ld(raw: u16, registers: &mut RegisterFile, memory: &Memory)
    requires
        memory.wf(),
    ensures
        final(registers)@ == do_ld(raw, old(registers)@, memory@),
{
    let dr = (raw >> 9) & 0x7;
    proof {
        assert((raw >> 9) & 0x7 <= 7 && raw & 0x1FF < (1u16 << 9)) by (bit_vector);
        lemma_write_gpr(old(registers)@, dr as int,
            memory@[pc_rel_addr(raw, old(registers)@) as int]);
    }
    let pc = registers.read(Register::PC);
    let pc_offset = sign_extend(raw & 0x1FF, 9);
    let address = pc.wrapping_add(pc_offset);
    let val = memory.read(address);
    registers.write(Register::from_index(dr), val);
    registers.update_flags(val);
}

/// LDI: the destination register takes the word whose address is stored at
/// the program-counter-relative address; the flags follow the loaded value.
pub fn execute_ldi(raw: u16, registers: &mut RegisterFile, memory: &Memory)
    requires
        memory.wf(),
    ensures
        final(registers)@ == do_ldi(raw, old(registers)@, memory@),
{
    let dr = (raw >> 9) & 0x7;
    proof {
        assert((raw >> 9) & 0x7 <= 7 && raw & 0x1FF < (1u16 << 9)) by (bit_vector);
        lemma_write_gpr(old(registers)@, dr as int,
            memory@[memory@[pc_rel_addr(raw, old(registers)@) as int] as int]);
    }
    let pc = registers.read(Register::PC);
    let pc_offset = sign_extend(raw & 0x1FF, 9);
    let address = pc.wrapping_add(pc_offset);
    let indirect_address = memory.read(address);
    let val = memory.read(indirect_address);
    registers.write(Register::from_index(dr), val);
    registers.update_flags(val);
}

/// LDR: the destination register takes the word at the base-register-
/// relative address; the condition flags follow the loaded value.
pub fn execute_ldr(raw: u16, registers: &mut RegisterFile, memory: &Memory)
    requires
        memory.wf(),
    ensures
        final(registers)@ == do_ldr(raw, old(registers)@, memory@),
{
    let dr = (raw >> 9) & 0x7;
    let base_r = (raw >> 6) & 0x7;
    proof {
        assert((raw >> 9) & 0x7 <= 7 && (raw >> 6) & 0x7 <= 7 && raw & 0x3F < (1u16 << 6))
            by (bit_vector);
        lemma_read_gpr(old(registers)@, base_r as int);
        lemma_write_gpr(old(registers)@, dr as int,
            memory@[base_rel_addr(raw, old(registers)@) as int]);
    }
    let offset = sign_extend(raw & 0x3F, 6);
    let base = registers.read(Register::from_index(base_r));
    let address = base.wrapping_add(offset);
    let val = memory.read(address);
    registers.write(Register::from_index(dr), val);
    registers.update_flags(val);
}

/// LEA: the destination register takes the program-counter-relative address
/// itself, not memory content; the condition flags follow that value.
pub fn execute_lea(raw: u16, registers: &mut RegisterFile)
    ensures
        final(registers)@ == do_lea(raw, old(registers)@),
{
    let dr = (raw >> 9) & 0x7;
    proof {
        assert((raw >> 9) & 0x7 <= 7 && raw & 0x1FF < (1u16 << 9)) by (bit_vector);
        lemma_write_gpr(old(registers)@, dr as int, pc_rel_addr(raw, old(registers)@));
    }
    let pc = registers.read(Register::PC);
    let pc_offset = sign_extend(raw & 0x1FF, 9);
    let address = pc.wrapping_add(pc_offset);
    registers.write(Register::from_index(dr), address);
    registers.update_flags(address);
}

/// ST: the source register's word is stored at the program-counter-relative
/// address. No flag update.
pub fn execute_st(raw: u16, registers: &RegisterFile, memory: &mut Memory)
    requires
        old(memory).wf(),
    ensures
        final(memory).wf(),
        final(memory)@ == do_st(raw, registers@, old(memory)@),
{
    let sr = (raw >> 9) & 0x7;
    proof {
        assert((raw >> 9) & 0x7 <= 7 && raw & 0x1FF < (1u16 << 9)) by (bit_vector);
        lemma_read_gpr(registers@, sr as int);
    }
    let pc = registers.read(Register::PC);
    let pc_offset = sign_extend(raw & 0x1FF, 9);
    let address = pc.wrapping_add(pc_offset);
    let val = registers.read(Register::from_index(sr));
    memory.write(address, val);
}

/// STI: the source register's word is stored at the address stored at the
/// program-counter-relative address. No flag update.
pub fn execute_sti(raw: u16, registers: &RegisterFile, memory: &mut Memory)
    requires
        old(memory).wf(),
    ensures
        final(memory).wf(),
        final(memory)@ == do_sti(raw, registers@, old(memory)@),
{
    let sr = (raw >> 9) & 0x7;
    proof {
        assert((raw >> 9) & 0x7 <= 7 && raw & 0x1FF < (1u16 << 9)) by (bit_vector);
        lemma_read_gpr(registers@, sr as int);
    }
    let pc = registers.read(Register::PC);
    let pc_offset = sign_extend(raw & 0x1FF, 9);
    let address = pc.wrapping_add(pc_offset);
    let indirect_address = memory.read(address);
    let val = registers.read(Register::from_index(sr));
    memory.write(indirect_address, val);
}

/// STR: the source register's word is stored at the base-register-relative
/// address. No flag update.
pub fn execute_str(raw: u16, registers: &RegisterFile, memory: &mut Memory)
    requires
        old(memory).wf(),
    ensures
        final(memory).wf(),
        final(memory)@ == do_str(raw, registers@, old(memory)@),
{
    let sr = (raw >> 9) & 0x7;
    let base_r = (raw >> 6) & 0x7;
    proof {
        assert((raw >> 9) & 0x7 <= 7 && (raw >> 6) & 0x7 <= 7 && raw & 0x3F < (1u16 << 6))
            by (bit_vector);
        lemma_read_gpr(registers@, sr as int);
        lemma_read_gpr(registers@, base_r as int);
    }
    let offset = sign_extend(raw & 0x3F, 6);
    let base = registers.read(Register::from_index(base_r));
    let address = base.wrapping_add(offset);
    let val = registers.read(Register::from_index(sr));
    memory.write(address, val);
}

/// The bytes the string-output trap writes: the low byte of each successive
/// word starting at `start`, up to but not including the first zero low
/// byte, wrapping around the address space.
pub fn puts_bytes(memory: &Memory, start: u16) -> (out: Vec<u8>)
    requires
        memory.wf(),
    ensures
        puts_post(memory@, start, out@),
{
    let mut out: Vec<u8> = Vec::new();
    let mut count: usize = 0;
    while count < MEMORY_SIZE
        invariant
            memory.wf(),
            count <= MEMORY_SIZE,
            out@.len() == count,
            forall|i: int|
                0 <= i < count ==> #[trigger] out@[i] == low_byte(memory@[wrap_idx(start, i)])
                    && out@[i] != 0,
        ensures
            puts_post(memory@, start, out@),
        decreases MEMORY_SIZE - count,
    {
        let address = start.wrapping_add(count as u16);
        proof {
            lemma_wadd_is_wrap_idx(start, count as u16);
        }
        let word = memory.read(address);
        let ch = (word & 0xFF) as u8;
        if ch == 0 {
            break ;
        }
        out.push(ch);
        count = count + 1;
    }
    out
}

/// The bytes the packed string-output trap writes: two characters per word
/// starting at `start`, the low byte first, up to the first zero byte in
/// either half of a word. A zero low byte ends the scan before the high
/// byte of that same word is examined.
pub fn putsp_bytes(memory: &Memory, start: u16) -> (out: Vec<u8>)
    requires
        memory.wf(),
    ensures
        putsp_post(memory@, start, out@),
{
    let mut out: Vec<u8> = Vec::new();
    let mut count: usize = 0;
    while count < MEMORY_SIZE
        invariant_except_break
            out@.len() == 2 * count,
        invariant
            memory.wf(),
            count <= MEMORY_SIZE,
            forall|i: int|
                0 <= i < out@.len() ==> #[trigger] out@[i] == packed_byte(memory@, start, i)
                    && out@[i] != 0,
        ensures
            putsp_post(memory@, start, out@),
        decreases MEMORY_SIZE - count,
    {
        let address = start.wrapping_add(count as u16);
        proof {
            lemma_wadd_is_wrap_idx(start, count as u16);
        }
        let word = memory.read(address);
        let ch1 = (word & 0xFF) as u8;
        if ch1 == 0 {
            break ;
        }
        out.push(ch1);
        let ch2 = ((word >> 8) & 0xFF) as u8;
        if ch2 == 0 {
            break ;
        }
        out.push(ch2);
        count = count + 1;
    }
    out
}

/// Stepping one word past `start` in executable code lands on the address
/// the specification's wrapping index names.
proof fn lemma_wadd_is_wrap_idx(start: u16, i: u16)
    ensures
        wadd(start, i) as int == wrap_idx(start, i as int),
{
    assert(wadd(start, i) as int == (start + i) % 0x10000) by (bit_vector);
}

/// OUT: the output is the low byte of R0.
fn trap_out(registers: &RegisterFile) -> (out: ExecOutcome)
    ensures
        out matches ExecOutcome::Output(b) && b@ == seq![low_byte(registers@.gprs[0])],
{
    let value = registers.read(Register::R0);
    let mut bytes: Vec<u8> = Vec::new();
    bytes.push((value & 0xFF) as u8);
    proof {
        assert(bytes@ =~= seq![low_byte(registers@.gprs[0])]);
    }
    ExecOutcome::Output(bytes)
}

/// PUTS: the output is the string of low bytes starting at the address in
/// R0, up to the first zero low byte.
fn trap_puts(registers: &RegisterFile, memory: &Memory) -> (out: ExecOutcome)
    requires
        memory.wf(),
    ensures
        out matches ExecOutcome::Output(b) && puts_post(memory@, registers@.gprs[0], b@),
{
    let start = registers.read(Register::R0);
    ExecOutcome::Output(puts_bytes(memory, start))
}

/// PUTSP: the output is the packed string starting at the address in R0.
fn trap_putsp(registers: &RegisterFile, memory: &Memory) -> (out: ExecOutcome)
    requires
        memory.wf(),
    ensures
        out matches ExecOutcome::Output(b) && putsp_post(memory@, registers@.gprs[0], b@),
{
    let start = registers.read(Register::R0);
    ExecOutcome::Output(putsp_bytes(memory, start))
}

/// HALT: the distinguished halt signal; no register or memory effect.
pub fn trap_halt() -> (out: ExecOutcome)
    ensures
        out == ExecOutcome::Halt,
{
    ExecOutcome::Halt
}

/// TRAP: dispatches the instruction's low 8 bits to one of the six system
/// routines, or faults on an unknown vector. The dispatch itself never
/// changes a register or a memory cell.
pub fn execute_trap(raw: u16, registers: &RegisterFile, memory: &Memory) -> (out: ExecOutcome)
    requires
        memory.wf(),
    ensures
        trap_post(raw, registers@, memory@, out),
{
    let trapvect8 = raw & 0xFF;
    match trapvect8 {
        0x20 => ExecOutcome::AwaitInput(InputRequest::Getc),
        0x21 => trap_out(registers),
        0x22 => trap_puts(registers, memory),
        0x23 => ExecOutcome::AwaitInput(InputRequest::In),
        0x24 => trap_putsp(registers, memory),
        0x25 => trap_halt(),
        _ => ExecOutcome::Faulted(Fault::UnknownTrapVector),
    }
}

/// Completes an input trap: stores the byte the caller read into R0,
/// zero-extended. Input traps never update the condition flags.
pub fn store_input(registers: &mut RegisterFile, byte: u8)
    ensures
        final(registers)@ == old(registers)@.write_reg(Register::R0, byte as u16),
{
    registers.write(Register::R0, byte as u16);
}

/// Executes one already-fetched instruction against the register file and
/// the memory. The program counter must already be past the fetch. The full
/// per-opcode semantics is `execute_post`.
pub fn execute(raw: u16, registers: &mut RegisterFile, memory: &mut Memory) -> (out: ExecOutcome)
    requires
        old(memory).wf(),
    ensures
        final(memory).wf(),
        execute_post(raw, old(registers)@, old(memory)@, final(registers)@, final(memory)@, out),
{
    let opcode = match extract_opcode(raw) {
        Some(op) => op,
        None => {
            return ExecOutcome::Faulted(Fault::UnknownOpcode);
        },
    };
    match opcode {
        Opcode::OP_ADD => {
            execute_add(raw, registers);
            ExecOutcome::Continue
        },
        Opcode::OP_AND => {
            execute_and(raw, registers);
            ExecOutcome::Continue
        },
        Opcode::OP_NOT => {
            execute_not(raw, registers);
            ExecOutcome::Continue
        },
        Opcode::OP_BR => {
            execute_br(raw, registers);
            ExecOutcome::Continue
        },
        Opcode::OP_JMP => {
            execute_jmp(raw, registers);
            ExecOutcome::Continue
        },
        Opcode::OP_JSR => {
            execute_jsr(raw, registers);
            ExecOutcome::Continue
        },
        Opcode::OP_LD => {
            execute_ld(raw, registers, memory);
            ExecOutcome::Continue
        },
        Opcode::OP_LDI => {
            execute_ldi(raw, registers, memory);
            ExecOutcome::Continue
        },
        Opcode::OP_LDR => {
            execute_ldr(raw, registers, memory);
            ExecOutcome::Continue
        },
        Opcode::OP_LEA => {
            execute_lea(raw, registers);
            ExecOutcome::Continue
        },
        Opcode::OP_ST => {
            execute_st(raw, registers, memory);
            ExecOutcome::Continue
        },
        Opcode::OP_STI => {
            execute_sti(raw, registers, memory);
            ExecOutcome::Continue
        },
        Opcode::OP_STR => {
            execute_str(raw, registers, memory);
            ExecOutcome::Continue
        },
        Opcode::OP_TRAP => execute_trap(raw, registers, memory),
        Opcode::OP_RES => ExecOutcome::Faulted(Fault::ReservedOpcode),
        Opcode::OP_RTI => ExecOutcome::Faulted(Fault::Unimplemented),
    }
}

} // verus!
