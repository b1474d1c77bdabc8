//! The mathematical model of the instruction set: field extraction, sign
//! extension, the per-opcode transition functions over register and memory
//! views, and the predicate `execute_post` that the execution engine's
//! contract states in full.

use vstd::prelude::*;

verus! {

use crate::memory::MEMORY_SIZE;
use crate::opcode::{Opcode, opcode_of};
use crate::register::{RegsView, flag_for};
use crate::register::{FL_NEG, FL_POS, FL_ZRO};

/// Which trap asked the caller for a byte of input.
#[derive(Debug, Clone, Copy, PartialEq, Eq)]
pub enum InputRequest {
    /// Read one byte, without a prompt or an echo.
    Getc,
    /// Prompt for a byte and echo it back.
    In,
}

/// Why execution cannot go on.
#[derive(Debug, Clone, Copy, PartialEq, Eq)]
pub enum Fault {
    /// Defensive case: the decoder is total, so this is never produced.
    UnknownOpcode,
    /// The reserved opcode was executed.
    ReservedOpcode,
    /// The return-from-interrupt opcode was executed.
    Unimplemented,
    /// A trap vector outside the dispatch table was requested.
    UnknownTrapVector,
    /// The caller's input stream or output flush failed.
    IoFailure,
}

/// The outcome of one executed instruction: control flow and faults are
/// kept apart, and the halt signal is not an error.
#[derive(Debug, PartialEq, Eq)]
pub enum ExecOutcome {
    /// The instruction completed; fetch the next one.
    Continue,
    /// The halt trap was executed: end execution cleanly.
    Halt,
    /// An output trap was executed: the caller writes these bytes, then
    /// flushes, and fetches the next instruction.
    Output(Vec<u8>),
    /// An input trap was executed: the caller reads one byte, stores it
    /// with `store_input`, and fetches the next instruction.
    AwaitInput(InputRequest),
    /// Execution cannot go on.
    Faulted(Fault),
}

/// Addition of two words, wrapping modulo 2^16.
pub open spec fn wadd(x: u16, y: u16) -> u16 {
    if x + y > 0xFFFF {
        (x + y - 0x10000) as u16
    } else {
        (x + y) as u16
    }
}

/// The two's-complement value of the low `n` bits of `w`.
pub open spec fn signed_val(w: u16, n: u16) -> int
    recommends
        1 <= n <= 16,
{
    if (w >> ((n - 1) as u16)) & 1 == 0 {
        w as int
    } else {
        w as int - ((0x10000u32 >> ((16 - n) as u32)) as int)
    }
}

/// An `n`-bit two's-complement field extended to 16 bits: if bit `n - 1`
/// is set, bits `n` to 15 are filled with ones; otherwise they stay zero.
pub open spec fn sext(x: u16, n: u16) -> u16
    recommends
        1 <= n <= 15,
        x < (1u16 << n),
{
    if (x >> ((n - 1) as u16)) & 1 == 1 {
        x | (0xFFFFu16 << n)
    } else {
        x
    }
}

/// The destination (or, for stores, source) register field, bits 11:9.
pub open spec fn dr_of(raw: u16) -> u16 {
    (raw >> 9) & 0x7
}

/// The first source (or base) register field, bits 8:6.
pub open spec fn sr1_of(raw: u16) -> u16 {
    (raw >> 6) & 0x7
}

/// The second source register field, bits 2:0.
pub open spec fn sr2_of(raw: u16) -> u16 {
    raw & 0x7
}

/// The mode bit 5: set selects the immediate operand form.
pub open spec fn imm_mode(raw: u16) -> bool {
    (raw >> 5) & 1 == 1
}

/// The 5-bit immediate field.
pub open spec fn imm5_of(raw: u16) -> u16 {
    raw & 0x1F
}

/// The 6-bit offset field.
pub open spec fn off6_of(raw: u16) -> u16 {
    raw & 0x3F
}

/// The 9-bit program-counter offset field.
pub open spec fn off9_of(raw: u16) -> u16 {
    raw & 0x1FF
}

/// The 11-bit program-counter offset field.
pub open spec fn off11_of(raw: u16) -> u16 {
    raw & 0x7FF
}

/// The 8-bit trap vector field.
pub open spec fn trapvect_of(raw: u16) -> u16 {
    raw & 0xFF
}

/// Bit 11: selects the offset form of the jump to subroutine.
pub open spec fn long_flag(raw: u16) -> bool {
    (raw >> 11) & 1 == 1
}

/// The second operand of ADD and AND: a register per the mode bit, or the
/// sign-extended 5-bit immediate.
pub open spec fn second_operand(raw: u16, r: RegsView) -> u16 {
    if imm_mode(raw) {
        sext(imm5_of(raw), 5)
    } else {
        r.gprs[sr2_of(raw) as int]
    }
}

/// ADD: the destination takes the wrapping sum; the flags follow the result.
pub open spec fn do_add(raw: u16, r: RegsView) -> RegsView {
    let result = wadd(r.gprs[sr1_of(raw) as int], second_operand(raw, r));
    RegsView { gprs: r.gprs.update(dr_of(raw) as int, result), cond: flag_for(result), ..r }
}

/// AND: the destination takes the bitwise conjunction; the flags follow.
pub open spec fn do_and(raw: u16, r: RegsView) -> RegsView {
    let result = r.gprs[sr1_of(raw) as int] & second_operand(raw, r);
    RegsView { gprs: r.gprs.update(dr_of(raw) as int, result), cond: flag_for(result), ..r }
}

/// NOT: the destination takes the bitwise complement; the flags follow.
pub open spec fn do_not(raw: u16, r: RegsView) -> RegsView {
    let result = !r.gprs[sr1_of(raw) as int];
    RegsView { gprs: r.gprs.update(dr_of(raw) as int, result), cond: flag_for(result), ..r }
}

/// Whether a branch instruction's requested flags match the condition
/// register: bit 11 asks for negative, bit 10 for zero, bit 9 for positive.
pub open spec fn br_taken(raw: u16, cond: u16) -> bool {
    ((raw >> 11) & 1 == 1 && cond & FL_NEG != 0) || ((raw >> 10) & 1 == 1 && cond & FL_ZRO != 0)
        || ((raw >> 9) & 1 == 1 && cond & FL_POS != 0)
}

/// BR: if taken, the program counter moves by the sign-extended 9-bit
/// offset, relative to the already-incremented program counter; the flags
/// are untouched.
pub open spec fn do_br(raw: u16, r: RegsView) -> RegsView {
    if br_taken(raw, r.cond) {
        RegsView { pc: wadd(r.pc, sext(off9_of(raw), 9)), ..r }
    } else {
        r
    }
}

/// JMP: the program counter takes the base register's value. A return from
/// subroutine is simply this with base register R7.
pub open spec fn do_jmp(raw: u16, r: RegsView) -> RegsView {
    RegsView { pc: r.gprs[sr1_of(raw) as int], ..r }
}

/// JSR/JSRR: R7 saves the already-incremented program counter; then the
/// program counter moves by the sign-extended 11-bit offset (bit 11 set) or
/// takes the base register's value (bit 11 clear). The base register is
/// read after the save, so a base of R7 jumps to the saved counter.
pub open spec fn do_jsr(raw: u16, r: RegsView) -> RegsView {
    let saved = r.gprs.update(7, r.pc);
    if long_flag(raw) {
        RegsView { gprs: saved, pc: wadd(r.pc, sext(off11_of(raw), 11)), ..r }
    } else {
        RegsView { gprs: saved, pc: saved[sr1_of(raw) as int], ..r }
    }
}

/// The program-counter-relative address: the already-incremented program
/// counter plus the sign-extended 9-bit offset, wrapping.
pub open spec fn pc_rel_addr(raw: u16, r: RegsView) -> u16 {
    wadd(r.pc, sext(off9_of(raw), 9))
}

/// The base-register-relative address: the base register's value plus the
/// sign-extended 6-bit offset, wrapping.
pub open spec fn base_rel_addr(raw: u16, r: RegsView) -> u16 {
    wadd(r.gprs[sr1_of(raw) as int], sext(off6_of(raw), 6))
}

/// A load's effect: the destination takes the value; the flags follow it.
pub open spec fn load_result(raw: u16, r: RegsView, value: u16) -> RegsView {
    RegsView { gprs: r.gprs.update(dr_of(raw) as int, value), cond: flag_for(value), ..r }
}

/// LD: load the word at the program-counter-relative address.
pub open spec fn do_ld(raw: u16, r: RegsView, m: Seq<u16>) -> RegsView {
    load_result(raw, r, m[pc_rel_addr(raw, r) as int])
}

/// LDI: load the word whose address is stored at the program-counter-
/// relative address.
pub open spec fn do_ldi(raw: u16, r: RegsView, m: Seq<u16>) -> RegsView {
    load_result(raw, r, m[m[pc_rel_addr(raw, r) as int] as int])
}

/// LDR: load the word at the base-register-relative address.
pub open spec fn do_ldr(raw: u16, r: RegsView, m: Seq<u16>) -> RegsView {
    load_result(raw, r, m[base_rel_addr(raw, r) as int])
}

/// LEA: the destination takes the program-counter-relative address itself,
/// not memory content; the flags follow it.
pub open spec fn do_lea(raw: u16, r: RegsView) -> RegsView {
    load_result(raw, r, pc_rel_addr(raw, r))
}

/// ST: the source register's word is stored at the program-counter-relative
/// address. No flag update.
pub open spec fn do_st(raw: u16, r: RegsView, m: Seq<u16>) -> Seq<u16> {
    m.update(pc_rel_addr(raw, r) as int, r.gprs[dr_of(raw) as int])
}

/// STI: the source register's word is stored at the address stored at the
/// program-counter-relative address. No flag update.
pub open spec fn do_sti(raw: u16, r: RegsView, m: Seq<u16>) -> Seq<u16> {
    m.update(m[pc_rel_addr(raw, r) as int] as int, r.gprs[dr_of(raw) as int])
}

/// STR: the source register's word is stored at the base-register-relative
/// address. No flag update.
pub open spec fn do_str(raw: u16, r: RegsView, m: Seq<u16>) -> Seq<u16> {
    m.update(base_rel_addr(raw, r) as int, r.gprs[dr_of(raw) as int])
}

/// The low byte of a word: one output character.
pub open spec fn low_byte(w: u16) -> u8 {
    (w & 0xFF) as u8
}

/// The high byte of a word: the second packed output character.
pub open spec fn high_byte(w: u16) -> u8 {
    ((w >> 8) & 0xFF) as u8
}

/// The address `i` words past `start`, wrapping around the address space.
pub open spec fn wrap_idx(start: u16, i: int) -> int {
    (start + i) % 0x10000
}

/// What the string-output trap emits, starting at `start`: the low byte of
/// each successive word, up to but not including the first zero low byte.
/// If no word in the whole address space has a zero low byte, every word
/// contributes one byte.
pub open spec fn puts_post(m: Seq<u16>, start: u16, out: Seq<u8>) -> bool {
    &&& out.len() <= MEMORY_SIZE
    &&& forall|i: int|
        0 <= i < out.len() ==> #[trigger] out[i] == low_byte(m[wrap_idx(start, i)]) && out[i]
            != 0
    &&& out.len() < MEMORY_SIZE ==> low_byte(m[wrap_idx(start, out.len() as int)]) == 0
}

/// The `i`-th character of packed string output starting at `start`: two
/// characters per word, the low byte first.
pub open spec fn packed_byte(m: Seq<u16>, start: u16, i: int) -> u8 {
    if i % 2 == 0 {
        low_byte(m[wrap_idx(start, i / 2)])
    } else {
        high_byte(m[wrap_idx(start, i / 2)])
    }
}

/// What the packed string-output trap emits, starting at `start`: packed
/// characters up to the first zero byte in either half of a word. A zero
/// low byte ends the scan before the high byte of that same word is
/// examined, so an even-length output stopped on a zero low byte and an
/// odd-length output stopped on a zero high byte.
pub open spec fn putsp_post(m: Seq<u16>, start: u16, out: Seq<u8>) -> bool {
    &&& out.len() <= 2 * MEMORY_SIZE
    &&& forall|i: int|
        0 <= i < out.len() ==> #[trigger] out[i] == packed_byte(m, start, i) && out[i] != 0
    &&& out.len() % 2 == 0 ==> (out.len() < 2 * MEMORY_SIZE ==> low_byte(
        m[wrap_idx(start, out.len() as int / 2)],
    ) == 0)
    &&& out.len() % 2 == 1 ==> high_byte(m[wrap_idx(start, out.len() as int / 2)]) == 0
}

/// What the trap dispatcher yields for the vector in `raw`'s low 8 bits.
/// Registers and memory are never changed by the dispatch itself.
pub open spec fn trap_post(raw: u16, r: RegsView, m: Seq<u16>, out: ExecOutcome) -> bool {
    let vect = trapvect_of(raw);
    if vect == 0x20 {
        out == ExecOutcome::AwaitInput(InputRequest::Getc)
    } else if vect == 0x21 {
        out matches ExecOutcome::Output(b) && b@ == seq![low_byte(r.gprs[0])]
    } else if vect == 0x22 {
        out matches ExecOutcome::Output(b) && puts_post(m, r.gprs[0], b@)
    } else if vect == 0x23 {
        out == ExecOutcome::AwaitInput(InputRequest::In)
    } else if vect == 0x24 {
        out matches ExecOutcome::Output(b) && putsp_post(m, r.gprs[0], b@)
    } else if vect == 0x25 {
        out == ExecOutcome::Halt
    } else {
        out == ExecOutcome::Faulted(Fault::UnknownTrapVector)
    }
}

/// What executing one already-fetched instruction does, per opcode, to the
/// register file, the memory, and the outcome. The register view `r0` holds
/// the already-incremented program counter.
pub open spec fn execute_post(
    raw: u16,
    r0: RegsView,
    m0: Seq<u16>,
    r1: RegsView,
    m1: Seq<u16>,
    out: ExecOutcome,
) -> bool {
    match opcode_of(raw) {
        Opcode::OP_BR => r1 == do_br(raw, r0) && m1 == m0 && out == ExecOutcome::Continue,
        Opcode::OP_ADD => r1 == do_add(raw, r0) && m1 == m0 && out == ExecOutcome::Continue,
        Opcode::OP_LD => r1 == do_ld(raw, r0, m0) && m1 == m0 && out == ExecOutcome::Continue,
        Opcode::OP_ST => r1 == r0 && m1 == do_st(raw, r0, m0) && out == ExecOutcome::Continue,
        Opcode::OP_JSR => r1 == do_jsr(raw, r0) && m1 == m0 && out == ExecOutcome::Continue,
        Opcode::OP_AND => r1 == do_and(raw, r0) && m1 == m0 && out == ExecOutcome::Continue,
        Opcode::OP_LDR => r1 == do_ldr(raw, r0, m0) && m1 == m0 && out == ExecOutcome::Continue,
        Opcode::OP_STR => r1 == r0 && m1 == do_str(raw, r0, m0) && out == ExecOutcome::Continue,
        Opcode::OP_RTI => r1 == r0 && m1 == m0 && out == ExecOutcome::Faulted(
            Fault::Unimplemented,
        ),
        Opcode::OP_NOT => r1 == do_not(raw, r0) && m1 == m0 && out == ExecOutcome::Continue,
        Opcode::OP_LDI => r1 == do_ldi(raw, r0, m0) && m1 == m0 && out == ExecOutcome::Continue,
        Opcode::OP_STI => r1 == r0 && m1 == do_sti(raw, r0, m0) && out == ExecOutcome::Continue,
        Opcode::OP_JMP => r1 == do_jmp(raw, r0) && m1 == m0 && out == ExecOutcome::Continue,
        Opcode::OP_RES => r1 == r0 && m1 == m0 && out == ExecOutcome::Faulted(
            Fault::ReservedOpcode,
        ),
        Opcode::OP_LEA => r1 == do_lea(raw, r0) && m1 == m0 && out == ExecOutcome::Continue,
        Opcode::OP_TRAP => r1 == r0 && m1 == m0 && trap_post(raw, r0, m0, out),
    }
}

/// What one whole machine step does: fetch the word at the program counter,
/// increment the counter (wrapping), then execute the fetched instruction.
pub open spec fn step_post(
    r0: RegsView,
    m0: Seq<u16>,
    r1: RegsView,
    m1: Seq<u16>,
    out: ExecOutcome,
) -> bool {
    let raw = m0[r0.pc as int];
    let fetched = RegsView { pc: wadd(r0.pc, 1), ..r0 };
    execute_post(raw, fetched, m0, r1, m1, out)
}

/// Law: the halt trap, raw instruction 0xF025, always yields the Halt
/// outcome and never changes a register or a memory cell.
pub proof fn lemma_halt_trap_pure(
    r0: RegsView,
    m0: Seq<u16>,
    r1: RegsView,
    m1: Seq<u16>,
    out: ExecOutcome,
)
    requires
        execute_post(0xF025, r0, m0, r1, m1, out),
    ensures
        out == ExecOutcome::Halt,
        r1 == r0,
        m1 == m0,
{
    assert(0xF025u16 >> 12 == 15) by (bit_vector);
    assert(0xF025u16 & 0xFF == 0x25) by (bit_vector);
}

/// Law: executing the reserved or the return-from-interrupt opcode always
/// faults — with the reserved-opcode fault for the one and the
/// unimplemented fault for the other — and changes nothing.
pub proof fn lemma_unrunnable_opcodes_fault(
    raw: u16,
    r0: RegsView,
    m0: Seq<u16>,
    r1: RegsView,
    m1: Seq<u16>,
    out: ExecOutcome,
)
    requires
        execute_post(raw, r0, m0, r1, m1, out),
        opcode_of(raw) == Opcode::OP_RES || opcode_of(raw) == Opcode::OP_RTI,
    ensures
        r1 == r0,
        m1 == m0,
        out matches ExecOutcome::Faulted(f) && f == (if opcode_of(raw) == Opcode::OP_RES {
            Fault::ReservedOpcode
        } else {
            Fault::Unimplemented
        }),
{
}

} // verus!
