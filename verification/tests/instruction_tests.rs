use lc3_vm::instruction::{execute, puts_bytes, putsp_bytes, sign_extend, store_input, trap_halt};
use lc3_vm::isa::{ExecOutcome, Fault, InputRequest};
use lc3_vm::memory::Memory;
use lc3_vm::opcode::{extract_opcode, Opcode};
use lc3_vm::register::{Register, RegisterFile, FL_NEG, FL_POS, FL_ZRO};

#[test]
fn test_add_instruction() {
    let mut registers = RegisterFile::new();
    let mut memory = Memory::new();

    // Set initial values in registers
    registers.write(Register::R0, 5);
    registers.write(Register::R1, 10);

    // Encode the ADD instruction (ADD R2, R0, R1)
    let instruction = 0b0001_010_000_000_001;
    assert_eq!(extract_opcode(instruction), Some(Opcode::OP_ADD));

    // Execute the instruction
    let out = execute(instruction, &mut registers, &mut memory);
    assert_eq!(out, ExecOutcome::Continue);

    // Check the result
    assert_eq!(registers.read(Register::R2), 15);
    assert_eq!(registers.read(Register::COND), FL_POS);
}

#[test]
fn test_add_wraps_on_overflow() {
    let mut registers = RegisterFile::new();
    let mut memory = Memory::new();
    registers.write(Register::R0, 0xFFFF);
    registers.write(Register::R1, 0x0001);
    // ADD R2, R0, R1: the sum wraps to zero with no fault.
    let out = execute(0b0001_010_000_000_001, &mut registers, &mut memory);
    assert_eq!(out, ExecOutcome::Continue);
    assert_eq!(registers.read(Register::R2), 0x0000);
    assert_eq!(registers.read(Register::COND), FL_ZRO);
}

#[test]
fn test_add_immediate() {
    let mut registers = RegisterFile::new();
    let mut memory = Memory::new();
    registers.write(Register::R0, 3);
    // ADD R2, R0, #-2 (imm5 = 0b11110)
    let out = execute(0b0001_010_000_1_11110, &mut registers, &mut memory);
    assert_eq!(out, ExecOutcome::Continue);
    assert_eq!(registers.read(Register::R2), 1);
    assert_eq!(registers.read(Register::COND), FL_POS);
}

#[test]
fn test_and_instruction() {
    let mut registers = RegisterFile::new();
    let mut memory = Memory::new();
    registers.write(Register::R0, 0b1100);
    registers.write(Register::R1, 0b1010);
    // AND R2, R0, R1
    let out = execute(0b0101_010_000_000_001, &mut registers, &mut memory);
    assert_eq!(out, ExecOutcome::Continue);
    assert_eq!(registers.read(Register::R2), 0b1000);
    assert_eq!(registers.read(Register::COND), FL_POS);
    // AND R3, R0, #0 leaves zero and the zero flag.
    let out = execute(0b0101_011_000_1_00000, &mut registers, &mut memory);
    assert_eq!(out, ExecOutcome::Continue);
    assert_eq!(registers.read(Register::R3), 0);
    assert_eq!(registers.read(Register::COND), FL_ZRO);
}

#[test]
fn test_not_instruction() {
    let mut registers = RegisterFile::new();
    let mut memory = Memory::new();
    registers.write(Register::R0, 0x0F0F);
    // NOT R1, R0
    let out = execute(0b1001_001_000_111111, &mut registers, &mut memory);
    assert_eq!(out, ExecOutcome::Continue);
    assert_eq!(registers.read(Register::R1), 0xF0F0);
    assert_eq!(registers.read(Register::COND), FL_NEG);
}

#[test]
fn test_sign_extend() {
    // 5-bit fields
    assert_eq!(sign_extend(0b01111, 5), 0x000F);
    assert_eq!(sign_extend(0b11111, 5), 0xFFFF); // -1
    assert_eq!(sign_extend(0b10000, 5), 0xFFF0); // -16
    // 6-bit fields
    assert_eq!(sign_extend(0b100000, 6), 0xFFE0); // -32
    assert_eq!(sign_extend(0b011111, 6), 0x001F);
    // 9-bit fields
    assert_eq!(sign_extend(0b1_0000_0000, 9), 0xFF00); // -256
    assert_eq!(sign_extend(0b0_1111_1111, 9), 0x00FF);
    // 11-bit fields
    assert_eq!(sign_extend(0b100_0000_0000, 11), 0xFC00); // -1024
    assert_eq!(sign_extend(0b011_1111_1111, 11), 0x03FF);
}

#[test]
fn test_branch_taken_and_not_taken() {
    let mut registers = RegisterFile::new();
    let mut memory = Memory::new();
    registers.write(Register::PC, 0x3001);
    registers.update_flags(1); // positive
    // BRp #2: taken, the counter moves relative to the incremented value.
    let out = execute(0b0000_001_000000010, &mut registers, &mut memory);
    assert_eq!(out, ExecOutcome::Continue);
    assert_eq!(registers.read(Register::PC), 0x3003);
    // BRn #2: not taken, the counter stays.
    let out = execute(0b0000_100_000000010, &mut registers, &mut memory);
    assert_eq!(out, ExecOutcome::Continue);
    assert_eq!(registers.read(Register::PC), 0x3003);
    // A branch never touches the flags.
    assert_eq!(registers.read(Register::COND), FL_POS);
}

#[test]
fn test_branch_backward() {
    let mut registers = RegisterFile::new();
    let mut memory = Memory::new();
    registers.write(Register::PC, 0x3005);
    registers.update_flags(0); // zero
    // BRz #-5 (offset9 = 0b111111011)
    let out = execute(0b0000_010_111111011, &mut registers, &mut memory);
    assert_eq!(out, ExecOutcome::Continue);
    assert_eq!(registers.read(Register::PC), 0x3000);
}

#[test]
fn test_jmp_and_ret() {
    let mut registers = RegisterFile::new();
    let mut memory = Memory::new();
    registers.write(Register::R2, 0x4000);
    // JMP R2
    let out = execute(0b1100_000_010_000000, &mut registers, &mut memory);
    assert_eq!(out, ExecOutcome::Continue);
    assert_eq!(registers.read(Register::PC), 0x4000);
    // RET is JMP with base register R7.
    registers.write(Register::R7, 0x3456);
    let out = execute(0b1100_000_111_000000, &mut registers, &mut memory);
    assert_eq!(out, ExecOutcome::Continue);
    assert_eq!(registers.read(Register::PC), 0x3456);
}

#[test]
fn test_jsr_offset_and_register() {
    let mut registers = RegisterFile::new();
    let mut memory = Memory::new();
    registers.write(Register::PC, 0x3001);
    // JSR #4: R7 saves the incremented counter, then the counter moves.
    let out = execute(0b0100_1_00000000100, &mut registers, &mut memory);
    assert_eq!(out, ExecOutcome::Continue);
    assert_eq!(registers.read(Register::R7), 0x3001);
    assert_eq!(registers.read(Register::PC), 0x3005);
    // JSRR R3: the counter takes the base register's value.
    registers.write(Register::R3, 0x5000);
    let out = execute(0b0100_000_011_000000, &mut registers, &mut memory);
    assert_eq!(out, ExecOutcome::Continue);
    assert_eq!(registers.read(Register::R7), 0x3005);
    assert_eq!(registers.read(Register::PC), 0x5000);
}

#[test]
fn test_load_and_store() {
    let mut registers = RegisterFile::new();
    let mut memory = Memory::new();
    registers.write(Register::PC, 0x3000);
    memory.write(0x3002, 0x0042);
    // LD R1, #2
    let out = execute(0b0010_001_000000010, &mut registers, &mut memory);
    assert_eq!(out, ExecOutcome::Continue);
    assert_eq!(registers.read(Register::R1), 0x0042);
    assert_eq!(registers.read(Register::COND), FL_POS);
    // ST R1, #5 stores into memory and leaves the flags alone.
    let out = execute(0b0011_001_000000101, &mut registers, &mut memory);
    assert_eq!(out, ExecOutcome::Continue);
    assert_eq!(memory.read(0x3005), 0x0042);
    assert_eq!(registers.read(Register::COND), FL_POS);
}

#[test]
fn test_ldr_and_str() {
    let mut registers = RegisterFile::new();
    let mut memory = Memory::new();
    registers.write(Register::R4, 0x4000);
    memory.write(0x4003, 0x8001);
    // LDR R2, R4, #3
    let out = execute(0b0110_010_100_000011, &mut registers, &mut memory);
    assert_eq!(out, ExecOutcome::Continue);
    assert_eq!(registers.read(Register::R2), 0x8001);
    assert_eq!(registers.read(Register::COND), FL_NEG);
    // STR R2, R4, #-1 (offset6 = 0b111111)
    let out = execute(0b0111_010_100_111111, &mut registers, &mut memory);
    assert_eq!(out, ExecOutcome::Continue);
    assert_eq!(memory.read(0x3FFF), 0x8001);
}

#[test]
fn test_ldi_end_to_end() {
    let mut registers = RegisterFile::new();
    let mut memory = Memory::new();
    memory.write(0x3000, 0x3002);
    memory.write(0x3002, 0x4242);
    // The counter is already past the fetch; offset 0 resolves to 0x3000.
    registers.write(Register::PC, 0x3000);
    // LDI R3, #0
    let out = execute(0b1010_011_000000000, &mut registers, &mut memory);
    assert_eq!(out, ExecOutcome::Continue);
    assert_eq!(registers.read(Register::R3), 0x4242);
    assert_eq!(registers.read(Register::COND), FL_POS);
}

#[test]
fn test_sti_indirect_store() {
    let mut registers = RegisterFile::new();
    let mut memory = Memory::new();
    registers.write(Register::PC, 0x3000);
    registers.write(Register::R5, 0xBEEF);
    memory.write(0x3001, 0x5000);
    // STI R5, #1: the word at 0x3001 names the cell to write.
    let out = execute(0b1011_101_000000001, &mut registers, &mut memory);
    assert_eq!(out, ExecOutcome::Continue);
    assert_eq!(memory.read(0x5000), 0xBEEF);
}

#[test]
fn test_lea_loads_address_not_content() {
    let mut registers = RegisterFile::new();
    let mut memory = Memory::new();
    registers.write(Register::PC, 0x3000);
    memory.write(0x2FFF, 0x7777);
    // LEA R4, #-1: the address itself lands in the register.
    let out = execute(0b1110_100_111111111, &mut registers, &mut memory);
    assert_eq!(out, ExecOutcome::Continue);
    assert_eq!(registers.read(Register::R4), 0x2FFF);
    assert_eq!(registers.read(Register::COND), FL_POS);
}

#[test]
fn test_trap_halt_never_mutates() {
    let mut registers = RegisterFile::new();
    let mut memory = Memory::new();
    registers.write(Register::R0, 0x1111);
    registers.write(Register::PC, 0x3001);
    registers.update_flags(1);
    memory.write(0x3000, 0xF025);
    // TRAP 0x25 always yields the halt signal and changes nothing.
    let out = execute(0xF025, &mut registers, &mut memory);
    assert_eq!(out, ExecOutcome::Halt);
    assert_eq!(registers.read(Register::R0), 0x1111);
    assert_eq!(registers.read(Register::PC), 0x3001);
    assert_eq!(registers.read(Register::COND), FL_POS);
    assert_eq!(memory.read(0x3000), 0xF025);
    assert_eq!(trap_halt(), ExecOutcome::Halt);
}

#[test]
fn test_reserved_and_rti_fault() {
    let mut registers = RegisterFile::new();
    let mut memory = Memory::new();
    // Every 4-bit value decodes, but the two unrunnable opcodes fault.
    let out = execute(0b1101_000_000_000_000, &mut registers, &mut memory);
    assert_eq!(out, ExecOutcome::Faulted(Fault::ReservedOpcode));
    let out = execute(0b1000_000_000_000_000, &mut registers, &mut memory);
    assert_eq!(out, ExecOutcome::Faulted(Fault::Unimplemented));
    // Neither fault leaves a trace in the registers.
    assert_eq!(registers.read(Register::COND), 0);
}

#[test]
fn test_unknown_trap_vector_faults() {
    let mut registers = RegisterFile::new();
    let mut memory = Memory::new();
    let out = execute(0xF0FF, &mut registers, &mut memory);
    assert_eq!(out, ExecOutcome::Faulted(Fault::UnknownTrapVector));
    let out = execute(0xF000, &mut registers, &mut memory);
    assert_eq!(out, ExecOutcome::Faulted(Fault::UnknownTrapVector));
}

#[test]
fn test_trap_getc_and_in_await_input() {
    let mut registers = RegisterFile::new();
    let mut memory = Memory::new();
    let out = execute(0xF020, &mut registers, &mut memory);
    assert_eq!(out, ExecOutcome::AwaitInput(InputRequest::Getc));
    let out = execute(0xF023, &mut registers, &mut memory);
    assert_eq!(out, ExecOutcome::AwaitInput(InputRequest::In));
    // The caller's byte lands in R0, zero-extended, with no flag update.
    store_input(&mut registers, 0xC1);
    assert_eq!(registers.read(Register::R0), 0x00C1);
    assert_eq!(registers.read(Register::COND), 0);
}

#[test]
fn test_trap_out_emits_low_byte() {
    let mut registers = RegisterFile::new();
    let mut memory = Memory::new();
    registers.write(Register::R0, 0x1241);
    let out = execute(0xF021, &mut registers, &mut memory);
    assert_eq!(out, ExecOutcome::Output(vec![0x41]));
}

#[test]
fn test_trap_puts_emits_string() {
    let mut registers = RegisterFile::new();
    let mut memory = Memory::new();
    memory.write(0x3000, 'H' as u16);
    memory.write(0x3001, 'i' as u16);
    memory.write(0x3002, 0);
    registers.write(Register::R0, 0x3000);
    let out = execute(0xF022, &mut registers, &mut memory);
    assert_eq!(out, ExecOutcome::Output(vec![b'H', b'i']));
    // Only the low byte of each word is a character.
    let mut memory = Memory::new();
    memory.write(0x0000, 0xFF48);
    memory.write(0x0001, 0x0000);
    assert_eq!(puts_bytes(&memory, 0x0000), vec![0x48]);
}

#[test]
fn test_trap_putsp_packed_pairs() {
    let mut registers = RegisterFile::new();
    let mut memory = Memory::new();
    // 'a' low, 'b' high; then 'c' low, zero high: output is "abc".
    memory.write(0x3000, (b'b' as u16) << 8 | b'a' as u16);
    memory.write(0x3001, b'c' as u16);
    registers.write(Register::R0, 0x3000);
    let out = execute(0xF024, &mut registers, &mut memory);
    assert_eq!(out, ExecOutcome::Output(vec![b'a', b'b', b'c']));
}

#[test]
fn test_putsp_zero_low_byte_stops_whole_word() {
    let mut memory = Memory::new();
    // A zero low byte ends the scan before that word's high byte is seen.
    memory.write(0x0010, (b'x' as u16) << 8 | b'w' as u16);
    memory.write(0x0011, (b'z' as u16) << 8); // low byte zero, high byte 'z'
    memory.write(0x0012, b'q' as u16);
    assert_eq!(putsp_bytes(&memory, 0x0010), vec![b'w', b'x']);
}
