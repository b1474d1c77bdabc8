//! Loading a program image into memory, and advancing the machine by one
//! fetch-decode-execute step. The driving loop itself is the caller's: it
//! owns the console and the decision to stop, as the loader's caller owns
//! the file that the image bytes come from.

use vstd::prelude::*;

verus! {

use crate::instruction::execute;
use crate::isa::{step_post, wadd, ExecOutcome, Fault};
use crate::memory::Memory;
use crate::opcode::extract_opcode;
use crate::register::{Register, RegisterFile};

/// The word named by two big-endian bytes.
pub open spec fn be_word(hi: u8, lo: u8) -> u16 {
    (hi * 0x100 + lo) as u16
}

/// The origin address of an image: its first two bytes, big-endian. An
/// image too short to hold one falls back to 0x3000.
pub open spec fn obj_origin(buf: Seq<u8>) -> u16 {
    if buf.len() >= 2 {
        be_word(buf[0], buf[1])
    } else {
        0x3000
    }
}

/// Where an image's data words begin: past the origin, if there is one.
pub open spec fn obj_data_start(buf: Seq<u8>) -> int {
    if buf.len() >= 2 {
        2
    } else {
        0
    }
}

/// The memory after loading the big-endian word pairs of `buf`, from byte
/// index `i` on, at consecutive wrapping addresses starting at `addr`. A
/// trailing odd byte is ignored.
pub open spec fn load_words(m: Seq<u16>, buf: Seq<u8>, i: int, addr: u16) -> Seq<u16>
    recommends
        0 <= i,
    decreases buf.len() - i,
{
    if i >= 0 && i + 1 < buf.len() {
        load_words(m.update(addr as int, be_word(buf[i], buf[i + 1])), buf, i + 2, wadd(addr, 1))
    } else {
        m
    }
}

/// Two big-endian bytes assemble by shift and mask into the word they name.
proof fn lemma_be_word_bits(hi: u8, lo: u8)
    ensures
        ((hi as u16) << 8) | (lo as u16) == be_word(hi, lo),
{
    assert(((hi as u16) << 8) | (lo as u16) == (hi * 0x100 + lo) as u16) by (bit_vector);
}

/// Loads a program image into memory: a 2-byte big-endian origin address,
/// then zero or more 2-byte big-endian words placed at consecutive
/// (wrapping) addresses from the origin on. Returns the origin, so that the
/// caller can seed the program counter before the first fetch.
pub fn load_obj_bytes(buffer: &Vec<u8>, memory: &mut Memory) -> (origin: u16)
    requires
        old(memory).wf(),
    ensures
        final(memory).wf(),
        origin == obj_origin(buffer@),
        final(memory)@ == load_words(old(memory)@, buffer@, obj_data_start(buffer@), origin),
{
    let mut origin: u16 = 0x3000;
    let mut i: usize = 0;
    if buffer.len() >= 2 {
        proof {
            lemma_be_word_bits(buffer@[0], buffer@[1]);
        }
        origin = ((buffer[0] as u16) << 8) | (buffer[1] as u16);
        i = 2;
    }
    let mut address: u16 = origin;
    while i < buffer.len()
        invariant
            memory.wf(),
            load_words(memory@, buffer@, i as int, address) == load_words(
                old(memory)@,
                buffer@,
                obj_data_start(buffer@),
                obj_origin(buffer@),
            ),
        ensures
            memory.wf(),
            load_words(memory@, buffer@, i as int, address) == load_words(
                old(memory)@,
                buffer@,
                obj_data_start(buffer@),
                obj_origin(buffer@),
            ),
            !(i as int + 1 < buffer@.len()),
        decreases buffer@.len() - i,
    {
        if i + 1 < buffer.len() {
            proof {
                lemma_be_word_bits(buffer@[i as int], buffer@[i as int + 1]);
            }
            let instruction = ((buffer[i] as u16) << 8) | (buffer[i + 1] as u16);
            memory.write(address, instruction);
            address = address.wrapping_add(1);
            i = i + 2;
        } else {
            break ;
        }
    }
    origin
}

/// Advances the program by exactly one instruction: fetches the word at the
/// program counter, increments the counter by one (wrapping) before any
/// dispatch, decodes, and executes. The caller owns the driving loop: it
/// performs the outcome's I/O, stops cleanly on Halt, propagates a fault,
/// and otherwise calls again. All relative addressing inside the executed
/// instruction is against the already-incremented program counter.
pub fn execute_program(memory: &mut Memory, registers: &mut RegisterFile) -> (out: ExecOutcome)
    requires
        old(memory).wf(),
    ensures
        final(memory).wf(),
        step_post(old(registers)@, old(memory)@, final(registers)@, final(memory)@, out),
{
    let pc = registers.read(Register::PC);
    let raw_instruction = memory.read(pc);
    registers.write(Register::PC, pc.wrapping_add(1));
    if let Some(_opcode) = extract_opcode(raw_instruction) {
        execute(raw_instruction, registers, memory)
    } else {
        ExecOutcome::Faulted(Fault::UnknownOpcode)
    }
}

} // verus!
