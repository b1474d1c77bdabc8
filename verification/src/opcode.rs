//! The closed set of sixteen opcodes, selected by the top 4 bits of an
//! instruction word. Decoding is total over 4-bit values: every value from
//! 0 to 15 names a variant, and the two variants the machine cannot run
//! (`OP_RES`, `OP_RTI`) decode successfully but fault at execution.

use vstd::prelude::*;

verus! {

/// One of the sixteen instruction behaviors, named by its 4-bit encoding.
#[allow(non_camel_case_types)]
#[derive(Debug, Clone, Copy, PartialEq, Eq)]
pub enum Opcode {
    /// Conditional branch on the condition flags.
    OP_BR,
    /// Add two values, wrapping, and store the result.
    OP_ADD,
    /// Load a word addressed relative to the program counter.
    OP_LD,
    /// Store a word addressed relative to the program counter.
    OP_ST,
    /// Jump to a subroutine, saving the return address in R7.
    OP_JSR,
    /// Bitwise AND of two values.
    OP_AND,
    /// Load a word addressed relative to a base register.
    OP_LDR,
    /// Store a word addressed relative to a base register.
    OP_STR,
    /// Return from interrupt: decodable but never executable.
    OP_RTI,
    /// Bitwise complement of a value.
    OP_NOT,
    /// Load through an address stored in memory.
    OP_LDI,
    /// Store through an address stored in memory.
    OP_STI,
    /// Jump to the address held in a base register.
    OP_JMP,
    /// Reserved: decodable but never executable.
    OP_RES,
    /// Load an effective address itself, not memory content.
    OP_LEA,
    /// System call selected by an 8-bit trap vector.
    OP_TRAP,
}

/// The opcode named by a 4-bit value.
pub open spec fn opcode_of_val(value: u16) -> Opcode {
    if value == 0 {
        Opcode::OP_BR
    } else if value == 1 {
        Opcode::OP_ADD
    } else if value == 2 {
        Opcode::OP_LD
    } else if value == 3 {
        Opcode::OP_ST
    } else if value == 4 {
        Opcode::OP_JSR
    } else if value == 5 {
        Opcode::OP_AND
    } else if value == 6 {
        Opcode::OP_LDR
    } else if value == 7 {
        Opcode::OP_STR
    } else if value == 8 {
        Opcode::OP_RTI
    } else if value == 9 {
        Opcode::OP_NOT
    } else if value == 10 {
        Opcode::OP_LDI
    } else if value == 11 {
        Opcode::OP_STI
    } else if value == 12 {
        Opcode::OP_JMP
    } else if value == 13 {
        Opcode::OP_RES
    } else if value == 14 {
        Opcode::OP_LEA
    } else {
        Opcode::OP_TRAP
    }
}

/// The 4-bit encoding of an opcode.
pub open spec fn opcode_val(op: Opcode) -> u16 {
    match op {
        Opcode::OP_BR => 0,
        Opcode::OP_ADD => 1,
        Opcode::OP_LD => 2,
        Opcode::OP_ST => 3,
        Opcode::OP_JSR => 4,
        Opcode::OP_AND => 5,
        Opcode::OP_LDR => 6,
        Opcode::OP_STR => 7,
        Opcode::OP_RTI => 8,
        Opcode::OP_NOT => 9,
        Opcode::OP_LDI => 10,
        Opcode::OP_STI => 11,
        Opcode::OP_JMP => 12,
        Opcode::OP_RES => 13,
        Opcode::OP_LEA => 14,
        Opcode::OP_TRAP => 15,
    }
}

impl Opcode {
    /// The opcode named by a 4-bit value; `None` above 15.
    pub fn from_u16(value: u16) -> (r: Option<Opcode>)
        ensures
            value <= 15 ==> r == Some(opcode_of_val(value)),
            value > 15 ==> r is None,
    {
        match value {
            0 => Some(Opcode::OP_BR),
            1 => Some(Opcode::OP_ADD),
            2 => Some(Opcode::OP_LD),
            3 => Some(Opcode::OP_ST),
            4 => Some(Opcode::OP_JSR),
            5 => Some(Opcode::OP_AND),
            6 => Some(Opcode::OP_LDR),
            7 => Some(Opcode::OP_STR),
            8 => Some(Opcode::OP_RTI),
            9 => Some(Opcode::OP_NOT),
            10 => Some(Opcode::OP_LDI),
            11 => Some(Opcode::OP_STI),
            12 => Some(Opcode::OP_JMP),
            13 => Some(Opcode::OP_RES),
            14 => Some(Opcode::OP_LEA),
            15 => Some(Opcode::OP_TRAP),
            _ => None,
        }
    }

    /// The 4-bit encoding of this opcode; inverse of `from_u16`.
    pub fn to_u16(self) -> (r: u16)
        ensures
            r == opcode_val(self),
            r <= 15,
            opcode_of_val(r) == self,
    {
        match self {
            Opcode::OP_BR => 0,
            Opcode::OP_ADD => 1,
            Opcode::OP_LD => 2,
            Opcode::OP_ST => 3,
            Opcode::OP_JSR => 4,
            Opcode::OP_AND => 5,
            Opcode::OP_LDR => 6,
            Opcode::OP_STR => 7,
            Opcode::OP_RTI => 8,
            Opcode::OP_NOT => 9,
            Opcode::OP_LDI => 10,
            Opcode::OP_STI => 11,
            Opcode::OP_JMP => 12,
            Opcode::OP_RES => 13,
            Opcode::OP_LEA => 14,
            Opcode::OP_TRAP => 15,
        }
    }
}

/// The opcode of a raw instruction word: the opcode named by its top 4 bits.
pub open spec fn opcode_of(raw: u16) -> Opcode {
    opcode_of_val(raw >> 12)
}

/// Extracts the opcode from the top 4 bits of a raw instruction word.
/// Law: decoding is total — every instruction word decodes to a variant.
pub fn extract_opcode(instruction: u16) -> (r: Option<Opcode>)
    ensures
        r == Some(opcode_of(instruction)),
{
    proof {
        assert(instruction >> 12 <= 15) by (bit_vector);
    }
    Opcode::from_u16(instruction >> 12)
}

} // verus!
