//! The register file: eight general-purpose registers, a program counter,
//! and a condition register that holds one of three flags.

use vstd::prelude::*;

verus! {

/// Condition flag: the last flag-updating result was strictly positive.
pub const FL_POS: u16 = 1;
/// Condition flag: the last flag-updating result was zero.
pub const FL_ZRO: u16 = 2;
/// Condition flag: the last flag-updating result had its sign bit set.
pub const FL_NEG: u16 = 4;

/// Names one storage location of the machine. The eight general-purpose
/// registers, the program counter, and the condition register are distinct
/// named slots: the program counter and the condition register are not
/// positions in the general-purpose array.
#[derive(Debug, Clone, Copy, PartialEq, Eq)]
pub enum Register {
    R0,
    R1,
    R2,
    R3,
    R4,
    R5,
    R6,
    R7,
    PC,
    COND,
}

/// The general-purpose register selected by a 3-bit instruction field.
pub open spec fn reg_of(i: int) -> Register {
    if i == 0 {
        Register::R0
    } else if i == 1 {
        Register::R1
    } else if i == 2 {
        Register::R2
    } else if i == 3 {
        Register::R3
    } else if i == 4 {
        Register::R4
    } else if i == 5 {
        Register::R5
    } else if i == 6 {
        Register::R6
    } else {
        Register::R7
    }
}

impl Register {
    /// The general-purpose register selected by a 3-bit field value.
    pub fn from_index(value: u16) -> (r: Register)
        requires
            value <= 7,
        ensures
            r == reg_of(value as int),
    {
        match value {
            0 => Register::R0,
            1 => Register::R1,
            2 => Register::R2,
            3 => Register::R3,
            4 => Register::R4,
            5 => Register::R5,
            6 => Register::R6,
            _ => Register::R7,
        }
    }
}

/// The mathematical content of a register file: the eight general-purpose
/// registers as a sequence, the program counter, and the condition register.
#[verifier::ext_equal]
pub struct RegsView {
    pub gprs: Seq<u16>,
    pub pc: u16,
    pub cond: u16,
}

impl RegsView {
    /// The value stored in a register.
    pub open spec fn read_reg(self, r: Register) -> u16 {
        match r {
            Register::R0 => self.gprs[0],
            Register::R1 => self.gprs[1],
            Register::R2 => self.gprs[2],
            Register::R3 => self.gprs[3],
            Register::R4 => self.gprs[4],
            Register::R5 => self.gprs[5],
            Register::R6 => self.gprs[6],
            Register::R7 => self.gprs[7],
            Register::PC => self.pc,
            Register::COND => self.cond,
        }
    }

    /// The register file after a write: the named slot is fully replaced
    /// and every other slot keeps its value.
    pub open spec fn write_reg(self, r: Register, value: u16) -> RegsView {
        match r {
            Register::R0 => RegsView { gprs: self.gprs.update(0, value), ..self },
            Register::R1 => RegsView { gprs: self.gprs.update(1, value), ..self },
            Register::R2 => RegsView { gprs: self.gprs.update(2, value), ..self },
            Register::R3 => RegsView { gprs: self.gprs.update(3, value), ..self },
            Register::R4 => RegsView { gprs: self.gprs.update(4, value), ..self },
            Register::R5 => RegsView { gprs: self.gprs.update(5, value), ..self },
            Register::R6 => RegsView { gprs: self.gprs.update(6, value), ..self },
            Register::R7 => RegsView { gprs: self.gprs.update(7, value), ..self },
            Register::PC => RegsView { pc: value, ..self },
            Register::COND => RegsView { cond: value, ..self },
        }
    }

    pub open spec fn wf(self) -> bool {
        self.gprs.len() == 8
    }
}

/// Reading the general-purpose register selected by a 3-bit field is
/// indexing the sequence of general-purpose registers.
pub proof fn lemma_read_gpr(v: RegsView, k: int)
    requires
        0 <= k < 8,
    ensures
        v.read_reg(reg_of(k)) == v.gprs[k],
{
}

/// Writing the general-purpose register selected by a 3-bit field updates
/// the sequence of general-purpose registers at that position and nothing else.
pub proof fn lemma_write_gpr(v: RegsView, k: int, value: u16)
    requires
        0 <= k < 8,
    ensures
        v.write_reg(reg_of(k), value) == (RegsView { gprs: v.gprs.update(k, value), ..v }),
{
}

/// The condition value that a flag-updating write derives from a result:
/// `FL_ZRO` for zero, `FL_NEG` when the sign bit is set, `FL_POS` otherwise.
pub open spec fn flag_for(value: u16) -> u16 {
    if value == 0 {
        FL_ZRO
    } else if value >= 0x8000 {
        FL_NEG
    } else {
        FL_POS
    }
}

/// Law: a flag-updating write leaves exactly one of the three condition
/// flags set — `FL_ZRO` exactly when the result is zero, `FL_NEG` exactly
/// when bit 15 of the result is set, and `FL_POS` in every other case.
pub proof fn lemma_flag_exclusive(value: u16)
    ensures
        flag_for(value) == FL_ZRO || flag_for(value) == FL_NEG || flag_for(value) == FL_POS,
        flag_for(value) == FL_ZRO <==> value == 0,
        flag_for(value) == FL_NEG <==> (value >> 15) & 1 == 1,
        flag_for(value) == FL_POS <==> (value != 0 && (value >> 15) & 1 == 0),
{
    assert(value >= 0x8000 <==> (value >> 15) & 1 == 1) by (bit_vector);
    assert(value < 0x8000 <==> (value >> 15) & 1 == 0) by (bit_vector);
}

/// The register file: eight general-purpose registers, the program counter,
/// and the condition register, each a distinct storage location.
pub struct RegisterFile {
    r0: u16,
    r1: u16,
    r2: u16,
    r3: u16,
    r4: u16,
    r5: u16,
    r6: u16,
    r7: u16,
    pc: u16,
    cond: u16,
}

impl View for RegisterFile {
    type V = RegsView;

    closed spec fn view(&self) -> RegsView {
        RegsView {
            gprs: seq![self.r0, self.r1, self.r2, self.r3, self.r4, self.r5, self.r6, self.r7],
            pc: self.pc,
            cond: self.cond,
        }
    }
}

impl RegisterFile {
    /// A register file with every slot zero.
    pub fn new() -> (r: RegisterFile)
        ensures
            r@.wf(),
            r@.pc == 0,
            r@.cond == 0,
            forall|i: int| 0 <= i < 8 ==> r@.gprs[i] == 0,
    {
        RegisterFile { r0: 0, r1: 0, r2: 0, r3: 0, r4: 0, r5: 0, r6: 0, r7: 0, pc: 0, cond: 0 }
    }

    /// The value of a register. Total: every register always holds a word.
    pub fn read(&self, register: Register) -> (value: u16)
        ensures
            value == self@.read_reg(register),
    {
        match register {
            Register::R0 => self.r0,
            Register::R1 => self.r1,
            Register::R2 => self.r2,
            Register::R3 => self.r3,
            Register::R4 => self.r4,
            Register::R5 => self.r5,
            Register::R6 => self.r6,
            Register::R7 => self.r7,
            Register::PC => self.pc,
            Register::COND => self.cond,
        }
    }

    /// Replaces the value of a register in full; every other slot is untouched.
    pub fn write(&mut self, register: Register, value: u16)
        ensures
            final(self)@ == old(self)@.write_reg(register, value),
    {
        match register {
            Register::R0 => self.r0 = value,
            Register::R1 => self.r1 = value,
            Register::R2 => self.r2 = value,
            Register::R3 => self.r3 = value,
            Register::R4 => self.r4 = value,
            Register::R5 => self.r5 = value,
            Register::R6 => self.r6 = value,
            Register::R7 => self.r7 = value,
            Register::PC => self.pc = value,
            Register::COND => self.cond = value,
        }
        proof {
            assert(self@ =~= old(self)@.write_reg(register, value));
        }
    }

    /// Overwrites the condition register with the single flag derived from
    /// `value`: `FL_ZRO` if it is zero, `FL_NEG` if its sign bit is set,
    /// `FL_POS` otherwise. Flags never accumulate across instructions.
    pub fn update_flags(&mut self, value: u16)
        ensures
            final(self)@ == (RegsView { cond: flag_for(value), ..old(self)@ }),
    {
        proof {
            assert((value >> 15) == 1 <==> value >= 0x8000) by (bit_vector);
        }
        if value == 0 {
            self.cond = FL_ZRO;
        } else if (value >> 15) == 1 {
            self.cond = FL_NEG;
        } else {
            self.cond = FL_POS;
        }
    }
}

} // verus!
