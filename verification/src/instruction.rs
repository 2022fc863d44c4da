//! Decoded ARM instructions as plain values.
//!
//! A decoder produces these; nothing here looks at machine code. An
//! instruction is described by where it sits, how many bytes it takes, which
//! operation it names and the operands it was given.

use vstd::prelude::*;

verus! {

/// A register that an operand can name.
#[derive(Clone, Copy, Debug, PartialEq, Eq)]
pub enum Register {
    R0,
    R1,
    R2,
    R3,
    R4,
    R5,
    R6,
    R7,
    R8,
    R9,
    R10,
    R11,
    R12,
    Sp,
    Lr,
    Pc,
    /// The current program status register, which holds the condition flags.
    Cpsr,
    /// A register outside the integer core, by the decoder's number for it.
    Extension(u32),
}

impl Register {
    /// Whether this is one of the sixteen 32-bit registers of the integer core.
    pub open spec fn is_core(self) -> bool {
        !(self is Cpsr) && !(self is Extension)
    }

    /// Tells whether this is one of the sixteen registers of the integer core.
    pub fn is_core_register(&self) -> (r: bool)
        ensures
            r == self.is_core(),
    {
        match self {
            Register::Cpsr => false,
            Register::Extension(_) => false,
            _ => true,
        }
    }
}

/// The condition under which an instruction takes effect.
#[derive(Clone, Copy, Debug, PartialEq, Eq)]
pub enum Condition {
    Eq,
    Ne,
    Hs,
    Lo,
    Mi,
    Pl,
    Vs,
    Vc,
    Hi,
    Ls,
    Ge,
    Lt,
    Gt,
    Le,
    /// Always: the instruction is not predicated.
    Al,
    /// The instruction has no condition field: it cannot be predicated.
    Unpredicated,
}

/// The operation an instruction names.
#[derive(Clone, Copy, Debug, PartialEq, Eq)]
pub enum Opcode {
    Adc,
    Add,
    Adr,
    And,
    Asr,
    B,
    Bfc,
    Bfi,
    Bic,
    Bkpt,
    Bl,
    Blx,
    Bx,
    Bxj,
    Cbnz,
    Cbz,
    Clz,
    Sub,
    /// Any other operation, by the decoder's number for it.
    Other(u32),
}

/// One operand of a decoded instruction.
#[derive(Clone, Copy, Debug, PartialEq, Eq)]
pub enum Operand {
    /// A value encoded in the instruction.
    Immediate(i32),
    /// A register.
    Register(Register),
    /// A register whose value is shifted or rotated before it is used, with
    /// the decoder's number for the kind of shift.
    Shifted { register: Register, kind: u32, amount: u32 },
    /// A reference to memory at `base + index * scale + displacement`.
    Memory { base: Option<Register>, index: Option<Register>, scale: i32, displacement: i32 },
    /// An operand that qualifies the instruction rather than naming a value,
    /// by the decoder's number for its kind.
    Modifier(u32),
}

/// One instruction as the decoder describes it.
#[derive(Clone, Debug, PartialEq, Eq)]
pub struct DecodedInstruction {
    /// Address of the first byte of the instruction.
    pub address: u64,
    /// Number of bytes the instruction takes.
    pub size: u16,
    /// The operation the instruction names.
    pub opcode: Opcode,
    /// The condition under which the instruction takes effect.
    pub condition: Condition,
    /// Whether the instruction writes the condition flags.
    pub updates_flags: bool,
    /// The decoder's text for the operation, kept for diagnostics.
    pub mnemonic: String,
    /// The operands in the order the decoder lists them.
    pub operands: Vec<Operand>,
}

impl DecodedInstruction {
    /// The address of the byte that follows the instruction.
    pub open spec fn end(self) -> int {
        self.address + self.size
    }

    /// Whether the instruction takes effect on every execution and leaves the
    /// condition flags alone.
    pub open spec fn is_plain(self) -> bool {
        (self.condition is Al || self.condition is Unpredicated) && !self.updates_flags
    }

    /// Tells whether the instruction is unpredicated and leaves the flags alone.
    pub fn plain(&self) -> (r: bool)
        ensures
            r == self.is_plain(),
    {
        match self.condition {
            Condition::Al => !self.updates_flags,
            Condition::Unpredicated => !self.updates_flags,
            _ => false,
        }
    }

    /// The immediate at position `index` of the operand list, if the operand
    /// there is one.
    pub open spec fn immediate_at(self, index: int) -> Option<i32> {
        if 0 <= index < self.operands@.len() {
            match self.operands@[index] {
                Operand::Immediate(value) => Some(value),
                _ => None,
            }
        } else {
            None
        }
    }

    /// The register at position `index` of the operand list, if the operand
    /// there is a register of the integer core.
    pub open spec fn register_at(self, index: int) -> Option<Register> {
        if 0 <= index < self.operands@.len() {
            match self.operands@[index] {
                Operand::Register(register) => if register.is_core() {
                    Some(register)
                } else {
                    None
                },
                _ => None,
            }
        } else {
            None
        }
    }

    /// Reads the immediate at position `index` of the operand list.
    pub fn immediate(&self, index: usize) -> (r: Option<i32>)
        ensures
            r == self.immediate_at(index as int),
    {
        if index < self.operands.len() {
            match self.operands[index] {
                Operand::Immediate(value) => Some(value),
                _ => None,
            }
        } else {
            None
        }
    }

    /// Reads the core register at position `index` of the operand list.
    pub fn register(&self, index: usize) -> (r: Option<Register>)
        ensures
            r == self.register_at(index as int),
    {
        if index < self.operands.len() {
            match self.operands[index] {
                Operand::Register(register) => if register.is_core_register() {
                    Some(register)
                } else {
                    None
                },
                _ => None,
            }
        } else {
            None
        }
    }
}

/// Why a decoder could not describe an instruction.
#[derive(Clone, Copy, Debug, PartialEq, Eq)]
pub enum DecoderFault {
    /// The decoding engine could not be set up.
    Unavailable,
    /// The engine rejected the bytes, with its error code.
    Engine(u32),
    /// The engine reported success but handed back no instruction.
    NoInstruction,
    /// The engine handed back an instruction of another architecture.
    ForeignInstruction,
    /// The engine handed back an instruction without its operands.
    NoDetail,
    /// The instruction does not fit the request: it has no bytes, does not
    /// start where decoding was asked for, or runs past the end of the input.
    Inconsistent,
}

/// What a decoder answers when asked for the instruction at the start of a
/// window of bytes.
#[derive(Clone, Debug, PartialEq, Eq)]
pub enum DecodeOutcome {
    /// The instruction at the start of the window.
    Instruction(DecodedInstruction),
    /// The window holds no further instruction; this is not an error.
    Boundary,
    /// The bytes could not be decoded.
    Fault(DecoderFault),
}

} // verus!
