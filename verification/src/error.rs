//! The ways lifting a block can fail. Every one of them is fatal: no partial
//! block is ever handed back.

use vstd::prelude::*;
use crate::instruction::{DecodedInstruction, DecoderFault};

verus! {

/// Why a block could not be lifted.
#[derive(Clone, Debug, PartialEq, Eq)]
pub enum Error {
    /// The decoder failed at an offset where an instruction was expected.
    DecoderFault(DecoderFault),
    /// No semantics is known for the instruction.
    UnsupportedOpcode { mnemonic: String, address: u64 },
    /// An operand of the instruction at `address` is not of the form its
    /// operation needs; `operand` is its position in the operand list.
    OperandShapeMismatch { address: u64, operand: usize },
}

/// The error for an operand of `instruction` that has the wrong form.
pub open spec fn shape_mismatch(instruction: DecodedInstruction, operand: usize) -> Error {
    Error::OperandShapeMismatch { address: instruction.address, operand }
}

/// The error for an instruction that no semantics is known for.
pub open spec fn unsupported(instruction: DecodedInstruction) -> Error {
    Error::UnsupportedOpcode { mnemonic: instruction.mnemonic, address: instruction.address }
}

impl Error {
    /// Builds the error for an operand of `instruction` that has the wrong form.
    pub fn mismatch(instruction: &DecodedInstruction, operand: usize) -> (e: Error)
        ensures
            e == shape_mismatch(*instruction, operand),
    {
        Error::OperandShapeMismatch { address: instruction.address, operand }
    }

    /// Builds the error for an instruction that no semantics is known for.
    pub fn unhandled(instruction: &DecodedInstruction) -> (e: Error)
        ensures
            e == unsupported(*instruction),
    {
        Error::UnsupportedOpcode {
            mnemonic: instruction.mnemonic.clone(),
            address: instruction.address,
        }
    }
}

} // verus!
