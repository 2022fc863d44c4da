//! Control-transfer resolution: whether an instruction ends its block, and
//! where execution goes from there.

use vstd::prelude::*;
use crate::error::{shape_mismatch, Error};
use crate::il::{Expression, Operator};
use crate::instruction::{DecodedInstruction, Opcode};

verus! {

/// One way out of a block: the address execution continues at, and the
/// condition under which it does. Without a guard the edge is always taken.
#[derive(Clone, Debug, PartialEq, Eq)]
pub struct Successor {
    /// The address execution continues at.
    pub target: u64,
    /// The condition under which it does; none where it always does.
    pub guard: Option<Expression>,
}

/// How an instruction passes control on.
#[derive(Clone, Debug, PartialEq, Eq)]
pub enum ControlTransfer {
    /// Execution continues with the next instruction; the block goes on.
    Sequential,
    /// An unconditional branch to an address encoded in the instruction.
    Direct { target: u64 },
    /// An unconditional branch that also changes the decoding mode. `target`
    /// is the operand's address with the mode mark added to it.
    ModeSwitch { target: u64 },
    /// A branch to `target` taken where `guard` holds; elsewhere execution
    /// continues with the next instruction, and the block ends either way.
    Conditional { target: u64, guard: Expression },
}

/// What is added to the operand of a mode-switching branch to mark, in the
/// target address, that the decoding mode changes there.
pub const MODE_MARK: u64 = 1;

/// The address an immediate operand names: its two's complement bit pattern,
/// sign-extended to 64 bits and read as an unsigned number.
pub open spec fn immediate_address(immediate: i32) -> int {
    if immediate >= 0 {
        immediate as int
    } else {
        immediate + 0x1_0000_0000_0000_0000
    }
}

/// The transfer of a branch that compares its first operand, a register,
/// against zero with `operator` and, where the comparison holds, goes to the
/// address in its second operand.
pub open spec fn compare_and_branch(instruction: DecodedInstruction, operator: Operator) -> Result<
    ControlTransfer,
    Error,
> {
    match instruction.immediate_at(1) {
        None => Err(shape_mismatch(instruction, 1)),
        Some(immediate) => match instruction.register_at(0) {
            None => Err(shape_mismatch(instruction, 0)),
            Some(register) => Ok(
                ControlTransfer::Conditional {
                    target: immediate_address(immediate) as u64,
                    guard: Expression::zero_test(operator, register),
                },
            ),
        },
    }
}

/// How `instruction` passes control on, or the operand that keeps this from
/// being told.
///
/// - `b` goes to the address in its first operand.
/// - `bx` and `bxj` go to the address in their first operand plus
///   [`MODE_MARK`]; where that sum does not fit in 64 bits the operand is
///   rejected.
/// - `cbz` and `cbnz` test their first operand against zero.
/// - Every other instruction continues with the next one.
pub open spec fn resolution(instruction: DecodedInstruction) -> Result<ControlTransfer, Error> {
    match instruction.opcode {
        Opcode::B => match instruction.immediate_at(0) {
            Some(immediate) => Ok(
                ControlTransfer::Direct { target: immediate_address(immediate) as u64 },
            ),
            None => Err(shape_mismatch(instruction, 0)),
        },
        Opcode::Bx | Opcode::Bxj => match instruction.immediate_at(0) {
            Some(immediate) => if immediate_address(immediate) + MODE_MARK <= u64::MAX {
                Ok(
                    ControlTransfer::ModeSwitch {
                        target: (immediate_address(immediate) + MODE_MARK) as u64,
                    },
                )
            } else {
                Err(shape_mismatch(instruction, 0))
            },
            None => Err(shape_mismatch(instruction, 0)),
        },
        Opcode::Cbnz => compare_and_branch(instruction, Operator::NotEqual),
        Opcode::Cbz => compare_and_branch(instruction, Operator::Equal),
        _ => Ok(ControlTransfer::Sequential),
    }
}

impl ControlTransfer {
    /// Whether the transfer ends the block.
    pub open spec fn terminates(self) -> bool {
        !(self is Sequential)
    }

    /// The ways out of the block that the transfer opens, where `next` is the
    /// address after the instruction: the edge of a taken branch first, then
    /// the edge that falls through to `next` under the negated guard.
    pub open spec fn successor_list(self, next: u64) -> Seq<Successor> {
        match self {
            ControlTransfer::Sequential => Seq::empty(),
            ControlTransfer::Direct { target } => seq![Successor { target, guard: None }],
            ControlTransfer::ModeSwitch { target } => seq![Successor { target, guard: None }],
            ControlTransfer::Conditional { target, guard } => seq![
                Successor { target, guard: Some(guard) },
                Successor { target: next, guard: Some(guard.negated()) },
            ],
        }
    }

    /// Tells whether the transfer ends the block.
    pub fn is_terminating(&self) -> (r: bool)
        ensures
            r == self.terminates(),
    {
        match self {
            ControlTransfer::Sequential => false,
            _ => true,
        }
    }

    /// Lists the ways out of the block that the transfer opens, where `next`
    /// is the address after the instruction: the edge of a taken branch
    /// first. The guard of the second edge of a conditional branch is built
    /// from the first by negation.
    pub fn successors(self, next: u64) -> (r: Vec<Successor>)
        ensures
            r@ == self.successor_list(next),
    {
        let mut list: Vec<Successor> = Vec::new();
        match self {
            ControlTransfer::Sequential => {},
            ControlTransfer::Direct { target } => {
                list.push(Successor { target, guard: None });
            },
            ControlTransfer::ModeSwitch { target } => {
                list.push(Successor { target, guard: None });
            },
            ControlTransfer::Conditional { target, guard } => {
                let negated = guard.clone().negation();
                list.push(Successor { target, guard: Some(guard) });
                list.push(Successor { target: next, guard: Some(negated) });
            },
        }
        assert(list@ =~= self.successor_list(next));
        list
    }
}

/// Computes the address an immediate operand names.
pub fn address_of(immediate: i32) -> (r: u64)
    ensures
        r == immediate_address(immediate),
{
    if immediate >= 0 {
        immediate as u64
    } else {
        let magnitude: i64 = -(immediate as i64);
        u64::MAX - ((magnitude - 1) as u64)
    }
}

/// Resolves a branch that compares its first operand against zero.
fn resolve_compare_and_branch(instruction: &DecodedInstruction, operator: Operator) -> (r: Result<
    ControlTransfer,
    Error,
>)
    ensures
        r == compare_and_branch(*instruction, operator),
{
    match instruction.immediate(1) {
        None => Err(Error::mismatch(instruction, 1)),
        Some(immediate) => match instruction.register(0) {
            None => Err(Error::mismatch(instruction, 0)),
            Some(register) => {
                let compared = Expression::Scalar { register, bits: 32 };
                let zero = Expression::Constant { value: 0, bits: 32 };
                Ok(
                    ControlTransfer::Conditional {
                        target: address_of(immediate),
                        guard: Expression::binary(operator, compared, zero),
                    },
                )
            },
        },
    }
}

/// Classifies `instruction` and computes where control goes after it.
pub fn resolve(instruction: &DecodedInstruction) -> (r: Result<ControlTransfer, Error>)
    ensures
        r == resolution(*instruction),
{
    match instruction.opcode {
        Opcode::B => match instruction.immediate(0) {
            Some(immediate) => Ok(ControlTransfer::Direct { target: address_of(immediate) }),
            None => Err(Error::mismatch(instruction, 0)),
        },
        Opcode::Bx | Opcode::Bxj => match instruction.immediate(0) {
            Some(immediate) => match address_of(immediate).checked_add(MODE_MARK) {
                Some(target) => Ok(ControlTransfer::ModeSwitch { target }),
                None => Err(Error::mismatch(instruction, 0)),
            },
            None => Err(Error::mismatch(instruction, 0)),
        },
        Opcode::Cbnz => resolve_compare_and_branch(instruction, Operator::NotEqual),
        Opcode::Cbz => resolve_compare_and_branch(instruction, Operator::Equal),
        _ => Ok(ControlTransfer::Sequential),
    }
}

} // verus!
