//! A small intermediate language: expressions over registers, the operations
//! one instruction performs, and the graph that holds them.
//!
//! Expressions have a meaning, given by [`Expression::value`]: the number an
//! expression denotes in a machine state. Everything the lifter promises about
//! branch guards is stated through it.

use vstd::prelude::*;
use vstd::arithmetic::power2::pow2;
use crate::instruction::{Opcode, Register};

verus! {

/// A two-argument operator of the language.
#[derive(Clone, Copy, Debug, PartialEq, Eq)]
pub enum Operator {
    Add,
    Sub,
    And,
    Or,
    Xor,
    /// Shift left, filling with zeros.
    Shl,
    /// Shift right, filling with zeros.
    Shr,
    /// Shift right, filling with copies of the sign bit.
    Sra,
    /// One bit: 1 where both sides are equal, else 0.
    Equal,
    /// One bit: 1 where the sides differ, else 0.
    NotEqual,
}

/// A machine state: the number each register holds.
pub type State = Map<Register, int>;

/// The number that the bit pattern `value` of `width` bits stands for when its
/// top bit is read as a sign.
pub open spec fn signed(width: nat, value: int) -> int {
    if width >= 1 && value >= pow2((width - 1) as nat) {
        value - pow2(width)
    } else {
        value
    }
}

impl Operator {
    /// Whether the operator compares its sides and yields a single bit.
    pub open spec fn is_comparison(self) -> bool {
        self is Equal || self is NotEqual
    }

    /// Tells whether the operator compares its sides and yields a single bit.
    pub fn comparison(&self) -> (r: bool)
        ensures
            r == self.is_comparison(),
    {
        match self {
            Operator::Equal => true,
            Operator::NotEqual => true,
            _ => false,
        }
    }

    /// The result of the operator on two values of `width` bits.
    pub open spec fn apply(self, width: nat, lhs: int, rhs: int) -> int {
        match self {
            Operator::Add => (lhs + rhs) % (pow2(width) as int),
            Operator::Sub => (lhs - rhs) % (pow2(width) as int),
            Operator::And => ((lhs as u64) & (rhs as u64)) as int,
            Operator::Or => ((lhs as u64) | (rhs as u64)) as int,
            Operator::Xor => ((lhs as u64) ^ (rhs as u64)) as int,
            Operator::Shl => (lhs * pow2(rhs as nat)) % (pow2(width) as int),
            Operator::Shr => lhs / (pow2(rhs as nat) as int),
            Operator::Sra => (signed(width, lhs) / (pow2(rhs as nat) as int)) % (pow2(
                width,
            ) as int),
            Operator::Equal => if lhs == rhs { 1 } else { 0 },
            Operator::NotEqual => if lhs != rhs { 1 } else { 0 },
        }
    }
}

/// An expression over the registers of the machine.
#[derive(Debug, PartialEq, Eq)]
pub enum Expression {
    /// The low `bits` bits of a register.
    Scalar { register: Register, bits: usize },
    /// The low `bits` bits of `value`.
    Constant { value: u64, bits: usize },
    /// An operator applied to two expressions.
    Binary { operator: Operator, lhs: Box<Expression>, rhs: Box<Expression> },
}

impl Expression {
    /// The number of bits in the value of the expression.
    pub open spec fn width(self) -> nat
        decreases self,
    {
        match self {
            Expression::Scalar { bits, .. } => bits as nat,
            Expression::Constant { bits, .. } => bits as nat,
            Expression::Binary { operator, lhs, .. } => if operator.is_comparison() {
                1
            } else {
                lhs.width()
            },
        }
    }

    /// The number the expression denotes in `state`.
    pub open spec fn value(self, state: State) -> int
        decreases self,
    {
        match self {
            Expression::Scalar { register, bits } => state[register] % (pow2(bits as nat) as int),
            Expression::Constant { value, bits } => (value as int) % (pow2(bits as nat) as int),
            Expression::Binary { operator, lhs, rhs } => operator.apply(
                lhs.width(),
                lhs.value(state),
                rhs.value(state),
            ),
        }
    }

    /// Whether the expression is a comparison, and so a one-bit truth value.
    pub open spec fn is_comparison(self) -> bool {
        self matches Expression::Binary { operator, .. } && operator.is_comparison()
    }

    /// Whether the expression is true in `state`.
    pub open spec fn holds(self, state: State) -> bool {
        self.value(state) != 0
    }

    /// The application of `operator` to `lhs` and `rhs`.
    pub open spec fn applied(operator: Operator, lhs: Expression, rhs: Expression) -> Expression {
        Expression::Binary { operator, lhs: Box::new(lhs), rhs: Box::new(rhs) }
    }

    /// The expression that is true exactly where `self` is zero.
    pub open spec fn negated(self) -> Expression {
        Expression::applied(Operator::Equal, self, Expression::Constant { value: 0, bits: 1 })
    }

    /// The comparison of `register`, read as a 32-bit value, against zero.
    pub open spec fn zero_test(operator: Operator, register: Register) -> Expression {
        Expression::applied(
            operator,
            Expression::Scalar { register, bits: 32 },
            Expression::Constant { value: 0, bits: 32 },
        )
    }

    /// Whether the expression compares a register of the integer core, read
    /// as a 32-bit value, against zero.
    pub open spec fn is_zero_test(self) -> bool {
        exists|operator: Operator, register: Register|
            operator.is_comparison() && register.is_core()
                && self == #[trigger] Expression::zero_test(operator, register)
    }

    /// Builds the application of `operator` to `lhs` and `rhs`.
    pub fn binary(operator: Operator, lhs: Expression, rhs: Expression) -> (r: Expression)
        ensures
            r == Expression::applied(operator, lhs, rhs),
    {
        Expression::Binary { operator, lhs: Box::new(lhs), rhs: Box::new(rhs) }
    }

    /// Builds the expression that is true exactly where `self` is zero.
    pub fn negation(self) -> (r: Expression)
        ensures
            r == self.negated(),
    {
        Expression::binary(Operator::Equal, self, Expression::Constant { value: 0, bits: 1 })
    }

    /// The number of bits in the value of the expression.
    pub fn bits(&self) -> (r: usize)
        ensures
            r == self.width(),
        decreases *self,
    {
        match self {
            Expression::Scalar { bits, .. } => *bits,
            Expression::Constant { bits, .. } => *bits,
            Expression::Binary { operator, lhs, .. } => if operator.comparison() {
                1
            } else {
                lhs.bits()
            },
        }
    }
}

impl Clone for Expression {
    fn clone(&self) -> (r: Self)
        ensures
            r == *self,
        decreases *self,
    {
        match self {
            Expression::Scalar { register, bits } => Expression::Scalar {
                register: *register,
                bits: *bits,
            },
            Expression::Constant { value, bits } => Expression::Constant {
                value: *value,
                bits: *bits,
            },
            Expression::Binary { operator, lhs, rhs } => Expression::Binary {
                operator: *operator,
                lhs: Box::new((**lhs).clone()),
                rhs: Box::new((**rhs).clone()),
            },
        }
    }
}

/// One effect of an instruction.
#[derive(Clone, Debug, PartialEq, Eq)]
pub enum Operation {
    /// Write the value of `src` to the register `dst`.
    Assign { dst: Register, src: Expression },
    /// Continue execution at the address `target` evaluates to.
    Branch { target: Expression },
    /// An effect the language has no expression for, named by the operation
    /// that causes it; it reads `argument` and writes `output`, if there is one.
    Intrinsic { opcode: Opcode, output: Option<Register>, argument: Expression },
}

/// What a [`ControlFlowGraph`] holds.
pub struct GraphView {
    /// The address of the instruction the graph stands for, if it has one.
    pub address: Option<u64>,
    /// The operations, in the order they take effect.
    pub operations: Seq<Operation>,
}

/// The effects of one instruction: a single entry, from which the operations
/// run in order to a single exit.
#[derive(Clone, Debug, PartialEq, Eq)]
pub struct ControlFlowGraph {
    address: Option<u64>,
    operations: Vec<Operation>,
}

impl View for ControlFlowGraph {
    type V = GraphView;

    closed spec fn view(&self) -> GraphView {
        GraphView { address: self.address, operations: self.operations@ }
    }
}

impl ControlFlowGraph {
    /// The graph of the instruction at `address` that performs `operations`
    /// in order.
    pub fn new(address: Option<u64>, operations: Vec<Operation>) -> (g: ControlFlowGraph)
        ensures
            g@ == (GraphView { address, operations: operations@ }),
    {
        ControlFlowGraph { address, operations }
    }

    /// The address of the instruction the graph stands for.
    pub fn address(&self) -> (r: Option<u64>)
        ensures
            r == self@.address,
    {
        self.address
    }

    /// The operations, in the order they take effect.
    pub fn operations(&self) -> (r: &Vec<Operation>)
        ensures
            r@ == self@.operations,
    {
        &self.operations
    }
}

} // verus!
