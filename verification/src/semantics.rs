//! The semantics library: what an instruction does, said in the intermediate
//! language.
//!
//! Registers are 32 bits wide. An instruction that reads the program counter
//! sees its own address plus eight, and a write to the program counter is a
//! branch. Only instructions that always take effect and leave the condition
//! flags alone have a semantics here. Nothing in this module decides whether
//! a block ends: that is the business of control-transfer resolution.

use vstd::prelude::*;
use vstd::arithmetic::power2::{
    lemma2_to64,
    lemma2_to64_rest,
    lemma_pow2_adds,
    lemma_pow2_strictly_increases,
    lemma_pow2_unfold,
    pow2,
};
use crate::error::{shape_mismatch, unsupported, Error};
use crate::il::{ControlFlowGraph, Expression, GraphView, Operation, Operator};
use crate::instruction::{DecodedInstruction, Opcode, Register};

verus! {

/// How far ahead of an instruction the program counter reads.
pub const PIPELINE_OFFSET: u64 = 8;

/// The bit of the status register that holds the carry flag.
pub const CARRY_BIT: u64 = 29;

/// The low 32 bits of `value`.
pub open spec fn word(value: int) -> u64 {
    (value % 0x1_0000_0000) as u64
}

/// The 32-bit constant with the low 32 bits of `value`.
pub open spec fn constant(value: int) -> Expression {
    Expression::Constant { value: word(value), bits: 32 }
}

/// What `instruction` sees when it reads `register`.
pub open spec fn read(instruction: DecodedInstruction, register: Register) -> Expression {
    if register is Pc {
        constant(instruction.address + PIPELINE_OFFSET)
    } else {
        Expression::Scalar { register, bits: 32 }
    }
}

/// The value of the operand at `index`, where it is an immediate or a register
/// of the integer core.
pub open spec fn source_at(instruction: DecodedInstruction, index: int) -> Option<Expression> {
    match instruction.immediate_at(index) {
        Some(immediate) => Some(constant(immediate as int)),
        None => match instruction.register_at(index) {
            Some(register) => Some(read(instruction, register)),
            None => None,
        },
    }
}

/// The operation that puts `value` into `dst`.
pub open spec fn write(dst: Register, value: Expression) -> Operation {
    if dst is Pc {
        Operation::Branch { target: value }
    } else {
        Operation::Assign { dst, src: value }
    }
}

/// The carry flag, as a 32-bit value that is 0 or 1.
pub open spec fn carry() -> Expression {
    Expression::applied(
        Operator::And,
        Expression::applied(
            Operator::Shr,
            Expression::Scalar { register: Register::Cpsr, bits: 32 },
            constant(CARRY_BIT as int),
        ),
        constant(1),
    )
}

/// The destination and the two sources of an instruction of the form
/// `op rd, rn, operand2`.
pub open spec fn three_operands(instruction: DecodedInstruction) -> Result<
    (Register, Expression, Expression),
    Error,
> {
    match instruction.register_at(0) {
        None => Err(shape_mismatch(instruction, 0)),
        Some(dst) => match source_at(instruction, 1) {
            None => Err(shape_mismatch(instruction, 1)),
            Some(lhs) => match source_at(instruction, 2) {
                None => Err(shape_mismatch(instruction, 2)),
                Some(rhs) => Ok((dst, lhs, rhs)),
            },
        },
    }
}

/// The value a data-processing instruction computes from its two sources;
/// none for an operation that is not one of `adc`, `add`, `and`, `asr`, `bic`
/// and `sub`.
///
/// `bic` clears in the first source the bits set in the second. `asr` shifts
/// by the low eight bits of the second source. `adc` adds the carry flag.
pub open spec fn computed(opcode: Opcode, lhs: Expression, rhs: Expression) -> Option<Expression> {
    match opcode {
        Opcode::Adc => Some(
            Expression::applied(
                Operator::Add,
                Expression::applied(Operator::Add, lhs, rhs),
                carry(),
            ),
        ),
        Opcode::Add => Some(Expression::applied(Operator::Add, lhs, rhs)),
        Opcode::And => Some(Expression::applied(Operator::And, lhs, rhs)),
        Opcode::Asr => Some(
            Expression::applied(
                Operator::Sra,
                lhs,
                Expression::applied(Operator::And, rhs, constant(0xff)),
            ),
        ),
        Opcode::Bic => Some(
            Expression::applied(
                Operator::And,
                lhs,
                Expression::applied(Operator::Xor, rhs, constant(0xffff_ffff)),
            ),
        ),
        Opcode::Sub => Some(Expression::applied(Operator::Sub, lhs, rhs)),
        _ => None,
    }
}

/// The effects of `adc`, `add`, `and`, `asr`, `bic` and `sub`: the first
/// operand receives what [`computed`] makes of the other two.
pub open spec fn data_processing(instruction: DecodedInstruction) -> Result<Seq<Operation>, Error> {
    match three_operands(instruction) {
        Err(error) => Err(error),
        Ok((dst, lhs, rhs)) => match computed(instruction.opcode, lhs, rhs) {
            None => Err(unsupported(instruction)),
            Some(value) => Ok(seq![write(dst, value)]),
        },
    }
}

/// The effects of `adr rd, #offset`: `rd` receives the program counter plus
/// the offset.
pub open spec fn address_of_label(instruction: DecodedInstruction) -> Result<
    Seq<Operation>,
    Error,
> {
    match instruction.register_at(0) {
        None => Err(shape_mismatch(instruction, 0)),
        Some(dst) => match instruction.immediate_at(1) {
            None => Err(shape_mismatch(instruction, 1)),
            Some(offset) => Ok(
                seq![write(dst, constant(instruction.address + PIPELINE_OFFSET + offset))],
            ),
        },
    }
}

/// The number whose set bits are the `width` bits from bit `lsb` up.
pub open spec fn field_mask(lsb: nat, width: nat) -> int {
    (pow2(width) - 1) * pow2(lsb)
}

/// The bit field named by the immediates at `index` and `index + 1`, its
/// lowest bit and its width, where both lie within a 32-bit word; otherwise
/// the position of the operand at fault.
pub open spec fn field_at(instruction: DecodedInstruction, index: int) -> Result<
    (nat, nat),
    usize,
> {
    match instruction.immediate_at(index) {
        None => Err(index as usize),
        Some(lsb) => if !(0 <= lsb <= 31) {
            Err(index as usize)
        } else {
            match instruction.immediate_at(index + 1) {
                None => Err((index + 1) as usize),
                Some(width) => if 1 <= width <= 32 - lsb {
                    Ok((lsb as nat, width as nat))
                } else {
                    Err((index + 1) as usize)
                },
            }
        },
    }
}

/// The 32-bit constant with exactly the bits of the field set.
pub open spec fn field(lsb: nat, width: nat) -> Expression {
    Expression::Constant { value: field_mask(lsb, width) as u64, bits: 32 }
}

/// The 32-bit constant with exactly the bits outside the field set.
pub open spec fn outside_field(lsb: nat, width: nat) -> Expression {
    Expression::Constant { value: (0xffff_ffff - field_mask(lsb, width)) as u64, bits: 32 }
}

/// The effects of `bfc rd, #lsb, #width`: the bits of the field are cleared
/// in `rd`.
pub open spec fn bit_field_clear(instruction: DecodedInstruction) -> Result<Seq<Operation>, Error> {
    match instruction.register_at(0) {
        None => Err(shape_mismatch(instruction, 0)),
        Some(dst) => match field_at(instruction, 1) {
            Err(operand) => Err(shape_mismatch(instruction, operand)),
            Ok((lsb, width)) => Ok(
                seq![
                    write(
                        dst,
                        Expression::applied(
                            Operator::And,
                            read(instruction, dst),
                            outside_field(lsb, width),
                        ),
                    ),
                ],
            ),
        },
    }
}

/// The effects of `bfi rd, rn, #lsb, #width`: the bits of the field in `rd`
/// are replaced by the low bits of `rn`.
pub open spec fn bit_field_insert(instruction: DecodedInstruction) -> Result<
    Seq<Operation>,
    Error,
> {
    match instruction.register_at(0) {
        None => Err(shape_mismatch(instruction, 0)),
        Some(dst) => match instruction.register_at(1) {
            None => Err(shape_mismatch(instruction, 1)),
            Some(src) => match field_at(instruction, 2) {
                Err(operand) => Err(shape_mismatch(instruction, operand)),
                Ok((lsb, width)) => Ok(
                    seq![
                        write(
                            dst,
                            Expression::applied(
                                Operator::Or,
                                Expression::applied(
                                    Operator::And,
                                    read(instruction, dst),
                                    outside_field(lsb, width),
                                ),
                                Expression::applied(
                                    Operator::And,
                                    Expression::applied(
                                        Operator::Shl,
                                        read(instruction, src),
                                        constant(lsb as int),
                                    ),
                                    field(lsb, width),
                                ),
                            ),
                        ),
                    ],
                ),
            },
        },
    }
}

/// The effects of `bkpt #code`: a breakpoint, which the language cannot
/// express, with the code as its argument.
pub open spec fn breakpoint(instruction: DecodedInstruction) -> Result<Seq<Operation>, Error> {
    match instruction.immediate_at(0) {
        None => Err(shape_mismatch(instruction, 0)),
        Some(code) => Ok(
            seq![
                Operation::Intrinsic {
                    opcode: instruction.opcode,
                    output: None,
                    argument: constant(code as int),
                },
            ],
        ),
    }
}

/// The effects of `clz rd, rm`: `rd` receives the number of leading zero bits
/// of `rm`, which the language cannot express.
pub open spec fn count_leading_zeros(instruction: DecodedInstruction) -> Result<
    Seq<Operation>,
    Error,
> {
    match instruction.register_at(0) {
        None => Err(shape_mismatch(instruction, 0)),
        Some(dst) => match instruction.register_at(1) {
            None => Err(shape_mismatch(instruction, 1)),
            Some(src) => Ok(
                seq![
                    Operation::Intrinsic {
                        opcode: instruction.opcode,
                        output: Some(dst),
                        argument: read(instruction, src),
                    },
                ],
            ),
        },
    }
}

/// The effects of `bl` and `blx`: the link register receives the address of
/// the next instruction, then execution continues at the operand. A target
/// held in the link register itself cannot be expressed and is rejected.
pub open spec fn call(instruction: DecodedInstruction) -> Result<Seq<Operation>, Error> {
    if instruction.register_at(0) == Some(Register::Lr) {
        Err(shape_mismatch(instruction, 0))
    } else {
        match source_at(instruction, 0) {
            None => Err(shape_mismatch(instruction, 0)),
            Some(target) => Ok(
                seq![
                    Operation::Assign { dst: Register::Lr, src: constant(instruction.end()) },
                    Operation::Branch { target },
                ],
            ),
        }
    }
}

/// Whether the semantics library has an entry for the operation.
pub open spec fn has_semantics(opcode: Opcode) -> bool {
    !(opcode is Other)
}

/// The operations `instruction` performs, in order.
///
/// The branches `b`, `bx`, `bxj`, `cbz` and `cbnz` perform none: what they do
/// is said by the successors of the block they end.
pub open spec fn effects(instruction: DecodedInstruction) -> Result<Seq<Operation>, Error> {
    match instruction.opcode {
        Opcode::Adc | Opcode::Add | Opcode::And | Opcode::Asr | Opcode::Bic | Opcode::Sub => {
            data_processing(instruction)
        },
        Opcode::Adr => address_of_label(instruction),
        Opcode::Bfc => bit_field_clear(instruction),
        Opcode::Bfi => bit_field_insert(instruction),
        Opcode::Bkpt => breakpoint(instruction),
        Opcode::Bl | Opcode::Blx => call(instruction),
        Opcode::Clz => count_leading_zeros(instruction),
        Opcode::B | Opcode::Bx | Opcode::Bxj | Opcode::Cbnz | Opcode::Cbz => Ok(Seq::empty()),
        Opcode::Other(_) => Err(unsupported(instruction)),
    }
}

/// The graph of `instruction`, tied to its address.
///
/// An instruction whose operation has no entry in the library, or that is
/// predicated or writes the flags, is unsupported. Otherwise the graph holds
/// the [`effects`] of the instruction, unless an operand has the wrong form.
pub open spec fn lifted(instruction: DecodedInstruction) -> Result<GraphView, Error> {
    if !has_semantics(instruction.opcode) || !instruction.is_plain() {
        Err(unsupported(instruction))
    } else {
        match effects(instruction) {
            Err(error) => Err(error),
            Ok(operations) => Ok(GraphView { address: Some(instruction.address), operations }),
        }
    }
}

/// Whether `found` is the list of operations, or the error, that `expected`
/// says.
spec fn yields(
    found: Result<Vec<Operation>, Error>,
    expected: Result<Seq<Operation>, Error>,
) -> bool {
    match found {
        Ok(operations) => expected == Ok::<Seq<Operation>, Error>(operations@),
        Err(error) => expected == Err::<Seq<Operation>, Error>(error),
    }
}

/// Computes the low 32 bits of an address.
fn low_word(value: u64) -> (r: u64)
    ensures
        r == word(value as int),
{
    value % 0x1_0000_0000
}

/// Computes the low 32 bits of an immediate, in two's complement.
fn immediate_word(value: i32) -> (r: u64)
    ensures
        r == word(value as int),
{
    if value >= 0 {
        value as u64
    } else {
        (0x1_0000_0000i64 + value as i64) as u64
    }
}

/// Builds the 32-bit constant for a value that is already reduced to a word.
fn word_constant(value: u64) -> (r: Expression)
    requires
        value < 0x1_0000_0000,
    ensures
        r == constant(value as int),
{
    Expression::Constant { value, bits: 32 }
}

/// Builds the constant for the address `displacement` bytes after the start of
/// `instruction`.
fn relative_constant(instruction: &DecodedInstruction, displacement: u64) -> (r: Expression)
    requires
        displacement < 0x1_0000_0000,
    ensures
        r == constant(instruction.address + displacement),
{
    word_constant((low_word(instruction.address) + displacement) % 0x1_0000_0000)
}

/// Builds what `instruction` sees when it reads `register`.
fn read_register(instruction: &DecodedInstruction, register: Register) -> (r: Expression)
    ensures
        r == read(*instruction, register),
{
    match register {
        Register::Pc => relative_constant(instruction, PIPELINE_OFFSET),
        _ => Expression::Scalar { register, bits: 32 },
    }
}

/// Builds the value of the operand at `index`.
fn source(instruction: &DecodedInstruction, index: usize) -> (r: Option<Expression>)
    ensures
        r == source_at(*instruction, index as int),
{
    match instruction.immediate(index) {
        Some(immediate) => Some(word_constant(immediate_word(immediate))),
        None => match instruction.register(index) {
            Some(register) => Some(read_register(instruction, register)),
            None => None,
        },
    }
}

/// Builds the operation that puts `value` into `dst`.
fn write_register(dst: Register, value: Expression) -> (r: Operation)
    ensures
        r == write(dst, value),
{
    match dst {
        Register::Pc => Operation::Branch { target: value },
        _ => Operation::Assign { dst, src: value },
    }
}

/// Builds the carry flag as a 32-bit value.
fn carry_flag() -> (r: Expression)
    ensures
        r == carry(),
{
    Expression::binary(
        Operator::And,
        Expression::binary(
            Operator::Shr,
            Expression::Scalar { register: Register::Cpsr, bits: 32 },
            word_constant(CARRY_BIT),
        ),
        word_constant(1),
    )
}

/// Reads the destination and the two sources of a three-operand instruction.
fn read_three_operands(instruction: &DecodedInstruction) -> (r: Result<
    (Register, Expression, Expression),
    Error,
>)
    ensures
        r == three_operands(*instruction),
{
    match instruction.register(0) {
        None => Err(Error::mismatch(instruction, 0)),
        Some(dst) => match source(instruction, 1) {
            None => Err(Error::mismatch(instruction, 1)),
            Some(lhs) => match source(instruction, 2) {
                None => Err(Error::mismatch(instruction, 2)),
                Some(rhs) => Ok((dst, lhs, rhs)),
            },
        },
    }
}

/// Builds the value a data-processing instruction computes.
fn compute(opcode: Opcode, lhs: Expression, rhs: Expression) -> (r: Option<Expression>)
    ensures
        r == computed(opcode, lhs, rhs),
{
    match opcode {
        Opcode::Adc => Some(
            Expression::binary(
                Operator::Add,
                Expression::binary(Operator::Add, lhs, rhs),
                carry_flag(),
            ),
        ),
        Opcode::Add => Some(Expression::binary(Operator::Add, lhs, rhs)),
        Opcode::And => Some(Expression::binary(Operator::And, lhs, rhs)),
        Opcode::Asr => Some(
            Expression::binary(
                Operator::Sra,
                lhs,
                Expression::binary(Operator::And, rhs, word_constant(0xff)),
            ),
        ),
        Opcode::Bic => Some(
            Expression::binary(
                Operator::And,
                lhs,
                Expression::binary(Operator::Xor, rhs, word_constant(0xffff_ffff)),
            ),
        ),
        Opcode::Sub => Some(Expression::binary(Operator::Sub, lhs, rhs)),
        _ => None,
    }
}

/// Lists a single operation.
fn single(operation: Operation) -> (r: Vec<Operation>)
    ensures
        r@ == seq![operation],
{
    let mut operations: Vec<Operation> = Vec::new();
    operations.push(operation);
    assert(operations@ =~= seq![operation]);
    operations
}

/// Lifts `adc`, `add`, `and`, `asr`, `bic` and `sub`.
fn lift_data_processing(instruction: &DecodedInstruction) -> (r: Result<Vec<Operation>, Error>)
    ensures
        yields(r, data_processing(*instruction)),
{
    match read_three_operands(instruction) {
        Err(error) => Err(error),
        Ok((dst, lhs, rhs)) => match compute(instruction.opcode, lhs, rhs) {
            None => Err(Error::unhandled(instruction)),
            Some(value) => Ok(single(write_register(dst, value))),
        },
    }
}

/// Lifts `adr`.
fn lift_address_of_label(instruction: &DecodedInstruction) -> (r: Result<Vec<Operation>, Error>)
    ensures
        yields(r, address_of_label(*instruction)),
{
    match instruction.register(0) {
        None => Err(Error::mismatch(instruction, 0)),
        Some(dst) => match instruction.immediate(1) {
            None => Err(Error::mismatch(instruction, 1)),
            Some(offset) => {
                let value = relative_constant(
                    instruction,
                    (PIPELINE_OFFSET + immediate_word(offset)) % 0x1_0000_0000,
                );
                Ok(single(write_register(dst, value)))
            },
        },
    }
}

/// Computes two to the power `exponent`.
fn power_of_two(exponent: u32) -> (r: u64)
    requires
        exponent <= 32,
    ensures
        r == pow2(exponent as nat),
        1 <= r <= 0x1_0000_0000,
{
    let mut power: u64 = 1;
    let mut done: u32 = 0;
    proof {
        lemma2_to64();
        lemma2_to64_rest();
    }
    while done < exponent
        invariant
            done <= exponent <= 32,
            power == pow2(done as nat),
            1 <= power,
            pow2(32) == 0x1_0000_0000,
        decreases exponent - done,
    {
        proof {
            lemma_pow2_unfold((done + 1) as nat);
            lemma_pow2_strictly_increases(done as nat, 32);
        }
        power = power * 2;
        done = done + 1;
    }
    proof {
        if exponent < 32 {
            lemma_pow2_strictly_increases(exponent as nat, 32);
        }
    }
    power
}

/// Computes the number whose set bits are those of a field within a word.
fn mask_of(lsb: u32, width: u32) -> (r: u64)
    requires
        1 <= width,
        lsb + width <= 32,
    ensures
        r == field_mask(lsb as nat, width as nat),
        r <= 0xffff_ffff,
{
    let high = power_of_two(width);
    let low = power_of_two(lsb);
    proof {
        lemma2_to64();
        lemma2_to64_rest();
        lemma_pow2_adds(width as nat, lsb as nat);
        if lsb + width < 32 {
            lemma_pow2_strictly_increases((lsb + width) as nat, 32);
        }
        assert((high - 1) * low <= 0xffff_ffff) by (nonlinear_arith)
            requires
                high * low <= 0x1_0000_0000,
                low >= 1,
                high >= 1,
        ;
    }
    (high - 1) * low
}

/// Reads the bit field named by the immediates at `index` and `index + 1`.
fn read_field(instruction: &DecodedInstruction, index: usize) -> (r: Result<(u32, u32), usize>)
    requires
        index < 8,
    ensures
        match r {
            Ok((lsb, width)) => field_at(*instruction, index as int) == Ok::<(nat, nat), usize>(
                (lsb as nat, width as nat),
            ) && 1 <= width && lsb + width <= 32,
            Err(operand) => field_at(*instruction, index as int) == Err::<(nat, nat), usize>(
                operand,
            ),
        },
{
    match instruction.immediate(index) {
        None => Err(index),
        Some(lsb) => if lsb < 0 || lsb > 31 {
            Err(index)
        } else {
            match instruction.immediate(index + 1) {
                None => Err(index + 1),
                Some(width) => if 1 <= width && width <= 32 - lsb {
                    Ok((lsb as u32, width as u32))
                } else {
                    Err(index + 1)
                },
            }
        },
    }
}

/// Builds the constant with exactly the bits of the field set.
fn field_constant(lsb: u32, width: u32) -> (r: Expression)
    requires
        1 <= width,
        lsb + width <= 32,
    ensures
        r == field(lsb as nat, width as nat),
{
    Expression::Constant { value: mask_of(lsb, width), bits: 32 }
}

/// Builds the constant with exactly the bits outside the field set.
fn outside_field_constant(lsb: u32, width: u32) -> (r: Expression)
    requires
        1 <= width,
        lsb + width <= 32,
    ensures
        r == outside_field(lsb as nat, width as nat),
{
    Expression::Constant { value: 0xffff_ffff - mask_of(lsb, width), bits: 32 }
}

/// Lifts `bfc`.
fn lift_bit_field_clear(instruction: &DecodedInstruction) -> (r: Result<Vec<Operation>, Error>)
    ensures
        yields(r, bit_field_clear(*instruction)),
{
    match instruction.register(0) {
        None => Err(Error::mismatch(instruction, 0)),
        Some(dst) => match read_field(instruction, 1) {
            Err(operand) => Err(Error::mismatch(instruction, operand)),
            Ok((lsb, width)) => {
                let kept = Expression::binary(
                    Operator::And,
                    read_register(instruction, dst),
                    outside_field_constant(lsb, width),
                );
                Ok(single(write_register(dst, kept)))
            },
        },
    }
}

/// Lifts `bfi`.
fn lift_bit_field_insert(instruction: &DecodedInstruction) -> (r: Result<Vec<Operation>, Error>)
    ensures
        yields(r, bit_field_insert(*instruction)),
{
    match instruction.register(0) {
        None => Err(Error::mismatch(instruction, 0)),
        Some(dst) => match instruction.register(1) {
            None => Err(Error::mismatch(instruction, 1)),
            Some(src) => match read_field(instruction, 2) {
                Err(operand) => Err(Error::mismatch(instruction, operand)),
                Ok((lsb, width)) => {
                    let kept = Expression::binary(
                        Operator::And,
                        read_register(instruction, dst),
                        outside_field_constant(lsb, width),
                    );
                    let inserted = Expression::binary(
                        Operator::And,
                        Expression::binary(
                            Operator::Shl,
                            read_register(instruction, src),
                            word_constant(lsb as u64),
                        ),
                        field_constant(lsb, width),
                    );
                    let merged = Expression::binary(Operator::Or, kept, inserted);
                    Ok(single(write_register(dst, merged)))
                },
            },
        },
    }
}

/// Lifts `bkpt`.
fn lift_breakpoint(instruction: &DecodedInstruction) -> (r: Result<Vec<Operation>, Error>)
    ensures
        yields(r, breakpoint(*instruction)),
{
    match instruction.immediate(0) {
        None => Err(Error::mismatch(instruction, 0)),
        Some(code) => Ok(
            single(
                Operation::Intrinsic {
                    opcode: instruction.opcode,
                    output: None,
                    argument: word_constant(immediate_word(code)),
                },
            ),
        ),
    }
}

/// Lifts `clz`.
fn lift_count_leading_zeros(instruction: &DecodedInstruction) -> (r: Result<Vec<Operation>, Error>)
    ensures
        yields(r, count_leading_zeros(*instruction)),
{
    match instruction.register(0) {
        None => Err(Error::mismatch(instruction, 0)),
        Some(dst) => match instruction.register(1) {
            None => Err(Error::mismatch(instruction, 1)),
            Some(src) => Ok(
                single(
                    Operation::Intrinsic {
                        opcode: instruction.opcode,
                        output: Some(dst),
                        argument: read_register(instruction, src),
                    },
                ),
            ),
        },
    }
}

/// Lifts `bl` and `blx`.
fn lift_call(instruction: &DecodedInstruction) -> (r: Result<Vec<Operation>, Error>)
    ensures
        yields(r, call(*instruction)),
{
    match instruction.register(0) {
        Some(Register::Lr) => Err(Error::mismatch(instruction, 0)),
        _ => match source(instruction, 0) {
            None => Err(Error::mismatch(instruction, 0)),
            Some(target) => {
                let mut operations: Vec<Operation> = Vec::new();
                operations.push(
                    Operation::Assign {
                        dst: Register::Lr,
                        src: relative_constant(instruction, instruction.size as u64),
                    },
                );
                operations.push(Operation::Branch { target });
                assert(operations@ =~= call(*instruction)->Ok_0);
                Ok(operations)
            },
        },
    }
}

/// Tells whether the semantics library has an entry for the operation.
pub fn is_supported(opcode: Opcode) -> (r: bool)
    ensures
        r == has_semantics(opcode),
{
    match opcode {
        Opcode::Other(_) => false,
        _ => true,
    }
}

/// Lifts one instruction: looks its operation up in the semantics library and
/// builds the graph of its effects, tied to the instruction's address.
pub fn lift(instruction: &DecodedInstruction) -> (r: Result<ControlFlowGraph, Error>)
    ensures
        match r {
            Ok(graph) => lifted(*instruction) == Ok::<GraphView, Error>(graph@),
            Err(error) => lifted(*instruction) == Err::<GraphView, Error>(error),
        },
{
    if !is_supported(instruction.opcode) || !instruction.plain() {
        return Err(Error::unhandled(instruction));
    }
    let operations = match instruction.opcode {
        Opcode::Adc | Opcode::Add | Opcode::And | Opcode::Asr | Opcode::Bic | Opcode::Sub => {
            lift_data_processing(instruction)
        },
        Opcode::Adr => lift_address_of_label(instruction),
        Opcode::Bfc => lift_bit_field_clear(instruction),
        Opcode::Bfi => lift_bit_field_insert(instruction),
        Opcode::Bkpt => lift_breakpoint(instruction),
        Opcode::Bl | Opcode::Blx => lift_call(instruction),
        Opcode::Clz => lift_count_leading_zeros(instruction),
        Opcode::B | Opcode::Bx | Opcode::Bxj | Opcode::Cbnz | Opcode::Cbz => Ok(Vec::new()),
        Opcode::Other(_) => Err(Error::unhandled(instruction)),
    };
    match operations {
        Err(error) => Err(error),
        Ok(operations) => Ok(ControlFlowGraph::new(Some(instruction.address), operations)),
    }
}

} // verus!
