use arm_translator::arm::Arm;
use arm_translator::control::Successor;
use arm_translator::error::Error;
use arm_translator::il::{Expression, Operation, Operator};
use arm_translator::instruction::{
    Condition, DecodeOutcome, DecodedInstruction, Opcode, Operand, Register,
};

fn instruction(address: u64, opcode: Opcode, mnemonic: &str, operands: Vec<Operand>) -> DecodedInstruction {
    DecodedInstruction {
        address,
        size: 4,
        opcode,
        condition: Condition::Al,
        updates_flags: false,
        mnemonic: mnemonic.to_string(),
        operands,
    }
}

/// A decoder that answers with `first` at `start` and finds nothing after it.
fn one_instruction(start: u64, first: DecodedInstruction) -> impl Fn(&[u8], u64) -> DecodeOutcome {
    move |window: &[u8], at: u64| {
        if at == start && window.len() >= first.size as usize {
            DecodeOutcome::Instruction(first.clone())
        } else {
            DecodeOutcome::Boundary
        }
    }
}

fn scalar(register: Register) -> Expression {
    Expression::Scalar { register, bits: 32 }
}

fn constant(value: u64, bits: usize) -> Expression {
    Expression::Constant { value, bits }
}

fn binary(operator: Operator, lhs: Expression, rhs: Expression) -> Expression {
    Expression::Binary { operator, lhs: Box::new(lhs), rhs: Box::new(rhs) }
}

#[test]
fn straight_line_instruction_falls_through() {
    let add = instruction(
        0x1000,
        Opcode::Add,
        "add",
        vec![
            Operand::Register(Register::R0),
            Operand::Register(Register::R1),
            Operand::Register(Register::R2),
        ],
    );
    let block = Arm::new().translate_block(&[0u8; 4], 0x1000, one_instruction(0x1000, add)).unwrap();
    assert_eq!(block.instructions().len(), 1);
    assert_eq!(block.instructions()[0].0, 0x1000);
    assert_eq!(block.instructions()[0].1.address(), Some(0x1000));
    assert_eq!(
        block.instructions()[0].1.operations(),
        &vec![Operation::Assign {
            dst: Register::R0,
            src: binary(Operator::Add, scalar(Register::R1), scalar(Register::R2)),
        }]
    );
    assert_eq!(block.address(), 0x1000);
    assert_eq!(block.length(), 4);
    assert_eq!(block.successors(), &vec![Successor { target: 0x1004, guard: None }]);
}

#[test]
fn direct_branch_has_one_unguarded_successor() {
    let b = instruction(0x3000, Opcode::B, "b", vec![Operand::Immediate(0x2000)]);
    let block = Arm::new().translate_block(&[0u8; 4], 0x3000, one_instruction(0x3000, b)).unwrap();
    assert_eq!(block.instructions().len(), 1);
    assert_eq!(block.length(), 4);
    assert_eq!(block.successors(), &vec![Successor { target: 0x2000, guard: None }]);
}

#[test]
fn compare_and_branch_if_zero_has_complementary_successors() {
    let cbz = instruction(
        0x3000,
        Opcode::Cbz,
        "cbz",
        vec![Operand::Register(Register::R3), Operand::Immediate(0x4000)],
    );
    let block = Arm::new().translate_block(&[0u8; 4], 0x3000, one_instruction(0x3000, cbz)).unwrap();
    let is_zero = binary(Operator::Equal, scalar(Register::R3), constant(0, 32));
    let is_not_zero = binary(Operator::Equal, is_zero.clone(), constant(0, 1));
    assert_eq!(block.length(), 4);
    assert_eq!(
        block.successors(),
        &vec![
            Successor { target: 0x4000, guard: Some(is_zero) },
            Successor { target: 0x3004, guard: Some(is_not_zero) },
        ]
    );
}

#[test]
fn unknown_opcode_is_unsupported() {
    let odd = instruction(0x1000, Opcode::Other(77), "vadd.f32", vec![]);
    let result = Arm::new().translate_block(&[0u8; 4], 0x1000, one_instruction(0x1000, odd));
    assert_eq!(
        result,
        Err(Error::UnsupportedOpcode { mnemonic: "vadd.f32".to_string(), address: 0x1000 })
    );
}

#[test]
fn empty_input_is_an_empty_block() {
    let block = Arm::new()
        .translate_block(&[], 0x5000, |_window: &[u8], _at: u64| DecodeOutcome::Boundary)
        .unwrap();
    assert_eq!(block.instructions().len(), 0);
    assert_eq!(block.address(), 0x5000);
    assert_eq!(block.length(), 0);
    assert_eq!(block.successors(), &vec![Successor { target: 0x5000, guard: None }]);
}
