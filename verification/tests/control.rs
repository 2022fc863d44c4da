use arm_translator::control::{address_of, resolve, ControlTransfer, Successor, MODE_MARK};
use arm_translator::error::Error;
use arm_translator::il::{Expression, Operator};
use arm_translator::instruction::{Condition, DecodedInstruction, Opcode, Operand, Register};

fn branch(opcode: Opcode, operands: Vec<Operand>) -> DecodedInstruction {
    DecodedInstruction {
        address: 0x3000,
        size: 4,
        opcode,
        condition: Condition::Al,
        updates_flags: false,
        mnemonic: String::from("branch"),
        operands,
    }
}

fn zero_test(operator: Operator, register: Register) -> Expression {
    Expression::Binary {
        operator,
        lhs: Box::new(Expression::Scalar { register, bits: 32 }),
        rhs: Box::new(Expression::Constant { value: 0, bits: 32 }),
    }
}

#[test]
fn immediate_address_of_a_positive_operand() {
    assert_eq!(address_of(0), 0);
    assert_eq!(address_of(0x2000), 0x2000);
    assert_eq!(address_of(i32::MAX), 0x7fff_ffff);
}

#[test]
fn immediate_address_of_a_negative_operand_is_sign_extended() {
    assert_eq!(address_of(-1), u64::MAX);
    assert_eq!(address_of(-4), 0xffff_ffff_ffff_fffc);
    assert_eq!(address_of(i32::MIN), 0xffff_ffff_8000_0000);
}

#[test]
fn other_instructions_do_not_end_the_block() {
    let add = branch(Opcode::Add, vec![]);
    assert_eq!(resolve(&add), Ok(ControlTransfer::Sequential));
    let call = branch(Opcode::Bl, vec![Operand::Immediate(0x2000)]);
    assert_eq!(resolve(&call), Ok(ControlTransfer::Sequential));
    assert!(!ControlTransfer::Sequential.is_terminating());
    assert!(ControlTransfer::Sequential.successors(0x3004).is_empty());
}

#[test]
fn direct_branch_goes_to_its_immediate() {
    let b = branch(Opcode::B, vec![Operand::Immediate(0x2000)]);
    let transfer = resolve(&b).unwrap();
    assert_eq!(transfer, ControlTransfer::Direct { target: 0x2000 });
    assert!(transfer.is_terminating());
    assert_eq!(transfer.successors(0x3004), vec![Successor { target: 0x2000, guard: None }]);
}

#[test]
fn direct_branch_to_a_register_is_a_shape_mismatch() {
    let b = branch(Opcode::B, vec![Operand::Register(Register::R0)]);
    assert_eq!(resolve(&b), Err(Error::OperandShapeMismatch { address: 0x3000, operand: 0 }));
}

#[test]
fn direct_branch_without_operands_is_a_shape_mismatch() {
    let b = branch(Opcode::B, vec![]);
    assert_eq!(resolve(&b), Err(Error::OperandShapeMismatch { address: 0x3000, operand: 0 }));
}

#[test]
fn mode_switch_marks_the_target() {
    assert_eq!(MODE_MARK, 1);
    for opcode in [Opcode::Bx, Opcode::Bxj] {
        let bx = branch(opcode, vec![Operand::Immediate(0x2000)]);
        let transfer = resolve(&bx).unwrap();
        assert_eq!(transfer, ControlTransfer::ModeSwitch { target: 0x2001 });
        assert_eq!(transfer.successors(0x3004), vec![Successor { target: 0x2001, guard: None }]);
    }
}

#[test]
fn mode_switch_whose_mark_does_not_fit_is_a_shape_mismatch() {
    let bx = branch(Opcode::Bx, vec![Operand::Immediate(-1)]);
    assert_eq!(resolve(&bx), Err(Error::OperandShapeMismatch { address: 0x3000, operand: 0 }));
    let below = branch(Opcode::Bx, vec![Operand::Immediate(-2)]);
    assert_eq!(resolve(&below), Ok(ControlTransfer::ModeSwitch { target: u64::MAX }));
}

#[test]
fn mode_switch_through_memory_is_a_shape_mismatch() {
    let bx = branch(
        Opcode::Bxj,
        vec![Operand::Memory { base: Some(Register::R0), index: None, scale: 1, displacement: 0 }],
    );
    assert_eq!(resolve(&bx), Err(Error::OperandShapeMismatch { address: 0x3000, operand: 0 }));
}

#[test]
fn compare_and_branch_if_zero() {
    let cbz = branch(Opcode::Cbz, vec![Operand::Register(Register::R7), Operand::Immediate(0x4000)]);
    assert_eq!(
        resolve(&cbz),
        Ok(ControlTransfer::Conditional {
            target: 0x4000,
            guard: zero_test(Operator::Equal, Register::R7),
        })
    );
}

#[test]
fn compare_and_branch_if_not_zero() {
    let cbnz =
        branch(Opcode::Cbnz, vec![Operand::Register(Register::Sp), Operand::Immediate(0x4000)]);
    assert_eq!(
        resolve(&cbnz),
        Ok(ControlTransfer::Conditional {
            target: 0x4000,
            guard: zero_test(Operator::NotEqual, Register::Sp),
        })
    );
}

#[test]
fn conditional_successors_negate_the_first_guard() {
    let guard = zero_test(Operator::Equal, Register::R7);
    let transfer = ControlTransfer::Conditional { target: 0x4000, guard: guard.clone() };
    let successors = transfer.successors(0x3004);
    assert_eq!(successors.len(), 2);
    assert_eq!(successors[0], Successor { target: 0x4000, guard: Some(guard.clone()) });
    assert_eq!(successors[1], Successor { target: 0x3004, guard: Some(guard.negation()) });
}

#[test]
fn compare_and_branch_without_a_target_is_a_shape_mismatch() {
    let cbz = branch(Opcode::Cbz, vec![Operand::Register(Register::R7)]);
    assert_eq!(resolve(&cbz), Err(Error::OperandShapeMismatch { address: 0x3000, operand: 1 }));
    let swapped =
        branch(Opcode::Cbz, vec![Operand::Immediate(0x4000), Operand::Register(Register::R7)]);
    assert_eq!(resolve(&swapped), Err(Error::OperandShapeMismatch { address: 0x3000, operand: 1 }));
}

#[test]
fn compare_and_branch_on_a_non_register_is_a_shape_mismatch() {
    let cbz = branch(Opcode::Cbz, vec![Operand::Immediate(1), Operand::Immediate(0x4000)]);
    assert_eq!(resolve(&cbz), Err(Error::OperandShapeMismatch { address: 0x3000, operand: 0 }));
    let wide = branch(
        Opcode::Cbnz,
        vec![Operand::Register(Register::Extension(14)), Operand::Immediate(0x4000)],
    );
    assert_eq!(resolve(&wide), Err(Error::OperandShapeMismatch { address: 0x3000, operand: 0 }));
}

#[test]
fn branch_at_the_top_of_the_address_space_is_resolved() {
    let mut cbz = branch(Opcode::Cbz, vec![Operand::Register(Register::R0), Operand::Immediate(8)]);
    cbz.address = u64::MAX - 1;
    assert_eq!(
        resolve(&cbz),
        Ok(ControlTransfer::Conditional { target: 8, guard: zero_test(Operator::Equal, Register::R0) })
    );
}
