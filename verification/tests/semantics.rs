use arm_translator::error::Error;
use arm_translator::il::{ControlFlowGraph, Expression, Operation, Operator};
use arm_translator::instruction::{Condition, DecodedInstruction, Opcode, Operand, Register};
use arm_translator::semantics::{is_supported, lift, CARRY_BIT, PIPELINE_OFFSET};

fn at(address: u64, opcode: Opcode, mnemonic: &str, operands: Vec<Operand>) -> DecodedInstruction {
    DecodedInstruction {
        address,
        size: 4,
        opcode,
        condition: Condition::Al,
        updates_flags: false,
        mnemonic: String::from(mnemonic),
        operands,
    }
}

fn reg(register: Register) -> Operand {
    Operand::Register(register)
}

fn imm(value: i32) -> Operand {
    Operand::Immediate(value)
}

fn scalar(register: Register) -> Expression {
    Expression::Scalar { register, bits: 32 }
}

fn word(value: u64) -> Expression {
    Expression::Constant { value, bits: 32 }
}

fn apply(operator: Operator, lhs: Expression, rhs: Expression) -> Expression {
    Expression::Binary { operator, lhs: Box::new(lhs), rhs: Box::new(rhs) }
}

fn operations(graph: &ControlFlowGraph) -> Vec<Operation> {
    graph.operations().clone()
}

fn assign(dst: Register, src: Expression) -> Vec<Operation> {
    vec![Operation::Assign { dst, src }]
}

fn mismatch(operand: usize) -> Error {
    Error::OperandShapeMismatch { address: 0x1000, operand }
}

#[test]
fn library_knows_every_named_operation() {
    for opcode in [
        Opcode::Adc,
        Opcode::Add,
        Opcode::Adr,
        Opcode::And,
        Opcode::Asr,
        Opcode::B,
        Opcode::Bfc,
        Opcode::Bfi,
        Opcode::Bic,
        Opcode::Bkpt,
        Opcode::Bl,
        Opcode::Blx,
        Opcode::Bx,
        Opcode::Bxj,
        Opcode::Cbnz,
        Opcode::Cbz,
        Opcode::Clz,
        Opcode::Sub,
    ] {
        assert!(is_supported(opcode), "{:?}", opcode);
    }
    assert!(!is_supported(Opcode::Other(0)));
}

#[test]
fn graph_is_tied_to_the_instruction_address() {
    let add = at(0x1000, Opcode::Add, "add", vec![reg(Register::R0), reg(Register::R1), imm(1)]);
    assert_eq!(lift(&add).unwrap().address(), Some(0x1000));
}

#[test]
fn add_of_two_registers() {
    let add = at(
        0x1000,
        Opcode::Add,
        "add",
        vec![reg(Register::R0), reg(Register::R1), reg(Register::R2)],
    );
    assert_eq!(
        operations(&lift(&add).unwrap()),
        assign(Register::R0, apply(Operator::Add, scalar(Register::R1), scalar(Register::R2)))
    );
}

#[test]
fn immediate_sources_are_two_complement_words() {
    let add = at(0x1000, Opcode::Add, "add", vec![reg(Register::R0), reg(Register::R1), imm(-1)]);
    assert_eq!(
        operations(&lift(&add).unwrap()),
        assign(Register::R0, apply(Operator::Add, scalar(Register::R1), word(0xffff_ffff)))
    );
    let low = at(0x1000, Opcode::Add, "add", vec![reg(Register::R0), imm(i32::MIN), imm(7)]);
    assert_eq!(
        operations(&lift(&low).unwrap()),
        assign(Register::R0, apply(Operator::Add, word(0x8000_0000), word(7)))
    );
}

#[test]
fn program_counter_reads_eight_bytes_ahead() {
    assert_eq!(PIPELINE_OFFSET, 8);
    let add = at(0x1000, Opcode::Add, "add", vec![reg(Register::R0), reg(Register::Pc), imm(4)]);
    assert_eq!(
        operations(&lift(&add).unwrap()),
        assign(Register::R0, apply(Operator::Add, word(0x1008), word(4)))
    );
}

#[test]
fn program_counter_read_wraps_to_a_word() {
    let high = at(
        0x1_ffff_fffc,
        Opcode::Add,
        "add",
        vec![reg(Register::R0), reg(Register::Pc), imm(0)],
    );
    assert_eq!(
        operations(&lift(&high).unwrap()),
        assign(Register::R0, apply(Operator::Add, word(4), word(0)))
    );
}

#[test]
fn write_to_the_program_counter_is_a_branch() {
    let add = at(0x1000, Opcode::Add, "add", vec![reg(Register::Pc), reg(Register::R1), imm(4)]);
    assert_eq!(
        operations(&lift(&add).unwrap()),
        vec![Operation::Branch { target: apply(Operator::Add, scalar(Register::R1), word(4)) }]
    );
}

#[test]
fn sub_and_and() {
    let sub = at(0x1000, Opcode::Sub, "sub", vec![reg(Register::Sp), reg(Register::Sp), imm(16)]);
    assert_eq!(
        operations(&lift(&sub).unwrap()),
        assign(Register::Sp, apply(Operator::Sub, scalar(Register::Sp), word(16)))
    );
    let and = at(0x1000, Opcode::And, "and", vec![reg(Register::R4), reg(Register::R5), imm(0xff)]);
    assert_eq!(
        operations(&lift(&and).unwrap()),
        assign(Register::R4, apply(Operator::And, scalar(Register::R5), word(0xff)))
    );
}

#[test]
fn bic_clears_the_bits_of_the_second_source() {
    let bic = at(
        0x1000,
        Opcode::Bic,
        "bic",
        vec![reg(Register::R0), reg(Register::R1), reg(Register::R2)],
    );
    assert_eq!(
        operations(&lift(&bic).unwrap()),
        assign(
            Register::R0,
            apply(
                Operator::And,
                scalar(Register::R1),
                apply(Operator::Xor, scalar(Register::R2), word(0xffff_ffff)),
            ),
        )
    );
}

#[test]
fn asr_shifts_by_the_low_byte_of_the_amount() {
    let asr = at(
        0x1000,
        Opcode::Asr,
        "asr",
        vec![reg(Register::R0), reg(Register::R1), reg(Register::R2)],
    );
    assert_eq!(
        operations(&lift(&asr).unwrap()),
        assign(
            Register::R0,
            apply(
                Operator::Sra,
                scalar(Register::R1),
                apply(Operator::And, scalar(Register::R2), word(0xff)),
            ),
        )
    );
}

#[test]
fn adc_adds_the_carry_flag() {
    assert_eq!(CARRY_BIT, 29);
    let adc = at(
        0x1000,
        Opcode::Adc,
        "adc",
        vec![reg(Register::R0), reg(Register::R1), reg(Register::R2)],
    );
    let carry = apply(
        Operator::And,
        apply(Operator::Shr, scalar(Register::Cpsr), word(29)),
        word(1),
    );
    assert_eq!(
        operations(&lift(&adc).unwrap()),
        assign(
            Register::R0,
            apply(
                Operator::Add,
                apply(Operator::Add, scalar(Register::R1), scalar(Register::R2)),
                carry,
            ),
        )
    );
}

#[test]
fn data_processing_checks_its_operands_in_order() {
    let none = at(0x1000, Opcode::Add, "add", vec![]);
    assert_eq!(lift(&none), Err(mismatch(0)));
    let to_immediate = at(0x1000, Opcode::Add, "add", vec![imm(1), imm(2), imm(3)]);
    assert_eq!(lift(&to_immediate), Err(mismatch(0)));
    let two = at(0x1000, Opcode::Sub, "sub", vec![reg(Register::R0), reg(Register::R1)]);
    assert_eq!(lift(&two), Err(mismatch(2)));
    let memory = at(
        0x1000,
        Opcode::And,
        "and",
        vec![
            reg(Register::R0),
            Operand::Memory { base: Some(Register::R1), index: None, scale: 1, displacement: 4 },
            imm(1),
        ],
    );
    assert_eq!(lift(&memory), Err(mismatch(1)));
    let modifier =
        at(0x1000, Opcode::Bic, "bic", vec![reg(Register::R0), reg(Register::R1), Operand::Modifier(64)]);
    assert_eq!(lift(&modifier), Err(mismatch(2)));
    let vector = at(
        0x1000,
        Opcode::Add,
        "add",
        vec![reg(Register::Extension(20)), reg(Register::R1), imm(1)],
    );
    assert_eq!(lift(&vector), Err(mismatch(0)));
    let status =
        at(0x1000, Opcode::Add, "add", vec![reg(Register::R0), reg(Register::Cpsr), imm(1)]);
    assert_eq!(lift(&status), Err(mismatch(1)));
}

#[test]
fn adr_adds_the_offset_to_the_program_counter() {
    let adr = at(0x1000, Opcode::Adr, "adr", vec![reg(Register::R3), imm(0x20)]);
    assert_eq!(operations(&lift(&adr).unwrap()), assign(Register::R3, word(0x1028)));
    let back = at(0x1000, Opcode::Adr, "adr", vec![reg(Register::R3), imm(-0x20)]);
    assert_eq!(operations(&lift(&back).unwrap()), assign(Register::R3, word(0xfe8)));
    let below_zero = at(0, Opcode::Adr, "adr", vec![reg(Register::R3), imm(-12)]);
    assert_eq!(operations(&lift(&below_zero).unwrap()), assign(Register::R3, word(0xffff_fffc)));
    let no_offset = at(0x1000, Opcode::Adr, "adr", vec![reg(Register::R3), reg(Register::R1)]);
    assert_eq!(lift(&no_offset), Err(mismatch(1)));
    let no_register = at(0x1000, Opcode::Adr, "adr", vec![imm(1), imm(2)]);
    assert_eq!(lift(&no_register), Err(mismatch(0)));
}

#[test]
fn bfc_keeps_the_bits_outside_the_field() {
    let bfc = at(0x1000, Opcode::Bfc, "bfc", vec![reg(Register::R0), imm(4), imm(8)]);
    assert_eq!(
        operations(&lift(&bfc).unwrap()),
        assign(Register::R0, apply(Operator::And, scalar(Register::R0), word(0xffff_f00f)))
    );
    let whole = at(0x1000, Opcode::Bfc, "bfc", vec![reg(Register::R0), imm(0), imm(32)]);
    assert_eq!(
        operations(&lift(&whole).unwrap()),
        assign(Register::R0, apply(Operator::And, scalar(Register::R0), word(0)))
    );
    let top = at(0x1000, Opcode::Bfc, "bfc", vec![reg(Register::R0), imm(31), imm(1)]);
    assert_eq!(
        operations(&lift(&top).unwrap()),
        assign(Register::R0, apply(Operator::And, scalar(Register::R0), word(0x7fff_ffff)))
    );
}

#[test]
fn bit_field_must_lie_within_a_word() {
    let low = at(0x1000, Opcode::Bfc, "bfc", vec![reg(Register::R0), imm(-1), imm(8)]);
    assert_eq!(lift(&low), Err(mismatch(1)));
    let high = at(0x1000, Opcode::Bfc, "bfc", vec![reg(Register::R0), imm(32), imm(1)]);
    assert_eq!(lift(&high), Err(mismatch(1)));
    let empty = at(0x1000, Opcode::Bfc, "bfc", vec![reg(Register::R0), imm(4), imm(0)]);
    assert_eq!(lift(&empty), Err(mismatch(2)));
    let wide = at(0x1000, Opcode::Bfc, "bfc", vec![reg(Register::R0), imm(4), imm(29)]);
    assert_eq!(lift(&wide), Err(mismatch(2)));
    let missing = at(0x1000, Opcode::Bfc, "bfc", vec![reg(Register::R0), imm(4)]);
    assert_eq!(lift(&missing), Err(mismatch(2)));
    let inserted = at(
        0x1000,
        Opcode::Bfi,
        "bfi",
        vec![reg(Register::R0), reg(Register::R1), imm(30), imm(3)],
    );
    assert_eq!(lift(&inserted), Err(mismatch(3)));
    let no_source = at(0x1000, Opcode::Bfi, "bfi", vec![reg(Register::R0), imm(1), imm(30), imm(3)]);
    assert_eq!(lift(&no_source), Err(mismatch(1)));
}

#[test]
fn bfi_replaces_the_field_by_the_low_bits_of_the_source() {
    let bfi = at(
        0x1000,
        Opcode::Bfi,
        "bfi",
        vec![reg(Register::R0), reg(Register::R1), imm(8), imm(4)],
    );
    let kept = apply(Operator::And, scalar(Register::R0), word(0xffff_f0ff));
    let inserted = apply(
        Operator::And,
        apply(Operator::Shl, scalar(Register::R1), word(8)),
        word(0xf00),
    );
    assert_eq!(
        operations(&lift(&bfi).unwrap()),
        assign(Register::R0, apply(Operator::Or, kept, inserted))
    );
}

#[test]
fn bkpt_is_an_intrinsic() {
    let bkpt = at(0x1000, Opcode::Bkpt, "bkpt", vec![imm(0xab)]);
    assert_eq!(
        operations(&lift(&bkpt).unwrap()),
        vec![Operation::Intrinsic { opcode: Opcode::Bkpt, output: None, argument: word(0xab) }]
    );
    let bare = at(0x1000, Opcode::Bkpt, "bkpt", vec![]);
    assert_eq!(lift(&bare), Err(mismatch(0)));
}

#[test]
fn clz_is_an_intrinsic() {
    let clz = at(0x1000, Opcode::Clz, "clz", vec![reg(Register::R0), reg(Register::R1)]);
    assert_eq!(
        operations(&lift(&clz).unwrap()),
        vec![Operation::Intrinsic {
            opcode: Opcode::Clz,
            output: Some(Register::R0),
            argument: scalar(Register::R1),
        }]
    );
    let of_immediate = at(0x1000, Opcode::Clz, "clz", vec![reg(Register::R0), imm(1)]);
    assert_eq!(lift(&of_immediate), Err(mismatch(1)));
    let into_immediate = at(0x1000, Opcode::Clz, "clz", vec![imm(1), reg(Register::R0)]);
    assert_eq!(lift(&into_immediate), Err(mismatch(0)));
}

#[test]
fn bl_links_then_branches() {
    let bl = at(0x1000, Opcode::Bl, "bl", vec![imm(0x2000)]);
    assert_eq!(
        operations(&lift(&bl).unwrap()),
        vec![
            Operation::Assign { dst: Register::Lr, src: word(0x1004) },
            Operation::Branch { target: word(0x2000) },
        ]
    );
}

#[test]
fn blx_through_a_register() {
    let mut blx = at(0x1000, Opcode::Blx, "blx", vec![reg(Register::R3)]);
    blx.size = 2;
    assert_eq!(
        operations(&lift(&blx).unwrap()),
        vec![
            Operation::Assign { dst: Register::Lr, src: word(0x1002) },
            Operation::Branch { target: scalar(Register::R3) },
        ]
    );
    let through_link = at(0x1000, Opcode::Blx, "blx", vec![reg(Register::Lr)]);
    assert_eq!(lift(&through_link), Err(mismatch(0)));
    let nowhere = at(0x1000, Opcode::Bl, "bl", vec![]);
    assert_eq!(lift(&nowhere), Err(mismatch(0)));
}

#[test]
fn branches_have_no_operations_of_their_own() {
    for opcode in [Opcode::B, Opcode::Bx, Opcode::Bxj, Opcode::Cbnz, Opcode::Cbz] {
        let branch = at(0x1000, opcode, "branch", vec![]);
        let graph = lift(&branch).unwrap();
        assert_eq!(graph.address(), Some(0x1000));
        assert!(graph.operations().is_empty(), "{:?}", opcode);
    }
}

#[test]
fn unknown_operation_carries_mnemonic_and_address() {
    let odd = at(0x1234, Opcode::Other(412), "vmul.f64", vec![reg(Register::Extension(3))]);
    assert_eq!(
        lift(&odd),
        Err(Error::UnsupportedOpcode { mnemonic: String::from("vmul.f64"), address: 0x1234 })
    );
}

#[test]
fn predicated_instruction_is_unsupported() {
    let mut addeq =
        at(0x1000, Opcode::Add, "addeq", vec![reg(Register::R0), reg(Register::R1), imm(1)]);
    addeq.condition = Condition::Eq;
    assert_eq!(
        lift(&addeq),
        Err(Error::UnsupportedOpcode { mnemonic: String::from("addeq"), address: 0x1000 })
    );
    let mut bne = at(0x1000, Opcode::B, "bne", vec![imm(0x2000)]);
    bne.condition = Condition::Ne;
    assert_eq!(
        lift(&bne),
        Err(Error::UnsupportedOpcode { mnemonic: String::from("bne"), address: 0x1000 })
    );
}

#[test]
fn flag_setting_instruction_is_unsupported() {
    let mut adds =
        at(0x1000, Opcode::Add, "adds", vec![reg(Register::R0), reg(Register::R1), imm(1)]);
    adds.updates_flags = true;
    assert_eq!(
        lift(&adds),
        Err(Error::UnsupportedOpcode { mnemonic: String::from("adds"), address: 0x1000 })
    );
}

#[test]
fn instruction_without_a_condition_field_is_lifted() {
    let mut cbz = at(0x1000, Opcode::Cbz, "cbz", vec![reg(Register::R0), imm(0x1010)]);
    cbz.condition = Condition::Unpredicated;
    assert!(lift(&cbz).is_ok());
}

#[test]
fn shifted_register_is_not_a_plain_source() {
    let shifted = Operand::Shifted { register: Register::R2, kind: 2, amount: 3 };
    let add = at(0x1000, Opcode::Add, "add", vec![reg(Register::R0), reg(Register::R1), shifted]);
    assert_eq!(lift(&add), Err(mismatch(2)));
    let into = at(0x1000, Opcode::Add, "add", vec![shifted, reg(Register::R1), imm(1)]);
    assert_eq!(lift(&into), Err(mismatch(0)));
}
