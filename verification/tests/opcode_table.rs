use rexta::op::{operand_byte_count, Op, OpCode, Shape};
use rexta::u24::U24;

fn all_operations() -> Vec<OpCode> {
    vec![
        OpCode::HLT, OpCode::RTS,
        OpCode::ADD1, OpCode::SUB1, OpCode::AND1, OpCode::OR1, OpCode::XOR1, OpCode::MOV1,
        OpCode::INC1, OpCode::DEC1, OpCode::NEG1, OpCode::NOT1, OpCode::SHL1, OpCode::SHR1,
        OpCode::ROL1, OpCode::ROR1, OpCode::CMP1, OpCode::TST1, OpCode::PUSH1, OpCode::POP1,
        OpCode::ADD2, OpCode::SUB2, OpCode::AND2, OpCode::OR2, OpCode::XOR2, OpCode::MOV2,
        OpCode::INC2, OpCode::DEC2, OpCode::NEG2, OpCode::NOT2, OpCode::SHL2, OpCode::SHR2,
        OpCode::ROL2, OpCode::ROR2, OpCode::CMP2, OpCode::TST2, OpCode::PUSH2, OpCode::POP2,
        OpCode::ADD3, OpCode::SUB3, OpCode::AND3, OpCode::OR3, OpCode::XOR3, OpCode::MOV3,
        OpCode::INC3, OpCode::DEC3, OpCode::NEG3, OpCode::NOT3, OpCode::SHL3, OpCode::SHR3,
        OpCode::ROL3, OpCode::ROR3, OpCode::CMP3, OpCode::TST3, OpCode::PUSH3, OpCode::POP3,
        OpCode::LOADI1, OpCode::ADDI1,
        OpCode::JMP, OpCode::JZ, OpCode::JNZ, OpCode::JC, OpCode::JNC, OpCode::JSR,
        OpCode::LOADI2, OpCode::ADDI2,
        OpCode::JMPA, OpCode::JZA, OpCode::JNZA, OpCode::JCA, OpCode::JNCA, OpCode::JSRA,
        OpCode::LOAD1, OpCode::STORE1, OpCode::LOAD2, OpCode::STORE2,
        OpCode::LOADI3, OpCode::LOAD3, OpCode::STORE3, OpCode::ADDI3,
    ]
}

#[test]
fn every_operation_is_what_its_code_stands_for() {
    let ops = all_operations();
    assert_eq!(ops.len(), 80);
    for op in ops {
        assert_eq!(OpCode::try_from(op.code()), Ok(op));
    }
}

#[test]
fn every_code_that_stands_for_an_operation_is_its_code() {
    let mut valid = 0;
    for code in 0..=u16::MAX {
        if let Ok(op) = OpCode::try_from(code) {
            assert_eq!(op.code(), code);
            valid += 1;
        }
    }
    assert_eq!(valid, 80);
}

#[test]
fn no_two_operations_share_a_code() {
    let ops = all_operations();
    for (i, a) in ops.iter().enumerate() {
        for b in ops.iter().skip(i + 1) {
            assert_ne!(a.code(), b.code());
        }
        assert_ne!(a.code(), OpCode::NOP.code());
    }
}

#[test]
fn known_codes() {
    assert_eq!(OpCode::NOP.code(), 0x0000);
    assert_eq!(OpCode::HLT.code(), 0x0004);
    assert_eq!(OpCode::RTS.code(), 0x0008);
    assert_eq!(OpCode::ADD1.code(), 0x0201);
    assert_eq!(OpCode::ADD2.code(), 0x0202);
    assert_eq!(OpCode::ADD3.code(), 0x0203);
    assert_eq!(OpCode::POP3.code(), 0x0247);
    assert_eq!(OpCode::LOADI1.code(), 0x0401);
    assert_eq!(OpCode::ADDI1.code(), 0x0449);
    assert_eq!(OpCode::JMP.code(), 0x0600);
    assert_eq!(OpCode::JSRA.code(), 0x0617);
    assert_eq!(OpCode::ADDI2.code(), 0x064E);
    assert_eq!(OpCode::STORE1.code(), 0x0809);
    assert_eq!(OpCode::ADDI3.code(), 0x0853);
}

#[test]
fn codes_outside_the_table_stand_for_nothing() {
    assert_eq!(OpCode::try_from(0x0000), Err(()));
    assert_eq!(OpCode::try_from(0x00FF), Err(()));
    assert_eq!(OpCode::try_from(0xFFFF), Err(()));
    assert_eq!(OpCode::try_from(0x0200), Err(()));
    assert_eq!(OpCode::try_from(0x0204), Err(()));
    assert_eq!(OpCode::try_from(0x0A01), Err(()));
}

#[test]
fn the_code_announces_the_operand_bytes() {
    assert_eq!(operand_byte_count(OpCode::HLT.code()), 0);
    assert_eq!(operand_byte_count(OpCode::ADD3.code()), 1);
    assert_eq!(operand_byte_count(OpCode::LOADI1.code()), 2);
    assert_eq!(operand_byte_count(OpCode::LOADI2.code()), 3);
    assert_eq!(operand_byte_count(OpCode::JMP.code()), 3);
    assert_eq!(operand_byte_count(OpCode::LOADI3.code()), 4);
    assert_eq!(operand_byte_count(OpCode::STORE2.code()), 4);
    assert_eq!(operand_byte_count(0x0E00), 7);
    assert_eq!(operand_byte_count(0xF1FF), 0);
    for op in all_operations() {
        assert!(operand_byte_count(op.code()) <= 4);
    }
}

#[test]
fn layout_and_width_of_operations() {
    assert_eq!(OpCode::HLT.shape(), Shape::Implied);
    assert_eq!(OpCode::NOT2.shape(), Shape::Dest);
    assert_eq!(OpCode::POP1.shape(), Shape::Dest);
    assert_eq!(OpCode::PUSH3.shape(), Shape::Src);
    assert_eq!(OpCode::CMP1.shape(), Shape::Pair);
    assert_eq!(OpCode::ADDI2.shape(), Shape::Imm);
    assert_eq!(OpCode::LOAD3.shape(), Shape::Load);
    assert_eq!(OpCode::STORE1.shape(), Shape::Store);
    assert_eq!(OpCode::JNCA.shape(), Shape::Jump);
    assert_eq!(OpCode::HLT.width(), 0);
    assert_eq!(OpCode::JMP.width(), 0);
    assert_eq!(OpCode::ADD1.width(), 1);
    assert_eq!(OpCode::LOADI2.width(), 2);
    assert_eq!(OpCode::STORE3.width(), 3);
}

#[test]
fn a_new_descriptor_is_a_nop_without_operands() {
    let op = Op::new();
    assert_eq!(op.code, OpCode::NOP);
    assert_eq!(op.operands, [0, 0, 0, 0]);
}

#[test]
fn registers_sit_in_the_nibbles_of_the_first_operand_byte() {
    let op = Op { code: OpCode::ADD1, operands: [0x83, 0, 0, 0] };
    assert_eq!(op.rd(), 3);
    assert_eq!(op.rs(), 8);
    let op = Op { code: OpCode::ADD1, operands: [0xFF, 0, 0, 0] };
    assert_eq!(op.rd(), 15);
    assert_eq!(op.rs(), 15);
}

#[test]
fn numbers_are_read_least_significant_byte_first() {
    let op = Op { code: OpCode::LOADI3, operands: [0x02, 0xEF, 0xCD, 0xAB] };
    assert_eq!(op.read_u8(0), 0x02);
    assert_eq!(op.read_u8(3), 0xAB);
    assert_eq!(op.read_u16(1), 0xCDEF);
    assert_eq!(op.read_u16(2), 0xABCD);
    assert_eq!(op.read_u24(1), U24::new(0x00AB_CDEF));
    assert_eq!(op.read_u24(0), U24::new(0x00CD_EF02));
}
