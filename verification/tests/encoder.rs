use rexta::ast::{Address, Args, Instruction, Register};
use rexta::cpu::Cpu;
use rexta::machine::CpuError;
use rexta::op::{Op, OpCode};
use rexta::u24::U24;

fn addr(v: u32) -> Address {
    Address::Addr(U24::new(v))
}

/// Puts the bytes at the start of an engine's memory and lets it fetch and
/// decode them.
fn decode(bytes: &[u8]) -> (Result<Op, CpuError>, u32) {
    let mut cpu = Cpu::new();
    cpu.mem[..bytes.len()].copy_from_slice(bytes);
    cpu.fetch();
    let op = cpu.decode();
    (op, cpu.pc.value())
}

#[test]
fn registers_encode_to_their_positions() {
    assert_eq!(Register::R0.encode(), 0);
    assert_eq!(Register::R1.encode(), 1);
    assert_eq!(Register::R4.encode(), 4);
    assert_eq!(Register::R8.encode(), 8);
    assert_eq!(Register::at(0), Some(Register::R0));
    assert_eq!(Register::at(8), Some(Register::R8));
    assert_eq!(Register::at(9), None);
    assert_eq!(Register::at(255), None);
    for i in 0..9 {
        assert_eq!(Register::at(i).unwrap().encode(), i);
    }
}

#[test]
fn encodes_operations_without_operands() {
    assert_eq!(Instruction::HLT.encode(), vec![0x04, 0x00]);
    assert_eq!(Instruction::RTS.encode(), vec![0x08, 0x00]);
}

#[test]
fn encodes_a_destination_register_in_the_low_nibble() {
    assert_eq!(Instruction::NOT1 { rd: Register::R3 }.encode(), vec![0x25, 0x02, 0x03]);
    assert_eq!(Instruction::INC2 { rd: Register::R0 }.encode(), vec![0x1A, 0x02, 0x00]);
    assert_eq!(Instruction::POP3 { rd: Register::R8 }.encode(), vec![0x47, 0x02, 0x08]);
    assert_eq!(Instruction::ROR1 { rd: Register::R7 }.encode(), vec![0x35, 0x02, 0x07]);
}

#[test]
fn encodes_a_source_register_in_the_high_nibble() {
    assert_eq!(Instruction::PUSH1 { rs: Register::R2 }.encode(), vec![0x41, 0x02, 0x20]);
    assert_eq!(Instruction::PUSH3 { rs: Register::R8 }.encode(), vec![0x43, 0x02, 0x80]);
}

#[test]
fn encodes_a_register_pair_destination_low_source_high() {
    assert_eq!(
        Instruction::ADD1 { rd: Register::R0, rs: Register::R1 }.encode(),
        vec![0x01, 0x02, 0x10]
    );
    assert_eq!(
        Instruction::MOV3 { rd: Register::R8, rs: Register::R0 }.encode(),
        vec![0x17, 0x02, 0x08]
    );
    assert_eq!(
        Instruction::TST2 { rd: Register::R8, rs: Register::R8 }.encode(),
        vec![0x3E, 0x02, 0x88]
    );
}

#[test]
fn encodes_immediates_least_significant_byte_first() {
    assert_eq!(
        Instruction::LOADI1 { rd: Register::R0, imm: 10 }.encode(),
        vec![0x01, 0x04, 0x00, 0x0A]
    );
    assert_eq!(
        Instruction::ADDI1 { rd: Register::R8, imm: 0xFF }.encode(),
        vec![0x49, 0x04, 0x08, 0xFF]
    );
    assert_eq!(
        Instruction::LOADI2 { rd: Register::R1, imm: 0x1234 }.encode(),
        vec![0x02, 0x06, 0x01, 0x34, 0x12]
    );
    assert_eq!(
        Instruction::ADDI2 { rd: Register::R7, imm: 0xFFFF }.encode(),
        vec![0x4E, 0x06, 0x07, 0xFF, 0xFF]
    );
    assert_eq!(
        Instruction::LOADI3 { rd: Register::R2, imm: U24::new(0x00AB_CDEF) }.encode(),
        vec![0x03, 0x08, 0x02, 0xEF, 0xCD, 0xAB]
    );
    assert_eq!(
        Instruction::ADDI3 { rd: Register::R6, imm: U24::new(0x00FF_FFFF) }.encode(),
        vec![0x53, 0x08, 0x06, 0xFF, 0xFF, 0xFF]
    );
}

#[test]
fn encodes_addresses_least_significant_byte_first() {
    assert_eq!(
        Instruction::LOAD1 { rd: Register::R4, addr: addr(0x2000) }.encode(),
        vec![0x05, 0x08, 0x04, 0x00, 0x20, 0x00]
    );
    assert_eq!(
        Instruction::STORE2 { rs: Register::R7, addr: addr(0x0012_3456) }.encode(),
        vec![0x0A, 0x08, 0x70, 0x56, 0x34, 0x12]
    );
    assert_eq!(Instruction::JMP { addr: addr(0x10) }.encode(), vec![0x00, 0x06, 0x10, 0x00, 0x00]);
    assert_eq!(
        Instruction::JSRA { addr: addr(0x00FF_FFFF) }.encode(),
        vec![0x17, 0x06, 0xFF, 0xFF, 0xFF]
    );
}

fn samples() -> Vec<Instruction> {
    vec![
        Instruction::HLT,
        Instruction::RTS,
        Instruction::ADD1 { rd: Register::R0, rs: Register::R8 },
        Instruction::SUB2 { rd: Register::R7, rs: Register::R0 },
        Instruction::AND3 { rd: Register::R6, rs: Register::R3 },
        Instruction::OR1 { rd: Register::R8, rs: Register::R8 },
        Instruction::XOR2 { rd: Register::R1, rs: Register::R2 },
        Instruction::MOV3 { rd: Register::R0, rs: Register::R0 },
        Instruction::CMP1 { rd: Register::R4, rs: Register::R5 },
        Instruction::TST2 { rd: Register::R5, rs: Register::R4 },
        Instruction::NOT3 { rd: Register::R6 },
        Instruction::INC1 { rd: Register::R8 },
        Instruction::DEC2 { rd: Register::R0 },
        Instruction::NEG3 { rd: Register::R1 },
        Instruction::SHL1 { rd: Register::R2 },
        Instruction::SHR2 { rd: Register::R3 },
        Instruction::ROL3 { rd: Register::R4 },
        Instruction::ROR1 { rd: Register::R5 },
        Instruction::POP2 { rd: Register::R7 },
        Instruction::PUSH3 { rs: Register::R6 },
        Instruction::LOADI1 { rd: Register::R8, imm: 0xFF },
        Instruction::LOADI2 { rd: Register::R7, imm: 0xFFFF },
        Instruction::LOADI3 { rd: Register::R6, imm: U24::new(0x00FF_FFFF) },
        Instruction::ADDI1 { rd: Register::R0, imm: 0 },
        Instruction::ADDI2 { rd: Register::R1, imm: 0x0100 },
        Instruction::ADDI3 { rd: Register::R2, imm: U24::new(0x0001_0000) },
        Instruction::LOAD1 { rd: Register::R8, addr: addr(0x00FF_FFFF) },
        Instruction::LOAD2 { rd: Register::R0, addr: addr(0) },
        Instruction::LOAD3 { rd: Register::R3, addr: addr(0x0001_0203) },
        Instruction::STORE1 { rs: Register::R8, addr: addr(0x00FF_FFFF) },
        Instruction::STORE2 { rs: Register::R0, addr: addr(0) },
        Instruction::STORE3 { rs: Register::R5, addr: addr(0x0030_2010) },
        Instruction::JMP { addr: addr(0x00FF_FFFF) },
        Instruction::JZ { addr: addr(0) },
        Instruction::JC { addr: addr(1) },
        Instruction::JNZ { addr: addr(0x0100) },
        Instruction::JNC { addr: addr(0x0001_0000) },
        Instruction::JSR { addr: addr(0x1234) },
        Instruction::JMPA { addr: addr(0x00AB_CDEF) },
        Instruction::JZA { addr: addr(2) },
        Instruction::JCA { addr: addr(3) },
        Instruction::JNZA { addr: addr(4) },
        Instruction::JNCA { addr: addr(5) },
        Instruction::JSRA { addr: addr(6) },
    ]
}

#[test]
fn an_instruction_is_as_long_as_its_bytes() {
    for instr in samples() {
        assert_eq!(instr.encode().len(), instr.length() as usize);
        assert_eq!(instr.encode()[..2], instr.opcode_bytes());
        assert_eq!(instr.opcode_bytes(), instr.opcode().code().to_le_bytes());
    }
    assert_eq!(Instruction::HLT.length(), 2);
    assert_eq!(Instruction::ADD1 { rd: Register::R0, rs: Register::R1 }.length(), 3);
    assert_eq!(Instruction::LOADI1 { rd: Register::R0, imm: 1 }.length(), 4);
    assert_eq!(Instruction::JMP { addr: addr(0) }.length(), 5);
    assert_eq!(Instruction::STORE3 { rs: Register::R0, addr: addr(0) }.length(), 6);
}

#[test]
fn decoding_gives_back_what_was_encoded() {
    for instr in samples() {
        let bytes = instr.encode();
        let (op, pc) = decode(&bytes);
        let op = op.unwrap();
        assert_eq!(op.code, instr.opcode());
        assert_eq!(pc as usize, bytes.len());
        match instr.args() {
            Args::Implied => {}
            Args::Dest { rd } => assert_eq!(op.rd(), rd.encode()),
            Args::Src { rs } => assert_eq!(op.rs(), rs.encode()),
            Args::Pair { rd, rs } => {
                assert_eq!(op.rd(), rd.encode());
                assert_eq!(op.rs(), rs.encode());
            }
            Args::Imm1 { rd, imm } => {
                assert_eq!(op.rd(), rd.encode());
                assert_eq!(op.read_u8(1), imm);
            }
            Args::Imm2 { rd, imm } => {
                assert_eq!(op.rd(), rd.encode());
                assert_eq!(op.read_u16(1), imm);
            }
            Args::Imm3 { rd, imm } => {
                assert_eq!(op.rd(), rd.encode());
                assert_eq!(op.read_u24(1), imm);
            }
            Args::Load { rd, addr: Address::Addr(a) } => {
                assert_eq!(op.rd(), rd.encode());
                assert_eq!(op.read_u24(1), *a);
            }
            Args::Store { rs, addr: Address::Addr(a) } => {
                assert_eq!(op.rs(), rs.encode());
                assert_eq!(op.read_u24(1), *a);
            }
            Args::Jump { addr: Address::Addr(a) } => assert_eq!(op.read_u24(0), *a),
            _ => unreachable!(),
        }
    }
}

#[test]
fn an_instruction_is_built_from_its_operation_and_operands() {
    let built = Instruction::build(
        OpCode::ADD2,
        Args::Pair { rd: Register::R2, rs: Register::R4 },
    );
    assert!(matches!(built, Some(Instruction::ADD2 { rd: Register::R2, rs: Register::R4 })));
    let built = Instruction::build(OpCode::LOADI3, Args::Imm3 { rd: Register::R1, imm: U24::new(9) });
    assert!(matches!(built, Some(Instruction::LOADI3 { rd: Register::R1, imm }) if imm == U24::new(9)));
    let built = Instruction::build(OpCode::JZ, Args::Jump { addr: Address::Label("end".to_string()) });
    assert!(matches!(built, Some(Instruction::JZ { addr: Address::Label(name) }) if name == "end"));
    assert!(matches!(Instruction::build(OpCode::HLT, Args::Implied), Some(Instruction::HLT)));
}

#[test]
fn operands_that_are_not_those_of_the_operation_build_nothing() {
    assert!(Instruction::build(OpCode::NOP, Args::Implied).is_none());
    assert!(Instruction::build(OpCode::ADD1, Args::Dest { rd: Register::R0 }).is_none());
    assert!(Instruction::build(OpCode::HLT, Args::Src { rs: Register::R0 }).is_none());
    assert!(Instruction::build(OpCode::LOADI2, Args::Imm1 { rd: Register::R0, imm: 1 }).is_none());
    assert!(Instruction::build(OpCode::LOADI1, Args::Imm3 { rd: Register::R0, imm: U24::new(1) })
        .is_none());
    assert!(Instruction::build(OpCode::JMP, Args::Load { rd: Register::R0, addr: addr(0) })
        .is_none());
    assert!(Instruction::build(OpCode::STORE1, Args::Load { rd: Register::R0, addr: addr(0) })
        .is_none());
}

#[test]
fn a_label_is_replaced_by_its_address() {
    let jump = Instruction::JNZ { addr: Address::Label("loop".to_string()) };
    assert_eq!(jump.label().map(|s| s.as_str()), Some("loop"));
    let resolved = jump.with_address(U24::new(0x0102));
    assert!(resolved.label().is_none());
    assert_eq!(resolved.encode(), vec![0x08, 0x06, 0x02, 0x01, 0x00]);
    let store = Instruction::STORE1 { rs: Register::R3, addr: Address::Label("x".to_string()) };
    assert_eq!(store.with_address(U24::new(7)).encode(), vec![0x09, 0x08, 0x30, 0x07, 0x00, 0x00]);
    let add = Instruction::ADD1 { rd: Register::R0, rs: Register::R1 };
    assert!(add.label().is_none());
    assert_eq!(add.with_address(U24::new(7)).encode(), vec![0x01, 0x02, 0x10]);
    assert!(Instruction::JMP { addr: addr(3) }.label().is_none());
}
