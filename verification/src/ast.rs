//! The symbolic form of an instruction, as the parser builds it and the
//! encoder consumes it.
//!
//! An [`Instruction`] is seen in contracts through its view: the operation
//! and the operands, with numbers for immediates and resolved addresses and
//! the characters of a name for a label that is still to be resolved.

use crate::op::{limit, operand_count, OpCode, Shape};
use crate::u24::{le_bytes2, le_bytes3, U24};
use vstd::prelude::*;

verus! {

/// One of the nine 8-bit registers.
#[allow(missing_docs)]
#[derive(Debug, Clone, Copy, PartialEq, Eq, Structural)]
pub enum Register {
    R0,
    R1,
    R2,
    R3,
    R4,
    R5,
    R6,
    R7,
    R8,
}

impl Register {
    /// Position of the register in the register file.
    pub open spec fn index(&self) -> u8 {
        match self {
            Register::R0 => 0,
            Register::R1 => 1,
            Register::R2 => 2,
            Register::R3 => 3,
            Register::R4 => 4,
            Register::R5 => 5,
            Register::R6 => 6,
            Register::R7 => 7,
            Register::R8 => 8,
        }
    }

    /// The register at position `i` of the register file, if there is one.
    pub open spec fn at_spec(i: u8) -> Option<Register> {
        if i == 0 {
            Some(Register::R0)
        } else if i == 1 {
            Some(Register::R1)
        } else if i == 2 {
            Some(Register::R2)
        } else if i == 3 {
            Some(Register::R3)
        } else if i == 4 {
            Some(Register::R4)
        } else if i == 5 {
            Some(Register::R5)
        } else if i == 6 {
            Some(Register::R6)
        } else if i == 7 {
            Some(Register::R7)
        } else if i == 8 {
            Some(Register::R8)
        } else {
            None
        }
    }

    /// Position of the register in the register file, as it is packed
    /// into an operand byte.
    #[verifier::when_used_as_spec(index)]
    pub fn encode(&self) -> (r: u8)
        ensures
            r == self.index(),
            r < 9,
    {
        match self {
            Register::R0 => 0,
            Register::R1 => 1,
            Register::R2 => 2,
            Register::R3 => 3,
            Register::R4 => 4,
            Register::R5 => 5,
            Register::R6 => 6,
            Register::R7 => 7,
            Register::R8 => 8,
        }
    }

    /// The register at position `i` of the register file, if there is one.
    #[verifier::when_used_as_spec(at_spec)]
    pub fn at(i: u8) -> (r: Option<Register>)
        ensures
            r == Register::at_spec(i),
            r is Some <==> i < 9,
            r matches Some(reg) ==> reg.index() == i,
    {
        match i {
            0 => Some(Register::R0),
            1 => Some(Register::R1),
            2 => Some(Register::R2),
            3 => Some(Register::R3),
            4 => Some(Register::R4),
            5 => Some(Register::R5),
            6 => Some(Register::R6),
            7 => Some(Register::R7),
            8 => Some(Register::R8),
            _ => None,
        }
    }

    /// A register is found again at its own position.
    pub proof fn lemma_at_index(self)
        ensures
            Register::at_spec(self.index()) == Some(self),
            self.index() < 9,
    {
    }
}

/// An address operand: a number, or the name of a label that stands for
/// one until the assembler resolves it.
#[derive(Debug)]
pub enum Address {
    /// A resolved address.
    Addr(U24),
    /// The name of a label.
    Label(String),
}

/// What an [`Address`] is in contracts.
pub enum AddressView {
    /// A resolved address, below `2^24`.
    Addr(nat),
    /// The characters of a label's name.
    Label(Seq<char>),
}

impl View for Address {
    type V = AddressView;

    open spec fn view(&self) -> AddressView {
        match self {
            Address::Addr(a) => AddressView::Addr(a@),
            Address::Label(name) => AddressView::Label(name@),
        }
    }
}

impl AddressView {
    /// The number of a resolved address; 0 for a label.
    pub open spec fn value(self) -> nat {
        match self {
            AddressView::Addr(a) => a,
            AddressView::Label(_) => 0,
        }
    }

    /// Whether the address is a number rather than a label.
    pub open spec fn resolved(self) -> bool {
        self is Addr
    }
}

/// The operands of an instruction, by layout.
pub enum Operands {
    /// No operand.
    Implied,
    /// A destination register.
    Dest { rd: Register },
    /// A source register.
    Src { rs: Register },
    /// A destination and a source register.
    Pair { rd: Register, rs: Register },
    /// A destination register and an immediate number.
    Imm { rd: Register, imm: nat },
    /// A destination register and the address to load from.
    Load { rd: Register, addr: AddressView },
    /// A source register and the address to store to.
    Store { rs: Register, addr: AddressView },
    /// The address to jump to.
    Jump { addr: AddressView },
}

impl Operands {
    /// The layout that these operands have.
    pub open spec fn shape(self) -> Shape {
        match self {
            Operands::Implied => Shape::Implied,
            Operands::Dest { .. } => Shape::Dest,
            Operands::Src { .. } => Shape::Src,
            Operands::Pair { .. } => Shape::Pair,
            Operands::Imm { .. } => Shape::Imm,
            Operands::Load { .. } => Shape::Load,
            Operands::Store { .. } => Shape::Store,
            Operands::Jump { .. } => Shape::Jump,
        }
    }

    /// The address operand, if the layout has one.
    pub open spec fn address(self) -> Option<AddressView> {
        match self {
            Operands::Load { addr, .. } | Operands::Store { addr, .. } | Operands::Jump { addr } => {
                Some(addr)
            },
            _ => None,
        }
    }

    /// The same operands with `addr` in place of the address operand.
    pub open spec fn with_address(self, addr: AddressView) -> Operands {
        match self {
            Operands::Load { rd, .. } => Operands::Load { rd, addr },
            Operands::Store { rs, .. } => Operands::Store { rs, addr },
            Operands::Jump { .. } => Operands::Jump { addr },
            other => other,
        }
    }

    /// The operand bytes, for an operation on data of `width` bytes. The
    /// destination register takes the low nibble of the register byte, the
    /// source register the high nibble; numbers follow least significant
    /// byte first.
    pub open spec fn bytes(self, width: nat) -> Seq<u8> {
        match self {
            Operands::Implied => Seq::empty(),
            Operands::Dest { rd } => seq![rd.index()],
            Operands::Src { rs } => seq![(rs.index() * 16) as u8],
            Operands::Pair { rd, rs } => seq![(rd.index() + rs.index() * 16) as u8],
            Operands::Imm { rd, imm } => seq![rd.index()] + imm_bytes(imm, width),
            Operands::Load { rd, addr } => seq![rd.index()] + le_bytes3(addr.value()),
            Operands::Store { rs, addr } => seq![(rs.index() * 16) as u8] + le_bytes3(addr.value()),
            Operands::Jump { addr } => le_bytes3(addr.value()),
        }
    }
}

/// The bytes of an immediate of `width` bytes, least significant first.
pub open spec fn imm_bytes(imm: nat, width: nat) -> Seq<u8> {
    if width == 1 {
        seq![(imm % 0x100) as u8]
    } else if width == 2 {
        le_bytes2(imm)
    } else {
        le_bytes3(imm)
    }
}

/// What an [`Instruction`] is in contracts: its operation and operands.
pub struct InstructionView {
    /// The operation.
    pub code: OpCode,
    /// The operands.
    pub operands: Operands,
}

impl InstructionView {
    /// The operation is not `NOP`, which is no instruction; the operands
    /// have the layout of the operation, an immediate fits the operation's
    /// width and a resolved address fits 24 bits. The view of every
    /// instruction that executable code holds is well formed.
    pub open spec fn wf(self) -> bool {
        &&& self.code != OpCode::NOP
        &&& self.operands.shape() == self.code.shape()
        &&& self.operands matches Operands::Imm { imm, .. } ==> imm < limit(self.code.width() as nat)
        &&& self.operands.address() matches Some(AddressView::Addr(a)) ==> a < 0x0100_0000
    }

    /// No address operand is a label.
    pub open spec fn resolved(self) -> bool {
        self.operands.address() matches Some(addr) ==> addr.resolved()
    }

    /// Number of bytes that the instruction takes in the byte stream: two
    /// for the code and what the code announces.
    pub open spec fn len(self) -> nat {
        2 + operand_count(self.code.code())
    }

    /// The bytes of the instruction: the code, least significant byte
    /// first, then the operand bytes.
    pub open spec fn encoding(self) -> Seq<u8> {
        le_bytes2(self.code.code() as nat) + self.operands.bytes(self.code.width() as nat)
    }

    /// An instruction whose operands have the layout of its operation is
    /// encoded in as many bytes as its code announces.
    pub proof fn lemma_encoding_len(self)
        requires
            self.operands.shape() == self.code.shape(),
        ensures
            self.encoding().len() == self.len(),
            3 <= self.len() <= 6 || self.code.shape() == Shape::Implied && self.len() == 2,
    {
        crate::op::lemma_operand_count(self.code);
    }
}

/// An instruction: one member for each operation, with its operands.
#[allow(missing_docs)]
#[allow(inconsistent_fields)]
#[derive(Debug)]
pub enum Instruction {
    ADD1 { rd: Register, rs: Register },
    ADD2 { rd: Register, rs: Register },
    ADD3 { rd: Register, rs: Register },
    SUB1 { rd: Register, rs: Register },
    SUB2 { rd: Register, rs: Register },
    SUB3 { rd: Register, rs: Register },
    AND1 { rd: Register, rs: Register },
    AND2 { rd: Register, rs: Register },
    AND3 { rd: Register, rs: Register },
    OR1 { rd: Register, rs: Register },
    OR2 { rd: Register, rs: Register },
    OR3 { rd: Register, rs: Register },
    XOR1 { rd: Register, rs: Register },
    XOR2 { rd: Register, rs: Register },
    XOR3 { rd: Register, rs: Register },
    NOT1 { rd: Register },
    NOT2 { rd: Register },
    NOT3 { rd: Register },
    LOADI1 { rd: Register, imm: u8 },
    LOADI2 { rd: Register, imm: u16 },
    LOADI3 { rd: Register, imm: U24 },
    ADDI1 { rd: Register, imm: u8 },
    ADDI2 { rd: Register, imm: u16 },
    ADDI3 { rd: Register, imm: U24 },
    MOV1 { rd: Register, rs: Register },
    MOV2 { rd: Register, rs: Register },
    MOV3 { rd: Register, rs: Register },
    INC1 { rd: Register },
    INC2 { rd: Register },
    INC3 { rd: Register },
    DEC1 { rd: Register },
    DEC2 { rd: Register },
    DEC3 { rd: Register },
    NEG1 { rd: Register },
    NEG2 { rd: Register },
    NEG3 { rd: Register },
    SHL1 { rd: Register },
    SHL2 { rd: Register },
    SHL3 { rd: Register },
    SHR1 { rd: Register },
    SHR2 { rd: Register },
    SHR3 { rd: Register },
    ROL1 { rd: Register },
    ROL2 { rd: Register },
    ROL3 { rd: Register },
    ROR1 { rd: Register },
    ROR2 { rd: Register },
    ROR3 { rd: Register },
    CMP1 { rd: Register, rs: Register },
    CMP2 { rd: Register, rs: Register },
    CMP3 { rd: Register, rs: Register },
    TST1 { rd: Register, rs: Register },
    TST2 { rd: Register, rs: Register },
    TST3 { rd: Register, rs: Register },
    PUSH1 { rs: Register },
    PUSH2 { rs: Register },
    PUSH3 { rs: Register },
    POP1 { rd: Register },
    POP2 { rd: Register },
    POP3 { rd: Register },
    LOAD1 { rd: Register, addr: Address },
    LOAD2 { rd: Register, addr: Address },
    LOAD3 { rd: Register, addr: Address },
    STORE1 { rs: Register, addr: Address },
    STORE2 { rs: Register, addr: Address },
    STORE3 { rs: Register, addr: Address },
    JMP { addr: Address },
    JZ { addr: Address },
    JC { addr: Address },
    JNZ { addr: Address },
    JNC { addr: Address },
    JSR { addr: Address },
    JMPA { addr: Address },
    JZA { addr: Address },
    JCA { addr: Address },
    JNZA { addr: Address },
    JNCA { addr: Address },
    JSRA { addr: Address },
    RTS,
    HLT,
}

impl View for Instruction {
    type V = InstructionView;

    open spec fn view(&self) -> InstructionView {
        InstructionView { code: self.opcode_spec(), operands: self.operands() }
    }
}

impl Instruction {
    /// The operation of the instruction.
    pub open spec fn opcode_spec(&self) -> OpCode {
        match self {
            Instruction::ADD1 { .. } => OpCode::ADD1,
            Instruction::ADD2 { .. } => OpCode::ADD2,
            Instruction::ADD3 { .. } => OpCode::ADD3,
            Instruction::SUB1 { .. } => OpCode::SUB1,
            Instruction::SUB2 { .. } => OpCode::SUB2,
            Instruction::SUB3 { .. } => OpCode::SUB3,
            Instruction::AND1 { .. } => OpCode::AND1,
            Instruction::AND2 { .. } => OpCode::AND2,
            Instruction::AND3 { .. } => OpCode::AND3,
            Instruction::OR1 { .. } => OpCode::OR1,
            Instruction::OR2 { .. } => OpCode::OR2,
            Instruction::OR3 { .. } => OpCode::OR3,
            Instruction::XOR1 { .. } => OpCode::XOR1,
            Instruction::XOR2 { .. } => OpCode::XOR2,
            Instruction::XOR3 { .. } => OpCode::XOR3,
            Instruction::NOT1 { .. } => OpCode::NOT1,
            Instruction::NOT2 { .. } => OpCode::NOT2,
            Instruction::NOT3 { .. } => OpCode::NOT3,
            Instruction::LOADI1 { .. } => OpCode::LOADI1,
            Instruction::LOADI2 { .. } => OpCode::LOADI2,
            Instruction::LOADI3 { .. } => OpCode::LOADI3,
            Instruction::ADDI1 { .. } => OpCode::ADDI1,
            Instruction::ADDI2 { .. } => OpCode::ADDI2,
            Instruction::ADDI3 { .. } => OpCode::ADDI3,
            Instruction::MOV1 { .. } => OpCode::MOV1,
            Instruction::MOV2 { .. } => OpCode::MOV2,
            Instruction::MOV3 { .. } => OpCode::MOV3,
            Instruction::INC1 { .. } => OpCode::INC1,
            Instruction::INC2 { .. } => OpCode::INC2,
            Instruction::INC3 { .. } => OpCode::INC3,
            Instruction::DEC1 { .. } => OpCode::DEC1,
            Instruction::DEC2 { .. } => OpCode::DEC2,
            Instruction::DEC3 { .. } => OpCode::DEC3,
            Instruction::NEG1 { .. } => OpCode::NEG1,
            Instruction::NEG2 { .. } => OpCode::NEG2,
            Instruction::NEG3 { .. } => OpCode::NEG3,
            Instruction::SHL1 { .. } => OpCode::SHL1,
            Instruction::SHL2 { .. } => OpCode::SHL2,
            Instruction::SHL3 { .. } => OpCode::SHL3,
            Instruction::SHR1 { .. } => OpCode::SHR1,
            Instruction::SHR2 { .. } => OpCode::SHR2,
            Instruction::SHR3 { .. } => OpCode::SHR3,
            Instruction::ROL1 { .. } => OpCode::ROL1,
            Instruction::ROL2 { .. } => OpCode::ROL2,
            Instruction::ROL3 { .. } => OpCode::ROL3,
            Instruction::ROR1 { .. } => OpCode::ROR1,
            Instruction::ROR2 { .. } => OpCode::ROR2,
            Instruction::ROR3 { .. } => OpCode::ROR3,
            Instruction::CMP1 { .. } => OpCode::CMP1,
            Instruction::CMP2 { .. } => OpCode::CMP2,
            Instruction::CMP3 { .. } => OpCode::CMP3,
            Instruction::TST1 { .. } => OpCode::TST1,
            Instruction::TST2 { .. } => OpCode::TST2,
            Instruction::TST3 { .. } => OpCode::TST3,
            Instruction::PUSH1 { .. } => OpCode::PUSH1,
            Instruction::PUSH2 { .. } => OpCode::PUSH2,
            Instruction::PUSH3 { .. } => OpCode::PUSH3,
            Instruction::POP1 { .. } => OpCode::POP1,
            Instruction::POP2 { .. } => OpCode::POP2,
            Instruction::POP3 { .. } => OpCode::POP3,
            Instruction::LOAD1 { .. } => OpCode::LOAD1,
            Instruction::LOAD2 { .. } => OpCode::LOAD2,
            Instruction::LOAD3 { .. } => OpCode::LOAD3,
            Instruction::STORE1 { .. } => OpCode::STORE1,
            Instruction::STORE2 { .. } => OpCode::STORE2,
            Instruction::STORE3 { .. } => OpCode::STORE3,
            Instruction::JMP { .. } => OpCode::JMP,
            Instruction::JZ { .. } => OpCode::JZ,
            Instruction::JC { .. } => OpCode::JC,
            Instruction::JNZ { .. } => OpCode::JNZ,
            Instruction::JNC { .. } => OpCode::JNC,
            Instruction::JSR { .. } => OpCode::JSR,
            Instruction::JMPA { .. } => OpCode::JMPA,
            Instruction::JZA { .. } => OpCode::JZA,
            Instruction::JCA { .. } => OpCode::JCA,
            Instruction::JNZA { .. } => OpCode::JNZA,
            Instruction::JNCA { .. } => OpCode::JNCA,
            Instruction::JSRA { .. } => OpCode::JSRA,
            Instruction::RTS => OpCode::RTS,
            Instruction::HLT => OpCode::HLT,
        }
    }

    /// The operands of the instruction.
    pub open spec fn operands(&self) -> Operands {
        match self {
            Instruction::ADD1 { rd, rs } | Instruction::ADD2 { rd, rs }
            | Instruction::ADD3 { rd, rs } | Instruction::SUB1 { rd, rs }
            | Instruction::SUB2 { rd, rs } | Instruction::SUB3 { rd, rs }
            | Instruction::AND1 { rd, rs } | Instruction::AND2 { rd, rs }
            | Instruction::AND3 { rd, rs } | Instruction::OR1 { rd, rs }
            | Instruction::OR2 { rd, rs } | Instruction::OR3 { rd, rs }
            | Instruction::XOR1 { rd, rs } | Instruction::XOR2 { rd, rs }
            | Instruction::XOR3 { rd, rs } | Instruction::MOV1 { rd, rs }
            | Instruction::MOV2 { rd, rs } | Instruction::MOV3 { rd, rs }
            | Instruction::CMP1 { rd, rs } | Instruction::CMP2 { rd, rs }
            | Instruction::CMP3 { rd, rs } | Instruction::TST1 { rd, rs }
            | Instruction::TST2 { rd, rs } | Instruction::TST3 { rd, rs } => {
                Operands::Pair { rd: *rd, rs: *rs }
            },
            Instruction::NOT1 { rd } | Instruction::NOT2 { rd } | Instruction::NOT3 { rd }
            | Instruction::INC1 { rd } | Instruction::INC2 { rd } | Instruction::INC3 { rd }
            | Instruction::DEC1 { rd } | Instruction::DEC2 { rd } | Instruction::DEC3 { rd }
            | Instruction::NEG1 { rd } | Instruction::NEG2 { rd } | Instruction::NEG3 { rd }
            | Instruction::SHL1 { rd } | Instruction::SHL2 { rd } | Instruction::SHL3 { rd }
            | Instruction::SHR1 { rd } | Instruction::SHR2 { rd } | Instruction::SHR3 { rd }
            | Instruction::ROL1 { rd } | Instruction::ROL2 { rd } | Instruction::ROL3 { rd }
            | Instruction::ROR1 { rd } | Instruction::ROR2 { rd } | Instruction::ROR3 { rd }
            | Instruction::POP1 { rd } | Instruction::POP2 { rd } | Instruction::POP3 { rd } => {
                Operands::Dest { rd: *rd }
            },
            Instruction::LOADI1 { rd, imm } | Instruction::ADDI1 { rd, imm } => {
                Operands::Imm { rd: *rd, imm: *imm as nat }
            },
            Instruction::LOADI2 { rd, imm } | Instruction::ADDI2 { rd, imm } => {
                Operands::Imm { rd: *rd, imm: *imm as nat }
            },
            Instruction::LOADI3 { rd, imm } | Instruction::ADDI3 { rd, imm } => {
                Operands::Imm { rd: *rd, imm: imm@ }
            },
            Instruction::PUSH1 { rs } | Instruction::PUSH2 { rs } | Instruction::PUSH3 { rs } => {
                Operands::Src { rs: *rs }
            },
            Instruction::LOAD1 { rd, addr } | Instruction::LOAD2 { rd, addr }
            | Instruction::LOAD3 { rd, addr } => {
                Operands::Load { rd: *rd, addr: addr@ }
            },
            Instruction::STORE1 { rs, addr } | Instruction::STORE2 { rs, addr }
            | Instruction::STORE3 { rs, addr } => {
                Operands::Store { rs: *rs, addr: addr@ }
            },
            Instruction::JMP { addr } | Instruction::JZ { addr } | Instruction::JC { addr }
            | Instruction::JNZ { addr } | Instruction::JNC { addr } | Instruction::JSR { addr }
            | Instruction::JMPA { addr } | Instruction::JZA { addr }
            | Instruction::JCA { addr } | Instruction::JNZA { addr }
            | Instruction::JNCA { addr } | Instruction::JSRA { addr } => {
                Operands::Jump { addr: addr@ }
            },
            Instruction::RTS | Instruction::HLT => {
                Operands::Implied
            },
        }
    }

    /// The operands of an instruction have the layout of its operation,
    /// which is never `NOP`.
    pub proof fn lemma_layout(&self)
        ensures
            self@.code != OpCode::NOP,
            self@.operands.shape() == self@.code.shape(),
    {
    }

    /// The operation of the instruction.
    #[verifier::when_used_as_spec(opcode_spec)]
    pub fn opcode(&self) -> (r: OpCode)
        ensures
            r == self@.code,
    {
        match self {
            Instruction::ADD1 { .. } => OpCode::ADD1,
            Instruction::ADD2 { .. } => OpCode::ADD2,
            Instruction::ADD3 { .. } => OpCode::ADD3,
            Instruction::SUB1 { .. } => OpCode::SUB1,
            Instruction::SUB2 { .. } => OpCode::SUB2,
            Instruction::SUB3 { .. } => OpCode::SUB3,
            Instruction::AND1 { .. } => OpCode::AND1,
            Instruction::AND2 { .. } => OpCode::AND2,
            Instruction::AND3 { .. } => OpCode::AND3,
            Instruction::OR1 { .. } => OpCode::OR1,
            Instruction::OR2 { .. } => OpCode::OR2,
            Instruction::OR3 { .. } => OpCode::OR3,
            Instruction::XOR1 { .. } => OpCode::XOR1,
            Instruction::XOR2 { .. } => OpCode::XOR2,
            Instruction::XOR3 { .. } => OpCode::XOR3,
            Instruction::NOT1 { .. } => OpCode::NOT1,
            Instruction::NOT2 { .. } => OpCode::NOT2,
            Instruction::NOT3 { .. } => OpCode::NOT3,
            Instruction::LOADI1 { .. } => OpCode::LOADI1,
            Instruction::LOADI2 { .. } => OpCode::LOADI2,
            Instruction::LOADI3 { .. } => OpCode::LOADI3,
            Instruction::ADDI1 { .. } => OpCode::ADDI1,
            Instruction::ADDI2 { .. } => OpCode::ADDI2,
            Instruction::ADDI3 { .. } => OpCode::ADDI3,
            Instruction::MOV1 { .. } => OpCode::MOV1,
            Instruction::MOV2 { .. } => OpCode::MOV2,
            Instruction::MOV3 { .. } => OpCode::MOV3,
            Instruction::INC1 { .. } => OpCode::INC1,
            Instruction::INC2 { .. } => OpCode::INC2,
            Instruction::INC3 { .. } => OpCode::INC3,
            Instruction::DEC1 { .. } => OpCode::DEC1,
            Instruction::DEC2 { .. } => OpCode::DEC2,
            Instruction::DEC3 { .. } => OpCode::DEC3,
            Instruction::NEG1 { .. } => OpCode::NEG1,
            Instruction::NEG2 { .. } => OpCode::NEG2,
            Instruction::NEG3 { .. } => OpCode::NEG3,
            Instruction::SHL1 { .. } => OpCode::SHL1,
            Instruction::SHL2 { .. } => OpCode::SHL2,
            Instruction::SHL3 { .. } => OpCode::SHL3,
            Instruction::SHR1 { .. } => OpCode::SHR1,
            Instruction::SHR2 { .. } => OpCode::SHR2,
            Instruction::SHR3 { .. } => OpCode::SHR3,
            Instruction::ROL1 { .. } => OpCode::ROL1,
            Instruction::ROL2 { .. } => OpCode::ROL2,
            Instruction::ROL3 { .. } => OpCode::ROL3,
            Instruction::ROR1 { .. } => OpCode::ROR1,
            Instruction::ROR2 { .. } => OpCode::ROR2,
            Instruction::ROR3 { .. } => OpCode::ROR3,
            Instruction::CMP1 { .. } => OpCode::CMP1,
            Instruction::CMP2 { .. } => OpCode::CMP2,
            Instruction::CMP3 { .. } => OpCode::CMP3,
            Instruction::TST1 { .. } => OpCode::TST1,
            Instruction::TST2 { .. } => OpCode::TST2,
            Instruction::TST3 { .. } => OpCode::TST3,
            Instruction::PUSH1 { .. } => OpCode::PUSH1,
            Instruction::PUSH2 { .. } => OpCode::PUSH2,
            Instruction::PUSH3 { .. } => OpCode::PUSH3,
            Instruction::POP1 { .. } => OpCode::POP1,
            Instruction::POP2 { .. } => OpCode::POP2,
            Instruction::POP3 { .. } => OpCode::POP3,
            Instruction::LOAD1 { .. } => OpCode::LOAD1,
            Instruction::LOAD2 { .. } => OpCode::LOAD2,
            Instruction::LOAD3 { .. } => OpCode::LOAD3,
            Instruction::STORE1 { .. } => OpCode::STORE1,
            Instruction::STORE2 { .. } => OpCode::STORE2,
            Instruction::STORE3 { .. } => OpCode::STORE3,
            Instruction::JMP { .. } => OpCode::JMP,
            Instruction::JZ { .. } => OpCode::JZ,
            Instruction::JC { .. } => OpCode::JC,
            Instruction::JNZ { .. } => OpCode::JNZ,
            Instruction::JNC { .. } => OpCode::JNC,
            Instruction::JSR { .. } => OpCode::JSR,
            Instruction::JMPA { .. } => OpCode::JMPA,
            Instruction::JZA { .. } => OpCode::JZA,
            Instruction::JCA { .. } => OpCode::JCA,
            Instruction::JNZA { .. } => OpCode::JNZA,
            Instruction::JNCA { .. } => OpCode::JNCA,
            Instruction::JSRA { .. } => OpCode::JSRA,
            Instruction::RTS => OpCode::RTS,
            Instruction::HLT => OpCode::HLT,
        }
    }

    /// The two bytes of the instruction's code, least significant first.
    pub fn opcode_bytes(&self) -> (r: [u8; 2])
        ensures
            r@ == le_bytes2(self@.code.code() as nat),
    {
        let code = self.opcode().code();
        let r = [(code % 0x100) as u8, (code / 0x100) as u8];
        assert(r@ =~= le_bytes2(code as nat));
        r
    }

    /// Number of bytes that the instruction takes in the byte stream.
    pub fn length(&self) -> (r: u8)
        ensures
            r == self@.len(),
            2 <= r <= 6,
    {
        proof {
            crate::op::lemma_operand_count(self@.code);
        }
        crate::op::operand_byte_count(self.opcode().code()) as u8 + 2
    }
}

/// The operands of an instruction in executable form, by layout and by the
/// type of the immediate. `A` is how an address is held: owned, or
/// borrowed from an instruction.
#[allow(inconsistent_fields)]
#[derive(Debug)]
pub enum Args<A> {
    /// No operand.
    Implied,
    /// A destination register.
    Dest { rd: Register },
    /// A source register.
    Src { rs: Register },
    /// A destination and a source register.
    Pair { rd: Register, rs: Register },
    /// A destination register and a one-byte immediate.
    Imm1 { rd: Register, imm: u8 },
    /// A destination register and a two-byte immediate.
    Imm2 { rd: Register, imm: u16 },
    /// A destination register and a three-byte immediate.
    Imm3 { rd: Register, imm: U24 },
    /// A destination register and the address to load from.
    Load { rd: Register, addr: A },
    /// A source register and the address to store to.
    Store { rs: Register, addr: A },
    /// The address to jump to.
    Jump { addr: A },
}

impl<A: View<V = AddressView>> View for Args<A> {
    type V = Operands;

    open spec fn view(&self) -> Operands {
        match self {
            Args::Implied => Operands::Implied,
            Args::Dest { rd } => Operands::Dest { rd: *rd },
            Args::Src { rs } => Operands::Src { rs: *rs },
            Args::Pair { rd, rs } => Operands::Pair { rd: *rd, rs: *rs },
            Args::Imm1 { rd, imm } => Operands::Imm { rd: *rd, imm: *imm as nat },
            Args::Imm2 { rd, imm } => Operands::Imm { rd: *rd, imm: *imm as nat },
            Args::Imm3 { rd, imm } => Operands::Imm { rd: *rd, imm: imm@ },
            Args::Load { rd, addr } => Operands::Load { rd: *rd, addr: addr@ },
            Args::Store { rs, addr } => Operands::Store { rs: *rs, addr: addr@ },
            Args::Jump { addr } => Operands::Jump { addr: addr@ },
        }
    }
}

impl<A: View<V = AddressView>> Args<A> {
    /// Whether these operands are those of the operation `code`: they have
    /// its layout, and an immediate has the type of its width. No operands
    /// are those of `NOP`, which is no instruction.
    pub open spec fn fits(self, code: OpCode) -> bool {
        &&& code != OpCode::NOP
        &&& self@.shape() == code.shape()
        &&& self is Imm1 ==> code.width() == 1
        &&& self is Imm2 ==> code.width() == 2
        &&& self is Imm3 ==> code.width() == 3
    }
}

impl Instruction {
    /// The operands of the instruction.
    pub fn args(&self) -> (a: Args<&Address>)
        ensures
            a@ == self@.operands,
            a.fits(self@.code),
    {
        match self {
            Instruction::ADD1 { rd, rs } => Args::Pair { rd: *rd, rs: *rs },
            Instruction::ADD2 { rd, rs } => Args::Pair { rd: *rd, rs: *rs },
            Instruction::ADD3 { rd, rs } => Args::Pair { rd: *rd, rs: *rs },
            Instruction::SUB1 { rd, rs } => Args::Pair { rd: *rd, rs: *rs },
            Instruction::SUB2 { rd, rs } => Args::Pair { rd: *rd, rs: *rs },
            Instruction::SUB3 { rd, rs } => Args::Pair { rd: *rd, rs: *rs },
            Instruction::AND1 { rd, rs } => Args::Pair { rd: *rd, rs: *rs },
            Instruction::AND2 { rd, rs } => Args::Pair { rd: *rd, rs: *rs },
            Instruction::AND3 { rd, rs } => Args::Pair { rd: *rd, rs: *rs },
            Instruction::OR1 { rd, rs } => Args::Pair { rd: *rd, rs: *rs },
            Instruction::OR2 { rd, rs } => Args::Pair { rd: *rd, rs: *rs },
            Instruction::OR3 { rd, rs } => Args::Pair { rd: *rd, rs: *rs },
            Instruction::XOR1 { rd, rs } => Args::Pair { rd: *rd, rs: *rs },
            Instruction::XOR2 { rd, rs } => Args::Pair { rd: *rd, rs: *rs },
            Instruction::XOR3 { rd, rs } => Args::Pair { rd: *rd, rs: *rs },
            Instruction::NOT1 { rd } => Args::Dest { rd: *rd },
            Instruction::NOT2 { rd } => Args::Dest { rd: *rd },
            Instruction::NOT3 { rd } => Args::Dest { rd: *rd },
            Instruction::LOADI1 { rd, imm } => Args::Imm1 { rd: *rd, imm: *imm },
            Instruction::LOADI2 { rd, imm } => Args::Imm2 { rd: *rd, imm: *imm },
            Instruction::LOADI3 { rd, imm } => Args::Imm3 { rd: *rd, imm: *imm },
            Instruction::ADDI1 { rd, imm } => Args::Imm1 { rd: *rd, imm: *imm },
            Instruction::ADDI2 { rd, imm } => Args::Imm2 { rd: *rd, imm: *imm },
            Instruction::ADDI3 { rd, imm } => Args::Imm3 { rd: *rd, imm: *imm },
            Instruction::MOV1 { rd, rs } => Args::Pair { rd: *rd, rs: *rs },
            Instruction::MOV2 { rd, rs } => Args::Pair { rd: *rd, rs: *rs },
            Instruction::MOV3 { rd, rs } => Args::Pair { rd: *rd, rs: *rs },
            Instruction::INC1 { rd } => Args::Dest { rd: *rd },
            Instruction::INC2 { rd } => Args::Dest { rd: *rd },
            Instruction::INC3 { rd } => Args::Dest { rd: *rd },
            Instruction::DEC1 { rd } => Args::Dest { rd: *rd },
            Instruction::DEC2 { rd } => Args::Dest { rd: *rd },
            Instruction::DEC3 { rd } => Args::Dest { rd: *rd },
            Instruction::NEG1 { rd } => Args::Dest { rd: *rd },
            Instruction::NEG2 { rd } => Args::Dest { rd: *rd },
            Instruction::NEG3 { rd } => Args::Dest { rd: *rd },
            Instruction::SHL1 { rd } => Args::Dest { rd: *rd },
            Instruction::SHL2 { rd } => Args::Dest { rd: *rd },
            Instruction::SHL3 { rd } => Args::Dest { rd: *rd },
            Instruction::SHR1 { rd } => Args::Dest { rd: *rd },
            Instruction::SHR2 { rd } => Args::Dest { rd: *rd },
            Instruction::SHR3 { rd } => Args::Dest { rd: *rd },
            Instruction::ROL1 { rd } => Args::Dest { rd: *rd },
            Instruction::ROL2 { rd } => Args::Dest { rd: *rd },
            Instruction::ROL3 { rd } => Args::Dest { rd: *rd },
            Instruction::ROR1 { rd } => Args::Dest { rd: *rd },
            Instruction::ROR2 { rd } => Args::Dest { rd: *rd },
            Instruction::ROR3 { rd } => Args::Dest { rd: *rd },
            Instruction::CMP1 { rd, rs } => Args::Pair { rd: *rd, rs: *rs },
            Instruction::CMP2 { rd, rs } => Args::Pair { rd: *rd, rs: *rs },
            Instruction::CMP3 { rd, rs } => Args::Pair { rd: *rd, rs: *rs },
            Instruction::TST1 { rd, rs } => Args::Pair { rd: *rd, rs: *rs },
            Instruction::TST2 { rd, rs } => Args::Pair { rd: *rd, rs: *rs },
            Instruction::TST3 { rd, rs } => Args::Pair { rd: *rd, rs: *rs },
            Instruction::PUSH1 { rs } => Args::Src { rs: *rs },
            Instruction::PUSH2 { rs } => Args::Src { rs: *rs },
            Instruction::PUSH3 { rs } => Args::Src { rs: *rs },
            Instruction::POP1 { rd } => Args::Dest { rd: *rd },
            Instruction::POP2 { rd } => Args::Dest { rd: *rd },
            Instruction::POP3 { rd } => Args::Dest { rd: *rd },
            Instruction::LOAD1 { rd, addr } => Args::Load { rd: *rd, addr },
            Instruction::LOAD2 { rd, addr } => Args::Load { rd: *rd, addr },
            Instruction::LOAD3 { rd, addr } => Args::Load { rd: *rd, addr },
            Instruction::STORE1 { rs, addr } => Args::Store { rs: *rs, addr },
            Instruction::STORE2 { rs, addr } => Args::Store { rs: *rs, addr },
            Instruction::STORE3 { rs, addr } => Args::Store { rs: *rs, addr },
            Instruction::JMP { addr } => Args::Jump { addr },
            Instruction::JZ { addr } => Args::Jump { addr },
            Instruction::JC { addr } => Args::Jump { addr },
            Instruction::JNZ { addr } => Args::Jump { addr },
            Instruction::JNC { addr } => Args::Jump { addr },
            Instruction::JSR { addr } => Args::Jump { addr },
            Instruction::JMPA { addr } => Args::Jump { addr },
            Instruction::JZA { addr } => Args::Jump { addr },
            Instruction::JCA { addr } => Args::Jump { addr },
            Instruction::JNZA { addr } => Args::Jump { addr },
            Instruction::JNCA { addr } => Args::Jump { addr },
            Instruction::JSRA { addr } => Args::Jump { addr },
            Instruction::RTS => Args::Implied,
            Instruction::HLT => Args::Implied,
        }
    }

    /// The instruction for the operation `code` with the operands `args`,
    /// if these are operands of that operation.
    pub fn build(code: OpCode, args: Args<Address>) -> (r: Option<Instruction>)
        ensures
            r is Some <==> args.fits(code),
            r matches Some(i) ==> i@ == (InstructionView { code, operands: args@ }),
    {
        match args {
            Args::Pair { rd, rs } => match code {
                OpCode::ADD1 => Some(Instruction::ADD1 { rd, rs }),
                OpCode::ADD2 => Some(Instruction::ADD2 { rd, rs }),
                OpCode::ADD3 => Some(Instruction::ADD3 { rd, rs }),
                OpCode::SUB1 => Some(Instruction::SUB1 { rd, rs }),
                OpCode::SUB2 => Some(Instruction::SUB2 { rd, rs }),
                OpCode::SUB3 => Some(Instruction::SUB3 { rd, rs }),
                OpCode::AND1 => Some(Instruction::AND1 { rd, rs }),
                OpCode::AND2 => Some(Instruction::AND2 { rd, rs }),
                OpCode::AND3 => Some(Instruction::AND3 { rd, rs }),
                OpCode::OR1 => Some(Instruction::OR1 { rd, rs }),
                OpCode::OR2 => Some(Instruction::OR2 { rd, rs }),
                OpCode::OR3 => Some(Instruction::OR3 { rd, rs }),
                OpCode::XOR1 => Some(Instruction::XOR1 { rd, rs }),
                OpCode::XOR2 => Some(Instruction::XOR2 { rd, rs }),
                OpCode::XOR3 => Some(Instruction::XOR3 { rd, rs }),
                OpCode::MOV1 => Some(Instruction::MOV1 { rd, rs }),
                OpCode::MOV2 => Some(Instruction::MOV2 { rd, rs }),
                OpCode::MOV3 => Some(Instruction::MOV3 { rd, rs }),
                OpCode::CMP1 => Some(Instruction::CMP1 { rd, rs }),
                OpCode::CMP2 => Some(Instruction::CMP2 { rd, rs }),
                OpCode::CMP3 => Some(Instruction::CMP3 { rd, rs }),
                OpCode::TST1 => Some(Instruction::TST1 { rd, rs }),
                OpCode::TST2 => Some(Instruction::TST2 { rd, rs }),
                OpCode::TST3 => Some(Instruction::TST3 { rd, rs }),
                _ => None,
            },
            Args::Dest { rd } => match code {
                OpCode::NOT1 => Some(Instruction::NOT1 { rd }),
                OpCode::NOT2 => Some(Instruction::NOT2 { rd }),
                OpCode::NOT3 => Some(Instruction::NOT3 { rd }),
                OpCode::INC1 => Some(Instruction::INC1 { rd }),
                OpCode::INC2 => Some(Instruction::INC2 { rd }),
                OpCode::INC3 => Some(Instruction::INC3 { rd }),
                OpCode::DEC1 => Some(Instruction::DEC1 { rd }),
                OpCode::DEC2 => Some(Instruction::DEC2 { rd }),
                OpCode::DEC3 => Some(Instruction::DEC3 { rd }),
                OpCode::NEG1 => Some(Instruction::NEG1 { rd }),
                OpCode::NEG2 => Some(Instruction::NEG2 { rd }),
                OpCode::NEG3 => Some(Instruction::NEG3 { rd }),
                OpCode::SHL1 => Some(Instruction::SHL1 { rd }),
                OpCode::SHL2 => Some(Instruction::SHL2 { rd }),
                OpCode::SHL3 => Some(Instruction::SHL3 { rd }),
                OpCode::SHR1 => Some(Instruction::SHR1 { rd }),
                OpCode::SHR2 => Some(Instruction::SHR2 { rd }),
                OpCode::SHR3 => Some(Instruction::SHR3 { rd }),
                OpCode::ROL1 => Some(Instruction::ROL1 { rd }),
                OpCode::ROL2 => Some(Instruction::ROL2 { rd }),
                OpCode::ROL3 => Some(Instruction::ROL3 { rd }),
                OpCode::ROR1 => Some(Instruction::ROR1 { rd }),
                OpCode::ROR2 => Some(Instruction::ROR2 { rd }),
                OpCode::ROR3 => Some(Instruction::ROR3 { rd }),
                OpCode::POP1 => Some(Instruction::POP1 { rd }),
                OpCode::POP2 => Some(Instruction::POP2 { rd }),
                OpCode::POP3 => Some(Instruction::POP3 { rd }),
                _ => None,
            },
            Args::Imm1 { rd, imm } => match code {
                OpCode::LOADI1 => Some(Instruction::LOADI1 { rd, imm }),
                OpCode::ADDI1 => Some(Instruction::ADDI1 { rd, imm }),
                _ => None,
            },
            Args::Imm2 { rd, imm } => match code {
                OpCode::LOADI2 => Some(Instruction::LOADI2 { rd, imm }),
                OpCode::ADDI2 => Some(Instruction::ADDI2 { rd, imm }),
                _ => None,
            },
            Args::Imm3 { rd, imm } => match code {
                OpCode::LOADI3 => Some(Instruction::LOADI3 { rd, imm }),
                OpCode::ADDI3 => Some(Instruction::ADDI3 { rd, imm }),
                _ => None,
            },
            Args::Src { rs } => match code {
                OpCode::PUSH1 => Some(Instruction::PUSH1 { rs }),
                OpCode::PUSH2 => Some(Instruction::PUSH2 { rs }),
                OpCode::PUSH3 => Some(Instruction::PUSH3 { rs }),
                _ => None,
            },
            Args::Load { rd, addr } => match code {
                OpCode::LOAD1 => Some(Instruction::LOAD1 { rd, addr }),
                OpCode::LOAD2 => Some(Instruction::LOAD2 { rd, addr }),
                OpCode::LOAD3 => Some(Instruction::LOAD3 { rd, addr }),
                _ => None,
            },
            Args::Store { rs, addr } => match code {
                OpCode::STORE1 => Some(Instruction::STORE1 { rs, addr }),
                OpCode::STORE2 => Some(Instruction::STORE2 { rs, addr }),
                OpCode::STORE3 => Some(Instruction::STORE3 { rs, addr }),
                _ => None,
            },
            Args::Jump { addr } => match code {
                OpCode::JMP => Some(Instruction::JMP { addr }),
                OpCode::JZ => Some(Instruction::JZ { addr }),
                OpCode::JC => Some(Instruction::JC { addr }),
                OpCode::JNZ => Some(Instruction::JNZ { addr }),
                OpCode::JNC => Some(Instruction::JNC { addr }),
                OpCode::JSR => Some(Instruction::JSR { addr }),
                OpCode::JMPA => Some(Instruction::JMPA { addr }),
                OpCode::JZA => Some(Instruction::JZA { addr }),
                OpCode::JCA => Some(Instruction::JCA { addr }),
                OpCode::JNZA => Some(Instruction::JNZA { addr }),
                OpCode::JNCA => Some(Instruction::JNCA { addr }),
                OpCode::JSRA => Some(Instruction::JSRA { addr }),
                _ => None,
            },
            Args::Implied => match code {
                OpCode::RTS => Some(Instruction::RTS),
                OpCode::HLT => Some(Instruction::HLT),
                _ => None,
            },
        }
    }

    /// The instruction with the resolved address `a` in place of its
    /// address operand; the instruction itself if it has none.
    pub fn with_address(self, a: U24) -> (r: Instruction)
        ensures
            r@ == (InstructionView {
                code: self@.code,
                operands: self@.operands.with_address(AddressView::Addr(a@)),
            }),
    {
        match self {
            Instruction::LOAD1 { rd, .. } => Instruction::LOAD1 { rd, addr: Address::Addr(a) },
            Instruction::LOAD2 { rd, .. } => Instruction::LOAD2 { rd, addr: Address::Addr(a) },
            Instruction::LOAD3 { rd, .. } => Instruction::LOAD3 { rd, addr: Address::Addr(a) },
            Instruction::STORE1 { rs, .. } => Instruction::STORE1 { rs, addr: Address::Addr(a) },
            Instruction::STORE2 { rs, .. } => Instruction::STORE2 { rs, addr: Address::Addr(a) },
            Instruction::STORE3 { rs, .. } => Instruction::STORE3 { rs, addr: Address::Addr(a) },
            Instruction::JMP { .. } => Instruction::JMP { addr: Address::Addr(a) },
            Instruction::JZ { .. } => Instruction::JZ { addr: Address::Addr(a) },
            Instruction::JC { .. } => Instruction::JC { addr: Address::Addr(a) },
            Instruction::JNZ { .. } => Instruction::JNZ { addr: Address::Addr(a) },
            Instruction::JNC { .. } => Instruction::JNC { addr: Address::Addr(a) },
            Instruction::JSR { .. } => Instruction::JSR { addr: Address::Addr(a) },
            Instruction::JMPA { .. } => Instruction::JMPA { addr: Address::Addr(a) },
            Instruction::JZA { .. } => Instruction::JZA { addr: Address::Addr(a) },
            Instruction::JCA { .. } => Instruction::JCA { addr: Address::Addr(a) },
            Instruction::JNZA { .. } => Instruction::JNZA { addr: Address::Addr(a) },
            Instruction::JNCA { .. } => Instruction::JNCA { addr: Address::Addr(a) },
            Instruction::JSRA { .. } => Instruction::JSRA { addr: Address::Addr(a) },
            other => other,
        }
    }

    /// The name of the label that is the address operand, if the
    /// instruction has an address operand that is not resolved.
    pub fn label(&self) -> (r: Option<&String>)
        ensures
            match self@.operands.address() {
                Some(AddressView::Label(name)) => r matches Some(s) && s@ == name,
                _ => r is None,
            },
    {
        match self.args() {
            Args::Load { addr, .. } | Args::Store { addr, .. } | Args::Jump { addr } => match addr {
                Address::Label(name) => Some(name),
                Address::Addr(_) => None,
            },
            _ => None,
        }
    }
}

} // verus!
