//! The opcode table and the operation descriptor.
//!
//! A numeric code names an operation and, in bits 9 to 11, says how many
//! operand bytes follow it, so a decoder knows how much to read before it
//! knows what the operation is. The low two bits of a code give the width
//! in bytes of the data that a width-suffixed operation works on.

use crate::u24::U24;
use vstd::prelude::*;
use vstd::std_specs::convert::TryFromSpecImpl;

verus! {

/// The operations of the instruction set. Operations on one, two and three
/// bytes are separate members, so that the code alone fixes the datapath
/// width.
#[allow(missing_docs)]
#[derive(Debug, Clone, Copy, PartialEq, Eq, Structural)]
pub enum OpCode {
    NOP,
    HLT,
    RTS,
    ADD1,
    SUB1,
    AND1,
    OR1,
    XOR1,
    MOV1,
    INC1,
    DEC1,
    NEG1,
    NOT1,
    SHL1,
    SHR1,
    ROL1,
    ROR1,
    CMP1,
    TST1,
    PUSH1,
    POP1,
    ADD2,
    SUB2,
    AND2,
    OR2,
    XOR2,
    MOV2,
    INC2,
    DEC2,
    NEG2,
    NOT2,
    SHL2,
    SHR2,
    ROL2,
    ROR2,
    CMP2,
    TST2,
    PUSH2,
    POP2,
    ADD3,
    SUB3,
    AND3,
    OR3,
    XOR3,
    MOV3,
    INC3,
    DEC3,
    NEG3,
    NOT3,
    SHL3,
    SHR3,
    ROL3,
    ROR3,
    CMP3,
    TST3,
    PUSH3,
    POP3,
    LOADI1,
    ADDI1,
    JMP,
    JZ,
    JNZ,
    JC,
    JNC,
    JSR,
    LOADI2,
    ADDI2,
    JMPA,
    JZA,
    JNZA,
    JCA,
    JNCA,
    JSRA,
    LOAD1,
    STORE1,
    LOAD2,
    STORE2,
    LOADI3,
    LOAD3,
    STORE3,
    ADDI3,
}

/// How the operand bytes of an operation are laid out.
#[derive(Debug, Clone, Copy, PartialEq, Eq, Structural)]
pub enum Shape {
    /// No operand byte.
    Implied,
    /// One byte: the destination register in the low nibble.
    Dest,
    /// One byte: the source register in the high nibble.
    Src,
    /// One byte: destination in the low nibble, source in the high nibble.
    Pair,
    /// A destination register byte, then an immediate of the operation's
    /// width, least significant byte first.
    Imm,
    /// A destination register byte, then a 24-bit address, least
    /// significant byte first.
    Load,
    /// A source register byte, then a 24-bit address, least significant
    /// byte first.
    Store,
    /// A 24-bit address, least significant byte first.
    Jump,
}

/// Number of operand bytes that follow the two opcode bytes of `code`:
/// bits 9 to 11 of the code.
pub open spec fn operand_count(code: u16) -> nat {
    ((code / 0x200) % 8) as nat
}

/// The operation that `code` stands for, if it stands for one. `NOP` has
/// the code 0 but is never read from a byte stream: 0 decodes to nothing.
pub open spec fn decode_code(code: u16) -> Option<OpCode> {
    if code == 0x0004 {
        Some(OpCode::HLT)
    }     else if code == 0x0008 {
        Some(OpCode::RTS)
    }     else if code == 0x0201 {
        Some(OpCode::ADD1)
    }     else if code == 0x0205 {
        Some(OpCode::SUB1)
    }     else if code == 0x0209 {
        Some(OpCode::AND1)
    }     else if code == 0x020D {
        Some(OpCode::OR1)
    }     else if code == 0x0211 {
        Some(OpCode::XOR1)
    }     else if code == 0x0215 {
        Some(OpCode::MOV1)
    }     else if code == 0x0219 {
        Some(OpCode::INC1)
    }     else if code == 0x021D {
        Some(OpCode::DEC1)
    }     else if code == 0x0221 {
        Some(OpCode::NEG1)
    }     else if code == 0x0225 {
        Some(OpCode::NOT1)
    }     else if code == 0x0229 {
        Some(OpCode::SHL1)
    }     else if code == 0x022D {
        Some(OpCode::SHR1)
    }     else if code == 0x0231 {
        Some(OpCode::ROL1)
    }     else if code == 0x0235 {
        Some(OpCode::ROR1)
    }     else if code == 0x0239 {
        Some(OpCode::CMP1)
    }     else if code == 0x023D {
        Some(OpCode::TST1)
    }     else if code == 0x0241 {
        Some(OpCode::PUSH1)
    }     else if code == 0x0245 {
        Some(OpCode::POP1)
    }     else if code == 0x0202 {
        Some(OpCode::ADD2)
    }     else if code == 0x0206 {
        Some(OpCode::SUB2)
    }     else if code == 0x020A {
        Some(OpCode::AND2)
    }     else if code == 0x020E {
        Some(OpCode::OR2)
    }     else if code == 0x0212 {
        Some(OpCode::XOR2)
    }     else if code == 0x0216 {
        Some(OpCode::MOV2)
    }     else if code == 0x021A {
        Some(OpCode::INC2)
    }     else if code == 0x021E {
        Some(OpCode::DEC2)
    }     else if code == 0x0222 {
        Some(OpCode::NEG2)
    }     else if code == 0x0226 {
        Some(OpCode::NOT2)
    }     else if code == 0x022A {
        Some(OpCode::SHL2)
    }     else if code == 0x022E {
        Some(OpCode::SHR2)
    }     else if code == 0x0232 {
        Some(OpCode::ROL2)
    }     else if code == 0x0236 {
        Some(OpCode::ROR2)
    }     else if code == 0x023A {
        Some(OpCode::CMP2)
    }     else if code == 0x023E {
        Some(OpCode::TST2)
    }     else if code == 0x0242 {
        Some(OpCode::PUSH2)
    }     else if code == 0x0246 {
        Some(OpCode::POP2)
    }     else if code == 0x0203 {
        Some(OpCode::ADD3)
    }     else if code == 0x0207 {
        Some(OpCode::SUB3)
    }     else if code == 0x020B {
        Some(OpCode::AND3)
    }     else if code == 0x020F {
        Some(OpCode::OR3)
    }     else if code == 0x0213 {
        Some(OpCode::XOR3)
    }     else if code == 0x0217 {
        Some(OpCode::MOV3)
    }     else if code == 0x021B {
        Some(OpCode::INC3)
    }     else if code == 0x021F {
        Some(OpCode::DEC3)
    }     else if code == 0x0223 {
        Some(OpCode::NEG3)
    }     else if code == 0x0227 {
        Some(OpCode::NOT3)
    }     else if code == 0x022B {
        Some(OpCode::SHL3)
    }     else if code == 0x022F {
        Some(OpCode::SHR3)
    }     else if code == 0x0233 {
        Some(OpCode::ROL3)
    }     else if code == 0x0237 {
        Some(OpCode::ROR3)
    }     else if code == 0x023B {
        Some(OpCode::CMP3)
    }     else if code == 0x023F {
        Some(OpCode::TST3)
    }     else if code == 0x0243 {
        Some(OpCode::PUSH3)
    }     else if code == 0x0247 {
        Some(OpCode::POP3)
    }     else if code == 0x0401 {
        Some(OpCode::LOADI1)
    }     else if code == 0x0449 {
        Some(OpCode::ADDI1)
    }     else if code == 0x0600 {
        Some(OpCode::JMP)
    }     else if code == 0x0604 {
        Some(OpCode::JZ)
    }     else if code == 0x0608 {
        Some(OpCode::JNZ)
    }     else if code == 0x060C {
        Some(OpCode::JC)
    }     else if code == 0x0610 {
        Some(OpCode::JNC)
    }     else if code == 0x0614 {
        Some(OpCode::JSR)
    }     else if code == 0x0602 {
        Some(OpCode::LOADI2)
    }     else if code == 0x064E {
        Some(OpCode::ADDI2)
    }     else if code == 0x0603 {
        Some(OpCode::JMPA)
    }     else if code == 0x0607 {
        Some(OpCode::JZA)
    }     else if code == 0x060B {
        Some(OpCode::JNZA)
    }     else if code == 0x060F {
        Some(OpCode::JCA)
    }     else if code == 0x0613 {
        Some(OpCode::JNCA)
    }     else if code == 0x0617 {
        Some(OpCode::JSRA)
    }     else if code == 0x0805 {
        Some(OpCode::LOAD1)
    }     else if code == 0x0809 {
        Some(OpCode::STORE1)
    }     else if code == 0x0806 {
        Some(OpCode::LOAD2)
    }     else if code == 0x080A {
        Some(OpCode::STORE2)
    }     else if code == 0x0803 {
        Some(OpCode::LOADI3)
    }     else if code == 0x0807 {
        Some(OpCode::LOAD3)
    }     else if code == 0x080B {
        Some(OpCode::STORE3)
    }     else if code == 0x0853 {
        Some(OpCode::ADDI3)
    } else {
        None
    }
}

impl OpCode {
    /// The numeric code of the operation.
    pub open spec fn code_spec(self) -> u16 {
        match self {
            OpCode::NOP => 0x0000,
            OpCode::HLT => 0x0004,
            OpCode::RTS => 0x0008,
            OpCode::ADD1 => 0x0201,
            OpCode::SUB1 => 0x0205,
            OpCode::AND1 => 0x0209,
            OpCode::OR1 => 0x020D,
            OpCode::XOR1 => 0x0211,
            OpCode::MOV1 => 0x0215,
            OpCode::INC1 => 0x0219,
            OpCode::DEC1 => 0x021D,
            OpCode::NEG1 => 0x0221,
            OpCode::NOT1 => 0x0225,
            OpCode::SHL1 => 0x0229,
            OpCode::SHR1 => 0x022D,
            OpCode::ROL1 => 0x0231,
            OpCode::ROR1 => 0x0235,
            OpCode::CMP1 => 0x0239,
            OpCode::TST1 => 0x023D,
            OpCode::PUSH1 => 0x0241,
            OpCode::POP1 => 0x0245,
            OpCode::ADD2 => 0x0202,
            OpCode::SUB2 => 0x0206,
            OpCode::AND2 => 0x020A,
            OpCode::OR2 => 0x020E,
            OpCode::XOR2 => 0x0212,
            OpCode::MOV2 => 0x0216,
            OpCode::INC2 => 0x021A,
            OpCode::DEC2 => 0x021E,
            OpCode::NEG2 => 0x0222,
            OpCode::NOT2 => 0x0226,
            OpCode::SHL2 => 0x022A,
            OpCode::SHR2 => 0x022E,
            OpCode::ROL2 => 0x0232,
            OpCode::ROR2 => 0x0236,
            OpCode::CMP2 => 0x023A,
            OpCode::TST2 => 0x023E,
            OpCode::PUSH2 => 0x0242,
            OpCode::POP2 => 0x0246,
            OpCode::ADD3 => 0x0203,
            OpCode::SUB3 => 0x0207,
            OpCode::AND3 => 0x020B,
            OpCode::OR3 => 0x020F,
            OpCode::XOR3 => 0x0213,
            OpCode::MOV3 => 0x0217,
            OpCode::INC3 => 0x021B,
            OpCode::DEC3 => 0x021F,
            OpCode::NEG3 => 0x0223,
            OpCode::NOT3 => 0x0227,
            OpCode::SHL3 => 0x022B,
            OpCode::SHR3 => 0x022F,
            OpCode::ROL3 => 0x0233,
            OpCode::ROR3 => 0x0237,
            OpCode::CMP3 => 0x023B,
            OpCode::TST3 => 0x023F,
            OpCode::PUSH3 => 0x0243,
            OpCode::POP3 => 0x0247,
            OpCode::LOADI1 => 0x0401,
            OpCode::ADDI1 => 0x0449,
            OpCode::JMP => 0x0600,
            OpCode::JZ => 0x0604,
            OpCode::JNZ => 0x0608,
            OpCode::JC => 0x060C,
            OpCode::JNC => 0x0610,
            OpCode::JSR => 0x0614,
            OpCode::LOADI2 => 0x0602,
            OpCode::ADDI2 => 0x064E,
            OpCode::JMPA => 0x0603,
            OpCode::JZA => 0x0607,
            OpCode::JNZA => 0x060B,
            OpCode::JCA => 0x060F,
            OpCode::JNCA => 0x0613,
            OpCode::JSRA => 0x0617,
            OpCode::LOAD1 => 0x0805,
            OpCode::STORE1 => 0x0809,
            OpCode::LOAD2 => 0x0806,
            OpCode::STORE2 => 0x080A,
            OpCode::LOADI3 => 0x0803,
            OpCode::LOAD3 => 0x0807,
            OpCode::STORE3 => 0x080B,
            OpCode::ADDI3 => 0x0853,
        }
    }

    /// The numeric code of the operation.
    #[verifier::when_used_as_spec(code_spec)]
    pub fn code(self) -> (c: u16)
        ensures
            c == self.code_spec(),
    {
        match self {
            OpCode::NOP => 0x0000,
            OpCode::HLT => 0x0004,
            OpCode::RTS => 0x0008,
            OpCode::ADD1 => 0x0201,
            OpCode::SUB1 => 0x0205,
            OpCode::AND1 => 0x0209,
            OpCode::OR1 => 0x020D,
            OpCode::XOR1 => 0x0211,
            OpCode::MOV1 => 0x0215,
            OpCode::INC1 => 0x0219,
            OpCode::DEC1 => 0x021D,
            OpCode::NEG1 => 0x0221,
            OpCode::NOT1 => 0x0225,
            OpCode::SHL1 => 0x0229,
            OpCode::SHR1 => 0x022D,
            OpCode::ROL1 => 0x0231,
            OpCode::ROR1 => 0x0235,
            OpCode::CMP1 => 0x0239,
            OpCode::TST1 => 0x023D,
            OpCode::PUSH1 => 0x0241,
            OpCode::POP1 => 0x0245,
            OpCode::ADD2 => 0x0202,
            OpCode::SUB2 => 0x0206,
            OpCode::AND2 => 0x020A,
            OpCode::OR2 => 0x020E,
            OpCode::XOR2 => 0x0212,
            OpCode::MOV2 => 0x0216,
            OpCode::INC2 => 0x021A,
            OpCode::DEC2 => 0x021E,
            OpCode::NEG2 => 0x0222,
            OpCode::NOT2 => 0x0226,
            OpCode::SHL2 => 0x022A,
            OpCode::SHR2 => 0x022E,
            OpCode::ROL2 => 0x0232,
            OpCode::ROR2 => 0x0236,
            OpCode::CMP2 => 0x023A,
            OpCode::TST2 => 0x023E,
            OpCode::PUSH2 => 0x0242,
            OpCode::POP2 => 0x0246,
            OpCode::ADD3 => 0x0203,
            OpCode::SUB3 => 0x0207,
            OpCode::AND3 => 0x020B,
            OpCode::OR3 => 0x020F,
            OpCode::XOR3 => 0x0213,
            OpCode::MOV3 => 0x0217,
            OpCode::INC3 => 0x021B,
            OpCode::DEC3 => 0x021F,
            OpCode::NEG3 => 0x0223,
            OpCode::NOT3 => 0x0227,
            OpCode::SHL3 => 0x022B,
            OpCode::SHR3 => 0x022F,
            OpCode::ROL3 => 0x0233,
            OpCode::ROR3 => 0x0237,
            OpCode::CMP3 => 0x023B,
            OpCode::TST3 => 0x023F,
            OpCode::PUSH3 => 0x0243,
            OpCode::POP3 => 0x0247,
            OpCode::LOADI1 => 0x0401,
            OpCode::ADDI1 => 0x0449,
            OpCode::JMP => 0x0600,
            OpCode::JZ => 0x0604,
            OpCode::JNZ => 0x0608,
            OpCode::JC => 0x060C,
            OpCode::JNC => 0x0610,
            OpCode::JSR => 0x0614,
            OpCode::LOADI2 => 0x0602,
            OpCode::ADDI2 => 0x064E,
            OpCode::JMPA => 0x0603,
            OpCode::JZA => 0x0607,
            OpCode::JNZA => 0x060B,
            OpCode::JCA => 0x060F,
            OpCode::JNCA => 0x0613,
            OpCode::JSRA => 0x0617,
            OpCode::LOAD1 => 0x0805,
            OpCode::STORE1 => 0x0809,
            OpCode::LOAD2 => 0x0806,
            OpCode::STORE2 => 0x080A,
            OpCode::LOADI3 => 0x0803,
            OpCode::LOAD3 => 0x0807,
            OpCode::STORE3 => 0x080B,
            OpCode::ADDI3 => 0x0853,
        }
    }

    /// The layout of the operand bytes.
    pub open spec fn shape_spec(self) -> Shape {
        match self {
            OpCode::NOP | OpCode::HLT | OpCode::RTS => Shape::Implied,
            OpCode::INC1 | OpCode::DEC1 | OpCode::NEG1 | OpCode::NOT1 | OpCode::SHL1
            | OpCode::SHR1 | OpCode::ROL1 | OpCode::ROR1 | OpCode::POP1 | OpCode::INC2
            | OpCode::DEC2 | OpCode::NEG2 | OpCode::NOT2 | OpCode::SHL2 | OpCode::SHR2
            | OpCode::ROL2 | OpCode::ROR2 | OpCode::POP2 | OpCode::INC3 | OpCode::DEC3
            | OpCode::NEG3 | OpCode::NOT3 | OpCode::SHL3 | OpCode::SHR3 | OpCode::ROL3
            | OpCode::ROR3 | OpCode::POP3 => Shape::Dest,
            OpCode::PUSH1 | OpCode::PUSH2 | OpCode::PUSH3 => Shape::Src,
            OpCode::ADD1 | OpCode::SUB1 | OpCode::AND1 | OpCode::OR1 | OpCode::XOR1
            | OpCode::MOV1 | OpCode::CMP1 | OpCode::TST1 | OpCode::ADD2 | OpCode::SUB2
            | OpCode::AND2 | OpCode::OR2 | OpCode::XOR2 | OpCode::MOV2 | OpCode::CMP2
            | OpCode::TST2 | OpCode::ADD3 | OpCode::SUB3 | OpCode::AND3 | OpCode::OR3
            | OpCode::XOR3 | OpCode::MOV3 | OpCode::CMP3 | OpCode::TST3 => Shape::Pair,
            OpCode::LOADI1 | OpCode::ADDI1 | OpCode::LOADI2 | OpCode::ADDI2 | OpCode::LOADI3
            | OpCode::ADDI3 => Shape::Imm,
            OpCode::LOAD1 | OpCode::LOAD2 | OpCode::LOAD3 => Shape::Load,
            OpCode::STORE1 | OpCode::STORE2 | OpCode::STORE3 => Shape::Store,
            OpCode::JMP | OpCode::JZ | OpCode::JNZ | OpCode::JC | OpCode::JNC | OpCode::JSR
            | OpCode::JMPA | OpCode::JZA | OpCode::JNZA | OpCode::JCA | OpCode::JNCA
            | OpCode::JSRA => Shape::Jump,
        }
    }

    /// The layout of the operand bytes.
    #[verifier::when_used_as_spec(shape_spec)]
    pub fn shape(self) -> (s: Shape)
        ensures
            s == self.shape_spec(),
    {
        match self {
            OpCode::NOP | OpCode::HLT | OpCode::RTS => Shape::Implied,
            OpCode::INC1 | OpCode::DEC1 | OpCode::NEG1 | OpCode::NOT1 | OpCode::SHL1
            | OpCode::SHR1 | OpCode::ROL1 | OpCode::ROR1 | OpCode::POP1 | OpCode::INC2
            | OpCode::DEC2 | OpCode::NEG2 | OpCode::NOT2 | OpCode::SHL2 | OpCode::SHR2
            | OpCode::ROL2 | OpCode::ROR2 | OpCode::POP2 | OpCode::INC3 | OpCode::DEC3
            | OpCode::NEG3 | OpCode::NOT3 | OpCode::SHL3 | OpCode::SHR3 | OpCode::ROL3
            | OpCode::ROR3 | OpCode::POP3 => Shape::Dest,
            OpCode::PUSH1 | OpCode::PUSH2 | OpCode::PUSH3 => Shape::Src,
            OpCode::ADD1 | OpCode::SUB1 | OpCode::AND1 | OpCode::OR1 | OpCode::XOR1
            | OpCode::MOV1 | OpCode::CMP1 | OpCode::TST1 | OpCode::ADD2 | OpCode::SUB2
            | OpCode::AND2 | OpCode::OR2 | OpCode::XOR2 | OpCode::MOV2 | OpCode::CMP2
            | OpCode::TST2 | OpCode::ADD3 | OpCode::SUB3 | OpCode::AND3 | OpCode::OR3
            | OpCode::XOR3 | OpCode::MOV3 | OpCode::CMP3 | OpCode::TST3 => Shape::Pair,
            OpCode::LOADI1 | OpCode::ADDI1 | OpCode::LOADI2 | OpCode::ADDI2 | OpCode::LOADI3
            | OpCode::ADDI3 => Shape::Imm,
            OpCode::LOAD1 | OpCode::LOAD2 | OpCode::LOAD3 => Shape::Load,
            OpCode::STORE1 | OpCode::STORE2 | OpCode::STORE3 => Shape::Store,
            OpCode::JMP | OpCode::JZ | OpCode::JNZ | OpCode::JC | OpCode::JNC | OpCode::JSR
            | OpCode::JMPA | OpCode::JZA | OpCode::JNZA | OpCode::JCA | OpCode::JNCA
            | OpCode::JSRA => Shape::Jump,
        }
    }

    /// Width in bytes of the data that the operation works on: the low two
    /// bits of its code. It is 0 for operations without a width suffix.
    pub open spec fn width_spec(self) -> u8 {
        (self.code_spec() % 4) as u8
    }

    /// Width in bytes of the data that the operation works on.
    #[verifier::when_used_as_spec(width_spec)]
    pub fn width(self) -> (w: u8)
        ensures
            w == self.width_spec(),
            w <= 3,
    {
        (self.code() % 4) as u8
    }
}

/// Number of operand bytes that follow the two opcode bytes of `code`.
pub fn operand_byte_count(code: u16) -> (n: usize)
    ensures
        n == operand_count(code),
        n <= 7,
{
    proof {
        assert(((code & 0xE00) >> 9) == (code / 0x200) % 8) by (bit_vector);
    }
    ((code & 0xE00) >> 9) as usize
}

impl TryFrom<u16> for OpCode {
    type Error = ();

    /// Looks a numeric code up in the table; a code that stands for no
    /// operation is an error.
    fn try_from(value: u16) -> (r: Result<Self, Self::Error>) {
        match value {
            0x0004 => Ok(OpCode::HLT),
            0x0008 => Ok(OpCode::RTS),
            0x0201 => Ok(OpCode::ADD1),
            0x0205 => Ok(OpCode::SUB1),
            0x0209 => Ok(OpCode::AND1),
            0x020D => Ok(OpCode::OR1),
            0x0211 => Ok(OpCode::XOR1),
            0x0215 => Ok(OpCode::MOV1),
            0x0219 => Ok(OpCode::INC1),
            0x021D => Ok(OpCode::DEC1),
            0x0221 => Ok(OpCode::NEG1),
            0x0225 => Ok(OpCode::NOT1),
            0x0229 => Ok(OpCode::SHL1),
            0x022D => Ok(OpCode::SHR1),
            0x0231 => Ok(OpCode::ROL1),
            0x0235 => Ok(OpCode::ROR1),
            0x0239 => Ok(OpCode::CMP1),
            0x023D => Ok(OpCode::TST1),
            0x0241 => Ok(OpCode::PUSH1),
            0x0245 => Ok(OpCode::POP1),
            0x0202 => Ok(OpCode::ADD2),
            0x0206 => Ok(OpCode::SUB2),
            0x020A => Ok(OpCode::AND2),
            0x020E => Ok(OpCode::OR2),
            0x0212 => Ok(OpCode::XOR2),
            0x0216 => Ok(OpCode::MOV2),
            0x021A => Ok(OpCode::INC2),
            0x021E => Ok(OpCode::DEC2),
            0x0222 => Ok(OpCode::NEG2),
            0x0226 => Ok(OpCode::NOT2),
            0x022A => Ok(OpCode::SHL2),
            0x022E => Ok(OpCode::SHR2),
            0x0232 => Ok(OpCode::ROL2),
            0x0236 => Ok(OpCode::ROR2),
            0x023A => Ok(OpCode::CMP2),
            0x023E => Ok(OpCode::TST2),
            0x0242 => Ok(OpCode::PUSH2),
            0x0246 => Ok(OpCode::POP2),
            0x0203 => Ok(OpCode::ADD3),
            0x0207 => Ok(OpCode::SUB3),
            0x020B => Ok(OpCode::AND3),
            0x020F => Ok(OpCode::OR3),
            0x0213 => Ok(OpCode::XOR3),
            0x0217 => Ok(OpCode::MOV3),
            0x021B => Ok(OpCode::INC3),
            0x021F => Ok(OpCode::DEC3),
            0x0223 => Ok(OpCode::NEG3),
            0x0227 => Ok(OpCode::NOT3),
            0x022B => Ok(OpCode::SHL3),
            0x022F => Ok(OpCode::SHR3),
            0x0233 => Ok(OpCode::ROL3),
            0x0237 => Ok(OpCode::ROR3),
            0x023B => Ok(OpCode::CMP3),
            0x023F => Ok(OpCode::TST3),
            0x0243 => Ok(OpCode::PUSH3),
            0x0247 => Ok(OpCode::POP3),
            0x0401 => Ok(OpCode::LOADI1),
            0x0449 => Ok(OpCode::ADDI1),
            0x0600 => Ok(OpCode::JMP),
            0x0604 => Ok(OpCode::JZ),
            0x0608 => Ok(OpCode::JNZ),
            0x060C => Ok(OpCode::JC),
            0x0610 => Ok(OpCode::JNC),
            0x0614 => Ok(OpCode::JSR),
            0x0602 => Ok(OpCode::LOADI2),
            0x064E => Ok(OpCode::ADDI2),
            0x0603 => Ok(OpCode::JMPA),
            0x0607 => Ok(OpCode::JZA),
            0x060B => Ok(OpCode::JNZA),
            0x060F => Ok(OpCode::JCA),
            0x0613 => Ok(OpCode::JNCA),
            0x0617 => Ok(OpCode::JSRA),
            0x0805 => Ok(OpCode::LOAD1),
            0x0809 => Ok(OpCode::STORE1),
            0x0806 => Ok(OpCode::LOAD2),
            0x080A => Ok(OpCode::STORE2),
            0x0803 => Ok(OpCode::LOADI3),
            0x0807 => Ok(OpCode::LOAD3),
            0x080B => Ok(OpCode::STORE3),
            0x0853 => Ok(OpCode::ADDI3),
            _ => Err(()),
        }
    }
}

impl TryFromSpecImpl<u16> for OpCode {
    open spec fn obeys_try_from_spec() -> bool {
        true
    }

    open spec fn try_from_spec(value: u16) -> Result<Self, Self::Error> {
        match decode_code(value) {
            Some(op) => Ok(op),
            None => Err(()),
        }
    }
}

/// Every code that stands for an operation is the code of that operation.
pub proof fn lemma_code_of_decoded(code: u16)
    ensures
        decode_code(code) matches Some(op) ==> op.code() == code,
{
}

/// Every operation but `NOP` is what its own code stands for.
pub proof fn lemma_decode_of_code(op: OpCode)
    ensures
        op != OpCode::NOP ==> decode_code(op.code()) == Some(op),
        decode_code(OpCode::NOP.code()) is None,
{
}

/// No two operations share a code.
pub proof fn lemma_code_injective(a: OpCode, b: OpCode)
    requires
        a.code() == b.code(),
    ensures
        a == b,
{
}

/// The operand bytes that a code announces are those that the layout of
/// its operation needs, never more than four.
pub proof fn lemma_operand_count(op: OpCode)
    ensures
        operand_count(op.code()) == shape_len(op.shape(), op.width() as nat),
        operand_count(op.code()) <= 4,
        op.shape() == Shape::Imm ==> 1 <= op.width() <= 3,
{
}

/// The largest number plus one that `width` bytes hold, for a width of one,
/// two or three bytes.
pub open spec fn limit(width: nat) -> nat {
    if width == 1 {
        0x100
    } else if width == 2 {
        0x1_0000
    } else {
        0x0100_0000
    }
}

/// Number of operand bytes of a layout, for data of `width` bytes.
pub open spec fn shape_len(shape: Shape, width: nat) -> nat {
    match shape {
        Shape::Implied => 0,
        Shape::Dest | Shape::Src | Shape::Pair => 1,
        Shape::Imm => 1 + width,
        Shape::Load | Shape::Store => 4,
        Shape::Jump => 3,
    }
}

/// What the decoder hands to the execution engine: the operation and the
/// operand bytes that followed its code, the unused ones zero.
#[derive(Debug, Clone, Copy)]
pub struct Op {
    /// The operation.
    pub code: OpCode,
    /// The operand bytes, in the order in which they were read.
    pub operands: [u8; 4],
}

impl Op {
    /// A `NOP` without operands.
    pub fn new() -> (r: Op)
        ensures
            r.code == OpCode::NOP,
            r.operands@ == seq![0u8, 0u8, 0u8, 0u8],
    {
        let r = Op { code: OpCode::NOP, operands: [0u8; 4] };
        assert(r.operands@ =~= seq![0u8, 0u8, 0u8, 0u8]);
        r
    }

    /// Index of the destination register: the low nibble of the first
    /// operand byte.
    pub open spec fn rd_spec(&self) -> u8 {
        self.operands[0] % 16
    }

    /// Index of the destination register: the low nibble of the first
    /// operand byte.
    #[verifier::when_used_as_spec(rd_spec)]
    pub fn rd(&self) -> (r: u8)
        ensures
            r == self.rd_spec(),
            r < 16,
    {
        let b = self.operands[0];
        proof {
            assert(b & 0x0F == b % 16) by (bit_vector);
        }
        b & 0x0F
    }

    /// Index of the source register: the high nibble of the first operand
    /// byte.
    pub open spec fn rs_spec(&self) -> u8 {
        self.operands[0] / 16
    }

    /// Index of the source register: the high nibble of the first operand
    /// byte.
    #[verifier::when_used_as_spec(rs_spec)]
    pub fn rs(&self) -> (r: u8)
        ensures
            r == self.rs_spec(),
            r < 16,
    {
        let b = self.operands[0];
        proof {
            assert((b & 0xF0) >> 4 == b / 16) by (bit_vector);
        }
        (b & 0xF0) >> 4
    }

    /// The operand byte at `index`.
    pub fn read_u8(&self, index: u32) -> (r: u8)
        requires
            index < 4,
        ensures
            r == self.operands[index as int],
    {
        self.operands[index as usize]
    }

    /// The 16-bit number in the two operand bytes from `index` on, least
    /// significant byte first.
    pub fn read_u16(&self, index: u32) -> (r: u16)
        requires
            index + 1 < 4,
        ensures
            r == self.operands[index as int] + self.operands[index + 1] * 0x100,
    {
        let lo = self.operands[index as usize];
        let hi = self.operands[index as usize + 1];
        proof {
            assert((lo as u16) | ((hi as u16) << 8) == (lo as u16) + (hi as u16) * 0x100)
                by (bit_vector);
        }
        (lo as u16) | ((hi as u16) << 8)
    }

    /// The 24-bit number in the three operand bytes from `index` on, least
    /// significant byte first.
    pub fn read_u24(&self, index: u32) -> (r: U24)
        requires
            index + 2 < 4,
        ensures
            r@ == self.operands[index as int] + self.operands[index + 1] * 0x100
                + self.operands[index + 2] * 0x1_0000,
    {
        U24::from_bytes(
            self.operands[index as usize + 2],
            self.operands[index as usize + 1],
            self.operands[index as usize],
        )
    }
}

} // verus!
