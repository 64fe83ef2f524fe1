//! The encoder: from an instruction to its bytes.

use crate::ast::{
    imm_bytes, Address, AddressView, Args, Instruction, InstructionView, Operands, Register,
};
use crate::machine::{
    decode, fetch, lemma_decodes, operand_bytes, rd_of, read_le, rs_of, word_at_pc, CpuError,
    CpuState, Machine, MEM_SIZE, REG_COUNT,
};
use crate::op::{limit, operand_count, OpCode, Shape};
use crate::u24::{le_bytes2, le_bytes3};
use vstd::prelude::*;

verus! {

/// Appends the three bytes of a resolved address, least significant first.
fn push_address(bytes: &mut Vec<u8>, addr: &Address)
    requires
        addr@ is Addr,
    ensures
        final(bytes)@ == old(bytes)@ + le_bytes3(addr@.value()),
{
    match addr {
        Address::Addr(a) => {
            let b = a.to_le_bytes();
            bytes.push(b[0]);
            bytes.push(b[1]);
            bytes.push(b[2]);
            assert(bytes@ =~= old(bytes)@ + le_bytes3(addr@.value()));
        },
        Address::Label(_) => {},
    }
}

impl Instruction {
    /// The bytes of the instruction: the code, least significant byte
    /// first, then the operand bytes. Every address operand must be
    /// resolved: a label has no bytes.
    pub fn encode(&self) -> (bytes: Vec<u8>)
        requires
            self@.resolved(),
        ensures
            bytes@ == self@.encoding(),
            bytes@.len() == self@.len(),
    {
        let code = self.opcode_bytes();
        let mut bytes: Vec<u8> = Vec::new();
        bytes.push(code[0]);
        bytes.push(code[1]);
        let ghost head = bytes@;
        assert(head =~= le_bytes2(self@.code.code() as nat));
        let ghost width = self@.code.width() as nat;
        match self.args() {
            Args::Implied => {},
            Args::Dest { rd } => {
                bytes.push(rd.encode());
            },
            Args::Src { rs } => {
                bytes.push(rs.encode() * 16);
            },
            Args::Pair { rd, rs } => {
                bytes.push(rd.encode() + rs.encode() * 16);
            },
            Args::Imm1 { rd, imm } => {
                bytes.push(rd.encode());
                bytes.push(imm);
            },
            Args::Imm2 { rd, imm } => {
                bytes.push(rd.encode());
                bytes.push((imm % 0x100) as u8);
                bytes.push((imm / 0x100) as u8);
            },
            Args::Imm3 { rd, imm } => {
                let b = imm.to_le_bytes();
                bytes.push(rd.encode());
                bytes.push(b[0]);
                bytes.push(b[1]);
                bytes.push(b[2]);
            },
            Args::Load { rd, addr } => {
                bytes.push(rd.encode());
                push_address(&mut bytes, addr);
            },
            Args::Store { rs, addr } => {
                bytes.push(rs.encode() * 16);
                push_address(&mut bytes, addr);
            },
            Args::Jump { addr } => {
                push_address(&mut bytes, addr);
            },
        }
        proof {
            assert(bytes@ =~= head + self@.operands.bytes(width));
            crate::op::lemma_operand_count(self@.code);
            self.lemma_layout();
        }
        bytes
    }
}

/// What operand bytes say when they are read by a layout, for data of
/// `width` bytes: registers from the nibbles of the first byte, numbers
/// from the bytes that follow. None where a nibble names no register.
pub open spec fn operands_read_by(shape: Shape, width: nat, operands: Seq<u8>) -> Option<Operands> {
    let rd = Register::at(rd_of(operands) as u8);
    let rs = Register::at(rs_of(operands) as u8);
    match shape {
        Shape::Implied => Some(Operands::Implied),
        Shape::Dest => match rd {
            Some(rd) => Some(Operands::Dest { rd }),
            None => None,
        },
        Shape::Src => match rs {
            Some(rs) => Some(Operands::Src { rs }),
            None => None,
        },
        Shape::Pair => match (rd, rs) {
            (Some(rd), Some(rs)) => Some(Operands::Pair { rd, rs }),
            _ => None,
        },
        Shape::Imm => match rd {
            Some(rd) => Some(Operands::Imm { rd, imm: read_le(operands, 1, width) }),
            None => None,
        },
        Shape::Load => match rd {
            Some(rd) => Some(
                Operands::Load { rd, addr: AddressView::Addr(read_le(operands, 1, 3)) },
            ),
            None => None,
        },
        Shape::Store => match rs {
            Some(rs) => Some(
                Operands::Store { rs, addr: AddressView::Addr(read_le(operands, 1, 3)) },
            ),
            None => None,
        },
        Shape::Jump => Some(Operands::Jump { addr: AddressView::Addr(read_le(operands, 0, 3)) }),
    }
}

/// What the operand bytes of a decoded operation say when they are read by
/// the layout and the width of the operation.
pub open spec fn operands_read(code: OpCode, operands: Seq<u8>) -> Option<Operands> {
    operands_read_by(code.shape(), code.width() as nat, operands)
}

/// Operand bytes as the decoder hands them on: followed by zeros up to
/// four bytes.
pub open spec fn padded(tail: Seq<u8>) -> Seq<u8> {
    Seq::new(4, |i: int| if i < tail.len() { tail[i] } else { 0u8 })
}

/// Where the code of an operation and the operand bytes that it announces
/// lie in memory at the program counter, fetching and decoding gives the
/// operation and those bytes, and moves the program counter past them.
pub proof fn lemma_fetch_decode(m: Machine, code: OpCode, tail: Seq<u8>)
    requires
        code != OpCode::NOP,
        m.wf(),
        tail.len() == operand_count(code.code()),
        m.pc + 2 + tail.len() <= MEM_SIZE,
        m.mem.subrange(m.pc as int, (m.pc + 2 + tail.len()) as int) == le_bytes2(
            code.code() as nat,
        ) + tail,
    ensures
        decode(fetch(m)) == Ok::<(OpCode, Seq<u8>, Machine), CpuError>(
            (
                code,
                padded(tail),
                Machine { pc: m.pc + 2 + tail.len(), ir: code.code(), ..m },
            ),
        ),
{
    let c = code.code();
    let bytes = le_bytes2(c as nat) + tail;
    let end = (m.pc + 2 + tail.len()) as int;
    assert forall|i: int| 0 <= i < bytes.len() implies m.mem[m.pc + i] == bytes[i] by {
        assert(m.mem.subrange(m.pc as int, end)[i] == m.mem[m.pc + i]);
    }
    assert(bytes[0] == (c % 0x100) as u8);
    assert(bytes[1] == ((c / 0x100) % 0x100) as u8);
    assert(word_at_pc(m) == c);
    lemma_decodes(m, code);
    let operands = operand_bytes(m.mem, m.pc as int + 2, tail.len());
    assert forall|i: int| 0 <= i < 4 implies operands[i] == padded(tail)[i] by {
        if i < tail.len() {
            assert(bytes[2 + i] == tail[i]);
        }
    }
    assert(operands =~= padded(tail));
}

/// A register byte gives back the registers that were packed into it.
proof fn lemma_nibbles(rd: u8, rs: u8)
    requires
        rd < 16,
        rs < 16,
    ensures
        ((rd + rs * 16) as u8) % 16 == rd,
        ((rd + rs * 16) as u8) / 16 == rs,
        rd + rs * 16 < 0x100,
{
}

/// The bytes of a number of `width` bytes after a register byte spell the
/// number.
proof fn lemma_read_after(head: u8, v: nat, width: nat)
    requires
        1 <= width <= 3,
        v < limit(width),
    ensures
        padded(seq![head] + imm_bytes(v, width))[0] == head,
        read_le(padded(seq![head] + imm_bytes(v, width)), 1, width) == v,
{
    let rest = imm_bytes(v, width);
    let tail = seq![head] + rest;
    let read = padded(tail);
    assert(tail[0] == head);
    assert(rest.len() == width);
    assert forall|i: int| 0 <= i < width implies read[1 + i] == rest[i] by {
        assert(tail[1 + i] == rest[i]);
    }
    if width == 1 {
        assert(read[1] == (v % 0x100) as u8);
    } else if width == 2 {
        assert(read[1] == (v % 0x100) as u8);
        assert(read[2] == ((v / 0x100) % 0x100) as u8);
    } else {
        assert(read[1] == (v % 0x100) as u8);
        assert(read[2] == ((v / 0x100) % 0x100) as u8);
        assert(read[3] == ((v / 0x1_0000) % 0x100) as u8);
    }
}

/// The three bytes of an address spell the address.
proof fn lemma_read_address(v: nat)
    requires
        v < 0x0100_0000,
    ensures
        read_le(padded(le_bytes3(v)), 0, 3) == v,
{
    let tail = le_bytes3(v);
    let read = padded(tail);
    assert(read[0] == (v % 0x100) as u8);
    assert(read[1] == ((v / 0x100) % 0x100) as u8);
    assert(read[2] == ((v / 0x1_0000) % 0x100) as u8);
}

/// The bytes of operands without labels, read by the layout of those
/// operands, say the operands again, where an immediate fits the width and
/// an address fits 24 bits.
pub proof fn lemma_operands_read(operands: Operands, width: nat)
    requires
        operands is Imm ==> 1 <= width <= 3,
        operands matches Operands::Imm { imm, .. } ==> imm < limit(width),
        operands.address() matches Some(addr) ==> addr matches AddressView::Addr(a) && a
            < 0x0100_0000,
    ensures
        operands_read_by(operands.shape(), width, padded(operands.bytes(width))) == Some(operands),
{
    let tail = operands.bytes(width);
    let read = padded(tail);
    match operands {
        Operands::Implied => {},
        Operands::Dest { rd } => {
            rd.lemma_at_index();
            lemma_nibbles(rd.index(), 0);
            assert(read[0] == rd.index());
        },
        Operands::Src { rs } => {
            rs.lemma_at_index();
            lemma_nibbles(0, rs.index());
            assert(read[0] == (rs.index() * 16) as u8);
        },
        Operands::Pair { rd, rs } => {
            rd.lemma_at_index();
            rs.lemma_at_index();
            lemma_nibbles(rd.index(), rs.index());
            assert(read[0] == (rd.index() + rs.index() * 16) as u8);
        },
        Operands::Imm { rd, imm } => {
            rd.lemma_at_index();
            lemma_nibbles(rd.index(), 0);
            lemma_read_after(rd.index(), imm, width);
        },
        Operands::Load { rd, addr } => {
            rd.lemma_at_index();
            lemma_nibbles(rd.index(), 0);
            lemma_read_after(rd.index(), addr.value(), 3);
        },
        Operands::Store { rs, addr } => {
            rs.lemma_at_index();
            lemma_nibbles(0, rs.index());
            lemma_read_after((rs.index() * 16) as u8, addr.value(), 3);
        },
        Operands::Jump { addr } => {
            lemma_read_address(addr.value());
        },
    }
}

/// Decoding undoes encoding. Where the bytes of a well-formed instruction
/// without labels lie in memory at the program counter, fetching and
/// decoding gives back its operation and, read by the layout of that
/// operation, its operands, and moves the program counter past exactly the
/// bytes of the instruction.
pub proof fn lemma_decode_encode(v: InstructionView, m: Machine)
    requires
        v.wf(),
        v.resolved(),
        m.wf(),
        m.pc + v.len() <= MEM_SIZE,
        m.mem.subrange(m.pc as int, (m.pc + v.len()) as int) == v.encoding(),
    ensures
        decode(fetch(m)) matches Ok((code, operands, after)) && code == v.code && operands_read(
            code,
            operands,
        ) == Some(v.operands) && after.pc == m.pc + v.len(),
{
    v.lemma_encoding_len();
    lemma_fetch_decode(m, v.code, v.operands.bytes(v.code.width() as nat));
    crate::op::lemma_operand_count(v.code);
    lemma_operands_read(v.operands, v.code.width() as nat);
}

/// No two well-formed instructions without labels have the same bytes.
pub proof fn lemma_encoding_injective(a: InstructionView, b: InstructionView)
    requires
        a.wf(),
        a.resolved(),
        b.wf(),
        b.resolved(),
        a.encoding() == b.encoding(),
    ensures
        a == b,
{
    let mem = a.encoding() + Seq::new((MEM_SIZE - a.encoding().len()) as nat, |i: int| 0u8);
    a.lemma_encoding_len();
    b.lemma_encoding_len();
    let m = Machine {
        pc: 0,
        mem,
        regs: Seq::new(REG_COUNT as nat, |i: int| 0u8),
        flags: 0,
        sp: 0,
        state: CpuState::Idle,
        ir: 0,
        ic: 0,
    };
    assert(mem.subrange(0, a.len() as int) =~= a.encoding());
    lemma_decode_encode(a, m);
    lemma_decode_encode(b, m);
}

} // verus!
