//! The machine that the execution engine implements, as mathematics.
//!
//! A [`Machine`] is the state of the engine: memory and registers as byte
//! sequences, the program counter, stack pointer and instruction counter
//! as numbers. One cycle is [`tick`]: it fetches the code at the program
//! counter, decodes it, reads the operand bytes that the code announces
//! and executes the operation. A cycle that cannot be completed is an
//! error, and leaves the machine as it was.

use crate::op::{decode_code, limit, operand_count, OpCode};
use vstd::prelude::*;

verus! {

/// Number of bytes of memory.
pub const MEM_SIZE: usize = 65536;

/// Number of registers.
pub const REG_COUNT: usize = 9;

/// Mask of the flag that says that the last result was zero.
pub const FLAG_ZERO: u8 = 0x01;

/// Mask of the flag that says that the last result did not fit its width.
pub const FLAG_CARRY: u8 = 0x02;

/// Where the stack pointer starts: near the top of memory.
pub const STACK_TOP: u32 = 0xFFFE;

/// Where the engine is in its life.
#[derive(Debug, Clone, Copy, PartialEq, Eq, Structural)]
pub enum CpuState {
    /// Not started yet.
    Idle,
    /// Executing instructions.
    Running,
    /// Stopped by a `HLT` instruction.
    Halted,
    /// Stopped by an instruction that could not be executed.
    Faulted,
}

/// Why a cycle could not be completed.
#[derive(Debug, Clone, Copy, PartialEq, Eq, Structural)]
pub enum CpuError {
    /// The word at the program counter is the code of no operation.
    InvalidOpCode(u16),
    /// The instruction cannot be read in full or names a register or a
    /// memory location that does not exist, or the engine has no rule for
    /// its operation.
    InvalidInstruction,
}

/// The state of the engine.
pub struct Machine {
    /// Address of the next instruction.
    pub pc: nat,
    /// The memory, `MEM_SIZE` bytes.
    pub mem: Seq<u8>,
    /// The registers, `REG_COUNT` bytes.
    pub regs: Seq<u8>,
    /// The flags, one bit each.
    pub flags: u8,
    /// Address of the top of the stack, which grows downward.
    pub sp: nat,
    /// Where the engine is in its life.
    pub state: CpuState,
    /// The code that was fetched last.
    pub ir: u16,
    /// Number of instructions executed in this run, modulo `2^24`.
    pub ic: nat,
}

/// The operations on two numbers of equal width.
#[derive(Debug, Clone, Copy, PartialEq, Eq, Structural)]
pub enum Alu {
    /// Sum.
    Add,
    /// Difference.
    Sub,
    /// Bitwise AND.
    And,
    /// Bitwise OR.
    Or,
    /// Bitwise XOR.
    Xor,
}

/// The number that the `width` bytes of `s` from `at` on spell, least
/// significant byte first.
pub open spec fn read_le(s: Seq<u8>, at: int, width: nat) -> nat {
    if width == 1 {
        s[at] as nat
    } else if width == 2 {
        (s[at] + s[at + 1] * 0x100) as nat
    } else {
        (s[at] + s[at + 1] * 0x100 + s[at + 2] * 0x1_0000) as nat
    }
}

/// `s` with the `width` bytes from `at` on replaced by those of `v`, least
/// significant byte first.
pub open spec fn write_le(s: Seq<u8>, at: int, width: nat, v: nat) -> Seq<u8> {
    if width == 1 {
        s.update(at, (v % 0x100) as u8)
    } else if width == 2 {
        s.update(at, (v % 0x100) as u8).update(at + 1, ((v / 0x100) % 0x100) as u8)
    } else {
        s.update(at, (v % 0x100) as u8).update(at + 1, ((v / 0x100) % 0x100) as u8).update(
            at + 2,
            ((v / 0x1_0000) % 0x100) as u8,
        )
    }
}

/// The 24-bit number that the three bytes of `s` from `at` on spell, most
/// significant byte first. Return addresses lie on the stack in this order.
pub open spec fn read_be3(s: Seq<u8>, at: int) -> nat {
    (s[at] * 0x1_0000 + s[at + 1] * 0x100 + s[at + 2]) as nat
}

/// `s` with the three bytes from `at` on replaced by those of `v`, most
/// significant byte first.
pub open spec fn write_be3(s: Seq<u8>, at: int, v: nat) -> Seq<u8> {
    s.update(at, ((v / 0x1_0000) % 0x100) as u8).update(
        at + 1,
        ((v / 0x100) % 0x100) as u8,
    ).update(at + 2, (v % 0x100) as u8)
}

/// Whether the bit of `flag` is set in `flags`.
pub open spec fn has_flag(flags: u8, flag: u8) -> bool {
    flags & flag != 0
}

/// `flags` with the bits of `flag` set or cleared.
pub open spec fn with_flag(flags: u8, flag: u8, val: bool) -> u8 {
    if val {
        flags | flag
    } else {
        flags & !flag
    }
}

/// `flags` after an operation whose result was zero or not and carried or
/// not.
pub open spec fn with_result(flags: u8, zero: bool, carry: bool) -> u8 {
    with_flag(with_flag(flags, FLAG_ZERO, zero), FLAG_CARRY, carry)
}

/// The result of an operation on two numbers of `width` bytes, and whether
/// it carried: a sum carries when it does not fit the width, a difference
/// when the second number is the larger; the bitwise operations never do.
pub open spec fn alu(op: Alu, a: nat, b: nat, width: nat) -> (nat, bool) {
    match op {
        Alu::Add => ((a + b) % limit(width), a + b >= limit(width)),
        Alu::Sub => (((a - b) % (limit(width) as int)) as nat, a < b),
        Alu::And => (((a as u32) & (b as u32)) as nat, false),
        Alu::Or => (((a as u32) | (b as u32)) as nat, false),
        Alu::Xor => (((a as u32) ^ (b as u32)) as nat, false),
    }
}

impl Machine {
    /// The sizes are right and the counters fit 24 bits.
    pub open spec fn wf(self) -> bool {
        &&& self.mem.len() == MEM_SIZE
        &&& self.regs.len() == REG_COUNT
        &&& self.pc < 0x0100_0000
        &&& self.sp < 0x0100_0000
        &&& self.ic < 0x0100_0000
    }

    /// Whether `width` registers from `r` on exist.
    pub open spec fn has_regs(r: int, width: nat) -> bool {
        0 <= r && r + width <= REG_COUNT
    }

    /// Whether `width` bytes of memory from `at` on exist.
    pub open spec fn has_mem(at: int, width: nat) -> bool {
        0 <= at && at + width <= MEM_SIZE
    }

    /// The number in the `width` registers from `r` on.
    pub open spec fn reg(self, r: int, width: nat) -> nat {
        read_le(self.regs, r, width)
    }

    /// The machine with `v` in the `width` registers from `r` on.
    pub open spec fn set_reg(self, r: int, width: nat, v: nat) -> Machine {
        Machine { regs: write_le(self.regs, r, width, v), ..self }
    }

    /// The machine with the flags of a result.
    pub open spec fn set_result(self, zero: bool, carry: bool) -> Machine {
        Machine { flags: with_result(self.flags, zero, carry), ..self }
    }

    /// The machine after a fault: stopped, and otherwise as it is.
    pub open spec fn fault(self) -> Machine {
        Machine { state: CpuState::Faulted, ..self }
    }

    /// The machine as a run starts: running, with the instruction counter
    /// at zero.
    pub open spec fn start(self) -> Machine {
        Machine { state: CpuState::Running, ic: 0, ..self }
    }

    /// The machine after one more instruction was counted.
    pub open spec fn count(self) -> Machine {
        Machine { ic: (self.ic + 1) % 0x0100_0000, ..self }
    }
}

/// The machine after an operation on the registers `rd` and `rs`, which
/// leaves its result in `rd`.
pub open spec fn binary(m: Machine, op: Alu, rd: int, rs: int, width: nat) -> Result<
    Machine,
    CpuError,
> {
    if Machine::has_regs(rd, width) && Machine::has_regs(rs, width) {
        let (v, carry) = alu(op, m.reg(rd, width), m.reg(rs, width), width);
        Ok(m.set_reg(rd, width, v).set_result(v == 0, carry))
    } else {
        Err(CpuError::InvalidInstruction)
    }
}

/// The machine after an operation on the register `rd` and the number
/// `imm`, which leaves its result in `rd`.
pub open spec fn binary_imm(m: Machine, op: Alu, rd: int, imm: nat, width: nat) -> Result<
    Machine,
    CpuError,
> {
    if Machine::has_regs(rd, width) {
        let (v, carry) = alu(op, m.reg(rd, width), imm, width);
        Ok(m.set_reg(rd, width, v).set_result(v == 0, carry))
    } else {
        Err(CpuError::InvalidInstruction)
    }
}

/// The machine after the bits of the register `rd` were inverted.
pub open spec fn invert(m: Machine, rd: int, width: nat) -> Result<Machine, CpuError> {
    if Machine::has_regs(rd, width) {
        let v = (limit(width) - 1 - m.reg(rd, width)) as nat;
        Ok(m.set_reg(rd, width, v).set_result(v == 0, false))
    } else {
        Err(CpuError::InvalidInstruction)
    }
}

/// The machine after the number `imm` was loaded into the register `rd`.
pub open spec fn load_imm(m: Machine, rd: int, imm: nat, width: nat) -> Result<Machine, CpuError> {
    if Machine::has_regs(rd, width) {
        Ok(m.set_reg(rd, width, imm).set_result(imm == 0, false))
    } else {
        Err(CpuError::InvalidInstruction)
    }
}

/// The machine after the register `rd` was loaded from memory at `addr`.
pub open spec fn load(m: Machine, rd: int, addr: nat, width: nat) -> Result<Machine, CpuError> {
    if Machine::has_regs(rd, width) && Machine::has_mem(addr as int, width) {
        let v = read_le(m.mem, addr as int, width);
        Ok(m.set_reg(rd, width, v).set_result(v == 0, false))
    } else {
        Err(CpuError::InvalidInstruction)
    }
}

/// The machine after the register `rs` was stored to memory at `addr`.
pub open spec fn store(m: Machine, rs: int, addr: nat, width: nat) -> Result<Machine, CpuError> {
    if Machine::has_regs(rs, width) && Machine::has_mem(addr as int, width) {
        let v = m.reg(rs, width);
        Ok(Machine { mem: write_le(m.mem, addr as int, width, v), ..m }.set_result(v == 0, false))
    } else {
        Err(CpuError::InvalidInstruction)
    }
}

/// The machine after a jump to `addr` that is taken or not.
pub open spec fn jump(m: Machine, taken: bool, addr: nat) -> Result<Machine, CpuError> {
    if taken {
        Ok(Machine { pc: addr, ..m })
    } else {
        Ok(m)
    }
}

/// The stack pointer after `width` bytes were pushed: it moves down, and
/// wraps as every 24-bit number does.
pub open spec fn sp_down(sp: nat, width: nat) -> nat {
    ((sp - width) % 0x0100_0000) as nat
}

/// The stack pointer after `width` bytes were popped.
pub open spec fn sp_up(sp: nat, width: nat) -> nat {
    (sp + width) % 0x0100_0000
}

/// The machine after a call of the subroutine at `addr`: the address of the
/// next instruction lies on the stack, and the stack pointer is three
/// lower.
pub open spec fn call(m: Machine, addr: nat) -> Result<Machine, CpuError> {
    let sp = sp_down(m.sp, 3);
    if Machine::has_mem(sp as int, 3) {
        Ok(Machine { mem: write_be3(m.mem, sp as int, m.pc), sp, pc: addr, ..m })
    } else {
        Err(CpuError::InvalidInstruction)
    }
}

/// The machine after a return from a subroutine: the program counter is
/// the address that lay on the stack, and the stack pointer is three
/// higher.
pub open spec fn ret(m: Machine) -> Result<Machine, CpuError> {
    if Machine::has_mem(m.sp as int, 3) {
        Ok(Machine { pc: read_be3(m.mem, m.sp as int), sp: sp_up(m.sp, 3), ..m })
    } else {
        Err(CpuError::InvalidInstruction)
    }
}

/// The machine after the register `rs` was pushed onto the stack.
pub open spec fn push(m: Machine, rs: int, width: nat) -> Result<Machine, CpuError> {
    let sp = sp_down(m.sp, width);
    if Machine::has_regs(rs, width) && Machine::has_mem(sp as int, width) {
        Ok(Machine { mem: write_le(m.mem, sp as int, width, m.reg(rs, width)), sp, ..m })
    } else {
        Err(CpuError::InvalidInstruction)
    }
}

/// The machine after the register `rd` was popped from the stack.
pub open spec fn pop(m: Machine, rd: int, width: nat) -> Result<Machine, CpuError> {
    if Machine::has_regs(rd, width) && Machine::has_mem(m.sp as int, width) {
        Ok(
            Machine { sp: sp_up(m.sp, width), ..m }.set_reg(
                rd,
                width,
                read_le(m.mem, m.sp as int, width),
            ),
        )
    } else {
        Err(CpuError::InvalidInstruction)
    }
}

/// Index of the destination register in operand bytes: the low nibble of
/// the first.
pub open spec fn rd_of(operands: Seq<u8>) -> int {
    (operands[0] % 16) as int
}

/// Index of the source register in operand bytes: the high nibble of the
/// first.
pub open spec fn rs_of(operands: Seq<u8>) -> int {
    (operands[0] / 16) as int
}

/// A test on the flags that decides whether a jump is taken.
#[derive(Debug, Clone, Copy, PartialEq, Eq, Structural)]
pub enum Cond {
    /// Always taken.
    Always,
    /// Taken when the zero flag is set.
    Zero,
    /// Taken when the zero flag is clear.
    NotZero,
    /// Taken when the carry flag is set.
    Carry,
    /// Taken when the carry flag is clear.
    NotCarry,
}

/// What the engine does for an operation. Operations that differ in width
/// alone share a rule.
#[derive(Debug, Clone, Copy, PartialEq, Eq, Structural)]
pub enum Rule {
    /// Nothing.
    Nop,
    /// Stop.
    Halt,
    /// Return from a subroutine.
    Return,
    /// Combine two registers.
    Binary(Alu),
    /// Invert the bits of a register.
    Invert,
    /// Add one to a register.
    Increment,
    /// Subtract one from a register.
    Decrement,
    /// Load an immediate into a register.
    LoadImm,
    /// Add an immediate to a register.
    AddImm,
    /// Load a register from memory.
    Load,
    /// Store a register to memory.
    Store,
    /// Push a register onto the stack.
    Push,
    /// Pop a register from the stack.
    Pop,
    /// Jump if a condition holds.
    Jump(Cond),
    /// Call a subroutine.
    Call,
    /// The engine has no rule for the operation.
    Undefined,
}

/// The rule for an operation.
pub open spec fn rule_spec(code: OpCode) -> Rule {
    match code {
        OpCode::NOP => Rule::Nop,
        OpCode::HLT => Rule::Halt,
        OpCode::RTS => Rule::Return,
        OpCode::ADD1 => Rule::Binary(Alu::Add),
        OpCode::SUB1 => Rule::Binary(Alu::Sub),
        OpCode::AND1 => Rule::Binary(Alu::And),
        OpCode::OR1 => Rule::Binary(Alu::Or),
        OpCode::XOR1 => Rule::Binary(Alu::Xor),
        OpCode::MOV1 => Rule::Undefined,
        OpCode::INC1 => Rule::Increment,
        OpCode::DEC1 => Rule::Decrement,
        OpCode::NEG1 => Rule::Undefined,
        OpCode::NOT1 => Rule::Invert,
        OpCode::SHL1 => Rule::Undefined,
        OpCode::SHR1 => Rule::Undefined,
        OpCode::ROL1 => Rule::Undefined,
        OpCode::ROR1 => Rule::Undefined,
        OpCode::CMP1 => Rule::Undefined,
        OpCode::TST1 => Rule::Undefined,
        OpCode::PUSH1 => Rule::Push,
        OpCode::POP1 => Rule::Pop,
        OpCode::ADD2 => Rule::Binary(Alu::Add),
        OpCode::SUB2 => Rule::Binary(Alu::Sub),
        OpCode::AND2 => Rule::Binary(Alu::And),
        OpCode::OR2 => Rule::Binary(Alu::Or),
        OpCode::XOR2 => Rule::Binary(Alu::Xor),
        OpCode::MOV2 => Rule::Undefined,
        OpCode::INC2 => Rule::Increment,
        OpCode::DEC2 => Rule::Decrement,
        OpCode::NEG2 => Rule::Undefined,
        OpCode::NOT2 => Rule::Invert,
        OpCode::SHL2 => Rule::Undefined,
        OpCode::SHR2 => Rule::Undefined,
        OpCode::ROL2 => Rule::Undefined,
        OpCode::ROR2 => Rule::Undefined,
        OpCode::CMP2 => Rule::Undefined,
        OpCode::TST2 => Rule::Undefined,
        OpCode::PUSH2 => Rule::Push,
        OpCode::POP2 => Rule::Pop,
        OpCode::ADD3 => Rule::Binary(Alu::Add),
        OpCode::SUB3 => Rule::Binary(Alu::Sub),
        OpCode::AND3 => Rule::Binary(Alu::And),
        OpCode::OR3 => Rule::Binary(Alu::Or),
        OpCode::XOR3 => Rule::Binary(Alu::Xor),
        OpCode::MOV3 => Rule::Undefined,
        OpCode::INC3 => Rule::Increment,
        OpCode::DEC3 => Rule::Decrement,
        OpCode::NEG3 => Rule::Undefined,
        OpCode::NOT3 => Rule::Invert,
        OpCode::SHL3 => Rule::Undefined,
        OpCode::SHR3 => Rule::Undefined,
        OpCode::ROL3 => Rule::Undefined,
        OpCode::ROR3 => Rule::Undefined,
        OpCode::CMP3 => Rule::Undefined,
        OpCode::TST3 => Rule::Undefined,
        OpCode::PUSH3 => Rule::Push,
        OpCode::POP3 => Rule::Pop,
        OpCode::LOADI1 => Rule::LoadImm,
        OpCode::ADDI1 => Rule::AddImm,
        OpCode::JMP => Rule::Jump(Cond::Always),
        OpCode::JZ => Rule::Jump(Cond::Zero),
        OpCode::JNZ => Rule::Jump(Cond::NotZero),
        OpCode::JC => Rule::Jump(Cond::Carry),
        OpCode::JNC => Rule::Jump(Cond::NotCarry),
        OpCode::JSR => Rule::Call,
        OpCode::LOADI2 => Rule::LoadImm,
        OpCode::ADDI2 => Rule::AddImm,
        OpCode::JMPA => Rule::Undefined,
        OpCode::JZA => Rule::Undefined,
        OpCode::JNZA => Rule::Undefined,
        OpCode::JCA => Rule::Undefined,
        OpCode::JNCA => Rule::Undefined,
        OpCode::JSRA => Rule::Undefined,
        OpCode::LOAD1 => Rule::Load,
        OpCode::STORE1 => Rule::Store,
        OpCode::LOAD2 => Rule::Load,
        OpCode::STORE2 => Rule::Store,
        OpCode::LOADI3 => Rule::LoadImm,
        OpCode::LOAD3 => Rule::Load,
        OpCode::STORE3 => Rule::Store,
        OpCode::ADDI3 => Rule::AddImm,
    }
}

/// The rule for an operation. A rule that works on data has a width of one
/// to three bytes.
#[verifier::when_used_as_spec(rule_spec)]
pub fn rule(code: OpCode) -> (r: Rule)
    ensures
        r == rule_spec(code),
        !(r is Nop || r is Halt || r is Return || r is Jump || r is Call || r is Undefined) ==> 1
            <= code.width() <= 3,
{
    match code {
        OpCode::NOP => Rule::Nop,
        OpCode::HLT => Rule::Halt,
        OpCode::RTS => Rule::Return,
        OpCode::ADD1 => Rule::Binary(Alu::Add),
        OpCode::SUB1 => Rule::Binary(Alu::Sub),
        OpCode::AND1 => Rule::Binary(Alu::And),
        OpCode::OR1 => Rule::Binary(Alu::Or),
        OpCode::XOR1 => Rule::Binary(Alu::Xor),
        OpCode::MOV1 => Rule::Undefined,
        OpCode::INC1 => Rule::Increment,
        OpCode::DEC1 => Rule::Decrement,
        OpCode::NEG1 => Rule::Undefined,
        OpCode::NOT1 => Rule::Invert,
        OpCode::SHL1 => Rule::Undefined,
        OpCode::SHR1 => Rule::Undefined,
        OpCode::ROL1 => Rule::Undefined,
        OpCode::ROR1 => Rule::Undefined,
        OpCode::CMP1 => Rule::Undefined,
        OpCode::TST1 => Rule::Undefined,
        OpCode::PUSH1 => Rule::Push,
        OpCode::POP1 => Rule::Pop,
        OpCode::ADD2 => Rule::Binary(Alu::Add),
        OpCode::SUB2 => Rule::Binary(Alu::Sub),
        OpCode::AND2 => Rule::Binary(Alu::And),
        OpCode::OR2 => Rule::Binary(Alu::Or),
        OpCode::XOR2 => Rule::Binary(Alu::Xor),
        OpCode::MOV2 => Rule::Undefined,
        OpCode::INC2 => Rule::Increment,
        OpCode::DEC2 => Rule::Decrement,
        OpCode::NEG2 => Rule::Undefined,
        OpCode::NOT2 => Rule::Invert,
        OpCode::SHL2 => Rule::Undefined,
        OpCode::SHR2 => Rule::Undefined,
        OpCode::ROL2 => Rule::Undefined,
        OpCode::ROR2 => Rule::Undefined,
        OpCode::CMP2 => Rule::Undefined,
        OpCode::TST2 => Rule::Undefined,
        OpCode::PUSH2 => Rule::Push,
        OpCode::POP2 => Rule::Pop,
        OpCode::ADD3 => Rule::Binary(Alu::Add),
        OpCode::SUB3 => Rule::Binary(Alu::Sub),
        OpCode::AND3 => Rule::Binary(Alu::And),
        OpCode::OR3 => Rule::Binary(Alu::Or),
        OpCode::XOR3 => Rule::Binary(Alu::Xor),
        OpCode::MOV3 => Rule::Undefined,
        OpCode::INC3 => Rule::Increment,
        OpCode::DEC3 => Rule::Decrement,
        OpCode::NEG3 => Rule::Undefined,
        OpCode::NOT3 => Rule::Invert,
        OpCode::SHL3 => Rule::Undefined,
        OpCode::SHR3 => Rule::Undefined,
        OpCode::ROL3 => Rule::Undefined,
        OpCode::ROR3 => Rule::Undefined,
        OpCode::CMP3 => Rule::Undefined,
        OpCode::TST3 => Rule::Undefined,
        OpCode::PUSH3 => Rule::Push,
        OpCode::POP3 => Rule::Pop,
        OpCode::LOADI1 => Rule::LoadImm,
        OpCode::ADDI1 => Rule::AddImm,
        OpCode::JMP => Rule::Jump(Cond::Always),
        OpCode::JZ => Rule::Jump(Cond::Zero),
        OpCode::JNZ => Rule::Jump(Cond::NotZero),
        OpCode::JC => Rule::Jump(Cond::Carry),
        OpCode::JNC => Rule::Jump(Cond::NotCarry),
        OpCode::JSR => Rule::Call,
        OpCode::LOADI2 => Rule::LoadImm,
        OpCode::ADDI2 => Rule::AddImm,
        OpCode::JMPA => Rule::Undefined,
        OpCode::JZA => Rule::Undefined,
        OpCode::JNZA => Rule::Undefined,
        OpCode::JCA => Rule::Undefined,
        OpCode::JNCA => Rule::Undefined,
        OpCode::JSRA => Rule::Undefined,
        OpCode::LOAD1 => Rule::Load,
        OpCode::STORE1 => Rule::Store,
        OpCode::LOAD2 => Rule::Load,
        OpCode::STORE2 => Rule::Store,
        OpCode::LOADI3 => Rule::LoadImm,
        OpCode::LOAD3 => Rule::Load,
        OpCode::STORE3 => Rule::Store,
        OpCode::ADDI3 => Rule::AddImm,
    }
}

/// Whether a jump on `cond` is taken with these flags.
pub open spec fn holds(cond: Cond, flags: u8) -> bool {
    match cond {
        Cond::Always => true,
        Cond::Zero => has_flag(flags, FLAG_ZERO),
        Cond::NotZero => !has_flag(flags, FLAG_ZERO),
        Cond::Carry => has_flag(flags, FLAG_CARRY),
        Cond::NotCarry => !has_flag(flags, FLAG_CARRY),
    }
}

/// The machine after the operation `code` with the operand bytes
/// `operands`, or the reason why it cannot be executed. The engine has
/// rules for the arithmetic and bitwise operations, the loads and stores,
/// the jumps, calls and returns, the stack transfers, `NOP` and `HLT`; any
/// other operation is an invalid instruction.
#[verifier::opaque]
pub open spec fn execute(m: Machine, code: OpCode, operands: Seq<u8>) -> Result<Machine, CpuError> {
    let rd = rd_of(operands);
    let rs = rs_of(operands);
    let w = code.width() as nat;
    match rule(code) {
        Rule::Nop => Ok(m),
        Rule::Halt => Ok(Machine { state: CpuState::Halted, ..m }),
        Rule::Return => ret(m),
        Rule::Binary(op) => binary(m, op, rd, rs, w),
        Rule::Invert => invert(m, rd, w),
        Rule::Increment => binary_imm(m, Alu::Add, rd, 1, w),
        Rule::Decrement => binary_imm(m, Alu::Sub, rd, 1, w),
        Rule::LoadImm => load_imm(m, rd, read_le(operands, 1, w), w),
        Rule::AddImm => binary_imm(m, Alu::Add, rd, read_le(operands, 1, w), w),
        Rule::Load => load(m, rd, read_le(operands, 1, 3), w),
        Rule::Store => store(m, rs, read_le(operands, 1, 3), w),
        Rule::Push => push(m, rs, w),
        Rule::Pop => pop(m, rd, w),
        Rule::Jump(cond) => jump(m, holds(cond, m.flags), read_le(operands, 0, 3)),
        Rule::Call => call(m, read_le(operands, 0, 3)),
        Rule::Undefined => Err(CpuError::InvalidInstruction),
    }
}

/// The machine after the code at the program counter was fetched: the code
/// is in the instruction register and the program counter is past it. The
/// two bytes must lie in memory.
pub open spec fn fetch(m: Machine) -> Machine {
    Machine { ir: read_le(m.mem, m.pc as int, 2) as u16, pc: (m.pc + 2) % 0x0100_0000, ..m }
}

/// The `count` bytes of `mem` from `at` on, followed by zeros up to four
/// bytes.
pub open spec fn operand_bytes(mem: Seq<u8>, at: int, count: nat) -> Seq<u8> {
    Seq::new(4, |i: int| if i < count { mem[at + i] } else { 0u8 })
}

/// The operation and the operand bytes of the instruction whose code is in
/// the instruction register, and the machine with the program counter past
/// the operand bytes. How many bytes are read depends on the code alone,
/// not on what the operation is. A code that stands for no operation is an
/// invalid opcode; operand bytes that lie outside memory make an invalid
/// instruction.
pub open spec fn decode(m: Machine) -> Result<(OpCode, Seq<u8>, Machine), CpuError> {
    let count = operand_count(m.ir);
    match decode_code(m.ir) {
        None => Err(CpuError::InvalidOpCode(m.ir)),
        Some(code) => if Machine::has_mem(m.pc as int, count) {
            Ok(
                (
                    code,
                    operand_bytes(m.mem, m.pc as int, count),
                    Machine { pc: (m.pc + count) % 0x0100_0000, ..m },
                ),
            )
        } else {
            Err(CpuError::InvalidInstruction)
        },
    }
}

/// The machine after one cycle, or the reason why the cycle cannot be
/// completed.
pub open spec fn tick(m: Machine) -> Result<Machine, CpuError> {
    if Machine::has_mem(m.pc as int, 2) {
        match decode(fetch(m)) {
            Err(e) => Err(e),
            Ok((code, operands, next)) => execute(next, code, operands),
        }
    } else {
        Err(CpuError::InvalidInstruction)
    }
}

/// The machine after a cycle that failed: faulted, with the program
/// counter still at the instruction that failed and, where its code could
/// be fetched, that code in the instruction register.
pub open spec fn tick_fault(m: Machine) -> Machine {
    if Machine::has_mem(m.pc as int, 2) {
        Machine { ir: fetch(m).ir, ..m }.fault()
    } else {
        m.fault()
    }
}

/// The machine after at most `fuel` cycles, and how the run ended. The run
/// ends when the machine is no longer running, at the first cycle that
/// fails, or when the cycles are used up.
pub open spec fn run(m: Machine, fuel: nat) -> (Machine, Result<(), CpuError>)
    decreases fuel,
{
    if fuel == 0 || m.state != CpuState::Running {
        (m, Ok(()))
    } else {
        match tick(m) {
            Err(e) => (tick_fault(m), Err(e)),
            Ok(next) => run(next.count(), (fuel - 1) as nat),
        }
    }
}

/// The flags after a result say whether it was zero and whether it
/// carried, and no other flag has changed.
pub proof fn lemma_result_flags(flags: u8, zero: bool, carry: bool)
    ensures
        has_flag(with_result(flags, zero, carry), FLAG_ZERO) == zero,
        has_flag(with_result(flags, zero, carry), FLAG_CARRY) == carry,
        with_result(flags, zero, carry) & !3u8 == flags & !3u8,
{
    let f = flags;
    if zero && carry {
        assert(((f | 1u8) | 2u8) & 1u8 != 0 && ((f | 1u8) | 2u8) & 2u8 != 0 && ((f | 1u8) | 2u8)
            & !3u8 == f & !3u8) by (bit_vector);
    } else if zero {
        assert(((f | 1u8) & !2u8) & 1u8 != 0 && ((f | 1u8) & !2u8) & 2u8 == 0 && ((f | 1u8) & !2u8)
            & !3u8 == f & !3u8) by (bit_vector);
    } else if carry {
        assert(((f & !1u8) | 2u8) & 1u8 == 0 && ((f & !1u8) | 2u8) & 2u8 != 0 && ((f & !1u8) | 2u8)
            & !3u8 == f & !3u8) by (bit_vector);
    } else {
        assert(((f & !1u8) & !2u8) & 1u8 == 0 && ((f & !1u8) & !2u8) & 2u8 == 0 && ((f & !1u8)
            & !2u8) & !3u8 == f & !3u8) by (bit_vector);
    }
}

/// After an operation on two registers the zero flag says whether the
/// result is zero and the carry flag whether the operation carried.
pub proof fn lemma_binary_flags(m: Machine, op: Alu, rd: int, rs: int, width: nat)
    ensures
        binary(m, op, rd, rs, width) matches Ok(after) ==> has_flag(after.flags, FLAG_ZERO) == (alu(
            op,
            m.reg(rd, width),
            m.reg(rs, width),
            width,
        ).0 == 0) && has_flag(after.flags, FLAG_CARRY) == alu(
            op,
            m.reg(rd, width),
            m.reg(rs, width),
            width,
        ).1,
{
    let (v, carry) = alu(op, m.reg(rd, width), m.reg(rs, width), width);
    lemma_result_flags(m.flags, v == 0, carry);
}

/// The bitwise operations never set the carry flag: after `AND`, `OR` or
/// `XOR` of any width it is clear.
pub proof fn lemma_bitwise_never_carries(m: Machine, code: OpCode, operands: Seq<u8>)
    requires
        rule(code) == Rule::Binary(Alu::And) || rule(code) == Rule::Binary(Alu::Or) || rule(code)
            == Rule::Binary(Alu::Xor),
    ensures
        execute(m, code, operands) matches Ok(after) ==> !has_flag(after.flags, FLAG_CARRY),
{
    reveal(execute);
    let op = rule(code)->Binary_0;
    lemma_binary_flags(m, op, rd_of(operands), rs_of(operands), code.width() as nat);
}

/// A return address that was written to the stack is read back from it.
pub proof fn lemma_read_be3_of_write(mem: Seq<u8>, at: int, v: nat)
    requires
        0 <= at,
        at + 3 <= mem.len(),
        v < 0x0100_0000,
    ensures
        read_be3(write_be3(mem, at, v), at) == v,
{
}

/// The three bytes on top of the stack.
pub open spec fn stack_top(m: Machine) -> Seq<u8> {
    m.mem.subrange(m.sp as int, m.sp as int + 3)
}

/// Call and return are symmetric. After a call, a return from any machine
/// that has the same stack pointer and the same three bytes on top of the
/// stack goes back to the address that the program counter held at the
/// call, and the stack pointer is what it was before the call.
pub proof fn lemma_call_return(m: Machine, target: nat, later: Machine)
    requires
        m.wf(),
        later.wf(),
        call(m, target) is Ok,
        later.sp == call(m, target)->Ok_0.sp,
        stack_top(later) == stack_top(call(m, target)->Ok_0),
    ensures
        ret(later) matches Ok(back) && back.pc == m.pc && back.sp == m.sp,
{
    let called = call(m, target)->Ok_0;
    let sp = called.sp as int;
    lemma_read_be3_of_write(m.mem, sp, m.pc);
    assert(read_be3(later.mem, sp) == read_be3(called.mem, sp)) by {
        let top = stack_top(later);
        let left = stack_top(called);
        assert(later.mem[sp + 0] == top[0] && called.mem[sp + 0] == left[0]);
        assert(later.mem[sp + 1] == top[1] && called.mem[sp + 1] == left[1]);
        assert(later.mem[sp + 2] == top[2] && called.mem[sp + 2] == left[2]);
    }
}

/// The word of memory at the program counter, if it lies in memory.
pub open spec fn word_at_pc(m: Machine) -> u16 {
    read_le(m.mem, m.pc as int, 2) as u16
}

/// Where a word that is the code of an operation lies at the program
/// counter, with the operand bytes that the code announces in memory
/// behind it, fetching and decoding gives that operation and those bytes,
/// and moves the program counter past them.
pub proof fn lemma_decodes(m: Machine, code: OpCode)
    requires
        code != OpCode::NOP,
        m.wf(),
        m.pc + 2 + operand_count(code.code()) <= MEM_SIZE,
        word_at_pc(m) == code.code(),
    ensures
        decode(fetch(m)) == Ok::<(OpCode, Seq<u8>, Machine), CpuError>(
            (
                code,
                operand_bytes(m.mem, m.pc as int + 2, operand_count(code.code())),
                Machine { pc: m.pc + 2 + operand_count(code.code()), ir: code.code(), ..m },
            ),
        ),
{
    crate::op::lemma_operand_count(code);
    crate::op::lemma_decode_of_code(code);
    let fetched = fetch(m);
    assert(fetched.ir == code.code());
    assert(fetched.pc == m.pc + 2);
}

/// A cycle on a `JSR` that lies in memory is a call of the address in its
/// operand bytes, from the machine with the program counter past the
/// instruction.
pub proof fn lemma_tick_jsr(m: Machine)
    requires
        m.wf(),
        m.pc + 5 <= MEM_SIZE,
        word_at_pc(m) == OpCode::JSR.code(),
    ensures
        tick(m) == call(
            Machine { pc: m.pc + 5, ir: OpCode::JSR.code(), ..m },
            read_le(operand_bytes(m.mem, m.pc as int + 2, 3), 0, 3),
        ),
{
    let at_call = Machine { pc: m.pc + 5, ir: OpCode::JSR.code(), ..m };
    let operands = operand_bytes(m.mem, m.pc as int + 2, 3);
    assert(tick(m) == execute(at_call, OpCode::JSR, operands)) by {
        lemma_decodes(m, OpCode::JSR);
    }
    assert(execute(at_call, OpCode::JSR, operands) == call(at_call, read_le(operands, 0, 3))) by {
        reveal(execute);
        assert(rule(OpCode::JSR) == Rule::Call);
    }
}

/// A cycle on an `RTS` is a return, from the machine with the program
/// counter past the instruction.
pub proof fn lemma_tick_rts(m: Machine)
    requires
        m.wf(),
        m.pc + 2 <= MEM_SIZE,
        word_at_pc(m) == OpCode::RTS.code(),
    ensures
        tick(m) == ret(Machine { pc: m.pc + 2, ir: OpCode::RTS.code(), ..m }),
{
    let at_return = Machine { pc: m.pc + 2, ir: OpCode::RTS.code(), ..m };
    let operands = operand_bytes(m.mem, m.pc as int + 2, 0);
    assert(tick(m) == execute(at_return, OpCode::RTS, operands)) by {
        lemma_decodes(m, OpCode::RTS);
    }
    assert(execute(at_return, OpCode::RTS, operands) == ret(at_return)) by {
        reveal(execute);
        assert(rule(OpCode::RTS) == Rule::Return);
    }
}

/// Call and return are symmetric over whole cycles. Where a cycle executes
/// a `JSR` that lies in memory, and a later cycle executes `RTS` with the
/// same stack pointer and the same three bytes on top of the stack as the
/// call left, that cycle ends with the program counter at the instruction
/// after the `JSR` and the stack pointer at its value before the call.
pub proof fn lemma_jsr_rts(m: Machine, later: Machine)
    requires
        m.wf(),
        later.wf(),
        m.pc + 5 <= MEM_SIZE,
        word_at_pc(m) == OpCode::JSR.code(),
        tick(m) is Ok,
        later.pc + 2 <= MEM_SIZE,
        word_at_pc(later) == OpCode::RTS.code(),
        later.sp == tick(m)->Ok_0.sp,
        stack_top(later) == stack_top(tick(m)->Ok_0),
    ensures
        tick(later) matches Ok(back) && back.pc == m.pc + 5 && back.sp == m.sp,
{
    lemma_tick_jsr(m);
    lemma_tick_rts(later);
    let at_call = Machine { pc: m.pc + 5, ir: OpCode::JSR.code(), ..m };
    let target = read_le(operand_bytes(m.mem, m.pc as int + 2, 3), 0, 3);
    let at_return = Machine { pc: later.pc + 2, ir: OpCode::RTS.code(), ..later };
    assert(stack_top(at_return) == stack_top(later));
    lemma_call_return(at_call, target, at_return);
}

/// A word that is the code of no operation stops the machine where it
/// lies: the cycle fails with that word as an invalid opcode, and the
/// faulted machine has the program counter at the word, not after it.
pub proof fn lemma_invalid_opcode_faults_in_place(m: Machine)
    requires
        Machine::has_mem(m.pc as int, 2),
        decode_code(word_at_pc(m)) is None,
    ensures
        tick(m) == Err::<Machine, CpuError>(CpuError::InvalidOpCode(word_at_pc(m))),
        tick_fault(m).pc == m.pc,
        tick_fault(m).state == CpuState::Faulted,
        tick_fault(m).ir == word_at_pc(m),
        run(m.start(), 1).1 == Err::<(), CpuError>(CpuError::InvalidOpCode(word_at_pc(m))),
        run(m.start(), 1).0.pc == m.pc,
{
    reveal_with_fuel(run, 2);
}

/// A cycle leaves the machine in the state it was in, unless it halts it.
pub proof fn lemma_tick_state(m: Machine)
    ensures
        tick(m) matches Ok(next) ==> next.state == m.state || next.state == CpuState::Halted,
{
    reveal(execute);
}

/// How a run ends: with an error and the machine faulted, or without one
/// and the machine halted or, where the cycles are used up, still running.
pub proof fn lemma_run_ends(m: Machine, fuel: nat)
    requires
        m.state == CpuState::Running,
    ensures
        run(m, fuel).1 is Err ==> run(m, fuel).0.state == CpuState::Faulted,
        run(m, fuel).1 is Ok ==> run(m, fuel).0.state == CpuState::Halted || run(m, fuel).0.state
            == CpuState::Running,
    decreases fuel,
{
    if fuel != 0 {
        lemma_tick_state(m);
        match tick(m) {
            Err(e) => {},
            Ok(next) => {
                if next.state == CpuState::Running {
                    lemma_run_ends(next.count(), (fuel - 1) as nat);
                } else {
                    reveal_with_fuel(run, 2);
                }
            },
        }
    }
}

} // verus!
