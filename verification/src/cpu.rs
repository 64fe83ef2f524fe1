//! The execution engine: memory, registers, flags, program counter and
//! stack pointer, and the cycle that fetches, decodes and executes.
//!
//! A [`Cpu`] is seen in contracts as the [`Machine`] that it holds, and
//! every method says which machine that is afterwards.

use crate::machine::{
    alu, has_flag, holds, read_le, rule, with_flag, write_be3, write_le, Alu, Cond, CpuError,
    CpuState, Machine, Rule, FLAG_CARRY, FLAG_ZERO, MEM_SIZE, REG_COUNT, STACK_TOP,
};
use crate::op::{limit, operand_byte_count, Op, OpCode};
use crate::u24::U24;
use vstd::prelude::*;

verus! {

/// The state of the engine.
pub struct Cpu {
    /// Program counter: address of the next instruction.
    pub pc: U24,
    /// The memory. Program, data and stack share it.
    pub mem: [u8; MEM_SIZE],
    /// The registers.
    pub regs: [u8; REG_COUNT],
    /// The flags, one bit each.
    pub flags: u8,
    /// Stack pointer: address of the top of the stack.
    pub sp: U24,
    /// Where the engine is in its life.
    pub state: CpuState,
    /// Instruction register: the code that was fetched last.
    pub ir: u16,
    /// Instruction counter: instructions executed in this run.
    pub ic: U24,
}

impl View for Cpu {
    type V = Machine;

    open spec fn view(&self) -> Machine {
        Machine {
            pc: self.pc@,
            mem: self.mem@,
            regs: self.regs@,
            flags: self.flags,
            sp: self.sp@,
            state: self.state,
            ir: self.ir,
            ic: self.ic@,
        }
    }
}

/// Whether a step that was meant to give `expected` did so: on success the
/// machine is the expected one, on failure the error is the expected one
/// and the machine is as it was.
pub open spec fn stepped(
    before: Machine,
    after: Machine,
    r: Result<(), CpuError>,
    expected: Result<Machine, CpuError>,
) -> bool {
    match expected {
        Ok(m) => r is Ok && after == m,
        Err(e) => r == Err::<(), CpuError>(e) && after == before,
    }
}

impl Cpu {
    /// Mask of the zero flag.
    pub const FLAG_ZERO: u8 = 0x01;

    /// Mask of the carry flag.
    pub const FLAG_CARRY: u8 = 0x02;

    /// An idle engine: memory and registers zero, flags clear, the program
    /// counter at 0 and the stack pointer near the top of memory.
    pub fn new() -> (cpu: Cpu)
        ensures
            cpu@ == (Machine {
                pc: 0,
                mem: Seq::new(MEM_SIZE as nat, |i: int| 0u8),
                regs: Seq::new(REG_COUNT as nat, |i: int| 0u8),
                flags: 0,
                sp: STACK_TOP as nat,
                state: CpuState::Idle,
                ir: 0,
                ic: 0,
            }),
            cpu@.wf(),
    {
        let cpu = Cpu {
            pc: U24::new(0),
            mem: [0u8; MEM_SIZE],
            regs: [0u8; REG_COUNT],
            flags: 0,
            sp: U24::new(STACK_TOP),
            state: CpuState::Idle,
            ir: 0,
            ic: U24::new(0),
        };
        assert(cpu@.mem =~= Seq::new(MEM_SIZE as nat, |i: int| 0u8));
        assert(cpu@.regs =~= Seq::new(REG_COUNT as nat, |i: int| 0u8));
        cpu
    }

    /// The byte of memory at `addr`, which must lie in memory.
    pub fn mem_read(&self, addr: U24) -> (r: u8)
        requires
            addr@ < MEM_SIZE,
        ensures
            r == self@.mem[addr@ as int],
    {
        self.mem[addr.value() as usize]
    }

    /// Writes a byte to memory at `addr`, which must lie in memory.
    pub fn mem_write(&mut self, addr: U24, val: u8)
        requires
            addr@ < MEM_SIZE,
        ensures
            final(self)@ == (Machine {
                mem: write_le(old(self)@.mem, addr@ as int, 1, val as nat),
                ..old(self)@
            }),
    {
        self.mem[addr.value() as usize] = val;
        assert(self@.mem =~= write_le(old(self)@.mem, addr@ as int, 1, val as nat));
    }

    /// Writes two bytes to memory at `addr`, the less significant first.
    /// Both must lie in memory.
    pub fn mem_write2(&mut self, addr: U24, val: u16)
        requires
            addr@ + 2 <= MEM_SIZE,
        ensures
            final(self)@ == (Machine {
                mem: write_le(old(self)@.mem, addr@ as int, 2, val as nat),
                ..old(self)@
            }),
    {
        let pos = addr.value() as usize;
        self.mem[pos] = (val % 0x100) as u8;
        self.mem[pos + 1] = (val / 0x100) as u8;
        assert(self@.mem =~= write_le(old(self)@.mem, addr@ as int, 2, val as nat));
    }

    /// Writes three bytes to memory at `addr`, the least significant first.
    /// All must lie in memory.
    pub fn mem_write3(&mut self, addr: U24, val: U24)
        requires
            addr@ + 3 <= MEM_SIZE,
        ensures
            final(self)@ == (Machine {
                mem: write_le(old(self)@.mem, addr@ as int, 3, val@),
                ..old(self)@
            }),
    {
        let bytes = val.to_le_bytes();
        let pos = addr.value() as usize;
        self.mem[pos] = bytes[0];
        self.mem[pos + 1] = bytes[1];
        self.mem[pos + 2] = bytes[2];
        assert(self@.mem =~= write_le(old(self)@.mem, addr@ as int, 3, val@));
    }

    /// The byte in the register `reg`, which must exist.
    pub fn reg_read(&self, reg: u8) -> (r: u8)
        requires
            reg < REG_COUNT,
        ensures
            r == self@.reg(reg as int, 1),
    {
        self.regs[reg as usize]
    }

    /// The 16-bit number in the registers `reg` and `reg + 1`, the less
    /// significant byte in `reg`. Both must exist.
    pub fn reg_read2(&self, reg: u8) -> (r: u16)
        requires
            reg + 2 <= REG_COUNT,
        ensures
            r == self@.reg(reg as int, 2),
    {
        let lo = self.regs[reg as usize];
        let hi = self.regs[reg as usize + 1];
        lo as u16 + hi as u16 * 0x100
    }

    /// The 24-bit number in the registers `reg` to `reg + 2`, the least
    /// significant byte in `reg`. All must exist.
    pub fn reg_read3(&self, reg: u8) -> (r: U24)
        requires
            reg + 3 <= REG_COUNT,
        ensures
            r@ == self@.reg(reg as int, 3),
    {
        let pos = reg as usize;
        let bytes: [u8; 3] = [self.regs[pos], self.regs[pos + 1], self.regs[pos + 2]];
        U24::from_le_bytes(bytes)
    }

    /// Writes a byte to the register `reg`, which must exist.
    pub fn reg_write(&mut self, reg: u8, val: u8)
        requires
            reg < REG_COUNT,
        ensures
            final(self)@ == old(self)@.set_reg(reg as int, 1, val as nat),
    {
        self.regs[reg as usize] = val;
        assert(self@.regs =~= write_le(old(self)@.regs, reg as int, 1, val as nat));
    }

    /// Writes a 16-bit number to the registers `reg` and `reg + 1`, the
    /// less significant byte to `reg`. Both must exist.
    pub fn reg_write2(&mut self, reg: u8, val: u16)
        requires
            reg + 2 <= REG_COUNT,
        ensures
            final(self)@ == old(self)@.set_reg(reg as int, 2, val as nat),
    {
        self.regs[reg as usize] = (val % 0x100) as u8;
        self.regs[reg as usize + 1] = (val / 0x100) as u8;
        assert(self@.regs =~= write_le(old(self)@.regs, reg as int, 2, val as nat));
    }

    /// Writes a 24-bit number to the registers `reg` to `reg + 2`, the
    /// least significant byte to `reg`. All must exist.
    pub fn reg_write3(&mut self, reg: u8, val: U24)
        requires
            reg + 3 <= REG_COUNT,
        ensures
            final(self)@ == old(self)@.set_reg(reg as int, 3, val@),
    {
        let bytes = val.to_le_bytes();
        let pos = reg as usize;
        self.regs[pos] = bytes[0];
        self.regs[pos + 1] = bytes[1];
        self.regs[pos + 2] = bytes[2];
        assert(self@.regs =~= write_le(old(self)@.regs, reg as int, 3, val@));
    }

    /// Whether a bit of `flag` is set.
    pub fn flag_read(&self, flag: u8) -> (r: bool)
        ensures
            r == has_flag(self@.flags, flag),
    {
        self.flags & flag != 0
    }

    /// Sets or clears the bits of `flag`.
    pub fn flag_write(&mut self, flag: u8, val: bool)
        ensures
            final(self)@ == (Machine { flags: with_flag(old(self)@.flags, flag, val), ..old(self)@ }),
    {
        if val {
            self.flags = self.flags | flag
        } else {
            self.flags = self.flags & !flag
        }
    }
}

impl Cpu {
    /// The number in the `w` registers from `r` on.
    fn reg_get(&self, r: u8, w: u8) -> (v: u32)
        requires
            1 <= w <= 3,
            r + w <= REG_COUNT,
        ensures
            v == self@.reg(r as int, w as nat),
            v < limit(w as nat),
    {
        if w == 1 {
            self.reg_read(r) as u32
        } else if w == 2 {
            self.reg_read2(r) as u32
        } else {
            self.reg_read3(r).value()
        }
    }

    /// Writes the number `v` to the `w` registers from `r` on.
    fn reg_set(&mut self, r: u8, w: u8, v: u32)
        requires
            1 <= w <= 3,
            r + w <= REG_COUNT,
            v < limit(w as nat),
        ensures
            final(self)@ == old(self)@.set_reg(r as int, w as nat, v as nat),
    {
        if w == 1 {
            let byte = v as u8;
            assert(byte as nat == v);
            self.reg_write(r, byte);
        } else if w == 2 {
            let word = v as u16;
            assert(word as nat == v);
            self.reg_write2(r, word);
        } else {
            let triple = U24::new(v);
            assert(triple@ == v);
            self.reg_write3(r, triple);
        }
    }

    /// The number in the `w` bytes of memory from `at` on.
    fn mem_get(&self, at: usize, w: u8) -> (v: u32)
        requires
            1 <= w <= 3,
            at + w <= MEM_SIZE,
        ensures
            v == read_le(self@.mem, at as int, w as nat),
            v < limit(w as nat),
    {
        if w == 1 {
            self.mem[at] as u32
        } else if w == 2 {
            self.mem[at] as u32 + self.mem[at + 1] as u32 * 0x100
        } else {
            self.mem[at] as u32 + self.mem[at + 1] as u32 * 0x100 + self.mem[at + 2] as u32
                * 0x1_0000
        }
    }

    /// Writes the number `v` to the `w` bytes of memory from `at` on.
    fn mem_set(&mut self, at: usize, w: u8, v: u32)
        requires
            1 <= w <= 3,
            at + w <= MEM_SIZE,
            v < limit(w as nat),
        ensures
            final(self)@ == (Machine {
                mem: write_le(old(self)@.mem, at as int, w as nat, v as nat),
                ..old(self)@
            }),
    {
        let addr = U24::new(at as u32);
        assert(addr@ == at);
        if w == 1 {
            let byte = v as u8;
            assert(byte as nat == v);
            self.mem_write(addr, byte);
        } else if w == 2 {
            let word = v as u16;
            assert(word as nat == v);
            self.mem_write2(addr, word);
        } else {
            let triple = U24::new(v);
            assert(triple@ == v);
            self.mem_write3(addr, triple);
        }
    }

    /// Sets the zero and carry flags after a result.
    fn set_result(&mut self, zero: bool, carry: bool)
        ensures
            final(self)@ == old(self)@.set_result(zero, carry),
    {
        self.flag_write(FLAG_ZERO, zero);
        self.flag_write(FLAG_CARRY, carry);
    }

    /// Whether `w` registers from `r` on exist.
    fn has_regs(r: u8, w: u8) -> (b: bool)
        ensures
            b == Machine::has_regs(r as int, w as nat),
    {
        r as usize + w as usize <= REG_COUNT
    }

    /// An operation on the registers `rd` and `rs`.
    fn binary(&mut self, op: Alu, rd: u8, rs: u8, w: u8) -> (r: Result<(), CpuError>)
        requires
            1 <= w <= 3,
        ensures
            stepped(
                old(self)@,
                final(self)@,
                r,
                crate::machine::binary(old(self)@, op, rd as int, rs as int, w as nat),
            ),
    {
        if !(Cpu::has_regs(rd, w) && Cpu::has_regs(rs, w)) {
            return Err(CpuError::InvalidInstruction);
        }
        let (v, carry) = alu_exec(op, self.reg_get(rd, w), self.reg_get(rs, w), w);
        self.reg_set(rd, w, v);
        self.set_result(v == 0, carry);
        Ok(())
    }

    /// An operation on the register `rd` and the number `imm`.
    fn binary_imm(&mut self, op: Alu, rd: u8, imm: u32, w: u8) -> (r: Result<(), CpuError>)
        requires
            1 <= w <= 3,
            imm < limit(w as nat),
        ensures
            stepped(
                old(self)@,
                final(self)@,
                r,
                crate::machine::binary_imm(old(self)@, op, rd as int, imm as nat, w as nat),
            ),
    {
        if !Cpu::has_regs(rd, w) {
            return Err(CpuError::InvalidInstruction);
        }
        let (v, carry) = alu_exec(op, self.reg_get(rd, w), imm, w);
        self.reg_set(rd, w, v);
        self.set_result(v == 0, carry);
        Ok(())
    }

    /// Inverts the bits of the register `rd`.
    fn invert(&mut self, rd: u8, w: u8) -> (r: Result<(), CpuError>)
        requires
            1 <= w <= 3,
        ensures
            stepped(
                old(self)@,
                final(self)@,
                r,
                crate::machine::invert(old(self)@, rd as int, w as nat),
            ),
    {
        if !Cpu::has_regs(rd, w) {
            return Err(CpuError::InvalidInstruction);
        }
        let v = limit_exec(w) - 1 - self.reg_get(rd, w);
        self.reg_set(rd, w, v);
        self.set_result(v == 0, false);
        Ok(())
    }

    /// Loads the number `imm` into the register `rd`.
    fn load_imm(&mut self, rd: u8, imm: u32, w: u8) -> (r: Result<(), CpuError>)
        requires
            1 <= w <= 3,
            imm < limit(w as nat),
        ensures
            stepped(
                old(self)@,
                final(self)@,
                r,
                crate::machine::load_imm(old(self)@, rd as int, imm as nat, w as nat),
            ),
    {
        if !Cpu::has_regs(rd, w) {
            return Err(CpuError::InvalidInstruction);
        }
        self.reg_set(rd, w, imm);
        self.set_result(imm == 0, false);
        Ok(())
    }

    /// Whether `w` bytes of memory from `at` on exist.
    fn has_mem(at: U24, w: u8) -> (b: bool)
        ensures
            b == Machine::has_mem(at@ as int, w as nat),
    {
        at.value() as usize + w as usize <= MEM_SIZE
    }

    /// Loads the register `rd` from memory at `addr`.
    fn load(&mut self, rd: u8, addr: U24, w: u8) -> (r: Result<(), CpuError>)
        requires
            1 <= w <= 3,
        ensures
            stepped(
                old(self)@,
                final(self)@,
                r,
                crate::machine::load(old(self)@, rd as int, addr@, w as nat),
            ),
    {
        if !(Cpu::has_regs(rd, w) && Cpu::has_mem(addr, w)) {
            return Err(CpuError::InvalidInstruction);
        }
        let v = self.mem_get(addr.value() as usize, w);
        self.reg_set(rd, w, v);
        self.set_result(v == 0, false);
        Ok(())
    }

    /// Stores the register `rs` to memory at `addr`.
    fn store(&mut self, rs: u8, addr: U24, w: u8) -> (r: Result<(), CpuError>)
        requires
            1 <= w <= 3,
        ensures
            stepped(
                old(self)@,
                final(self)@,
                r,
                crate::machine::store(old(self)@, rs as int, addr@, w as nat),
            ),
    {
        if !(Cpu::has_regs(rs, w) && Cpu::has_mem(addr, w)) {
            return Err(CpuError::InvalidInstruction);
        }
        let v = self.reg_get(rs, w);
        self.mem_set(addr.value() as usize, w, v);
        self.set_result(v == 0, false);
        Ok(())
    }

    /// Jumps to `addr` if `taken`.
    fn jump(&mut self, taken: bool, addr: U24) -> (r: Result<(), CpuError>)
        ensures
            stepped(old(self)@, final(self)@, r, crate::machine::jump(old(self)@, taken, addr@)),
    {
        if taken {
            self.pc = addr;
        }
        Ok(())
    }

    /// Calls the subroutine at `addr`.
    fn call(&mut self, addr: U24) -> (r: Result<(), CpuError>)
        ensures
            stepped(old(self)@, final(self)@, r, crate::machine::call(old(self)@, addr@)),
    {
        proof {
            use_type_invariant(&self.pc);
        }
        let sp = self.sp - 3;
        if !Cpu::has_mem(sp, 3) {
            return Err(CpuError::InvalidInstruction);
        }
        let (high, mid, low) = self.pc.to_bytes();
        let at = sp.value() as usize;
        self.mem[at] = high;
        self.mem[at + 1] = mid;
        self.mem[at + 2] = low;
        self.sp = sp;
        self.pc = addr;
        proof {
            assert(self@.mem =~= write_be3(old(self)@.mem, sp@ as int, old(self)@.pc));
        }
        Ok(())
    }

    /// Returns from a subroutine.
    fn ret(&mut self) -> (r: Result<(), CpuError>)
        ensures
            stepped(old(self)@, final(self)@, r, crate::machine::ret(old(self)@)),
    {
        if !Cpu::has_mem(self.sp, 3) {
            return Err(CpuError::InvalidInstruction);
        }
        let at = self.sp.value() as usize;
        self.pc = U24::from_bytes(self.mem[at], self.mem[at + 1], self.mem[at + 2]);
        self.sp = self.sp + 3;
        Ok(())
    }

    /// Pushes the register `rs` onto the stack.
    fn push(&mut self, rs: u8, w: u8) -> (r: Result<(), CpuError>)
        requires
            1 <= w <= 3,
        ensures
            stepped(
                old(self)@,
                final(self)@,
                r,
                crate::machine::push(old(self)@, rs as int, w as nat),
            ),
    {
        let sp = self.sp - w as u32;
        if !(Cpu::has_regs(rs, w) && Cpu::has_mem(sp, w)) {
            return Err(CpuError::InvalidInstruction);
        }
        let v = self.reg_get(rs, w);
        self.mem_set(sp.value() as usize, w, v);
        self.sp = sp;
        Ok(())
    }

    /// Pops the register `rd` from the stack.
    fn pop(&mut self, rd: u8, w: u8) -> (r: Result<(), CpuError>)
        requires
            1 <= w <= 3,
        ensures
            stepped(
                old(self)@,
                final(self)@,
                r,
                crate::machine::pop(old(self)@, rd as int, w as nat),
            ),
    {
        if !(Cpu::has_regs(rd, w) && Cpu::has_mem(self.sp, w)) {
            return Err(CpuError::InvalidInstruction);
        }
        let v = self.mem_get(self.sp.value() as usize, w);
        self.sp = self.sp + w as u32;
        self.reg_set(rd, w, v);
        Ok(())
    }
}

impl Cpu {
    /// Fetches the code at the program counter into the instruction
    /// register and moves the program counter past it. The two bytes of the
    /// code must lie in memory.
    pub fn fetch(&mut self)
        requires
            Machine::has_mem(old(self)@.pc as int, 2),
        ensures
            final(self)@ == crate::machine::fetch(old(self)@),
    {
        let pos = self.pc.value() as usize;
        self.ir = self.mem[pos] as u16 + self.mem[pos + 1] as u16 * 0x100;
        self.pc = self.pc + 2;
    }

    /// Decodes the code in the instruction register: looks the operation
    /// up, reads as many operand bytes as the code announces and moves the
    /// program counter past them. A code that stands for no operation is an
    /// invalid opcode, operand bytes outside memory are an invalid
    /// instruction; the engine is then as it was.
    pub fn decode(&mut self) -> (r: Result<Op, CpuError>)
        ensures
            match crate::machine::decode(old(self)@) {
                Ok((code, operands, m)) => r matches Ok(op) && op.code == code && op.operands@
                    == operands && final(self)@ == m,
                Err(e) => r == Err::<Op, CpuError>(e) && final(self)@ == old(self)@,
            },
    {
        let count = operand_byte_count(self.ir);
        let code = match OpCode::try_from(self.ir) {
            Ok(code) => code,
            Err(_) => {
                return Err(CpuError::InvalidOpCode(self.ir));
            },
        };
        proof {
            crate::op::lemma_code_of_decoded(self.ir);
            crate::op::lemma_operand_count(code);
        }
        let start = self.pc.value() as usize;
        if start + count > MEM_SIZE {
            return Err(CpuError::InvalidInstruction);
        }
        let mut op = Op { code, operands: [0u8; 4] };
        let mut i: usize = 0;
        while i < count
            invariant
                i <= count <= 4,
                start + count <= MEM_SIZE,
                op.code == code,
                op.operands@ == crate::machine::operand_bytes(old(self)@.mem, start as int, i as nat),
                self@ == (Machine { pc: (start + i) as nat, ..old(self)@ }),
            decreases count - i,
        {
            op.operands[i] = self.mem_read(self.pc);
            self.pc = self.pc + 1;
            i += 1;
            assert(op.operands@ =~= crate::machine::operand_bytes(
                old(self)@.mem,
                start as int,
                i as nat,
            ));
        }
        Ok(op)
    }

    /// Executes an operation with its operand bytes. An operation that
    /// names a register or a memory location that does not exist, or for
    /// which the engine has no rule, is an invalid instruction; the engine
    /// is then as it was.
    pub fn execute(&mut self, op: Op) -> (r: Result<(), CpuError>)
        ensures
            stepped(
                old(self)@,
                final(self)@,
                r,
                crate::machine::execute(old(self)@, op.code, op.operands@),
            ),
    {
        proof {
            reveal(crate::machine::execute);
        }
        let rd = op.rd();
        let rs = op.rs();
        let w = op.code.width();
        match rule(op.code) {
            Rule::Nop => Ok(()),
            Rule::Halt => {
                self.state = CpuState::Halted;
                Ok(())
            },
            Rule::Return => self.ret(),
            Rule::Binary(alu) => self.binary(alu, rd, rs, w),
            Rule::Invert => self.invert(rd, w),
            Rule::Increment => self.binary_imm(Alu::Add, rd, 1, w),
            Rule::Decrement => self.binary_imm(Alu::Sub, rd, 1, w),
            Rule::LoadImm => self.load_imm(rd, immediate(&op, w), w),
            Rule::AddImm => self.binary_imm(Alu::Add, rd, immediate(&op, w), w),
            Rule::Load => self.load(rd, op.read_u24(1), w),
            Rule::Store => self.store(rs, op.read_u24(1), w),
            Rule::Push => self.push(rs, w),
            Rule::Pop => self.pop(rd, w),
            Rule::Jump(cond) => {
                let taken = self.holds(cond);
                self.jump(taken, op.read_u24(0))
            },
            Rule::Call => self.call(op.read_u24(0)),
            Rule::Undefined => Err(CpuError::InvalidInstruction),
        }
    }

    /// Whether a jump on `cond` is taken now.
    fn holds(&self, cond: Cond) -> (b: bool)
        ensures
            b == holds(cond, self@.flags),
    {
        match cond {
            Cond::Always => true,
            Cond::Zero => self.flag_read(FLAG_ZERO),
            Cond::NotZero => !self.flag_read(FLAG_ZERO),
            Cond::Carry => self.flag_read(FLAG_CARRY),
            Cond::NotCarry => !self.flag_read(FLAG_CARRY),
        }
    }

    /// One cycle: fetch, decode, execute. A cycle that cannot be completed
    /// leaves the engine faulted, with the program counter at the
    /// instruction that failed.
    pub fn tick(&mut self) -> (r: Result<(), CpuError>)
        ensures
            match crate::machine::tick(old(self)@) {
                Ok(m) => r is Ok && final(self)@ == m,
                Err(e) => r == Err::<(), CpuError>(e) && final(self)@ == crate::machine::tick_fault(
                    old(self)@,
                ),
            },
    {
        let start = self.pc;
        if !Cpu::has_mem(start, 2) {
            self.state = CpuState::Faulted;
            return Err(CpuError::InvalidInstruction);
        }
        self.fetch();
        let op = match self.decode() {
            Ok(op) => op,
            Err(e) => {
                self.pc = start;
                self.state = CpuState::Faulted;
                return Err(e);
            },
        };
        match self.execute(op) {
            Ok(()) => Ok(()),
            Err(e) => {
                self.pc = start;
                self.state = CpuState::Faulted;
                Err(e)
            },
        }
    }

    /// Stops the engine as a `HLT` instruction does.
    pub fn halt(&mut self)
        ensures
            final(self)@ == (Machine { state: CpuState::Halted, ..old(self)@ }),
    {
        self.state = CpuState::Halted;
    }

    /// Runs from the current program counter until a `HLT` instruction, a
    /// fault, or `limit` cycles. The instruction counter starts at zero and
    /// counts the cycles that were completed, modulo `2^24`. A run that
    /// used up its cycles returns `Ok` with the engine still running, and
    /// [`Cpu::resume`] goes on with it.
    pub fn run(&mut self, limit: u64) -> (r: Result<(), CpuError>)
        ensures
            (final(self)@, r) == crate::machine::run(old(self)@.start(), limit as nat),
    {
        self.ic = U24::new(0);
        self.state = CpuState::Running;
        self.resume(limit)
    }

    /// Goes on with a run for at most `limit` cycles more: while the engine
    /// is running, one cycle after the other, each counted by the
    /// instruction counter. An engine that is not running is left as it
    /// is.
    pub fn resume(&mut self, limit: u64) -> (r: Result<(), CpuError>)
        ensures
            (final(self)@, r) == crate::machine::run(old(self)@, limit as nat),
    {
        let mut done: u64 = 0;
        while done < limit && self.state == CpuState::Running
            invariant
                done <= limit,
                crate::machine::run(old(self)@, limit as nat) == crate::machine::run(
                    self@,
                    (limit - done) as nat,
                ),
            decreases limit - done,
        {
            match self.tick() {
                Ok(()) => {},
                Err(e) => {
                    return Err(e);
                },
            }
            self.ic = self.ic + 1;
            done += 1;
        }
        Ok(())
    }
}

/// The immediate of `w` bytes that follows the register byte of an
/// operation.
fn immediate(op: &Op, w: u8) -> (v: u32)
    requires
        1 <= w <= 3,
    ensures
        v == read_le(op.operands@, 1, w as nat),
        v < limit(w as nat),
{
    if w == 1 {
        op.read_u8(1) as u32
    } else if w == 2 {
        op.read_u16(1) as u32
    } else {
        op.read_u24(1).value()
    }
}

/// The largest number plus one that `w` bytes hold.
fn limit_exec(w: u8) -> (l: u32)
    requires
        1 <= w <= 3,
    ensures
        l == limit(w as nat),
{
    if w == 1 {
        0x100
    } else if w == 2 {
        0x1_0000
    } else {
        0x0100_0000
    }
}

/// The bitwise operations keep numbers within their width.
proof fn lemma_bitwise_fits(a: u32, b: u32, l: u32)
    requires
        a < l,
        b < l,
        l == 0x100 || l == 0x1_0000 || l == 0x0100_0000,
    ensures
        (a & b) < l,
        (a | b) < l,
        (a ^ b) < l,
{
    assert(a < l && b < l && (l == 0x100 || l == 0x1_0000 || l == 0x0100_0000) ==> (a & b) < l && (
    a | b) < l && (a ^ b) < l) by (bit_vector);
}

/// The result of an operation on two numbers of `w` bytes, and whether it
/// carried.
fn alu_exec(op: Alu, a: u32, b: u32, w: u8) -> (r: (u32, bool))
    requires
        1 <= w <= 3,
        a < limit(w as nat),
        b < limit(w as nat),
    ensures
        (r.0 as nat, r.1) == alu(op, a as nat, b as nat, w as nat),
        r.0 < limit(w as nat),
{
    let l = limit_exec(w);
    proof {
        lemma_bitwise_fits(a, b, l);
    }
    match op {
        Alu::Add => {
            let sum = a + b;
            (sum % l, sum >= l)
        },
        Alu::Sub => {
            if a >= b {
                (a - b, false)
            } else {
                (a + l - b, true)
            }
        },
        Alu::And => (a & b, false),
        Alu::Or => (a | b, false),
        Alu::Xor => (a ^ b, false),
    }
}

} // verus!
