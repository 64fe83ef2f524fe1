use rexta::assembler::assemble;
use rexta::cpu::Cpu;
use rexta::machine::{CpuError, CpuState, FLAG_CARRY, FLAG_ZERO};
use rexta::op::{Op, OpCode};
use rexta::u24::U24;

fn engine_with(bytes: &[u8]) -> Cpu {
    let mut cpu = Cpu::new();
    cpu.mem[..bytes.len()].copy_from_slice(bytes);
    cpu
}

fn engine_for(source: &str) -> Cpu {
    engine_with(&assemble(source).unwrap())
}

fn run_to_halt(source: &str) -> Cpu {
    let mut cpu = engine_for(source);
    assert_eq!(cpu.run(10_000), Ok(()));
    assert_eq!(cpu.state, CpuState::Halted);
    cpu
}

fn zero(cpu: &Cpu) -> bool {
    cpu.flag_read(FLAG_ZERO)
}

fn carry(cpu: &Cpu) -> bool {
    cpu.flag_read(FLAG_CARRY)
}

#[test]
fn a_new_engine_is_idle_and_clear() {
    let cpu = Cpu::new();
    assert_eq!(cpu.state, CpuState::Idle);
    assert_eq!(cpu.pc.value(), 0);
    assert_eq!(cpu.sp.value(), 0xFFFE);
    assert_eq!(cpu.ic.value(), 0);
    assert_eq!(cpu.ir, 0);
    assert_eq!(cpu.flags, 0);
    assert_eq!(cpu.regs, [0u8; 9]);
    assert_eq!(cpu.mem.len(), 65536);
    assert!(cpu.mem.iter().all(|b| *b == 0));
    assert_eq!(Cpu::FLAG_ZERO, 0x01);
    assert_eq!(Cpu::FLAG_CARRY, 0x02);
}

#[test]
fn memory_is_written_least_significant_byte_first() {
    let mut cpu = Cpu::new();
    cpu.mem_write(U24::new(0x10), 0xAA);
    cpu.mem_write2(U24::new(0x20), 0x1234);
    cpu.mem_write3(U24::new(0xFFFD), U24::new(0x00AB_CDEF));
    assert_eq!(cpu.mem_read(U24::new(0x10)), 0xAA);
    assert_eq!(cpu.mem_read(U24::new(0x20)), 0x34);
    assert_eq!(cpu.mem_read(U24::new(0x21)), 0x12);
    assert_eq!(cpu.mem_read(U24::new(0xFFFD)), 0xEF);
    assert_eq!(cpu.mem_read(U24::new(0xFFFE)), 0xCD);
    assert_eq!(cpu.mem_read(U24::new(0xFFFF)), 0xAB);
    assert_eq!(cpu.mem_read(U24::new(0x11)), 0);
}

#[test]
fn registers_pair_and_triple_least_significant_byte_first() {
    let mut cpu = Cpu::new();
    cpu.reg_write(0, 0x11);
    cpu.reg_write2(1, 0x3322);
    cpu.reg_write3(6, U24::new(0x0066_5544));
    assert_eq!(cpu.regs, [0x11, 0x22, 0x33, 0, 0, 0, 0x44, 0x55, 0x66]);
    assert_eq!(cpu.reg_read(0), 0x11);
    assert_eq!(cpu.reg_read(8), 0x66);
    assert_eq!(cpu.reg_read2(0), 0x2211);
    assert_eq!(cpu.reg_read2(7), 0x6655);
    assert_eq!(cpu.reg_read3(0), U24::new(0x0033_2211));
    assert_eq!(cpu.reg_read3(6), U24::new(0x0066_5544));
}

#[test]
fn flags_are_set_and_cleared_by_mask() {
    let mut cpu = Cpu::new();
    assert!(!cpu.flag_read(FLAG_ZERO));
    cpu.flag_write(FLAG_ZERO, true);
    assert!(cpu.flag_read(FLAG_ZERO));
    assert!(!cpu.flag_read(FLAG_CARRY));
    cpu.flag_write(FLAG_CARRY, true);
    assert_eq!(cpu.flags, 0x03);
    cpu.flag_write(FLAG_ZERO, false);
    assert_eq!(cpu.flags, 0x02);
    cpu.flags = 0xF0;
    cpu.flag_write(FLAG_CARRY, true);
    assert_eq!(cpu.flags, 0xF2);
    cpu.flag_write(FLAG_CARRY, false);
    assert_eq!(cpu.flags, 0xF0);
}

#[test]
fn add_that_does_not_fit_carries_and_wraps_to_zero() {
    let cpu = run_to_halt("LOADI R0, 0xFF\nLOADI R1, 1\nADD R0, R1\nHLT");
    assert_eq!(cpu.reg_read(0), 0x00);
    assert!(zero(&cpu));
    assert!(carry(&cpu));
    let cpu = run_to_halt("LOADI.2 R0, 0xFFFF\nLOADI.2 R2, 2\nADD.2 R0, R2\nHLT");
    assert_eq!(cpu.reg_read2(0), 1);
    assert!(!zero(&cpu));
    assert!(carry(&cpu));
    let cpu = run_to_halt("LOADI.3 R0, 0xFFFFFF\nLOADI.3 R3, 1\nADD.3 R0, R3\nHLT");
    assert_eq!(cpu.reg_read3(0), U24::new(0));
    assert!(zero(&cpu));
    assert!(carry(&cpu));
}

#[test]
fn add_that_fits_does_not_carry() {
    let cpu = run_to_halt("LOADI R0, 10\nLOADI R1, 20\nADD R0, R1\nHLT");
    assert_eq!(cpu.reg_read(0), 30);
    assert_eq!(cpu.reg_read(1), 20);
    assert!(!zero(&cpu));
    assert!(!carry(&cpu));
    let cpu = run_to_halt("LOADI.2 R0, 0x01FF\nLOADI.2 R2, 1\nADD.2 R0, R2\nHLT");
    assert_eq!(cpu.reg_read2(0), 0x0200);
    assert!(!carry(&cpu));
}

#[test]
fn sub_below_zero_carries_and_wraps() {
    let cpu = run_to_halt("LOADI R0, 0\nLOADI R1, 1\nSUB R0, R1\nHLT");
    assert_eq!(cpu.reg_read(0), 0xFF);
    assert!(carry(&cpu));
    assert!(!zero(&cpu));
    let cpu = run_to_halt("LOADI.2 R0, 5\nLOADI.2 R2, 7\nSUB.2 R0, R2\nHLT");
    assert_eq!(cpu.reg_read2(0), 0xFFFE);
    assert!(carry(&cpu));
    let cpu = run_to_halt("LOADI.3 R0, 0\nLOADI.3 R3, 1\nSUB.3 R0, R3\nHLT");
    assert_eq!(cpu.reg_read3(0), U24::new(0x00FF_FFFF));
    assert!(carry(&cpu));
    assert!(!zero(&cpu));
}

#[test]
fn sub_of_equals_is_zero_without_carry() {
    let cpu = run_to_halt("LOADI R0, 9\nLOADI R1, 9\nSUB R0, R1\nHLT");
    assert_eq!(cpu.reg_read(0), 0);
    assert!(zero(&cpu));
    assert!(!carry(&cpu));
    let cpu = run_to_halt("LOADI R0, 9\nLOADI R1, 4\nSUB R0, R1\nHLT");
    assert_eq!(cpu.reg_read(0), 5);
    assert!(!zero(&cpu));
    assert!(!carry(&cpu));
}

#[test]
fn bitwise_operations_clear_the_carry() {
    let set_carry = "LOADI R0, 0xFF\nLOADI R1, 1\nADD R0, R1\n";
    let cpu = run_to_halt(&format!("{set_carry}LOADI R2, 0xF0\nLOADI R3, 0x3C\nAND R2, R3\nHLT"));
    assert_eq!(cpu.reg_read(2), 0x30);
    assert!(!carry(&cpu));
    assert!(!zero(&cpu));
    let mut cpu = engine_for("LOADI R2, 0xF0\nLOADI R3, 0x3C\nOR R2, R3\nHLT");
    cpu.flags = FLAG_CARRY;
    assert_eq!(cpu.run(100), Ok(()));
    assert_eq!(cpu.reg_read(2), 0xFC);
    assert!(!carry(&cpu));
    let mut cpu = engine_for("XOR.2 R2, R2\nHLT");
    cpu.reg_write2(2, 0xBEEF);
    cpu.flags = FLAG_CARRY;
    assert_eq!(cpu.run(100), Ok(()));
    assert_eq!(cpu.reg_read2(2), 0);
    assert!(zero(&cpu));
    assert!(!carry(&cpu));
    let mut cpu = engine_for("AND.3 R0, R3\nHLT");
    cpu.reg_write3(0, U24::new(0x00FF_00FF));
    cpu.reg_write3(3, U24::new(0x000F_F0F0));
    cpu.flags = FLAG_CARRY | FLAG_ZERO;
    assert_eq!(cpu.run(100), Ok(()));
    assert_eq!(cpu.reg_read3(0), U24::new(0x000F_00F0));
    assert!(!zero(&cpu));
    assert!(!carry(&cpu));
}

#[test]
fn not_inverts_within_the_width() {
    let cpu = run_to_halt("LOADI R0, 0xFF\nNOT R0\nHLT");
    assert_eq!(cpu.reg_read(0), 0);
    assert!(zero(&cpu));
    assert!(!carry(&cpu));
    let cpu = run_to_halt("LOADI.2 R0, 0x00F0\nNOT.2 R0\nHLT");
    assert_eq!(cpu.reg_read2(0), 0xFF0F);
    assert!(!zero(&cpu));
    let cpu = run_to_halt("LOADI.3 R0, 1\nNOT.3 R0\nHLT");
    assert_eq!(cpu.reg_read3(0), U24::new(0x00FF_FFFE));
    assert_eq!(cpu.reg_read(3), 0);
}

#[test]
fn increment_and_decrement_wrap_with_carry() {
    let cpu = run_to_halt("LOADI R0, 0xFF\nINC R0\nHLT");
    assert_eq!(cpu.reg_read(0), 0);
    assert!(zero(&cpu));
    assert!(carry(&cpu));
    let cpu = run_to_halt("LOADI R0, 7\nINC R0\nHLT");
    assert_eq!(cpu.reg_read(0), 8);
    assert!(!zero(&cpu));
    assert!(!carry(&cpu));
    let cpu = run_to_halt("LOADI R0, 0\nDEC R0\nHLT");
    assert_eq!(cpu.reg_read(0), 0xFF);
    assert!(!zero(&cpu));
    assert!(carry(&cpu));
    let cpu = run_to_halt("LOADI R0, 1\nDEC R0\nHLT");
    assert_eq!(cpu.reg_read(0), 0);
    assert!(zero(&cpu));
    assert!(!carry(&cpu));
    let cpu = run_to_halt("LOADI.2 R0, 0\nDEC.2 R0\nHLT");
    assert_eq!(cpu.reg_read2(0), 0xFFFF);
    assert!(carry(&cpu));
    let cpu = run_to_halt("LOADI.3 R0, 0xFFFFFF\nINC.3 R0\nHLT");
    assert_eq!(cpu.reg_read3(0), U24::new(0));
    assert!(zero(&cpu));
    assert!(carry(&cpu));
}

#[test]
fn add_immediate() {
    let cpu = run_to_halt("LOADI R0, 200\nADDI R0, 100\nHLT");
    assert_eq!(cpu.reg_read(0), 44);
    assert!(carry(&cpu));
    let cpu = run_to_halt("LOADI.2 R0, 1000\nADDI.2 R0, 2000\nHLT");
    assert_eq!(cpu.reg_read2(0), 3000);
    assert!(!carry(&cpu));
    let cpu = run_to_halt("LOADI.3 R0, 0xFFFFFF\nADDI.3 R0, 0xFFFFFF\nHLT");
    assert_eq!(cpu.reg_read3(0), U24::new(0x00FF_FFFE));
    assert!(carry(&cpu));
}

#[test]
fn load_immediate_sets_zero_and_clears_carry() {
    let mut cpu = engine_for("LOADI R0, 0\nHLT");
    cpu.flags = FLAG_CARRY;
    assert_eq!(cpu.run(100), Ok(()));
    assert!(zero(&cpu));
    assert!(!carry(&cpu));
    let cpu = run_to_halt("LOADI.3 R6, 0x112233\nHLT");
    assert_eq!(cpu.regs, [0, 0, 0, 0, 0, 0, 0x33, 0x22, 0x11]);
    assert!(!zero(&cpu));
}

#[test]
fn store_and_load_move_between_register_and_memory() {
    let cpu = run_to_halt("LOADI.3 R0, 0x332211\nSTORE.3 R0, 0x3000\nLOAD.2 R4, 0x3001\nHLT");
    assert_eq!(cpu.mem_read(U24::new(0x3000)), 0x11);
    assert_eq!(cpu.mem_read(U24::new(0x3001)), 0x22);
    assert_eq!(cpu.mem_read(U24::new(0x3002)), 0x33);
    assert_eq!(cpu.reg_read2(4), 0x3322);
    assert!(!zero(&cpu));
    let mut cpu = engine_for("STORE R1, 0x3000\nHLT");
    cpu.mem[0x3000] = 9;
    cpu.flags = FLAG_CARRY;
    assert_eq!(cpu.run(100), Ok(()));
    assert_eq!(cpu.mem[0x3000], 0);
    assert!(zero(&cpu));
    assert!(!carry(&cpu));
    let cpu = run_to_halt("LOAD R1, 0x4000\nHLT");
    assert_eq!(cpu.reg_read(1), 0);
    assert!(zero(&cpu));
    let cpu = run_to_halt("LOADI R8, 5\nSTORE R8, 0xFFFF\nLOAD R0, 0xFFFF\nHLT");
    assert_eq!(cpu.reg_read(0), 5);
}

#[test]
fn conditional_jumps_follow_the_flags() {
    let source = "
        LOADI R0, 0      ; sets zero
        JZ taken
        LOADI R1, 1      ; passed over
    taken:
        JNZ wrong
        JC wrong
        JNC on
    wrong:
        LOADI R2, 2      ; passed over
        HLT
    on:
        LOADI R3, 3
        JMP end
        LOADI R4, 4      ; passed over
    end:
        HLT
    ";
    let cpu = run_to_halt(source);
    assert_eq!(cpu.regs, [0, 0, 0, 3, 0, 0, 0, 0, 0]);
}

#[test]
fn a_jump_that_is_not_taken_goes_on_with_the_next_instruction() {
    let mut cpu = engine_for("JZ 0x100\nHLT");
    assert_eq!(cpu.tick(), Ok(()));
    assert_eq!(cpu.pc.value(), 5);
    let mut cpu = engine_for("JNZ 0x100\nHLT");
    assert_eq!(cpu.tick(), Ok(()));
    assert_eq!(cpu.pc.value(), 0x100);
    let mut cpu = engine_for("JC 0x100\nHLT");
    cpu.flags = FLAG_CARRY;
    assert_eq!(cpu.tick(), Ok(()));
    assert_eq!(cpu.pc.value(), 0x100);
    let mut cpu = engine_for("JNC 0x100\nHLT");
    cpu.flags = FLAG_CARRY;
    assert_eq!(cpu.tick(), Ok(()));
    assert_eq!(cpu.pc.value(), 5);
}

#[test]
fn a_return_goes_back_behind_the_call() {
    let source = "
        JSR sub          ; at 0
        HLT              ; at 5
    sub:
        LOADI R0, 7      ; at 7
        RTS              ; at 11
    ";
    let mut cpu = engine_for(source);
    assert_eq!(cpu.tick(), Ok(()));
    assert_eq!(cpu.pc.value(), 7);
    assert_eq!(cpu.sp.value(), 0xFFFB);
    assert_eq!(cpu.mem[0xFFFB..0xFFFE], [0x00, 0x00, 0x05]);
    assert_eq!(cpu.tick(), Ok(()));
    assert_eq!(cpu.tick(), Ok(()));
    assert_eq!(cpu.pc.value(), 5);
    assert_eq!(cpu.sp.value(), 0xFFFE);
    let cpu = run_to_halt(source);
    assert_eq!(cpu.reg_read(0), 7);
    assert_eq!(cpu.sp.value(), 0xFFFE);
    assert_eq!(cpu.ic.value(), 4);
}

#[test]
fn calls_nest() {
    let source = "
        JSR outer
        HLT
    outer:
        JSR inner
        INC R0
        RTS
    inner:
        INC R1
        RTS
    ";
    let cpu = run_to_halt(source);
    assert_eq!(cpu.reg_read(0), 1);
    assert_eq!(cpu.reg_read(1), 1);
    assert_eq!(cpu.sp.value(), 0xFFFE);
    assert_eq!(cpu.pc.value(), 7);
}

#[test]
fn push_and_pop_are_inverse() {
    let mut cpu = engine_for("LOADI.2 R0, 0x1234\nPUSH.2 R0\nPOP.2 R4\nHLT");
    assert_eq!(cpu.tick(), Ok(()));
    let flags = cpu.flags;
    assert_eq!(cpu.tick(), Ok(()));
    assert_eq!(cpu.sp.value(), 0xFFFC);
    assert_eq!(cpu.mem[0xFFFC..0xFFFE], [0x34, 0x12]);
    assert_eq!(cpu.tick(), Ok(()));
    assert_eq!(cpu.sp.value(), 0xFFFE);
    assert_eq!(cpu.reg_read2(4), 0x1234);
    assert_eq!(cpu.flags, flags);
    let cpu = run_to_halt("LOADI.3 R0, 0xABCDEF\nPUSH.3 R0\nLOADI R5, 9\nPUSH R5\nPOP R8\nPOP.3 R3\nHLT");
    assert_eq!(cpu.reg_read(8), 9);
    assert_eq!(cpu.reg_read3(3), U24::new(0x00AB_CDEF));
    assert_eq!(cpu.sp.value(), 0xFFFE);
}

#[test]
fn a_word_that_is_no_opcode_faults_where_it_lies() {
    let mut cpu = engine_with(&[0x01, 0x04, 0x00, 0x01, 0xFF, 0xFF]);
    assert_eq!(cpu.run(100), Err(CpuError::InvalidOpCode(0xFFFF)));
    assert_eq!(cpu.pc.value(), 4);
    assert_eq!(cpu.state, CpuState::Faulted);
    assert_eq!(cpu.ir, 0xFFFF);
    assert_eq!(cpu.ic.value(), 1);
    assert_eq!(cpu.reg_read(0), 1);
    let mut cpu = engine_with(&[0xFF]);
    assert_eq!(cpu.run(100), Err(CpuError::InvalidOpCode(0x00FF)));
    assert_eq!(cpu.pc.value(), 0);
    let mut cpu = Cpu::new();
    assert_eq!(cpu.run(100), Err(CpuError::InvalidOpCode(0)));
    assert_eq!(cpu.pc.value(), 0);
    assert_eq!(cpu.ic.value(), 0);
}

#[test]
fn a_register_that_does_not_exist_is_an_invalid_instruction() {
    let mut cpu = engine_with(&[0x01, 0x02, 0x09]);
    assert_eq!(cpu.run(100), Err(CpuError::InvalidInstruction));
    assert_eq!(cpu.pc.value(), 0);
    assert_eq!(cpu.state, CpuState::Faulted);
    let mut cpu = engine_with(&[0x01, 0x02, 0x90]);
    assert_eq!(cpu.run(100), Err(CpuError::InvalidInstruction));
    let mut cpu = engine_for("LOADI R0, 1\nADD.2 R8, R0\nHLT");
    assert_eq!(cpu.run(100), Err(CpuError::InvalidInstruction));
    assert_eq!(cpu.pc.value(), 4);
    assert_eq!(cpu.regs, [1, 0, 0, 0, 0, 0, 0, 0, 0]);
    let mut cpu = engine_for("LOADI.3 R7, 1\nHLT");
    assert_eq!(cpu.run(100), Err(CpuError::InvalidInstruction));
    let mut cpu = engine_for("NOT.3 R6\nINC.2 R8\nHLT");
    assert_eq!(cpu.tick(), Ok(()));
    assert_eq!(cpu.tick(), Err(CpuError::InvalidInstruction));
}

#[test]
fn memory_that_does_not_exist_is_an_invalid_instruction() {
    let mut cpu = engine_for("LOAD R0, 0x10000\nHLT");
    assert_eq!(cpu.run(100), Err(CpuError::InvalidInstruction));
    assert_eq!(cpu.pc.value(), 0);
    let mut cpu = engine_for("STORE.2 R0, 0xFFFF\nHLT");
    assert_eq!(cpu.run(100), Err(CpuError::InvalidInstruction));
    assert_eq!(cpu.mem[0xFFFF], 0);
    let mut cpu = engine_for("RTS");
    assert_eq!(cpu.run(100), Err(CpuError::InvalidInstruction));
    assert_eq!(cpu.sp.value(), 0xFFFE);
    let mut cpu = engine_for("PUSH R0");
    cpu.sp = U24::new(0);
    assert_eq!(cpu.run(100), Err(CpuError::InvalidInstruction));
    assert_eq!(cpu.sp.value(), 0);
    let mut cpu = engine_for("JSR 0x10");
    cpu.sp = U24::new(2);
    assert_eq!(cpu.run(100), Err(CpuError::InvalidInstruction));
    assert_eq!(cpu.pc.value(), 0);
}

#[test]
fn an_instruction_that_leaves_memory_is_an_invalid_instruction() {
    let mut cpu = Cpu::new();
    cpu.pc = U24::new(0xFFFF);
    assert_eq!(cpu.run(100), Err(CpuError::InvalidInstruction));
    assert_eq!(cpu.pc.value(), 0xFFFF);
    assert_eq!(cpu.ir, 0);
    let mut cpu = Cpu::new();
    cpu.mem[0xFFFC] = 0x00;
    cpu.mem[0xFFFD] = 0x06;
    cpu.pc = U24::new(0xFFFC);
    assert_eq!(cpu.run(100), Err(CpuError::InvalidInstruction));
    assert_eq!(cpu.pc.value(), 0xFFFC);
    assert_eq!(cpu.ir, 0x0600);
    let mut cpu = Cpu::new();
    cpu.mem[0xFFFB] = 0x00;
    cpu.mem[0xFFFC] = 0x06;
    cpu.mem[0xFFFD] = 0x34;
    cpu.mem[0xFFFE] = 0x12;
    cpu.mem[0x1234] = 0x04;
    cpu.pc = U24::new(0xFFFB);
    assert_eq!(cpu.run(100), Ok(()));
    assert_eq!(cpu.state, CpuState::Halted);
}

#[test]
fn operations_without_a_rule_are_invalid_instructions() {
    for source in [
        "MOV R0, R1", "NEG R0", "SHL R0", "SHR R0", "ROL R0", "ROR R0", "CMP R0, R1",
        "TST R0, R1", "MOV.3 R0, R3", "JMPA 0", "JZA 0", "JNZA 0", "JCA 0", "JNCA 0", "JSRA 0",
    ] {
        let mut cpu = engine_for(source);
        assert_eq!(cpu.run(100), Err(CpuError::InvalidInstruction));
        assert_eq!(cpu.pc.value(), 0);
        assert_eq!(cpu.state, CpuState::Faulted);
    }
}

#[test]
fn a_run_stops_at_its_limit() {
    let mut cpu = engine_for("loop:\nINC R0\nJMP loop\n");
    assert_eq!(cpu.run(10), Ok(()));
    assert_eq!(cpu.state, CpuState::Running);
    assert_eq!(cpu.ic.value(), 10);
    assert_eq!(cpu.reg_read(0), 5);
    assert_eq!(cpu.run(0), Ok(()));
    assert_eq!(cpu.state, CpuState::Running);
    assert_eq!(cpu.ic.value(), 0);
    assert_eq!(cpu.run(3), Ok(()));
    assert_eq!(cpu.ic.value(), 3);
}

#[test]
fn a_run_that_stopped_at_its_limit_is_resumed() {
    let mut cpu = engine_for("LOADI R0, 1\nINC R0\nINC R0\nINC R0\nHLT\nINC R0");
    assert_eq!(cpu.run(2), Ok(()));
    assert_eq!(cpu.state, CpuState::Running);
    assert_eq!(cpu.reg_read(0), 2);
    assert_eq!(cpu.resume(1), Ok(()));
    assert_eq!(cpu.ic.value(), 3);
    assert_eq!(cpu.resume(100), Ok(()));
    assert_eq!(cpu.state, CpuState::Halted);
    assert_eq!(cpu.ic.value(), 5);
    assert_eq!(cpu.reg_read(0), 4);
    assert_eq!(cpu.resume(100), Ok(()));
    assert_eq!(cpu.ic.value(), 5);
    assert_eq!(cpu.reg_read(0), 4);
    let mut idle = Cpu::new();
    assert_eq!(idle.resume(100), Ok(()));
    assert_eq!(idle.state, CpuState::Idle);
    assert_eq!(idle.pc.value(), 0);
}

#[test]
fn the_instruction_counter_wraps_at_24_bits() {
    let mut cpu = engine_for("loop:\nJMP loop\n");
    cpu.state = CpuState::Running;
    cpu.ic = U24::new(0x00FF_FFFE);
    assert_eq!(cpu.resume(3), Ok(()));
    assert_eq!(cpu.ic.value(), 1);
}

#[test]
fn a_run_counts_its_instructions_from_zero() {
    let mut cpu = engine_for("LOADI R0, 1\nHLT");
    assert_eq!(cpu.run(100), Ok(()));
    assert_eq!(cpu.ic.value(), 2);
    cpu.pc = U24::new(4);
    assert_eq!(cpu.run(100), Ok(()));
    assert_eq!(cpu.ic.value(), 1);
    assert_eq!(cpu.state, CpuState::Halted);
}

#[test]
fn halt_stops_the_engine() {
    let mut cpu = Cpu::new();
    cpu.state = CpuState::Running;
    cpu.halt();
    assert_eq!(cpu.state, CpuState::Halted);
}

#[test]
fn fetch_reads_the_code_and_moves_past_it() {
    let mut cpu = engine_with(&[0x4E, 0x06, 0x07, 0xFF, 0xFF]);
    cpu.fetch();
    assert_eq!(cpu.ir, 0x064E);
    assert_eq!(cpu.pc.value(), 2);
    let op = cpu.decode().unwrap();
    assert_eq!(op.code, OpCode::ADDI2);
    assert_eq!(op.operands, [0x07, 0xFF, 0xFF, 0x00]);
    assert_eq!(cpu.pc.value(), 5);
}

#[test]
fn decode_that_fails_leaves_the_engine_as_it_was() {
    let mut cpu = engine_with(&[0x34, 0x12, 0x99]);
    cpu.fetch();
    assert_eq!(cpu.decode().unwrap_err(), CpuError::InvalidOpCode(0x1234));
    assert_eq!(cpu.pc.value(), 2);
    let mut cpu = Cpu::new();
    cpu.ir = OpCode::LOADI3.code();
    cpu.pc = U24::new(0xFFFD);
    assert_eq!(cpu.decode().unwrap_err(), CpuError::InvalidInstruction);
    assert_eq!(cpu.pc.value(), 0xFFFD);
}

#[test]
fn executing_a_nop_changes_nothing() {
    let mut cpu = Cpu::new();
    cpu.flags = 3;
    cpu.regs[2] = 5;
    assert_eq!(cpu.execute(Op::new()), Ok(()));
    assert_eq!(cpu.flags, 3);
    assert_eq!(cpu.regs[2], 5);
    assert_eq!(cpu.pc.value(), 0);
    assert_eq!(cpu.state, CpuState::Idle);
}

#[test]
fn executing_a_descriptor() {
    let mut cpu = Cpu::new();
    cpu.regs[1] = 0x0F;
    cpu.regs[2] = 0xF1;
    assert_eq!(cpu.execute(Op { code: OpCode::ADD1, operands: [0x21, 0, 0, 0] }), Ok(()));
    assert_eq!(cpu.regs[1], 0x00);
    assert_eq!(cpu.flags, FLAG_ZERO | FLAG_CARRY);
    assert_eq!(cpu.execute(Op { code: OpCode::HLT, operands: [0; 4] }), Ok(()));
    assert_eq!(cpu.state, CpuState::Halted);
    assert_eq!(
        cpu.execute(Op { code: OpCode::MOV1, operands: [0x21, 0, 0, 0] }),
        Err(CpuError::InvalidInstruction)
    );
    assert_eq!(cpu.execute(Op { code: OpCode::JMP, operands: [0x56, 0x34, 0x12, 0] }), Ok(()));
    assert_eq!(cpu.pc.value(), 0x0012_3456);
}
