use vm15::decode::Instruction;
use vm15::engine::bin_op;
use vm15::engine::comp_op;
use vm15::engine::words_of_bytes;
use vm15::machine::Fault;
use vm15::machine::Machine;
use vm15::machine::Status;

fn run_words(words: Vec<u16>, fuel: u64) -> (Machine, Status) {
    let mut m = Machine::new(&words);
    let st = m.run(fuel);
    (m, st)
}

#[test]
fn out_and_halt() {
    // `out 65; halt` as little-endian program bytes prints 'A' and halts
    let words = words_of_bytes(&vec![19u8, 0, 65, 0, 0, 0]);
    let mut m = Machine::new(&words);
    let st = m.run(100);
    assert_eq!(st, Status::Halted);
    assert_eq!(m.output, vec![65]);
}

#[test]
fn add_register_and_out() {
    // `add r0 5 10; out r0; halt` outputs byte 15
    let words = words_of_bytes(&vec![9u8, 0, 0, 128, 5, 0, 10, 0, 19, 0, 0, 128, 0, 0]);
    let mut m = Machine::new(&words);
    let st = m.run(100);
    assert_eq!(st, Status::Halted);
    assert_eq!(m.output, vec![15]);
}

#[test]
fn stack_is_lifo() {
    // push 4; push 7; pop r0; pop r1 => r0 = 7, r1 = 4
    let (m, st) = run_words(vec![2, 4, 2, 7, 3, 32768, 3, 32769, 0], 100);
    assert_eq!(st, Status::Halted);
    assert_eq!(m.registers[0], 7);
    assert_eq!(m.registers[1], 4);
    assert!(m.stack.is_empty());
}

#[test]
fn call_then_ret_returns_after_call() {
    // call 10 at pc 0, then ret at 10: execution resumes at pc 2
    let (m, st) = run_words(vec![17, 10, 0, 0, 0, 0, 0, 0, 0, 0, 18], 100);
    assert_eq!(st, Status::Halted);
    assert_eq!(m.pc, 2);
    assert!(m.stack.is_empty());
}

#[test]
fn self_modification_executes_new_code() {
    // the program writes `out 65` over two zero words it then falls into
    let (m, st) = run_words(vec![16, 7, 19, 16, 8, 65, 21, 0, 0, 0], 100);
    assert_eq!(st, Status::Halted);
    assert_eq!(m.output, vec![65]);
    assert_eq!(m.memory[7], 19);
    assert_eq!(m.memory[8], 65);
}

#[test]
fn add_wraps_modulo_32768() {
    let (m, st) = run_words(vec![9, 32768, 32767, 1, 0], 100);
    assert_eq!(st, Status::Halted);
    assert_eq!(m.registers[0], 0);
}

#[test]
fn mult_wraps_modulo_32768() {
    let (m, st) = run_words(vec![10, 32768, 32767, 32767, 0], 100);
    assert_eq!(st, Status::Halted);
    assert_eq!(m.registers[0], 1);
}

#[test]
fn not_twice_restores_operand() {
    // not r0 5; not r1 r0 => r0 is the 15-bit complement, r1 is 5 again
    let (m, st) = run_words(vec![14, 32768, 5, 14, 32769, 32768, 0], 100);
    assert_eq!(st, Status::Halted);
    assert_eq!(m.registers[0], 32762);
    assert_eq!(m.registers[1], 5);
}

#[test]
fn eq_and_strict_gt() {
    // eq r0 3 3 => 1; gt r1 3 3 => 0 (strict); gt r2 4 3 => 1
    let (m, st) = run_words(
        vec![4, 32768, 3, 3, 5, 32769, 3, 3, 5, 32770, 4, 3, 0],
        100,
    );
    assert_eq!(st, Status::Halted);
    assert_eq!(m.registers[0], 1);
    assert_eq!(m.registers[1], 0);
    assert_eq!(m.registers[2], 1);
}

#[test]
fn mod_and_bitwise_ops() {
    // mod r0 17 5 => 2; and r1 12 10 => 8; or r2 12 10 => 14
    let (m, st) = run_words(
        vec![11, 32768, 17, 5, 12, 32769, 12, 10, 13, 32770, 12, 10, 0],
        100,
    );
    assert_eq!(st, Status::Halted);
    assert_eq!(m.registers[0], 2);
    assert_eq!(m.registers[1], 8);
    assert_eq!(m.registers[2], 14);
}

#[test]
fn set_writes_register() {
    let (m, st) = run_words(vec![1, 32775, 12345, 0], 100);
    assert_eq!(st, Status::Halted);
    assert_eq!(m.registers[7], 12345);
}

#[test]
fn jmp_sets_pc() {
    let (m, st) = run_words(vec![6, 4, 0, 0, 0], 100);
    assert_eq!(st, Status::Halted);
    assert_eq!(m.pc, 4);
}

#[test]
fn jt_taken_and_not_taken() {
    let (m, st) = run_words(vec![7, 1, 5, 0, 0, 0], 100);
    assert_eq!(st, Status::Halted);
    assert_eq!(m.pc, 5);
    let (m, st) = run_words(vec![7, 0, 5, 0, 0, 21], 100);
    assert_eq!(st, Status::Halted);
    assert_eq!(m.pc, 3);
}

#[test]
fn jf_taken_and_not_taken() {
    let (m, st) = run_words(vec![8, 0, 5, 0, 0, 0], 100);
    assert_eq!(st, Status::Halted);
    assert_eq!(m.pc, 5);
    let (m, st) = run_words(vec![8, 1, 5, 0, 0, 21], 100);
    assert_eq!(st, Status::Halted);
    assert_eq!(m.pc, 3);
}

#[test]
fn out_emits_low_byte() {
    let (m, st) = run_words(vec![19, 321, 0], 100);
    assert_eq!(st, Status::Halted);
    assert_eq!(m.output, vec![65]);
}

#[test]
fn rmem_reads_through_value_address() {
    // rmem r0 5 reads the word stored at address 5, verbatim
    let (m, st) = run_words(vec![15, 32768, 5, 0, 0, 40000], 100);
    assert_eq!(st, Status::Halted);
    assert_eq!(m.registers[0], 40000);
}

#[test]
fn wmem_writes_through_value_address() {
    let (m, st) = run_words(vec![16, 100, 31000, 0], 100);
    assert_eq!(st, Status::Halted);
    assert_eq!(m.memory[100], 31000);
}

#[test]
fn input_blocks_then_consumes_bytes() {
    let mut m = Machine::new(&vec![20, 32768, 20, 32769, 0]);
    let st = m.run(100);
    assert_eq!(st, Status::NeedInput);
    assert_eq!(m.pc, 0);
    m.feed_input(&vec![72, 10]);
    let st = m.run(100);
    assert_eq!(st, Status::Halted);
    assert_eq!(m.registers[0], 72);
    assert_eq!(m.registers[1], 10);
    assert!(m.input.is_empty());
}

#[test]
fn run_out_of_fuel_reports_running() {
    // jmp 0 loops forever; the fuel runs out instead
    let mut m = Machine::new(&vec![6, 0]);
    let st = m.run(1000);
    assert_eq!(st, Status::Running);
    assert_eq!(m.pc, 0);
}

#[test]
fn invalid_opcode_faults() {
    let (_, st) = run_words(vec![22], 10);
    assert_eq!(st, Status::Faulted(Fault::Decode));
}

#[test]
fn invalid_value_operand_faults() {
    let (_, st) = run_words(vec![6, 32776], 10);
    assert_eq!(st, Status::Faulted(Fault::Decode));
}

#[test]
fn memory_destination_faults() {
    // set with a destination word that names memory, not a register
    let (_, st) = run_words(vec![1, 5, 7], 10);
    assert_eq!(st, Status::Faulted(Fault::Address));
}

#[test]
fn pop_empty_stack_faults() {
    let (_, st) = run_words(vec![3, 32768], 10);
    assert_eq!(st, Status::Faulted(Fault::Stack));
}

#[test]
fn ret_empty_stack_faults() {
    let (_, st) = run_words(vec![18], 10);
    assert_eq!(st, Status::Faulted(Fault::Stack));
}

#[test]
fn mod_by_zero_faults() {
    let (_, st) = run_words(vec![11, 32768, 5, 0], 10);
    assert_eq!(st, Status::Faulted(Fault::DivZero));
}

#[test]
fn rmem_address_out_of_range_faults() {
    // r0 is loaded with 40000, then used as an rmem address
    let (_, st) = run_words(vec![15, 32768, 6, 15, 32769, 32768, 40000], 10);
    assert_eq!(st, Status::Faulted(Fault::Address));
}

#[test]
fn wmem_address_out_of_range_faults() {
    let (_, st) = run_words(vec![15, 32768, 6, 16, 32768, 1, 40000], 10);
    assert_eq!(st, Status::Faulted(Fault::Address));
}

#[test]
fn jump_outside_memory_faults() {
    // r0 is loaded with 40000, then jumped to: the next fetch fails
    let (m, st) = run_words(vec![15, 32768, 5, 6, 32768, 40000], 10);
    assert_eq!(st, Status::Faulted(Fault::Decode));
    assert_eq!(m.pc, 40000);
}

#[test]
fn instruction_straddling_memory_end_faults() {
    // an `out` written at the last address has no room for its operand
    let (_, st) = run_words(vec![16, 32767, 19, 6, 32767], 10);
    assert_eq!(st, Status::Faulted(Fault::Decode));
}

#[test]
fn comp_op_writes_flag_register() {
    let mut m = Machine::new(&vec![]);
    assert_eq!(comp_op(&mut m, Instruction::Eq(32770, 9, 9)), Ok(()));
    assert_eq!(m.registers[2], 1);
    assert_eq!(comp_op(&mut m, Instruction::Gt(32770, 3, 8)), Ok(()));
    assert_eq!(m.registers[2], 0);
    assert_eq!(comp_op(&mut m, Instruction::Eq(7, 1, 1)), Err(Fault::Address));
}

#[test]
fn bin_op_arithmetic() {
    let mut m = Machine::new(&vec![]);
    assert_eq!(bin_op(&mut m, Instruction::Add(32768, 32767, 3)), Ok(()));
    assert_eq!(m.registers[0], 2);
    assert_eq!(bin_op(&mut m, Instruction::Mult(32769, 2, 20000)), Ok(()));
    assert_eq!(m.registers[1], 7232);
    assert_eq!(bin_op(&mut m, Instruction::Mod(32770, 5, 0)), Err(Fault::DivZero));
    assert_eq!(bin_op(&mut m, Instruction::And(1, 1, 1)), Err(Fault::Address));
}
