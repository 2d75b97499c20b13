use vm15::decode::Instruction;
use vm15::decode::get_op;
use vm15::decode::get_oprnd_value;
use vm15::decode::instr_len;
use vm15::engine::words_of_bytes;
use vm15::machine::Machine;
use vm15::machine::read_mem;
use vm15::machine::write_mem;
use vm15::word::Address;

#[test]
fn words_little_endian() {
    let bytes = vec![0x34u8, 0x12, 0x00, 0x80, 0xff, 0x7f];
    assert_eq!(words_of_bytes(&bytes), vec![0x1234, 0x8000, 0x7fff]);
}

#[test]
fn words_trailing_odd_byte_ignored() {
    let bytes = vec![9u8, 0, 5];
    assert_eq!(words_of_bytes(&bytes), vec![9]);
    assert_eq!(words_of_bytes(&vec![]), vec![]);
}

#[test]
fn new_machine_zero_padded() {
    let m = Machine::new(&vec![7u16, 8, 9]);
    assert_eq!(m.memory.len(), 32768);
    assert_eq!(&m.memory[0..3], &[7, 8, 9]);
    assert!(m.memory[3..].iter().all(|&w| w == 0));
    assert_eq!(m.registers, vec![0u16; 8]);
    assert!(m.stack.is_empty());
    assert_eq!(m.pc, 0);
    assert!(m.input.is_empty());
    assert!(m.output.is_empty());
}

#[test]
fn read_write_mem_both_stores() {
    let mut m = Machine::new(&vec![]);
    write_mem(&mut m, Address::Mem(100), 31999);
    write_mem(&mut m, Address::Reg(3), 42);
    assert_eq!(read_mem(&m, Address::Mem(100)), 31999);
    assert_eq!(read_mem(&m, Address::Reg(3)), 42);
    assert_eq!(m.memory[100], 31999);
    assert_eq!(m.registers[3], 42);
    // a register reference is stored verbatim, not chased
    write_mem(&mut m, Address::Mem(7), 32770);
    assert_eq!(read_mem(&m, Address::Mem(7)), 32770);
}

#[test]
fn operand_value_literal_register_invalid() {
    let mut m = Machine::new(&vec![5, 32771, 40000]);
    m.registers[3] = 123;
    assert_eq!(get_oprnd_value(&m, 0), Some(5));
    assert_eq!(get_oprnd_value(&m, 1), Some(123));
    assert_eq!(get_oprnd_value(&m, 2), None);
    assert_eq!(get_oprnd_value(&m, 40000), None);
}

#[test]
fn decode_zero_operand_opcodes() {
    let m = Machine::new(&vec![0, 18, 21]);
    assert_eq!(get_op(&m, 0), Some(Instruction::Halt));
    assert_eq!(get_op(&m, 1), Some(Instruction::Ret));
    assert_eq!(get_op(&m, 2), Some(Instruction::Noop));
}

#[test]
fn decode_resolves_value_roles() {
    let mut m = Machine::new(&vec![9, 32768, 32769, 10]);
    m.registers[1] = 7;
    assert_eq!(get_op(&m, 0), Some(Instruction::Add(32768, 7, 10)));
}

#[test]
fn decode_keeps_destination_raw() {
    let mut m = Machine::new(&vec![1, 32770, 32769]);
    m.registers[1] = 999;
    m.registers[2] = 5;
    // the destination word 32770 stays raw; the value 32769 resolves to r1
    assert_eq!(get_op(&m, 0), Some(Instruction::SetReg(32770, 999)));
}

#[test]
fn decode_invalid_opcode() {
    let m = Machine::new(&vec![22]);
    assert_eq!(get_op(&m, 0), None);
    let m = Machine::new(&vec![65535]);
    assert_eq!(get_op(&m, 0), None);
}

#[test]
fn decode_invalid_value_operand() {
    let m = Machine::new(&vec![6, 32776]);
    assert_eq!(get_op(&m, 0), None);
    let m = Machine::new(&vec![7, 40000, 3]);
    assert_eq!(get_op(&m, 0), None);
}

#[test]
fn decode_outside_memory() {
    let m = Machine::new(&vec![21]);
    assert_eq!(get_op(&m, 32768), None);
    assert_eq!(get_op(&m, 65535), None);
}

#[test]
fn instruction_lengths() {
    assert_eq!(instr_len(Instruction::Halt), 1);
    assert_eq!(instr_len(Instruction::Ret), 1);
    assert_eq!(instr_len(Instruction::Noop), 1);
    assert_eq!(instr_len(Instruction::Push(0)), 2);
    assert_eq!(instr_len(Instruction::Out(0)), 2);
    assert_eq!(instr_len(Instruction::SetReg(0, 0)), 3);
    assert_eq!(instr_len(Instruction::Wmem(0, 0)), 3);
    assert_eq!(instr_len(Instruction::Add(0, 0, 0)), 4);
    assert_eq!(instr_len(Instruction::Gt(0, 0, 0)), 4);
}
