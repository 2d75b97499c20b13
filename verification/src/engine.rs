//! The execution engine: the per-instruction transition semantics, the
//! fetch-decode-execute step, the bounded run loop, program loading, and
//! the input buffer.
//!
//! The semantics is stated once, as spec functions from a machine view to a
//! machine view and a status ([`spec_effect`], [`spec_step`], [`spec_run`]),
//! and the executable engine is proved to follow it exactly.

use vstd::prelude::*;

use crate::decode::Instruction;
use crate::decode::get_op;
use crate::decode::lemma_decode_in_bounds;
use crate::decode::spec_decode;
use crate::machine::Fault;
use crate::machine::Machine;
use crate::machine::MachineView;
use crate::machine::Status;
use crate::machine::spec_write;
use crate::machine::write_mem;
use crate::word::Address;
use crate::word::add_words;
use crate::word::and_words;
use crate::word::dest_reg;
use crate::word::mod_words;
use crate::word::mult_words;
use crate::word::not_word;
use crate::word::or_words;
use crate::word::spec_dest_reg;

verus! {

/// The effect of a comparison instruction (`eq`, `gt`) on the machine:
/// 1 or 0 is stored in the destination register; a destination that does
/// not name a register is an address fault.  Any other instruction is left
/// to its own handler and changes nothing here.
pub open spec fn spec_comp_op(m: MachineView, instr: Instruction) -> (MachineView, Result<
    (),
    Fault,
>)
    recommends
        m.wf(),
{
    match instr {
        Instruction::Eq(a, b, c) => match spec_dest_reg(a) {
            None => (m, Err(Fault::Address)),
            Some(d) => (
                spec_write(m, Address::Reg(d), if b == c { 1u16 } else { 0u16 }),
                Ok(()),
            ),
        },
        Instruction::Gt(a, b, c) => match spec_dest_reg(a) {
            None => (m, Err(Fault::Address)),
            Some(d) => (
                spec_write(m, Address::Reg(d), if b > c { 1u16 } else { 0u16 }),
                Ok(()),
            ),
        },
        _ => (m, Ok(())),
    }
}

/// The effect of a binary arithmetic instruction (`add`, `mult`, `mod`,
/// `and`, `or`) on the machine: the result is stored in the destination
/// register, with `add` and `mult` reduced modulo 32768.  A destination
/// that does not name a register is an address fault; a zero divisor for
/// `mod` is a fault of its own.  Any other instruction changes nothing
/// here.
pub open spec fn spec_bin_op(m: MachineView, instr: Instruction) -> (MachineView, Result<
    (),
    Fault,
>)
    recommends
        m.wf(),
{
    match instr {
        Instruction::Add(a, b, c) => match spec_dest_reg(a) {
            None => (m, Err(Fault::Address)),
            Some(d) => (spec_write(m, Address::Reg(d), add_words(b, c)), Ok(())),
        },
        Instruction::Mult(a, b, c) => match spec_dest_reg(a) {
            None => (m, Err(Fault::Address)),
            Some(d) => (spec_write(m, Address::Reg(d), mult_words(b, c)), Ok(())),
        },
        Instruction::Mod(a, b, c) => match spec_dest_reg(a) {
            None => (m, Err(Fault::Address)),
            Some(d) => if c == 0 {
                (m, Err(Fault::DivZero))
            } else {
                (spec_write(m, Address::Reg(d), mod_words(b, c)), Ok(()))
            },
        },
        Instruction::And(a, b, c) => match spec_dest_reg(a) {
            None => (m, Err(Fault::Address)),
            Some(d) => (spec_write(m, Address::Reg(d), and_words(b, c)), Ok(())),
        },
        Instruction::Or(a, b, c) => match spec_dest_reg(a) {
            None => (m, Err(Fault::Address)),
            Some(d) => (spec_write(m, Address::Reg(d), or_words(b, c)), Ok(())),
        },
        _ => (m, Ok(())),
    }
}

/// Arithmetic closure at the engine level: whatever the operands, the word
/// an `add` or `mult` instruction stores in its destination register is
/// below 32768, so it is a valid literal word.
pub proof fn lemma_stored_arith_closure(m: MachineView, a: u16, b: u16, c: u16, d: u16)
    requires
        m.wf(),
        spec_dest_reg(a) == Some(d),
    ensures
        spec_bin_op(m, Instruction::Add(a, b, c)).0.regs[d as int] < 32768,
        spec_bin_op(m, Instruction::Mult(a, b, c)).0.regs[d as int] < 32768,
{
    crate::word::lemma_arith_closure(b, c);
}

/// The effect of one decoded instruction on the machine, and the status it
/// leaves the engine in.  The program counter advances by the instruction's
/// word length unless the instruction sets it itself.
pub open spec fn spec_effect(m: MachineView, i: Instruction) -> (MachineView, Status)
    recommends
        m.wf(),
        spec_decode(m, m.pc) == Some(i),
{
    match i {
        Instruction::Halt => (m, Status::Halted),
        Instruction::SetReg(a, b) => match spec_dest_reg(a) {
            None => (m, Status::Faulted(Fault::Address)),
            Some(d) => (
                (MachineView { regs: m.regs.update(d as int, b), pc: ((m.pc + 3) as u16), ..m }),
                Status::Running,
            ),
        },
        Instruction::Push(a) => (
            (MachineView { stack: m.stack.push(a), pc: ((m.pc + 2) as u16), ..m }),
            Status::Running,
        ),
        Instruction::Pop(a) => match spec_dest_reg(a) {
            None => (m, Status::Faulted(Fault::Address)),
            Some(d) => if m.stack.len() == 0 {
                (m, Status::Faulted(Fault::Stack))
            } else {
                (
                    (MachineView {
                        regs: m.regs.update(d as int, m.stack.last()),
                        stack: m.stack.drop_last(),
                        pc: ((m.pc + 2) as u16),
                        ..m
                    }),
                    Status::Running,
                )
            },
        },
        Instruction::Eq(_, _, _) | Instruction::Gt(_, _, _) => {
            let r = spec_comp_op(m, i);
            match r.1 {
                Ok(_) => ((MachineView { pc: ((m.pc + 4) as u16), ..r.0 }), Status::Running),
                Err(f) => (r.0, Status::Faulted(f)),
            }
        },
        Instruction::Jmp(a) => ((MachineView { pc: a, ..m }), Status::Running),
        Instruction::Jt(a, b) => (
            (MachineView { pc: if a != 0 { b } else { ((m.pc + 3) as u16) }, ..m }),
            Status::Running,
        ),
        Instruction::Jf(a, b) => (
            (MachineView { pc: if a == 0 { b } else { ((m.pc + 3) as u16) }, ..m }),
            Status::Running,
        ),
        Instruction::Add(_, _, _) | Instruction::Mult(_, _, _) | Instruction::Mod(_, _, _)
            | Instruction::And(_, _, _) | Instruction::Or(_, _, _) => {
            let r = spec_bin_op(m, i);
            match r.1 {
                Ok(_) => ((MachineView { pc: ((m.pc + 4) as u16), ..r.0 }), Status::Running),
                Err(f) => (r.0, Status::Faulted(f)),
            }
        },
        Instruction::Not(a, b) => match spec_dest_reg(a) {
            None => (m, Status::Faulted(Fault::Address)),
            Some(d) => (
                (MachineView {
                    regs: m.regs.update(d as int, not_word(b)),
                    pc: ((m.pc + 3) as u16),
                    ..m
                }),
                Status::Running,
            ),
        },
        Instruction::Rmem(a, b) => match spec_dest_reg(a) {
            None => (m, Status::Faulted(Fault::Address)),
            Some(d) => if b >= 32768 {
                (m, Status::Faulted(Fault::Address))
            } else {
                (
                    (MachineView {
                        regs: m.regs.update(d as int, m.mem[b as int]),
                        pc: ((m.pc + 3) as u16),
                        ..m
                    }),
                    Status::Running,
                )
            },
        },
        Instruction::Wmem(a, b) => if a >= 32768 {
            (m, Status::Faulted(Fault::Address))
        } else {
            (
                (MachineView { mem: m.mem.update(a as int, b), pc: ((m.pc + 3) as u16), ..m }),
                Status::Running,
            )
        },
        Instruction::Call(a) => (
            (MachineView { stack: m.stack.push(((m.pc + 2) as u16)), pc: a, ..m }),
            Status::Running,
        ),
        Instruction::Ret => if m.stack.len() == 0 {
            (m, Status::Faulted(Fault::Stack))
        } else {
            (
                (MachineView { pc: m.stack.last(), stack: m.stack.drop_last(), ..m }),
                Status::Running,
            )
        },
        Instruction::Out(a) => (
            (MachineView { output: m.output.push(((a % 256) as u8)), pc: ((m.pc + 2) as u16), ..m }),
            Status::Running,
        ),
        Instruction::In(a) => match spec_dest_reg(a) {
            None => (m, Status::Faulted(Fault::Address)),
            Some(d) => if m.input.len() == 0 {
                (m, Status::NeedInput)
            } else {
                (
                    (MachineView {
                        regs: m.regs.update(d as int, m.input.first() as u16),
                        input: m.input.drop_first(),
                        pc: ((m.pc + 2) as u16),
                        ..m
                    }),
                    Status::Running,
                )
            },
        },
        Instruction::Noop => ((MachineView { pc: ((m.pc + 1) as u16), ..m }), Status::Running),
    }
}

/// One full step of the engine: decode the instruction at the program
/// counter (a failed decode is a fatal decode fault) and apply its effect.
pub open spec fn spec_step(m: MachineView) -> (MachineView, Status)
    recommends
        m.wf(),
{
    match spec_decode(m, m.pc) {
        None => (m, Status::Faulted(Fault::Decode)),
        Some(i) => spec_effect(m, i),
    }
}

/// Up to `fuel` engine steps: stepping stops early when the machine halts,
/// faults or waits for input, and reports `Running` when the fuel runs out
/// first.
pub open spec fn spec_run(m: MachineView, fuel: nat) -> (MachineView, Status)
    recommends
        m.wf(),
    decreases fuel,
{
    if fuel == 0 {
        (m, Status::Running)
    } else {
        let s = spec_step(m);
        if s.1 == Status::Running {
            spec_run(s.0, (fuel - 1) as nat)
        } else {
            s
        }
    }
}

/// Running in fuel instalments is the same as one long run: when a first
/// run ends with its fuel spent and the machine still willing, a second
/// run continues exactly where it stopped; and a run that ended in a halt,
/// a fault or a wait for input is unchanged by any further fuel.
pub proof fn lemma_run_fuel_split(m: MachineView, f1: nat, f2: nat)
    ensures
        spec_run(m, f1).1 == Status::Running ==> spec_run(m, f1 + f2) == spec_run(
            spec_run(m, f1).0,
            f2,
        ),
        spec_run(m, f1).1 != Status::Running ==> spec_run(m, f1 + f2) == spec_run(m, f1),
    decreases f1,
{
    if f1 > 0 {
        let s = spec_step(m);
        if s.1 == Status::Running {
            lemma_run_fuel_split(s.0, (f1 - 1) as nat, f2);
        }
    }
}

/// The 16-bit words a byte image encodes, two bytes per word,
/// little-endian; a trailing odd byte encodes no word and is ignored.
pub open spec fn spec_words(bytes: Seq<u8>) -> Seq<u16> {
    Seq::new((bytes.len() / 2) as nat, |i: int| ((bytes[2 * i] + 256 * bytes[2 * i + 1]) as u16))
}

/// Decode a program image: each pair of bytes, little-endian, is one word.
#[verifier::loop_isolation(false)]
pub fn words_of_bytes(bytes: &Vec<u8>) -> (r: Vec<u16>)
    ensures
        r@ == spec_words(bytes@),
{
    let mut r: Vec<u16> = Vec::new();
    let mut i: usize = 0;
    while i < bytes.len() / 2
        invariant
            i <= bytes@.len() / 2,
            r@.len() == i,
            forall|j: int| 0 <= j < i ==> r@[j] == spec_words(bytes@)[j],
        decreases bytes@.len() / 2 - i,
    {
        let lo = bytes[2 * i];
        let hi = bytes[2 * i + 1];
        r.push(lo as u16 + (hi as u16) * 256);
        i = i + 1;
    }
    assert(r@ =~= spec_words(bytes@));
    r
}

/// Execute a comparison instruction (`eq`: equality, `gt`: strict
/// greater-than), storing 1 or 0 in the destination register; other
/// instructions are left untouched.  Does not advance the program counter.
pub fn comp_op(mach: &mut Machine, instr: Instruction) -> (r: Result<(), Fault>)
    requires
        old(mach).wf(),
    ensures
        final(mach).wf(),
        final(mach)@ == spec_comp_op(old(mach)@, instr).0,
        r == spec_comp_op(old(mach)@, instr).1,
{
    match instr {
        Instruction::Eq(a, b, c) => match dest_reg(a) {
            None => Err(Fault::Address),
            Some(d) => {
                let v: u16 = if b == c { 1 } else { 0 };
                write_mem(mach, Address::Reg(d), v);
                Ok(())
            },
        },
        Instruction::Gt(a, b, c) => match dest_reg(a) {
            None => Err(Fault::Address),
            Some(d) => {
                let v: u16 = if b > c { 1 } else { 0 };
                write_mem(mach, Address::Reg(d), v);
                Ok(())
            },
        },
        _ => Ok(()),
    }
}

/// Execute a binary arithmetic instruction, storing the result in the
/// destination register: `add` and `mult` modulo 32768, `mod` the
/// remainder (a zero divisor faults), `and` and `or` bitwise; other
/// instructions are left untouched.  Does not advance the program counter.
pub fn bin_op(mach: &mut Machine, instr: Instruction) -> (r: Result<(), Fault>)
    requires
        old(mach).wf(),
    ensures
        final(mach).wf(),
        final(mach)@ == spec_bin_op(old(mach)@, instr).0,
        r == spec_bin_op(old(mach)@, instr).1,
{
    match instr {
        Instruction::Add(a, b, c) => match dest_reg(a) {
            None => Err(Fault::Address),
            Some(d) => {
                let s: u32 = (b as u32 + c as u32) % 32768;
                write_mem(mach, Address::Reg(d), s as u16);
                Ok(())
            },
        },
        Instruction::Mult(a, b, c) => match dest_reg(a) {
            None => Err(Fault::Address),
            Some(d) => {
                proof {
                    assert((b as int) * (c as int) <= 65535 * 65535) by (nonlinear_arith)
                        requires
                            b <= 65535,
                            c <= 65535,
                    ;
                }
                let p: u64 = (b as u64) * (c as u64);
                let s: u64 = p % 32768;
                write_mem(mach, Address::Reg(d), s as u16);
                Ok(())
            },
        },
        Instruction::Mod(a, b, c) => match dest_reg(a) {
            None => Err(Fault::Address),
            Some(d) => {
                if c == 0 {
                    Err(Fault::DivZero)
                } else {
                    write_mem(mach, Address::Reg(d), b % c);
                    Ok(())
                }
            },
        },
        Instruction::And(a, b, c) => match dest_reg(a) {
            None => Err(Fault::Address),
            Some(d) => {
                write_mem(mach, Address::Reg(d), b & c);
                Ok(())
            },
        },
        Instruction::Or(a, b, c) => match dest_reg(a) {
            None => Err(Fault::Address),
            Some(d) => {
                write_mem(mach, Address::Reg(d), b | c);
                Ok(())
            },
        },
        _ => Ok(()),
    }
}

impl Machine {
    /// Apply the effect of the decoded instruction `i`, which must be the
    /// one encoded at the current program counter.
    fn effect(&mut self, i: Instruction) -> (st: Status)
        requires
            old(self).wf(),
            spec_decode(old(self)@, old(self).pc) == Some(i),
        ensures
            final(self).wf(),
            final(self)@ == spec_effect(old(self)@, i).0,
            st == spec_effect(old(self)@, i).1,
    {
        proof {
            lemma_decode_in_bounds(old(self)@, old(self)@.pc);
        }
        match i {
            Instruction::Halt => Status::Halted,
            Instruction::SetReg(a, b) => match dest_reg(a) {
                None => Status::Faulted(Fault::Address),
                Some(d) => {
                    self.registers[d as usize] = b;
                    self.pc = self.pc + 3;
                    assert(self@ =~= spec_effect(old(self)@, i).0);
                    Status::Running
                },
            },
            Instruction::Push(a) => {
                self.stack.push(a);
                self.pc = self.pc + 2;
                assert(self@ =~= spec_effect(old(self)@, i).0);
                Status::Running
            },
            Instruction::Pop(a) => match dest_reg(a) {
                None => Status::Faulted(Fault::Address),
                Some(d) => match self.stack.pop() {
                    None => Status::Faulted(Fault::Stack),
                    Some(v) => {
                        self.registers[d as usize] = v;
                        self.pc = self.pc + 2;
                        assert(self@ =~= spec_effect(old(self)@, i).0);
                        Status::Running
                    },
                },
            },
            Instruction::Eq(_, _, _) | Instruction::Gt(_, _, _) => {
                let r = comp_op(self, i);
                match r {
                    Ok(_) => {
                        self.pc = self.pc + 4;
                        assert(self@ =~= spec_effect(old(self)@, i).0);
                        Status::Running
                    },
                    Err(f) => Status::Faulted(f),
                }
            },
            Instruction::Jmp(a) => {
                self.pc = a;
                assert(self@ =~= spec_effect(old(self)@, i).0);
                Status::Running
            },
            Instruction::Jt(a, b) => {
                if a != 0 {
                    self.pc = b;
                } else {
                    self.pc = self.pc + 3;
                }
                assert(self@ =~= spec_effect(old(self)@, i).0);
                Status::Running
            },
            Instruction::Jf(a, b) => {
                if a == 0 {
                    self.pc = b;
                } else {
                    self.pc = self.pc + 3;
                }
                assert(self@ =~= spec_effect(old(self)@, i).0);
                Status::Running
            },
            Instruction::Add(_, _, _) | Instruction::Mult(_, _, _) | Instruction::Mod(_, _, _)
                | Instruction::And(_, _, _) | Instruction::Or(_, _, _) => {
                let r = bin_op(self, i);
                match r {
                    Ok(_) => {
                        self.pc = self.pc + 4;
                        assert(self@ =~= spec_effect(old(self)@, i).0);
                        Status::Running
                    },
                    Err(f) => Status::Faulted(f),
                }
            },
            Instruction::Not(a, b) => match dest_reg(a) {
                None => Status::Faulted(Fault::Address),
                Some(d) => {
                    self.registers[d as usize] = b ^ 0x7fff;
                    self.pc = self.pc + 3;
                    assert(self@ =~= spec_effect(old(self)@, i).0);
                    Status::Running
                },
            },
            Instruction::Rmem(a, b) => match dest_reg(a) {
                None => Status::Faulted(Fault::Address),
                Some(d) => {
                    if b >= 32768 {
                        Status::Faulted(Fault::Address)
                    } else {
                        let v = self.memory[b as usize];
                        self.registers[d as usize] = v;
                        self.pc = self.pc + 3;
                        assert(self@ =~= spec_effect(old(self)@, i).0);
                        Status::Running
                    }
                },
            },
            Instruction::Wmem(a, b) => {
                if a >= 32768 {
                    Status::Faulted(Fault::Address)
                } else {
                    self.memory[a as usize] = b;
                    self.pc = self.pc + 3;
                    assert(self@ =~= spec_effect(old(self)@, i).0);
                    Status::Running
                }
            },
            Instruction::Call(a) => {
                let ret: u16 = self.pc + 2;
                self.stack.push(ret);
                self.pc = a;
                assert(self@ =~= spec_effect(old(self)@, i).0);
                Status::Running
            },
            Instruction::Ret => match self.stack.pop() {
                None => Status::Faulted(Fault::Stack),
                Some(v) => {
                    self.pc = v;
                    assert(self@ =~= spec_effect(old(self)@, i).0);
                    Status::Running
                },
            },
            Instruction::Out(a) => {
                self.output.push((a % 256) as u8);
                self.pc = self.pc + 2;
                assert(self@ =~= spec_effect(old(self)@, i).0);
                Status::Running
            },
            Instruction::In(a) => match dest_reg(a) {
                None => Status::Faulted(Fault::Address),
                Some(d) => {
                    if self.input.len() == 0 {
                        Status::NeedInput
                    } else {
                        let byte = self.input.remove(0);
                        self.registers[d as usize] = byte as u16;
                        self.pc = self.pc + 2;
                        assert(self@.input =~= old(self)@.input.drop_first());
                        assert(self@ =~= spec_effect(old(self)@, i).0);
                        Status::Running
                    }
                },
            },
            Instruction::Noop => {
                self.pc = self.pc + 1;
                assert(self@ =~= spec_effect(old(self)@, i).0);
                Status::Running
            },
        }
    }

    /// One step of the fetch-decode-execute loop: decode the instruction
    /// at the program counter and execute its effect.
    pub fn step(&mut self) -> (st: Status)
        requires
            old(self).wf(),
        ensures
            final(self).wf(),
            final(self)@ == spec_step(old(self)@).0,
            st == spec_step(old(self)@).1,
    {
        let pc = self.pc;
        let decoded = get_op(self, pc);
        match decoded {
            None => Status::Faulted(Fault::Decode),
            Some(i) => self.effect(i),
        }
    }

    /// A fresh machine loaded with the given program image: the program
    /// words fill memory from address 0 and the rest of the 32768 words is
    /// zero; registers are zero, the stack and both byte streams are empty,
    /// and execution starts at address 0.
    #[verifier::loop_isolation(false)]
    pub fn new(program: &Vec<u16>) -> (m: Machine)
        requires
            program@.len() <= 32768,
        ensures
            m.wf(),
            forall|j: int| 0 <= j < program@.len() ==> m@.mem[j] == program@[j],
            forall|j: int| program@.len() <= j < 32768 ==> m@.mem[j] == 0,
            forall|j: int| 0 <= j < 8 ==> m@.regs[j] == 0,
            m@.stack.len() == 0,
            m@.pc == 0,
            m@.input.len() == 0,
            m@.output.len() == 0,
    {
        let mut memory: Vec<u16> = Vec::new();
        let mut i: usize = 0;
        while i < program.len()
            invariant
                i <= program@.len(),
                memory@.len() == i,
                forall|j: int| 0 <= j < i ==> memory@[j] == program@[j],
            decreases program@.len() - i,
        {
            memory.push(program[i]);
            i = i + 1;
        }
        while memory.len() < 32768
            invariant
                program@.len() <= memory@.len() <= 32768,
                forall|j: int| 0 <= j < program@.len() ==> memory@[j] == program@[j],
                forall|j: int| program@.len() <= j < memory@.len() ==> memory@[j] == 0,
            decreases 32768 - memory@.len(),
        {
            memory.push(0);
        }
        let mut registers: Vec<u16> = Vec::new();
        while registers.len() < 8
            invariant
                registers@.len() <= 8,
                forall|j: int| 0 <= j < registers@.len() ==> registers@[j] == 0,
            decreases 8 - registers@.len(),
        {
            registers.push(0);
        }
        Machine {
            memory,
            registers,
            stack: Vec::new(),
            pc: 0,
            input: Vec::new(),
            output: Vec::new(),
        }
    }

    /// Append a chunk of console input (normally one full line, terminator
    /// included) to the input buffer for `in` instructions to consume.
    #[verifier::loop_isolation(false)]
    pub fn feed_input(&mut self, bytes: &Vec<u8>)
        ensures
            final(self)@ == (MachineView { input: old(self)@.input + bytes@, ..old(self)@ }),
    {
        let mut i: usize = 0;
        while i < bytes.len()
            invariant
                i <= bytes@.len(),
                self.memory@ == old(self).memory@,
                self.registers@ == old(self).registers@,
                self.stack@ == old(self).stack@,
                self.pc == old(self).pc,
                self.output@ == old(self).output@,
                self.input@.len() == old(self).input@.len() + i,
                forall|j: int|
                    0 <= j < old(self).input@.len() ==> self.input@[j] == old(self).input@[j],
                forall|j: int|
                    0 <= j < i ==> self.input@[old(self).input@.len() + j] == bytes@[j],
            decreases bytes@.len() - i,
        {
            self.input.push(bytes[i]);
            i = i + 1;
        }
        assert(self@.input =~= old(self)@.input + bytes@);
        assert(self@ =~= (MachineView { input: old(self)@.input + bytes@, ..old(self)@ }));
    }

    /// Step the machine at most `fuel` times, stopping early when it
    /// halts, faults or waits for input; `Running` means the fuel ran out
    /// with the machine still willing.
    #[verifier::loop_isolation(false)]
    pub fn run(&mut self, fuel: u64) -> (st: Status)
        requires
            old(self).wf(),
        ensures
            final(self).wf(),
            final(self)@ == spec_run(old(self)@, fuel as nat).0,
            st == spec_run(old(self)@, fuel as nat).1,
    {
        let mut remaining: u64 = fuel;
        loop
            invariant
                self.wf(),
                remaining <= fuel,
                spec_run(old(self)@, fuel as nat) == spec_run(self@, remaining as nat),
            decreases remaining,
        {
            if remaining == 0 {
                return Status::Running;
            }
            let ghost prev = self@;
            let ghost rem0 = remaining;
            let st = self.step();
            remaining = remaining - 1;
            proof {
                assert(spec_run(prev, rem0 as nat) == if spec_step(prev).1 == Status::Running {
                    spec_run(spec_step(prev).0, (rem0 - 1) as nat)
                } else {
                    spec_step(prev)
                });
            }
            match st {
                Status::Running => {},
                _ => {
                    return st;
                },
            }
        }
    }
}

} // verus!
