//! The instruction set and the decoder: reading an opcode and its operand
//! words at a program-counter address, resolving each operand per its role.

use vstd::prelude::*;

use crate::machine::Machine;
use crate::machine::MachineView;

verus! {

/// A decoded instruction.  Operands in a destination role keep their raw
/// word (the executing instruction classifies it itself as a register
/// destination); operands in a value role carry their effective value
/// (a literal as-is, a register reference replaced by the register's
/// current contents).
#[derive(Clone, Copy, Debug, PartialEq, Eq, Structural)]
pub enum Instruction {
    /// Stop execution cleanly.
    Halt,
    /// `set dest value`: write the value into a register.
    SetReg(u16, u16),
    /// `push value`.
    Push(u16),
    /// `pop dest`.
    Pop(u16),
    /// `eq dest value value`: 1 if equal, else 0.
    Eq(u16, u16, u16),
    /// `gt dest value value`: 1 if strictly greater, else 0.
    Gt(u16, u16, u16),
    /// `jmp value`.
    Jmp(u16),
    /// `jt value value`: jump to the second if the first is nonzero.
    Jt(u16, u16),
    /// `jf value value`: jump to the second if the first is zero.
    Jf(u16, u16),
    /// `add dest value value`, modulo 32768.
    Add(u16, u16, u16),
    /// `mult dest value value`, modulo 32768.
    Mult(u16, u16, u16),
    /// `mod dest value value`: remainder.
    Mod(u16, u16, u16),
    /// `and dest value value`: bitwise.
    And(u16, u16, u16),
    /// `or dest value value`: bitwise.
    Or(u16, u16, u16),
    /// `not dest value`: 15-bit complement.
    Not(u16, u16),
    /// `rmem dest value`: read memory at the value used as an address.
    Rmem(u16, u16),
    /// `wmem value value`: write the second at the first used as an address.
    Wmem(u16, u16),
    /// `call value`: push the return address, then jump.
    Call(u16),
    /// `ret`: pop the return address and jump to it.
    Ret,
    /// `out value`: emit the low byte.
    Out(u16),
    /// `in dest`: read one input byte into a register.
    In(u16),
    /// `noop`.
    Noop,
}

/// Total word length of an instruction, opcode included.
pub open spec fn spec_instr_len(i: Instruction) -> u16 {
    match i {
        Instruction::Halt | Instruction::Ret | Instruction::Noop => 1,
        Instruction::Push(_) | Instruction::Pop(_) | Instruction::Jmp(_)
            | Instruction::Call(_) | Instruction::Out(_) | Instruction::In(_) => 2,
        Instruction::SetReg(_, _) | Instruction::Jt(_, _) | Instruction::Jf(_, _)
            | Instruction::Not(_, _) | Instruction::Rmem(_, _) | Instruction::Wmem(_, _) => 3,
        Instruction::Eq(_, _, _) | Instruction::Gt(_, _, _) | Instruction::Add(_, _, _)
            | Instruction::Mult(_, _, _) | Instruction::Mod(_, _, _)
            | Instruction::And(_, _, _) | Instruction::Or(_, _, _) => 4,
    }
}

/// Exec counterpart of [`spec_instr_len`].
pub fn instr_len(i: Instruction) -> (r: u16)
    ensures
        r == spec_instr_len(i),
{
    match i {
        Instruction::Halt | Instruction::Ret | Instruction::Noop => 1,
        Instruction::Push(_) | Instruction::Pop(_) | Instruction::Jmp(_)
            | Instruction::Call(_) | Instruction::Out(_) | Instruction::In(_) => 2,
        Instruction::SetReg(_, _) | Instruction::Jt(_, _) | Instruction::Jf(_, _)
            | Instruction::Not(_, _) | Instruction::Rmem(_, _) | Instruction::Wmem(_, _) => 3,
        Instruction::Eq(_, _, _) | Instruction::Gt(_, _, _) | Instruction::Add(_, _, _)
            | Instruction::Mult(_, _, _) | Instruction::Mod(_, _, _)
            | Instruction::And(_, _, _) | Instruction::Or(_, _, _) => 4,
    }
}

/// The effective value of the operand word stored at memory address `addr`:
/// a literal is used as-is; a register reference is replaced by the
/// register's current contents (which never chain further); an invalid
/// word, or an address outside memory, yields nothing.
pub open spec fn spec_operand_value(m: MachineView, addr: int) -> Option<u16>
    recommends
        m.wf(),
{
    if 0 <= addr < 32768 {
        let w = m.mem[addr];
        if w < 32768 {
            Some(w)
        } else if w < 32776 {
            Some(m.regs[w - 32768])
        } else {
            None
        }
    } else {
        None
    }
}

/// Resolve the operand word stored at memory address `raw_addr` to its
/// effective value; `None` is a decode fault.
pub fn get_oprnd_value(mach: &Machine, raw_addr: u16) -> (r: Option<u16>)
    requires
        mach.wf(),
    ensures
        r == spec_operand_value(mach@, raw_addr as int),
{
    if raw_addr >= 32768 {
        return None;
    }
    let w = mach.memory[raw_addr as usize];
    if w < 32768 {
        Some(w)
    } else if w < 32776 {
        Some(mach.registers[(w - 32768) as usize])
    } else {
        None
    }
}

/// The instruction encoded in memory at address `pc`, with each operand
/// resolved per its role, or nothing if decoding faults: the program
/// counter or an operand position lies outside memory, the opcode is
/// outside `0..=21`, or a value-role operand classifies as invalid.
pub open spec fn spec_decode(m: MachineView, pc: u16) -> Option<Instruction>
    recommends
        m.wf(),
{
    if pc >= 32768 {
        None
    } else {
        let op = m.mem[pc as int];
        if op == 0 {
            Some(Instruction::Halt)
        } else if op == 18 {
            Some(Instruction::Ret)
        } else if op == 21 {
            Some(Instruction::Noop)
        } else if op == 3 || op == 20 {
            // one operand, destination role: kept raw
            if pc + 1 < 32768 {
                let a_raw = m.mem[pc + 1];
                if op == 3 {
                    Some(Instruction::Pop(a_raw))
                } else {
                    Some(Instruction::In(a_raw))
                }
            } else {
                None
            }
        } else if op == 2 || op == 6 || op == 17 || op == 19 {
            // one operand, value role
            match spec_operand_value(m, pc + 1) {
                None => None,
                Some(a) => if op == 2 {
                    Some(Instruction::Push(a))
                } else if op == 6 {
                    Some(Instruction::Jmp(a))
                } else if op == 17 {
                    Some(Instruction::Call(a))
                } else {
                    Some(Instruction::Out(a))
                },
            }
        } else if op == 1 || op == 14 || op == 15 {
            // destination, value
            if pc + 2 < 32768 {
                let a_raw = m.mem[pc + 1];
                match spec_operand_value(m, pc + 2) {
                    None => None,
                    Some(b) => if op == 1 {
                        Some(Instruction::SetReg(a_raw, b))
                    } else if op == 14 {
                        Some(Instruction::Not(a_raw, b))
                    } else {
                        Some(Instruction::Rmem(a_raw, b))
                    },
                }
            } else {
                None
            }
        } else if op == 7 || op == 8 || op == 16 {
            // value, value
            match (spec_operand_value(m, pc + 1), spec_operand_value(m, pc + 2)) {
                (Some(a), Some(b)) => if op == 7 {
                    Some(Instruction::Jt(a, b))
                } else if op == 8 {
                    Some(Instruction::Jf(a, b))
                } else {
                    Some(Instruction::Wmem(a, b))
                },
                _ => None,
            }
        } else if op == 4 || op == 5 || op == 9 || op == 10 || op == 11 || op == 12 || op == 13 {
            // destination, value, value
            if pc + 3 < 32768 {
                let a_raw = m.mem[pc + 1];
                match (spec_operand_value(m, pc + 2), spec_operand_value(m, pc + 3)) {
                    (Some(b), Some(c)) => if op == 4 {
                        Some(Instruction::Eq(a_raw, b, c))
                    } else if op == 5 {
                        Some(Instruction::Gt(a_raw, b, c))
                    } else if op == 9 {
                        Some(Instruction::Add(a_raw, b, c))
                    } else if op == 10 {
                        Some(Instruction::Mult(a_raw, b, c))
                    } else if op == 11 {
                        Some(Instruction::Mod(a_raw, b, c))
                    } else if op == 12 {
                        Some(Instruction::And(a_raw, b, c))
                    } else {
                        Some(Instruction::Or(a_raw, b, c))
                    },
                    _ => None,
                }
            } else {
                None
            }
        } else {
            None
        }
    }
}

/// A decode that succeeds starts inside memory and leaves the whole
/// instruction inside memory: the program counter plus the instruction
/// length stays within the address space.
pub proof fn lemma_decode_in_bounds(m: MachineView, pc: u16)
    requires
        spec_decode(m, pc) is Some,
    ensures
        pc < 32768,
        pc + spec_instr_len(spec_decode(m, pc).unwrap()) <= 32768,
{
}

/// Fetch and decode the instruction at memory address `raw_addr`,
/// resolving each operand per its role; `None` is a decode fault.
pub fn get_op(mach: &Machine, raw_addr: u16) -> (r: Option<Instruction>)
    requires
        mach.wf(),
    ensures
        r == spec_decode(mach@, raw_addr),
{
    if raw_addr >= 32768 {
        return None;
    }
    let op = mach.memory[raw_addr as usize];
    match op {
        0 => Some(Instruction::Halt),
        18 => Some(Instruction::Ret),
        21 => Some(Instruction::Noop),
        3 | 20 => {
            if raw_addr + 1 < 32768 {
                let a_raw = mach.memory[(raw_addr + 1) as usize];
                if op == 3 {
                    Some(Instruction::Pop(a_raw))
                } else {
                    Some(Instruction::In(a_raw))
                }
            } else {
                None
            }
        },
        2 | 6 | 17 | 19 => {
            match get_oprnd_value(mach, raw_addr + 1) {
                None => None,
                Some(a) => {
                    if op == 2 {
                        Some(Instruction::Push(a))
                    } else if op == 6 {
                        Some(Instruction::Jmp(a))
                    } else if op == 17 {
                        Some(Instruction::Call(a))
                    } else {
                        Some(Instruction::Out(a))
                    }
                },
            }
        },
        1 | 14 | 15 => {
            if raw_addr + 2 < 32768 {
                let a_raw = mach.memory[(raw_addr + 1) as usize];
                match get_oprnd_value(mach, raw_addr + 2) {
                    None => None,
                    Some(b) => {
                        if op == 1 {
                            Some(Instruction::SetReg(a_raw, b))
                        } else if op == 14 {
                            Some(Instruction::Not(a_raw, b))
                        } else {
                            Some(Instruction::Rmem(a_raw, b))
                        }
                    },
                }
            } else {
                None
            }
        },
        7 | 8 | 16 => {
            match (get_oprnd_value(mach, raw_addr + 1), get_oprnd_value(mach, raw_addr + 2)) {
                (Some(a), Some(b)) => {
                    if op == 7 {
                        Some(Instruction::Jt(a, b))
                    } else if op == 8 {
                        Some(Instruction::Jf(a, b))
                    } else {
                        Some(Instruction::Wmem(a, b))
                    }
                },
                _ => None,
            }
        },
        4 | 5 | 9 | 10 | 11 | 12 | 13 => {
            if raw_addr + 3 < 32768 {
                let a_raw = mach.memory[(raw_addr + 1) as usize];
                match (get_oprnd_value(mach, raw_addr + 2), get_oprnd_value(mach, raw_addr + 3)) {
                    (Some(b), Some(c)) => {
                        if op == 4 {
                            Some(Instruction::Eq(a_raw, b, c))
                        } else if op == 5 {
                            Some(Instruction::Gt(a_raw, b, c))
                        } else if op == 9 {
                            Some(Instruction::Add(a_raw, b, c))
                        } else if op == 10 {
                            Some(Instruction::Mult(a_raw, b, c))
                        } else if op == 11 {
                            Some(Instruction::Mod(a_raw, b, c))
                        } else if op == 12 {
                            Some(Instruction::And(a_raw, b, c))
                        } else {
                            Some(Instruction::Or(a_raw, b, c))
                        }
                    },
                    _ => None,
                }
            } else {
                None
            }
        },
        _ => None,
    }
}

} // verus!
