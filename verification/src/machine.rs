//! The machine state: a 32768-word memory, eight registers, the call/data
//! stack, the program counter and the two console byte streams, together
//! with its mathematical view and the raw read/write operations.

use vstd::prelude::*;

use crate::word::Address;

verus! {

/// A fatal machine condition; each kind terminates the run at once.
#[derive(Clone, Copy, Debug, PartialEq, Eq, Structural)]
pub enum Fault {
    /// The opcode at the program counter is outside `0..=21`, an operand in
    /// a value role classifies as invalid (word at or above 32776), or an
    /// instruction word would be fetched from outside memory.
    Decode,
    /// A destination-role operand does not name a register, or `rmem`/`wmem`
    /// was given a memory address at or above 32768.
    Address,
    /// `pop` or `ret` executed against an empty stack.
    Stack,
    /// `mod` executed with a zero divisor.
    DivZero,
}

/// What the engine reports after stepping.
#[derive(Clone, Copy, Debug, PartialEq, Eq, Structural)]
pub enum Status {
    /// An instruction was executed and the machine can keep going.
    Running,
    /// The next instruction is `in` and the input buffer is empty; the
    /// machine is unchanged and waits for more input bytes.
    NeedInput,
    /// `halt` was executed: clean termination.
    Halted,
    /// A fatal condition was met: erroneous termination.
    Faulted(Fault),
}

/// The mathematical view of a machine: plain sequences and words.
#[verifier::ext_equal]
pub ghost struct MachineView {
    /// The 32768 memory words.
    pub mem: Seq<u16>,
    /// The 8 register words.
    pub regs: Seq<u16>,
    /// The stack, top last.
    pub stack: Seq<u16>,
    /// The program counter.
    pub pc: u16,
    /// Input bytes not yet consumed by `in`, oldest first.
    pub input: Seq<u8>,
    /// Output bytes emitted by `out` so far, oldest first.
    pub output: Seq<u8>,
}

impl MachineView {
    /// Well-formedness: the two stores have their fixed sizes.
    pub open spec fn wf(self) -> bool {
        &&& self.mem.len() == 32768
        &&& self.regs.len() == 8
    }
}

/// The machine state.
pub struct Machine {
    /// Flat store of 32768 words, addressable `0..32768`.
    pub memory: Vec<u16>,
    /// The 8 general registers, distinct storage from memory.
    pub registers: Vec<u16>,
    /// The LIFO word stack; the top is the last element.
    pub stack: Vec<u16>,
    /// The program counter: the address of the next instruction.
    pub pc: u16,
    /// Buffered input bytes awaiting consumption by `in`.
    pub input: Vec<u8>,
    /// Output bytes emitted by `out`, in execution order.
    pub output: Vec<u8>,
}

impl View for Machine {
    type V = MachineView;

    open spec fn view(&self) -> MachineView {
        MachineView {
            mem: self.memory@,
            regs: self.registers@,
            stack: self.stack@,
            pc: self.pc,
            input: self.input@,
            output: self.output@,
        }
    }
}

impl Machine {
    /// Well-formedness of the backing stores.
    pub open spec fn wf(&self) -> bool {
        self@.wf()
    }
}

/// A resolved address is valid when its index is inside its backing store.
pub open spec fn addr_valid(a: Address) -> bool {
    match a {
        Address::Mem(i) => i < 32768,
        Address::Reg(r) => r < 8,
    }
}

/// The word a valid resolved address holds.
pub open spec fn spec_read(m: MachineView, a: Address) -> u16
    recommends
        m.wf(),
        addr_valid(a),
{
    match a {
        Address::Mem(i) => m.mem[i as int],
        Address::Reg(r) => m.regs[r as int],
    }
}

/// The machine after storing `v` at a valid resolved address.  The word is
/// stored verbatim, even if it would itself classify as a register
/// reference: classification is deferred to the next read's use-site.
pub open spec fn spec_write(m: MachineView, a: Address, v: u16) -> MachineView
    recommends
        m.wf(),
        addr_valid(a),
{
    match a {
        Address::Mem(i) => (MachineView { mem: m.mem.update(i as int, v), ..m }),
        Address::Reg(r) => (MachineView { regs: m.regs.update(r as int, v), ..m }),
    }
}

/// Read the word at a resolved address, from memory or the register file.
pub fn read_mem(mach: &Machine, address: Address) -> (r: u16)
    requires
        mach.wf(),
        addr_valid(address),
    ensures
        r == spec_read(mach@, address),
{
    match address {
        Address::Mem(i) => mach.memory[i as usize],
        Address::Reg(r) => mach.registers[r as usize],
    }
}

/// Store a word verbatim at a resolved address, in memory or the register
/// file.
pub fn write_mem(mach: &mut Machine, address: Address, value: u16)
    requires
        old(mach).wf(),
        addr_valid(address),
    ensures
        final(mach).wf(),
        final(mach)@ == spec_write(old(mach)@, address, value),
{
    match address {
        Address::Mem(i) => {
            mach.memory[i as usize] = value;
        },
        Address::Reg(r) => {
            mach.registers[r as usize] = value;
        },
    }
    assert(mach@ =~= spec_write(old(mach)@, address, value));
}

} // verus!
