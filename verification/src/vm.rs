//! The machine: 32 registers, a program, a heap, an equality flag, and the
//! loop that fetches, decodes and applies one instruction after another.

use crate::arith::{
    divide, immediate, leftover, quotient, to_unsigned, unsigned, wrap, wrapping_difference,
    wrapping_product, wrapping_sum,
};
use crate::instructions::{decode, operand_width, Opcode};
use vstd::prelude::*;

verus! {

/// Why the machine refused an instruction.
#[derive(Clone, Copy, Debug, PartialEq, Eq, Structural)]
pub enum Fault {
    /// The byte at the program counter selects no operation.
    IllegalOpcode,
    /// The program ends before the operand bytes of the instruction do.
    TruncatedInstruction,
    /// An operand byte names a register beyond the last one.
    RegisterOutOfRange,
    /// The divisor register of `DIV` holds zero.
    DivisionByZero,
    /// The quotient of `DIV` does not fit in a register.
    DivisionOverflow,
    /// `JMPF` would move the program counter beyond what it can hold.
    JumpOutOfRange,
    /// `JMPB` would move the program counter before the start of the program.
    JumpUnderflow,
    /// `ALOC` was asked for a negative number of bytes.
    HeapShrink,
    /// `ALOC` would grow the heap beyond `i32::MAX` bytes.
    HeapLimit,
}

/// Why the machine stopped.
#[derive(Clone, Copy, Debug, PartialEq, Eq, Structural)]
pub enum Stop {
    /// A `HLT` instruction was executed.
    Halt,
    /// The program counter is at or past the end of the program.
    EndOfProgram,
    /// An instruction was refused.
    Fault(Fault),
}

/// What one step of the machine reports.
#[derive(Clone, Copy, Debug, PartialEq, Eq, Structural)]
pub enum Step {
    /// An instruction was applied and the machine can go on.
    Continue,
    /// The machine stopped.
    Done(Stop),
}

/// A machine. All of its state is open: a program can be put in place
/// whole, and registers and flags set, before it runs.
pub struct VM {
    pub registers: [i32; 32],
    pub program: Vec<u8>,
    pub equal_flag: bool,
    pub remainder: u32,
    pub heap: Vec<u8>,
    pub pc: usize,  // program counter
}

/// The state of a machine as mathematical values.
pub struct VmState {
    pub registers: Seq<i32>,
    pub program: Seq<u8>,
    pub equal_flag: bool,
    pub remainder: u32,
    pub heap: Seq<u8>,
    pub pc: int,
}

impl View for VM {
    type V = VmState;

    open spec fn view(&self) -> VmState {
        VmState {
            registers: self.registers@,
            program: self.program@,
            equal_flag: self.equal_flag,
            remainder: self.remainder,
            heap: self.heap@,
            pc: self.pc as int,
        }
    }
}

impl VmState {
    /// This state with the program counter at `pc`.
    pub open spec fn at(self, pc: int) -> VmState {
        VmState { pc, ..self }
    }

    /// This state with `value` in register `index`.
    pub open spec fn with_register(self, index: int, value: i32) -> VmState {
        VmState { registers: self.registers.update(index, value), ..self }
    }

    /// A state that a machine can be in: 32 registers, and a program counter
    /// that fits in a `usize`.
    pub open spec fn valid(self) -> bool {
        &&& self.registers.len() == 32
        &&& 0 <= self.pc <= usize::MAX
    }
}

/// Whether the operand bytes that `op` reads as register numbers all name a
/// register.
pub open spec fn registers_named(op: Opcode, a: u8, b: u8, c: u8) -> bool {
    match op {
        Opcode::HLT | Opcode::IGL => true,
        Opcode::ADD | Opcode::SUB | Opcode::MUL | Opcode::DIV => a < 32 && b < 32 && c < 32,
        Opcode::EQ => a < 32 && b < 32,
        _ => a < 32,
    }
}

/// A state that stops with `fault`, otherwise unchanged.
pub open spec fn refuse(s: VmState, fault: Fault) -> (VmState, Step) {
    (s, Step::Done(Stop::Fault(fault)))
}

/// The effect of `op` with operand bytes `a`, `b`, `c` on a state whose
/// program counter is already past the instruction. The register numbers
/// among the operands are below 32.
pub open spec fn apply(s: VmState, op: Opcode, a: u8, b: u8, c: u8) -> (VmState, Step) {
    let x = s.registers[a as int];
    let y = s.registers[b as int];
    match op {
        Opcode::LOAD => (s.with_register(a as int, immediate(b, c) as i32), Step::Continue),
        Opcode::HLT => (s, Step::Done(Stop::Halt)),
        Opcode::ADD => (s.with_register(c as int, wrap(x + y)), Step::Continue),
        Opcode::SUB => (s.with_register(c as int, wrap(x - y)), Step::Continue),
        Opcode::MUL => (s.with_register(c as int, wrap(x * y)), Step::Continue),
        Opcode::DIV => if y == 0 {
            refuse(s, Fault::DivisionByZero)
        } else if x == i32::MIN && y == -1 {
            refuse(s, Fault::DivisionOverflow)
        } else {
            (
                VmState {
                    remainder: unsigned(leftover(x as int, y as int) as i32) as u32,
                    ..s.with_register(c as int, quotient(x as int, y as int) as i32)
                },
                Step::Continue,
            )
        },
        Opcode::JMP => (s.at(unsigned(x)), Step::Continue),
        Opcode::JMPF => if s.pc + unsigned(x) > usize::MAX {
            refuse(s, Fault::JumpOutOfRange)
        } else {
            (s.at(s.pc + unsigned(x)), Step::Continue)
        },
        Opcode::JMPB => if unsigned(x) > s.pc {
            refuse(s, Fault::JumpUnderflow)
        } else {
            (s.at(s.pc - unsigned(x)), Step::Continue)
        },
        Opcode::EQ => (VmState { equal_flag: x == y, ..s }, Step::Continue),
        Opcode::JEQ => if s.equal_flag {
            (s.at(unsigned(x)), Step::Continue)
        } else {
            (s, Step::Continue)
        },
        Opcode::JNEQ => if !s.equal_flag {
            (s.at(unsigned(x)), Step::Continue)
        } else {
            (s, Step::Continue)
        },
        Opcode::ALOC => if x < 0 {
            refuse(s, Fault::HeapShrink)
        } else if s.heap.len() + x > i32::MAX {
            refuse(s, Fault::HeapLimit)
        } else {
            (VmState { heap: s.heap + Seq::new(x as nat, |i: int| 0u8), ..s }, Step::Continue)
        },
        Opcode::INC => (s.with_register(a as int, wrap(x + 1)), Step::Continue),
        Opcode::DEC => (s.with_register(a as int, wrap(x - 1)), Step::Continue),
        Opcode::IGL => refuse(s, Fault::IllegalOpcode),
    }
}

/// The effect of an instruction whose operand bytes have been consumed: the
/// register numbers among them are checked before anything is read or
/// written.
pub open spec fn operate(s: VmState, op: Opcode, a: u8, b: u8, c: u8) -> (VmState, Step) {
    if registers_named(op, a, b, c) {
        apply(s, op, a, b, c)
    } else {
        refuse(s, Fault::RegisterOutOfRange)
    }
}

/// One step of the machine: the state after it and what it reports.
///
/// At or past the end of the program nothing changes. Otherwise the opcode
/// byte is consumed; `HLT` and an unknown byte stop there. The operand bytes
/// are consumed together or, where the program ends before them, not at all.
/// A fault leaves registers, heap, flag and remainder as they were.
pub open spec fn step(s: VmState) -> (VmState, Step) {
    if !(0 <= s.pc < s.program.len()) {
        (s, Step::Done(Stop::EndOfProgram))
    } else {
        let op = decode(s.program[s.pc]);
        let first = s.pc + 1;
        let width = operand_width(op);
        if width == 0 {
            apply(s.at(first), op, 0, 0, 0)
        } else if first + width > s.program.len() {
            refuse(s.at(first), Fault::TruncatedInstruction)
        } else {
            let a = s.program[first];
            let b = if width == 3 {
                s.program[first + 1]
            } else {
                0
            };
            let c = if width == 3 {
                s.program[first + 2]
            } else {
                0
            };
            operate(s.at(first + width), op, a, b, c)
        }
    }
}

/// The state after up to `budget` steps, and why the machine stopped, or
/// `None` where it had not stopped when the steps ran out.
pub open spec fn run_steps(s: VmState, budget: nat) -> (VmState, Option<Stop>)
    decreases budget,
{
    if budget == 0 {
        (s, None)
    } else {
        match step(s).1 {
            Step::Done(stop) => (step(s).0, Some(stop)),
            Step::Continue => run_steps(step(s).0, (budget - 1) as nat),
        }
    }
}

/// At or past the end of the program a step changes nothing and reports the
/// end, and so does a run of any length.
pub proof fn lemma_end_of_program(s: VmState, budget: nat)
    requires
        s.pc >= s.program.len(),
    ensures
        step(s) == (s, Step::Done(Stop::EndOfProgram)),
        budget > 0 ==> run_steps(s, budget) == (s, Some(Stop::EndOfProgram)),
{
}

/// `HLT` stops the machine, and a run of any length, with the program
/// counter behind its byte and everything else as it was.
pub proof fn lemma_halt(s: VmState, budget: nat)
    requires
        0 <= s.pc < s.program.len(),
        decode(s.program[s.pc]) == Opcode::HLT,
    ensures
        step(s) == (s.at(s.pc + 1), Step::Done(Stop::Halt)),
        budget > 0 ==> run_steps(s, budget) == (s.at(s.pc + 1), Some(Stop::Halt)),
{
}

/// A byte that selects no operation stops the machine, and a run of any
/// length, with a fault of its own, the program counter behind the byte and
/// everything else as it was.
pub proof fn lemma_illegal_opcode(s: VmState, budget: nat)
    requires
        0 <= s.pc < s.program.len(),
        s.program[s.pc] >= 15,
    ensures
        step(s) == (s.at(s.pc + 1), Step::Done(Stop::Fault(Fault::IllegalOpcode))),
        budget > 0 ==> run_steps(s, budget) == (
            s.at(s.pc + 1),
            Some(Stop::Fault(Fault::IllegalOpcode)),
        ),
{
}

/// A step that stops the machine, for whatever reason, leaves registers,
/// heap, flag and remainder as they were.
pub proof fn lemma_stop_changes_nothing(s: VmState)
    requires
        step(s).1 is Done,
    ensures
        step(s).0 == s.at(step(s).0.pc),
{
}

/// `DIV` by a register that holds zero is a fault, and changes nothing but
/// the program counter.
pub proof fn lemma_division_by_zero(s: VmState)
    requires
        0 <= s.pc,
        s.pc + 3 < s.program.len(),
        decode(s.program[s.pc]) == Opcode::DIV,
        s.program[s.pc + 1] < 32,
        s.program[s.pc + 2] < 32,
        s.program[s.pc + 3] < 32,
        s.registers[s.program[s.pc + 2] as int] == 0,
    ensures
        step(s) == (s.at(s.pc + 4), Step::Done(Stop::Fault(Fault::DivisionByZero))),
{
}

/// The number of a register is checked before the register is used: an
/// instruction whose operand bytes are all there and name a register beyond
/// the last one is refused with the state as it was, but for the program
/// counter; so a step that goes on has named only registers from 0 to 31.
pub proof fn lemma_register_checked(s: VmState)
    requires
        0 <= s.pc < s.program.len(),
        operand_width(decode(s.program[s.pc])) > 0,
        s.pc + operand_width(decode(s.program[s.pc])) < s.program.len(),
    ensures
        ({
            let op = decode(s.program[s.pc]);
            let wide = operand_width(op) == 3;
            let a = s.program[s.pc + 1];
            let b = if wide {
                s.program[s.pc + 2]
            } else {
                0
            };
            let c = if wide {
                s.program[s.pc + 3]
            } else {
                0
            };
            &&& !registers_named(op, a, b, c) ==> step(s) == refuse(
                s.at(s.pc + 1 + operand_width(op)),
                Fault::RegisterOutOfRange,
            )
            &&& step(s).1 == Step::Continue ==> registers_named(op, a, b, c)
        }),
{
}

/// A step keeps the program and the number of registers, and leaves the
/// program counter within what a `usize` holds; the heap only grows, and
/// what it held stays.
pub proof fn lemma_step_keeps_shape(s: VmState)
    requires
        s.valid(),
        s.program.len() <= usize::MAX,
    ensures
        step(s).0.valid(),
        step(s).0.program == s.program,
        step(s).0.heap.len() >= s.heap.len(),
        step(s).0.heap.subrange(0, s.heap.len() as int) == s.heap,
{
    assert(step(s).0.heap.subrange(0, s.heap.len() as int) =~= s.heap);
}

impl VM {
    /// A machine with all registers zero, no program and an empty heap.
    pub fn new() -> (vm: VM)
        ensures
            vm@.registers == Seq::new(32, |i: int| 0i32),
            vm@.program == Seq::<u8>::empty(),
            vm@.heap == Seq::<u8>::empty(),
            !vm@.equal_flag,
            vm@.remainder == 0,
            vm@.pc == 0,
    {
        let vm = VM {
            registers: [0;32],
            equal_flag: false,
            program: Vec::new(),
            remainder: 0,
            heap: Vec::new(),
            pc: 0,
        };
        assert(vm@.registers =~= Seq::new(32, |i: int| 0i32));
        vm
    }

    /// Fetches the opcode at the program counter and moves past it.
    fn decode_opcode(&mut self) -> (opcode: Opcode)
        requires
            old(self).pc < old(self).program.len(),
        ensures
            opcode == decode(old(self)@.program[old(self)@.pc]),
            final(self)@ == old(self)@.at(old(self)@.pc + 1),
    {
        let opcode = Opcode::from(self.program[self.pc]);
        self.pc += 1;
        opcode
    }

    /// Fetches the byte at the program counter and moves past it.
    fn next_8_bits(&mut self) -> (result: u8)
        requires
            old(self).pc < old(self).program.len(),
        ensures
            result == old(self)@.program[old(self)@.pc],
            final(self)@ == old(self)@.at(old(self)@.pc + 1),
    {
        let result = self.program[self.pc];
        self.pc += 1;
        result
    }

    /// Fetches the two bytes at the program counter, high byte first, and
    /// moves past them.
    fn next_16_bits(&mut self) -> (result: u16)
        requires
            old(self).pc + 1 < old(self).program.len(),
        ensures
            result == immediate(
                old(self)@.program[old(self)@.pc],
                old(self)@.program[old(self)@.pc + 1],
            ),
            final(self)@ == old(self)@.at(old(self)@.pc + 2),
    {
        let high: u16 = self.program[self.pc] as u16;
        let low: u16 = self.program[self.pc + 1] as u16;
        self.pc += 2;
        high * 256 + low
    }

    /// Runs until the machine stops, for at most `u64::MAX` steps. Returns why
    /// it stopped, or `None` where it had not stopped by then.
    pub fn run(&mut self) -> (stop: Option<Stop>)
        ensures
            final(self)@ == run_steps(old(self)@, u64::MAX as nat).0,
            stop == run_steps(old(self)@, u64::MAX as nat).1,
    {
        self.run_for(u64::MAX)
    }

    /// Runs until the machine stops, for at most `budget` steps. Returns why
    /// it stopped, or `None` where it had not stopped when the steps ran out.
    pub fn run_for(&mut self, budget: u64) -> (stop: Option<Stop>)
        ensures
            final(self)@ == run_steps(old(self)@, budget as nat).0,
            stop == run_steps(old(self)@, budget as nat).1,
    {
        let mut left: u64 = budget;
        while left > 0
            invariant
                run_steps(self@, left as nat) == run_steps(old(self)@, budget as nat),
            decreases left,
        {
            match self.execute_instruction() {
                Step::Done(stop) => {
                    return Some(stop);
                },
                Step::Continue => {
                    left -= 1;
                },
            }
        }
        None
    }

    /// Executes one instruction and reports whether the machine can go on.
    pub fn run_once(&mut self) -> (step: Step)
        ensures
            final(self)@ == self::step(old(self)@).0,
            step == self::step(old(self)@).1,
    {
        self.execute_instruction()
    }

    fn execute_instruction(&mut self) -> (step: Step)
        ensures
            final(self)@ == self::step(old(self)@).0,
            step == self::step(old(self)@).1,
    {
        if self.pc >= self.program.len() {
            return Step::Done(Stop::EndOfProgram);
        }
        let opcode = self.decode_opcode();
        if self.program.len() - self.pc < opcode.width() {
            return Step::Done(Stop::Fault(Fault::TruncatedInstruction));
        }
        match opcode {
            Opcode::HLT => Step::Done(Stop::Halt),
            Opcode::IGL => Step::Done(Stop::Fault(Fault::IllegalOpcode)),
            Opcode::LOAD => {
                let register = self.next_8_bits();
                let number = self.next_16_bits();
                self.load(register, number)
            },
            Opcode::ADD | Opcode::SUB | Opcode::MUL | Opcode::DIV | Opcode::EQ => {
                let first = self.next_8_bits();
                let second = self.next_8_bits();
                let third = self.next_8_bits();
                self.combine(opcode, first, second, third)
            },
            Opcode::JMP | Opcode::JMPF | Opcode::JMPB | Opcode::JEQ | Opcode::JNEQ => {
                let register = self.next_8_bits();
                self.jump(opcode, register)
            },
            Opcode::ALOC => {
                let register = self.next_8_bits();
                self.allocate(register)
            },
            Opcode::INC | Opcode::DEC => {
                let register = self.next_8_bits();
                self.count(opcode, register)
            },
        }
    }

    /// `LOAD`: puts a 16-bit immediate into a register.
    fn load(&mut self, register: u8, number: u16) -> (step: Step)
        ensures
            final(self)@ == operate(
                old(self)@,
                Opcode::LOAD,
                register,
                (number / 256) as u8,
                (number % 256) as u8,
            ).0,
            step == operate(
                old(self)@,
                Opcode::LOAD,
                register,
                (number / 256) as u8,
                (number % 256) as u8,
            ).1,
    {
        if register >= 32 {
            return Step::Done(Stop::Fault(Fault::RegisterOutOfRange));
        }
        self.registers[register as usize] = number as i32;
        assert(self@ =~= old(self)@.with_register(register as int, number as i32));
        Step::Continue
    }

    /// `ADD`, `SUB`, `MUL`, `DIV` and `EQ`: combines two registers.
    fn combine(&mut self, opcode: Opcode, first: u8, second: u8, third: u8) -> (step: Step)
        requires
            opcode == Opcode::ADD || opcode == Opcode::SUB || opcode == Opcode::MUL || opcode
                == Opcode::DIV || opcode == Opcode::EQ,
        ensures
            final(self)@ == operate(old(self)@, opcode, first, second, third).0,
            step == operate(old(self)@, opcode, first, second, third).1,
    {
        if first >= 32 || second >= 32 {
            return Step::Done(Stop::Fault(Fault::RegisterOutOfRange));
        }
        let x = self.registers[first as usize];
        let y = self.registers[second as usize];
        if let Opcode::EQ = opcode {
            self.equal_flag = x == y;
            assert(self@ =~= (VmState { equal_flag: x == y, ..old(self)@ }));
            return Step::Continue;
        }
        if third >= 32 {
            return Step::Done(Stop::Fault(Fault::RegisterOutOfRange));
        }
        let value = match opcode {
            Opcode::ADD => wrapping_sum(x, y),
            Opcode::SUB => wrapping_difference(x, y),
            Opcode::MUL => wrapping_product(x, y),
            _ => match divide(x, y) {
                Some((q, m)) => {
                    self.remainder = to_unsigned(m);
                    q
                },
                None => {
                    if y == 0 {
                        return Step::Done(Stop::Fault(Fault::DivisionByZero));
                    }
                    return Step::Done(Stop::Fault(Fault::DivisionOverflow));
                },
            },
        };
        self.registers[third as usize] = value;
        assert(self@ =~= operate(old(self)@, opcode, first, second, third).0);
        Step::Continue
    }

    /// `JMP`, `JMPF`, `JMPB`, `JEQ` and `JNEQ`: moves the program counter by
    /// what a register holds, read as an unsigned number.
    fn jump(&mut self, opcode: Opcode, register: u8) -> (step: Step)
        requires
            opcode == Opcode::JMP || opcode == Opcode::JMPF || opcode == Opcode::JMPB || opcode
                == Opcode::JEQ || opcode == Opcode::JNEQ,
        ensures
            final(self)@ == operate(old(self)@, opcode, register, 0, 0).0,
            step == operate(old(self)@, opcode, register, 0, 0).1,
    {
        if register >= 32 {
            return Step::Done(Stop::Fault(Fault::RegisterOutOfRange));
        }
        let value = to_unsigned(self.registers[register as usize]) as usize;
        match opcode {
            Opcode::JMP => {
                self.pc = value;
            },
            Opcode::JMPF => {
                if value > usize::MAX - self.pc {
                    return Step::Done(Stop::Fault(Fault::JumpOutOfRange));
                }
                self.pc += value;
            },
            Opcode::JMPB => {
                if value > self.pc {
                    return Step::Done(Stop::Fault(Fault::JumpUnderflow));
                }
                self.pc -= value;
            },
            Opcode::JEQ => {
                if self.equal_flag {
                    self.pc = value;
                }
            },
            _ => {
                if !self.equal_flag {
                    self.pc = value;
                }
            },
        }
        assert(self@ =~= operate(old(self)@, opcode, register, 0, 0).0);
        Step::Continue
    }

    /// `ALOC`: grows the heap by the number of bytes that a register holds.
    fn allocate(&mut self, register: u8) -> (step: Step)
        ensures
            final(self)@ == operate(old(self)@, Opcode::ALOC, register, 0, 0).0,
            step == operate(old(self)@, Opcode::ALOC, register, 0, 0).1,
    {
        if register >= 32 {
            return Step::Done(Stop::Fault(Fault::RegisterOutOfRange));
        }
        let bytes = self.registers[register as usize];
        if bytes < 0 {
            return Step::Done(Stop::Fault(Fault::HeapShrink));
        }
        let grow = bytes as usize;
        let limit: usize = 0x7fff_ffff;
        if self.heap.len() > limit || grow > limit - self.heap.len() {
            return Step::Done(Stop::Fault(Fault::HeapLimit));
        }
        let new_end = self.heap.len() + grow;
        self.heap.resize(new_end, 0);
        assert(self.heap@ =~= old(self).heap@ + Seq::new(bytes as nat, |i: int| 0u8));
        Step::Continue
    }

    /// `INC` and `DEC`: moves a register by one.
    fn count(&mut self, opcode: Opcode, register: u8) -> (step: Step)
        requires
            opcode == Opcode::INC || opcode == Opcode::DEC,
        ensures
            final(self)@ == operate(old(self)@, opcode, register, 0, 0).0,
            step == operate(old(self)@, opcode, register, 0, 0).1,
    {
        if register >= 32 {
            return Step::Done(Stop::Fault(Fault::RegisterOutOfRange));
        }
        let value = self.registers[register as usize];
        self.registers[register as usize] = if let Opcode::INC = opcode {
            wrapping_sum(value, 1)
        } else {
            wrapping_difference(value, 1)
        };
        assert(self@ =~= operate(old(self)@, opcode, register, 0, 0).0);
        Step::Continue
    }

    /// Appends one byte to the program.
    pub fn add_byte(&mut self, byte: u8)
        ensures
            final(self)@ == (VmState { program: old(self)@.program.push(byte), ..old(self)@ }),
    {
        self.program.push(byte);
    }
}

} // verus!
