//! The assembler and the machine agree on the bytes of an instruction.

use crate::arith::immediate;
use crate::assembler::instruction_parsers::{encoding, instruction_at, AssemblerInstruction};
use crate::assembler::scan::{run_end, Class};
use crate::assembler::Token;
use crate::instructions::{decode, lemma_lookup_mnemonic, Opcode};
use crate::vm::{step, Step, VmState};
use vstd::prelude::*;

verus! {

/// An instruction made of an operation other than `IGL`, a register from 0
/// to 31 and an integer has four bytes: the first decodes to the operation,
/// the second is the register's number, and the last two hold the low 16
/// bits of the integer, high byte first.
pub proof fn lemma_encoding_decodes(code: Opcode, reg_num: u8, value: i32)
    requires
        code != Opcode::IGL,
        reg_num < 32,
    ensures
        ({
            let bytes = encoding(
                AssemblerInstruction {
                    opcode: Token::Op { code },
                    operand1: Some(Token::Register { reg_num }),
                    operand2: Some(Token::IntegerOperand { value }),
                    operand3: None,
                },
            );
            &&& bytes is Ok
            &&& bytes.unwrap().len() == 4
            &&& decode(bytes.unwrap()[0]) == code
            &&& bytes.unwrap()[1] == reg_num
            &&& immediate(bytes.unwrap()[2], bytes.unwrap()[3]) == value as int % 0x1_0000
        }),
{
}

/// Every line that the grammar accepts has bytes, and they decode to what
/// the line says: the operation that it names, the number of its register,
/// and its integer cut to 16 bits.
pub proof fn lemma_round_trip(text: Seq<u8>, from: int)
    requires
        0 <= from <= text.len(),
        instruction_at(text, from) is Ok,
    ensures
        ({
            let instruction = instruction_at(text, from).unwrap().1;
            let bytes = encoding(instruction);
            &&& instruction.opcode is Op
            &&& instruction.operand1 matches Some(Token::Register { reg_num })
            &&& instruction.operand2 matches Some(Token::IntegerOperand { value })
            &&& instruction.operand3 is None
            &&& bytes is Ok
            &&& bytes.unwrap().len() == 4
            &&& decode(bytes.unwrap()[0]) == instruction.opcode->code
            &&& bytes.unwrap()[1] == reg_num
            &&& immediate(bytes.unwrap()[2], bytes.unwrap()[3]) == value as int % 0x1_0000
        }),
{
    let instruction = instruction_at(text, from).unwrap().1;
    let code = instruction.opcode->code;
    let start = run_end(text, from, Class::Blank);
    let end = run_end(text, start, Class::Letter);
    lemma_lookup_mnemonic(text.subrange(start, end), Opcode::IGL);
    lemma_encoding_decodes(
        code,
        instruction.operand1.unwrap()->reg_num,
        instruction.operand2.unwrap()->value,
    );
}

/// The machine does what an assembled `load` line says: one step on the
/// line's bytes puts the line's integer, cut to 16 bits, into the line's
/// register, moves the program counter past the four bytes, and goes on.
pub proof fn lemma_assembled_load_runs(text: Seq<u8>, from: int, s: VmState)
    requires
        0 <= from <= text.len(),
        instruction_at(text, from) is Ok,
        instruction_at(text, from).unwrap().1.opcode == (Token::Op { code: Opcode::LOAD }),
        0 <= s.pc,
        s.pc + 4 <= s.program.len(),
        s.program.subrange(s.pc, s.pc + 4) == encoding(
            instruction_at(text, from).unwrap().1,
        ).unwrap(),
    ensures
        ({
            let instruction = instruction_at(text, from).unwrap().1;
            let reg_num = instruction.operand1.unwrap()->reg_num;
            let value = instruction.operand2.unwrap()->value;
            step(s) == (
                s.at(s.pc + 4).with_register(reg_num as int, (value as int % 0x1_0000) as i32),
                Step::Continue,
            )
        }),
{
    lemma_round_trip(text, from);
    let bytes = encoding(instruction_at(text, from).unwrap().1).unwrap();
    let window = s.program.subrange(s.pc, s.pc + 4);
    assert(window[0] == s.program[s.pc]);
    assert(window[1] == s.program[s.pc + 1]);
    assert(window[2] == s.program[s.pc + 2]);
    assert(window[3] == s.program[s.pc + 3]);
}

} // verus!
