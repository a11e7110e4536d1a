//! The assembler front end: one line of assembly text becomes tokens, the
//! tokens an instruction, the instruction bytes.

use crate::instructions::Opcode;
use vstd::prelude::*;

pub mod instruction_parsers;
pub mod opcode_parsers;
pub mod operand_parsers;
pub mod register_parsers;
pub mod scan;

verus! {

/// One element of a line of assembly text.
#[derive(Clone, Copy, Debug, PartialEq, Eq, Structural)]
pub enum Token {
    Op { code: Opcode },
    Register { reg_num: u8 },
    IntegerOperand { value: i32 },
}

/// What a parser expected at the place where the text did not match.
#[derive(Clone, Copy, Debug, PartialEq, Eq, Structural)]
pub enum ParseError {
    /// No name of an operation.
    ExpectedOpcode,
    /// No `$` followed by a register number from 0 to 31.
    ExpectedRegister,
    /// No `#` followed by a decimal number that fits in 32 bits.
    ExpectedInteger,
    /// No line feed after the last operand.
    ExpectedLineEnd,
}

/// The part of `text` from `next` on.
pub open spec fn rest_from(text: Seq<u8>, next: int) -> Seq<u8> {
    text.subrange(next, text.len() as int)
}

} // verus!
