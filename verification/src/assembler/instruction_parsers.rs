//! A whole instruction: its parts, its bytes, and the line that writes it.

use crate::assembler::opcode_parsers::{opcode_at, opcode_from};
use crate::assembler::operand_parsers::{integer_at, integer_from};
use crate::assembler::register_parsers::{register_at, register_from};
use crate::assembler::scan::{run_end, skip, Class, LINE_FEED};
use crate::assembler::{rest_from, ParseError, Token};
use crate::arith::{low_bytes, split};
use crate::instructions::encode;
use vstd::prelude::*;
use vstd::slice::slice_subrange;

verus! {

/// An operation and up to three operands, each there or not.
#[derive(Clone, Copy, Debug, PartialEq, Eq)]
pub struct AssemblerInstruction {
    pub opcode: Token,
    pub operand1: Option<Token>,
    pub operand2: Option<Token>,
    pub operand3: Option<Token>,
}

/// Why an instruction has no bytes.
#[derive(Clone, Copy, Debug, PartialEq, Eq, Structural)]
pub enum EncodeError {
    /// The opcode field holds a token that is no operation.
    NotAnOpcode,
    /// The opcode field holds `IGL`, which no byte selects.
    IllegalOpcode,
    /// An operand field holds an operation.
    OpcodeAsOperand,
    /// An operand names a register beyond the last one.
    RegisterOutOfRange,
}

/// The byte of the opcode field.
pub open spec fn opcode_bytes(token: Token) -> Result<Seq<u8>, EncodeError> {
    match token {
        Token::Op { code } => match encode(code) {
            Some(byte) => Ok(seq![byte]),
            None => Err(EncodeError::IllegalOpcode),
        },
        _ => Err(EncodeError::NotAnOpcode),
    }
}

/// The bytes of one operand: a register is its number; an integer is the two
/// bytes of its low 16 bits, high byte first.
pub open spec fn operand_bytes(token: Token) -> Result<Seq<u8>, EncodeError> {
    match token {
        Token::Register { reg_num } => if reg_num < 32 {
            Ok(seq![reg_num])
        } else {
            Err(EncodeError::RegisterOutOfRange)
        },
        Token::IntegerOperand { value } => Ok(seq![low_bytes(value).0, low_bytes(value).1]),
        Token::Op { code } => Err(EncodeError::OpcodeAsOperand),
    }
}

/// `bytes` with those of `operand` behind them, or the first error met.
pub open spec fn followed_by(bytes: Result<Seq<u8>, EncodeError>, operand: Option<Token>) -> Result<
    Seq<u8>,
    EncodeError,
> {
    match (bytes, operand) {
        (Err(e), _) => Err(e),
        (Ok(b), None) => Ok(b),
        (Ok(b), Some(token)) => match operand_bytes(token) {
            Ok(more) => Ok(b + more),
            Err(e) => Err(e),
        },
    }
}

/// The bytes of an instruction: the opcode's byte, then the bytes of each
/// operand that is there, in order. Where several fields are in error, the
/// first one's error is the result.
pub open spec fn encoding(instruction: AssemblerInstruction) -> Result<Seq<u8>, EncodeError> {
    followed_by(
        followed_by(
            followed_by(opcode_bytes(instruction.opcode), instruction.operand1),
            instruction.operand2,
        ),
        instruction.operand3,
    )
}

/// The instruction written at `from`: the name of an operation, a register
/// operand, an integer operand, and after any blanks a line feed. The result
/// holds the place after the line feed, or what was missing first.
pub open spec fn instruction_at(text: Seq<u8>, from: int) -> Result<
    (int, AssemblerInstruction),
    ParseError,
> {
    match opcode_at(text, from) {
        None => Err(ParseError::ExpectedOpcode),
        Some((after_opcode, opcode)) => match register_at(text, after_opcode) {
            None => Err(ParseError::ExpectedRegister),
            Some((after_register, register)) => match integer_at(text, after_register) {
                None => Err(ParseError::ExpectedInteger),
                Some((after_integer, integer)) => {
                    let end = run_end(text, after_integer, Class::Blank);
                    if 0 <= end < text.len() && text[end] == LINE_FEED {
                        Ok(
                            (
                                end + 1,
                                AssemblerInstruction {
                                    opcode,
                                    operand1: Some(register),
                                    operand2: Some(integer),
                                    operand3: None,
                                },
                            ),
                        )
                    } else {
                        Err(ParseError::ExpectedLineEnd)
                    }
                },
            },
        },
    }
}

impl AssemblerInstruction {
    /// The bytes of this instruction, or why it has none.
    pub fn to_bytes(&self) -> (bytes: Result<Vec<u8>, EncodeError>)
        ensures
            match encoding(*self) {
                Ok(b) => bytes is Ok && bytes.unwrap()@ == b,
                Err(e) => bytes == Err::<Vec<u8>, EncodeError>(e),
            },
    {
        let mut results: Vec<u8> = Vec::new();
        match self.opcode {
            Token::Op { code } => match code.to_byte() {
                Some(byte) => {
                    results.push(byte);
                },
                None => {
                    return Err(EncodeError::IllegalOpcode);
                },
            },
            _ => {
                return Err(EncodeError::NotAnOpcode);
            },
        }
        assert(results@ =~= seq![encode(self.opcode->Op_code).unwrap()]);
        if let Some(x) = &self.operand1 {
            AssemblerInstruction::extract_operand(x, &mut results)?;
        }
        if let Some(x) = &self.operand2 {
            AssemblerInstruction::extract_operand(x, &mut results)?;
        }
        if let Some(x) = &self.operand3 {
            AssemblerInstruction::extract_operand(x, &mut results)?;
        }
        Ok(results)
    }

    /// Appends the bytes of one operand to `results`, which an operand in
    /// error leaves as it was.
    fn extract_operand(token: &Token, results: &mut Vec<u8>) -> (done: Result<(), EncodeError>)
        ensures
            match operand_bytes(*token) {
                Ok(more) => done is Ok && final(results)@ == old(results)@ + more,
                Err(e) => done == Err::<(), EncodeError>(e) && final(results)@ == old(results)@,
            },
    {
        match token {
            Token::Register { reg_num } => {
                if *reg_num >= 32 {
                    return Err(EncodeError::RegisterOutOfRange);
                }
                results.push(*reg_num);
                assert(results@ =~= old(results)@ + seq![*reg_num]);
                Ok(())
            },
            Token::IntegerOperand { value } => {
                let (byte2, byte1) = split(*value);
                results.push(byte2);
                results.push(byte1);
                assert(results@ =~= old(results)@ + seq![byte2, byte1]);
                Ok(())
            },
            _ => Err(EncodeError::OpcodeAsOperand),
        }
    }
}

/// Reads an instruction at `from` and returns the place after its line.
pub fn instruction_from(input: &[u8], from: usize) -> (parsed: Result<
    (usize, AssemblerInstruction),
    ParseError,
>)
    ensures
        match instruction_at(input@, from as int) {
            Ok((next, instruction)) => parsed == Ok::<(usize, AssemblerInstruction), ParseError>(
                (next as usize, instruction),
            ) && from < next <= input@.len(),
            Err(e) => parsed == Err::<(usize, AssemblerInstruction), ParseError>(e),
        },
{
    let (after_opcode, opcode) = match opcode_from(input, from) {
        Some(found) => found,
        None => {
            return Err(ParseError::ExpectedOpcode);
        },
    };
    let (after_register, register) = match register_from(input, after_opcode) {
        Some(found) => found,
        None => {
            return Err(ParseError::ExpectedRegister);
        },
    };
    let (after_integer, integer) = match integer_from(input, after_register) {
        Some(found) => found,
        None => {
            return Err(ParseError::ExpectedInteger);
        },
    };
    let end = skip(input, after_integer, Class::Blank);
    if end >= input.len() || input[end] != LINE_FEED {
        return Err(ParseError::ExpectedLineEnd);
    }
    Ok(
        (
            end + 1,
            AssemblerInstruction {
                opcode,
                operand1: Some(register),
                operand2: Some(integer),
                operand3: None,
            },
        ),
    )
}

/// Reads one line of the form `<name> $<register> #<integer>` at the start
/// of `input` and returns the rest of the input with the instruction.
pub fn instruction_one(input: &[u8]) -> (parsed: Result<(&[u8], AssemblerInstruction), ParseError>)
    ensures
        match instruction_at(input@, 0) {
            Ok((next, instruction)) => parsed is Ok && parsed.unwrap().0@ == rest_from(input@, next)
                && parsed.unwrap().1 == instruction,
            Err(e) => parsed == Err::<(&[u8], AssemblerInstruction), ParseError>(e),
        },
{
    match instruction_from(input, 0) {
        Ok((next, instruction)) => Ok((slice_subrange(input, next, input.len()), instruction)),
        Err(e) => Err(e),
    }
}

} // verus!
