//! A register operand: `$` and the register's number.

use crate::assembler::scan::{decimal, lemma_run, number, run_end, skip, Class, DOLLAR};
use crate::assembler::{rest_from, ParseError, Token};
use vstd::prelude::*;
use vstd::slice::slice_subrange;

verus! {

/// The register operand at `from`, after any blanks: `$` and a run of
/// digits that write a number from 0 to 31. The result holds the place after
/// the digits.
pub open spec fn register_at(text: Seq<u8>, from: int) -> Option<(int, Token)> {
    let sigil = run_end(text, from, Class::Blank);
    let end = run_end(text, sigil + 1, Class::Digit);
    let value = decimal(text.subrange(sigil + 1, end));
    if 0 <= sigil < text.len() && text[sigil] == DOLLAR && end > sigil + 1 && value <= 31 {
        Some((end, Token::Register { reg_num: value as u8 }))
    } else {
        None
    }
}

/// Reads a register operand at `from`.
pub fn register_from(input: &[u8], from: usize) -> (found: Option<(usize, Token)>)
    ensures
        match found {
            Some((next, token)) => register_at(input@, from as int) == Some((next as int, token))
                && from < next <= input@.len(),
            None => register_at(input@, from as int) is None,
        },
{
    let sigil = skip(input, from, Class::Blank);
    if sigil >= input.len() || input[sigil] != DOLLAR {
        return None;
    }
    let end = skip(input, sigil + 1, Class::Digit);
    if end == sigil + 1 {
        return None;
    }
    proof {
        lemma_run(input@, sigil + 1, Class::Digit);
    }
    match number(input, sigil + 1, end, 31) {
        Some(value) => Some((end, Token::Register { reg_num: value as u8 })),
        None => None,
    }
}

/// Reads a register operand at the start of `input` and returns the rest of
/// the input with the token.
pub fn register(input: &[u8]) -> (parsed: Result<(&[u8], Token), ParseError>)
    ensures
        match register_at(input@, 0) {
            Some((next, token)) => parsed is Ok && parsed.unwrap().0@ == rest_from(input@, next)
                && parsed.unwrap().1 == token,
            None => parsed == Err::<(&[u8], Token), ParseError>(ParseError::ExpectedRegister),
        },
{
    match register_from(input, 0) {
        Some((next, token)) => Ok((slice_subrange(input, next, input.len()), token)),
        None => Err(ParseError::ExpectedRegister),
    }
}

} // verus!
