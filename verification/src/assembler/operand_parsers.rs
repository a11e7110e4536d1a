//! An integer operand: `#` and a decimal number, which may be negative.

use crate::assembler::scan::{decimal, lemma_run, number, run_end, skip, Class, HASH, MINUS};
use crate::assembler::{rest_from, ParseError, Token};
use vstd::prelude::*;
use vstd::slice::slice_subrange;

verus! {

/// The integer operand at `from`, after any blanks: `#`, an optional `-`,
/// and a run of digits that write a number that fits in 32 bits with its
/// sign. The result holds the place after the digits.
pub open spec fn integer_at(text: Seq<u8>, from: int) -> Option<(int, Token)> {
    let sigil = run_end(text, from, Class::Blank);
    let negative = sigil + 1 < text.len() && text[sigil + 1] == MINUS;
    let first = if negative {
        sigil + 2
    } else {
        sigil + 1
    };
    let end = run_end(text, first, Class::Digit);
    let size = decimal(text.subrange(first, end));
    let value = if negative {
        -size
    } else {
        size as int
    };
    if 0 <= sigil < text.len() && text[sigil] == HASH && end > first && i32::MIN <= value
        <= i32::MAX {
        Some((end, Token::IntegerOperand { value: value as i32 }))
    } else {
        None
    }
}

/// Reads an integer operand at `from`.
pub fn integer_from(input: &[u8], from: usize) -> (found: Option<(usize, Token)>)
    ensures
        match found {
            Some((next, token)) => integer_at(input@, from as int) == Some((next as int, token))
                && from < next <= input@.len(),
            None => integer_at(input@, from as int) is None,
        },
{
    let sigil = skip(input, from, Class::Blank);
    if sigil >= input.len() || input[sigil] != HASH {
        return None;
    }
    let negative = sigil + 1 < input.len() && input[sigil + 1] == MINUS;
    let first: usize = if negative {
        sigil + 2
    } else {
        sigil + 1
    };
    let end = skip(input, first, Class::Digit);
    if end == first {
        return None;
    }
    proof {
        lemma_run(input@, first as int, Class::Digit);
    }
    match number(input, first, end, 0x8000_0000) {
        Some(size) => {
            if negative {
                let value: i64 = -(size as i64);
                Some((end, Token::IntegerOperand { value: value as i32 }))
            } else if size <= 0x7fff_ffff {
                Some((end, Token::IntegerOperand { value: size as i32 }))
            } else {
                None
            }
        },
        None => None,
    }
}

/// Reads an integer operand at the start of `input` and returns the rest of
/// the input with the token.
pub fn integer_operand(input: &[u8]) -> (parsed: Result<(&[u8], Token), ParseError>)
    ensures
        match integer_at(input@, 0) {
            Some((next, token)) => parsed is Ok && parsed.unwrap().0@ == rest_from(input@, next)
                && parsed.unwrap().1 == token,
            None => parsed == Err::<(&[u8], Token), ParseError>(ParseError::ExpectedInteger),
        },
{
    match integer_from(input, 0) {
        Some((next, token)) => Ok((slice_subrange(input, next, input.len()), token)),
        None => Err(ParseError::ExpectedInteger),
    }
}

} // verus!
