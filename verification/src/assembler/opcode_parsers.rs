//! The name of an operation.

use crate::assembler::scan::{run_end, skip, Class};
use crate::assembler::{rest_from, ParseError, Token};
use crate::instructions::{lemma_lookup_length, lookup, Opcode};
use vstd::prelude::*;
use vstd::slice::slice_subrange;

verus! {

/// The operation named at `from`, after any blanks: the longest run of
/// lower-case letters there has to be the name of an operation. The result
/// holds the place after the name. Nothing is named at a place outside the
/// text.
pub open spec fn opcode_at(text: Seq<u8>, from: int) -> Option<(int, Token)> {
    let start = run_end(text, from, Class::Blank);
    let end = run_end(text, start, Class::Letter);
    if 0 <= from <= text.len() {
        match lookup(text.subrange(start, end)) {
            Some(code) => Some((end, Token::Op { code })),
            None => None,
        }
    } else {
        None
    }
}

/// Reads the name of an operation at `from`.
pub fn opcode_from(input: &[u8], from: usize) -> (found: Option<(usize, Token)>)
    ensures
        match found {
            Some((next, token)) => opcode_at(input@, from as int) == Some((next as int, token))
                && from < next <= input@.len(),
            None => opcode_at(input@, from as int) is None,
        },
{
    if from > input.len() {
        return None;
    }
    let start = skip(input, from, Class::Blank);
    let end = skip(input, start, Class::Letter);
    match Opcode::from_mnemonic(slice_subrange(input, start, end)) {
        Some(code) => {
            proof {
                lemma_lookup_length(input@.subrange(start as int, end as int));
            }
            Some((end, Token::Op { code }))
        },
        None => None,
    }
}

/// Reads the name of an operation at the start of `input` and returns the
/// rest of the input with the token.
pub fn opcode(input: &[u8]) -> (parsed: Result<(&[u8], Token), ParseError>)
    ensures
        match opcode_at(input@, 0) {
            Some((next, token)) => parsed is Ok && parsed.unwrap().0@ == rest_from(input@, next)
                && parsed.unwrap().1 == token,
            None => parsed == Err::<(&[u8], Token), ParseError>(ParseError::ExpectedOpcode),
        },
{
    match opcode_from(input, 0) {
        Some((next, token)) => Ok((slice_subrange(input, next, input.len()), token)),
        None => Err(ParseError::ExpectedOpcode),
    }
}

} // verus!
