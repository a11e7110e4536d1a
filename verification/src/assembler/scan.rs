//! Runs of bytes of one class, and the value of a run of decimal digits.

use vstd::prelude::*;

verus! {

pub const TAB: u8 = 9;

pub const LINE_FEED: u8 = 10;

pub const CARRIAGE_RETURN: u8 = 13;

pub const SPACE: u8 = 32;

pub const HASH: u8 = 35;

pub const DOLLAR: u8 = 36;

pub const MINUS: u8 = 45;

pub const DIGIT_ZERO: u8 = 48;

pub const DIGIT_NINE: u8 = 57;

pub const LETTER_A: u8 = 97;

pub const LETTER_Z: u8 = 122;

/// The classes of bytes that the grammar speaks of.
#[derive(Clone, Copy, Debug, PartialEq, Eq, Structural)]
pub enum Class {
    /// Space, tab and carriage return.
    Blank,
    /// `0` to `9`.
    Digit,
    /// `a` to `z`.
    Letter,
}

pub open spec fn in_class(class: Class, byte: u8) -> bool {
    match class {
        Class::Blank => byte == SPACE || byte == TAB || byte == CARRIAGE_RETURN,
        Class::Digit => DIGIT_ZERO <= byte <= DIGIT_NINE,
        Class::Letter => LETTER_A <= byte <= LETTER_Z,
    }
}

/// Where the run of bytes of `class` that starts at `from` ends: the first
/// place at or after `from` that holds no byte of the class.
pub open spec fn run_end(text: Seq<u8>, from: int, class: Class) -> int
    decreases text.len() - from,
{
    if 0 <= from < text.len() && in_class(class, text[from]) {
        run_end(text, from + 1, class)
    } else {
        from
    }
}

/// The number that a run of decimal digits writes.
pub open spec fn decimal(digits: Seq<u8>) -> nat
    decreases digits.len(),
{
    if digits.len() == 0 {
        0
    } else {
        decimal(digits.drop_last()) * 10 + (digits.last() - DIGIT_ZERO) as nat
    }
}

/// A run ends at or after its start and within the text, holds only bytes of
/// its class, and is followed by none.
pub proof fn lemma_run(text: Seq<u8>, from: int, class: Class)
    requires
        0 <= from <= text.len(),
    ensures
        from <= run_end(text, from, class) <= text.len(),
        forall|k: int| from <= k < run_end(text, from, class) ==> in_class(class, #[trigger] text[k]),
        run_end(text, from, class) < text.len() ==> !in_class(
            class,
            text[run_end(text, from, class)],
        ),
    decreases text.len() - from,
{
    if from < text.len() && in_class(class, text[from]) {
        lemma_run(text, from + 1, class);
    }
}

/// Whether `byte` belongs to `class`.
pub fn belongs(class: Class, byte: u8) -> (yes: bool)
    ensures
        yes == in_class(class, byte),
{
    match class {
        Class::Blank => byte == SPACE || byte == TAB || byte == CARRIAGE_RETURN,
        Class::Digit => DIGIT_ZERO <= byte && byte <= DIGIT_NINE,
        Class::Letter => LETTER_A <= byte && byte <= LETTER_Z,
    }
}

/// The end of the run of bytes of `class` that starts at `from`; `from`
/// itself where it lies at or past the end of the input.
pub fn skip(input: &[u8], from: usize, class: Class) -> (end: usize)
    ensures
        end == run_end(input@, from as int, class),
        from <= end,
        from <= input@.len() ==> end <= input@.len(),
{
    let mut end: usize = from;
    while end < input.len() && belongs(class, input[end])
        invariant
            from <= end,
            from <= input@.len() ==> end <= input@.len(),
            run_end(input@, end as int, class) == run_end(input@, from as int, class),
        decreases input@.len() - end,
    {
        end += 1;
    }
    end
}

/// The number written by the digits of `input` from `first` up to `end`, or
/// `None` where it is above `limit`.
pub(crate) fn number(input: &[u8], first: usize, end: usize, limit: u64) -> (value: Option<u64>)
    requires
        first <= end <= input@.len(),
        forall|k: int| first <= k < end ==> in_class(Class::Digit, #[trigger] input@[k]),
        limit <= 0xffff_ffff,
    ensures
        value == if decimal(input@.subrange(first as int, end as int)) <= limit {
            Some(decimal(input@.subrange(first as int, end as int)) as u64)
        } else {
            None
        },
{
    let mut total: u64 = 0;
    let mut above = false;
    let mut i: usize = first;
    assert(input@.subrange(first as int, first as int) =~= Seq::<u8>::empty());
    while i < end
        invariant
            first <= i <= end <= input@.len(),
            forall|k: int| first <= k < end ==> in_class(Class::Digit, #[trigger] input@[k]),
            limit <= 0xffff_ffff,
            above ==> decimal(input@.subrange(first as int, i as int)) > limit,
            !above ==> total == decimal(input@.subrange(first as int, i as int)) && total <= limit,
        decreases end - i,
    {
        let digit: u64 = (input[i] - DIGIT_ZERO) as u64;
        proof {
            let longer = input@.subrange(first as int, i + 1);
            assert(longer.drop_last() =~= input@.subrange(first as int, i as int));
            assert(longer.last() == input@[i as int]);
        }
        if !above {
            total = total * 10 + digit;
            if total > limit {
                above = true;
            }
        }
        i += 1;
    }
    if above {
        None
    } else {
        Some(total)
    }
}

} // verus!
