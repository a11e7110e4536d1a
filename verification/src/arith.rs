//! Two's-complement arithmetic on 32-bit register values, stated over the
//! mathematical integers.

use vstd::prelude::*;

verus! {

/// The 32-bit signed value that an integer wraps to: the one value in the
/// `i32` range that differs from `x` by a multiple of 2^32.
pub open spec fn wrap(x: int) -> i32 {
    let low = x % 0x1_0000_0000;
    if low > i32::MAX {
        (low - 0x1_0000_0000) as i32
    } else {
        low as i32
    }
}

/// A register value read as an unsigned 32-bit number.
pub open spec fn unsigned(value: i32) -> int {
    if value < 0 {
        value + 0x1_0000_0000
    } else {
        value as int
    }
}

/// The quotient of a division that rounds toward zero. The divisor is not zero.
pub open spec fn quotient(x: int, d: int) -> int
    recommends
        d != 0,
{
    if x >= 0 && d > 0 {
        x / d
    } else if x < 0 && d < 0 {
        (-x) / (-d)
    } else if x < 0 {
        -((-x) / d)
    } else {
        -(x / (-d))
    }
}

/// What a division that rounds toward zero leaves over: it has the sign of
/// the dividend, or is zero.
pub open spec fn leftover(x: int, d: int) -> int
    recommends
        d != 0,
{
    x - d * quotient(x, d)
}

/// The value of a 16-bit immediate from its two bytes, high byte first.
pub open spec fn immediate(high: u8, low: u8) -> int {
    high * 256 + low
}

/// The low 16 bits of a value as two bytes, high byte first.
pub open spec fn low_bytes(value: i32) -> (u8, u8) {
    (((value as int % 0x1_0000) / 256) as u8, (value as int % 256) as u8)
}

/// The low 16 bits of `value` as two bytes, high byte first.
pub fn split(value: i32) -> (bytes: (u8, u8))
    ensures
        bytes == low_bytes(value),
        immediate(bytes.0, bytes.1) == value as int % 0x1_0000,
{
    let raised: u64 = (value as i64 + 0x8000_0000) as u64;
    let low: u64 = raised % 0x1_0000;
    assert(low == value as int % 0x1_0000) by {
        assert(raised == value + 0x8000 * 0x1_0000);
    }
    ((low / 256) as u8, (low % 256) as u8)
}

/// `value` read as an unsigned 32-bit number.
pub fn to_unsigned(value: i32) -> (u: u32)
    ensures
        u == unsigned(value),
{
    if value >= 0 {
        value as u32
    } else {
        let shifted: i32 = (value + i32::MAX) + 1;
        (shifted as u32) + 0x8000_0000u32
    }
}

/// The sum of two register values, wrapped to 32 bits.
pub fn wrapping_sum(x: i32, y: i32) -> (r: i32)
    ensures
        r == wrap(x + y),
{
    x.wrapping_add(y)
}

/// The difference of two register values, wrapped to 32 bits.
pub fn wrapping_difference(x: i32, y: i32) -> (r: i32)
    ensures
        r == wrap(x - y),
{
    x.wrapping_sub(y)
}

/// The product of two register values, wrapped to 32 bits.
pub fn wrapping_product(x: i32, y: i32) -> (r: i32)
    ensures
        r == wrap(x * y),
{
    x.wrapping_mul(y)
}

/// Quotient and remainder of a division that rounds toward zero, where both
/// fit in a register: `None` for a zero divisor and for `i32::MIN / -1`.
pub fn divide(x: i32, d: i32) -> (r: Option<(i32, i32)>)
    ensures
        r is None <==> d == 0 || (x == i32::MIN && d == -1),
        r is Some ==> r.unwrap().0 == quotient(x as int, d as int) && r.unwrap().1 == leftover(
            x as int,
            d as int,
        ),
{
    if d == 0 || (x == i32::MIN && d == -1) {
        return None;
    }
    let wide_x: i64 = x as i64;
    let wide_d: i64 = d as i64;
    let size_x: u64 = if x < 0 {
        (-wide_x) as u64
    } else {
        wide_x as u64
    };
    let size_d: u64 = if d < 0 {
        (-wide_d) as u64
    } else {
        wide_d as u64
    };
    let q: u64 = size_x / size_d;
    let m: u64 = size_x % size_d;
    assert(q <= size_x && m < size_d && size_x == size_d * q + m && (size_d >= 2 ==> 2 * q
        <= size_x)) by (nonlinear_arith)
        requires
            q == size_x / size_d,
            m == size_x % size_d,
            size_d > 0,
    ;
    let signed_q: i64 = if (x < 0) != (d < 0) {
        -(q as i64)
    } else {
        q as i64
    };
    let signed_m: i64 = if x < 0 {
        -(m as i64)
    } else {
        m as i64
    };
    assert(signed_q == quotient(x as int, d as int));
    assert(signed_m == leftover(x as int, d as int)) by (nonlinear_arith)
        requires
            signed_q == quotient(x as int, d as int),
            size_x == size_d * q + m,
            size_x == (if x < 0 { -x } else { x as int }),
            size_d == (if d < 0 { -d } else { d as int }),
            signed_q == (if (x < 0) != (d < 0) { -q } else { q as int }),
            signed_m == (if x < 0 { -m } else { m as int }),
    ;
    Some((signed_q as i32, signed_m as i32))
}

} // verus!
