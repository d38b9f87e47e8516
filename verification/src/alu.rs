use vstd::prelude::*;

verus! {

/// What an arithmetic or shift instruction yields.
#[derive(Clone, Copy, Debug, PartialEq, Eq, Structural)]
pub struct Outcome {
    /// The value to store in the target register, or `None` where the
    /// target is left as it is.
    pub value: Option<u8>,
    /// The value to store in the flag register.
    pub flag: u8,
}

/// Addition: on a carry the flag is 1 and nothing is stored, otherwise the
/// flag is 0 and the sum is stored.
pub open spec fn spec_add_with_carry(a: u8, b: u8) -> Outcome {
    if a + b > 255 {
        Outcome { value: None, flag: 1 }
    } else {
        Outcome { value: Some((a + b) as u8), flag: 0 }
    }
}

/// Subtraction `a - b`: on a borrow the flag is 0 and nothing is stored,
/// otherwise the flag is 1 and the difference is stored.
pub open spec fn spec_sub_with_borrow(a: u8, b: u8) -> Outcome {
    if a < b {
        Outcome { value: None, flag: 0 }
    } else {
        Outcome { value: Some((a - b) as u8), flag: 1 }
    }
}

/// Reverse subtraction `b - a`, where `a` is the value of the target
/// register: on a borrow the flag is 0 and nothing is stored, otherwise the
/// flag is 1 and the difference is stored.
pub open spec fn spec_reverse_sub_with_borrow(a: u8, b: u8) -> Outcome {
    if a > b {
        Outcome { value: None, flag: 0 }
    } else {
        Outcome { value: Some((b - a) as u8), flag: 1 }
    }
}

/// Logical shift right by one; the flag takes the bit shifted out.
pub open spec fn spec_shift_right(a: u8) -> Outcome {
    Outcome { value: Some((a / 2) as u8), flag: (a % 2) as u8 }
}

/// Which bit of the input a shift left puts in the flag, counted from the
/// least significant. The engine takes bit 0, the least-significant bit,
/// and not bit 7, the one that the shift drops.
pub const SHIFT_LEFT_FLAG_BIT: u8 = 0;

/// Shift left by one, keeping the low eight bits; the flag takes the
/// least-significant bit of the input.
pub open spec fn spec_shift_left(a: u8) -> Outcome {
    Outcome { value: Some(((a * 2) % 256) as u8), flag: (a % 2) as u8 }
}

/// Adds `b` to `a`.
pub fn add_with_carry(a: u8, b: u8) -> (r: Outcome)
    ensures
        r == spec_add_with_carry(a, b),
        a + b <= 255 ==> r.flag == 0 && r.value == Some((a + b) as u8),
        a + b > 255 ==> r.flag == 1 && r.value is None,
{
    if a > 0xFF - b {
        Outcome { value: None, flag: 1 }
    } else {
        Outcome { value: Some(a + b), flag: 0 }
    }
}

/// Subtracts `b` from `a`.
pub fn sub_with_borrow(a: u8, b: u8) -> (r: Outcome)
    ensures
        r == spec_sub_with_borrow(a, b),
        a >= b ==> r.flag == 1 && r.value == Some((a - b) as u8),
        a < b ==> r.flag == 0 && r.value is None,
{
    if a < b {
        Outcome { value: None, flag: 0 }
    } else {
        Outcome { value: Some(a - b), flag: 1 }
    }
}

/// Subtracts `a`, the value of the target register, from `b`.
pub fn reverse_sub_with_borrow(a: u8, b: u8) -> (r: Outcome)
    ensures
        r == spec_reverse_sub_with_borrow(a, b),
        b >= a ==> r.flag == 1 && r.value == Some((b - a) as u8),
        b < a ==> r.flag == 0 && r.value is None,
{
    if a > b {
        Outcome { value: None, flag: 0 }
    } else {
        Outcome { value: Some(b - a), flag: 1 }
    }
}

/// Shifts `a` right by one.
pub fn shift_right(a: u8) -> (r: Outcome)
    ensures
        r == spec_shift_right(a),
{
    let flag: u8 = a & 0x1;
    let value: u8 = a >> 1;
    assert(a & 0x1 == a % 2) by (bit_vector);
    assert(a >> 1 == a / 2) by (bit_vector);
    Outcome { value: Some(value), flag }
}

/// Shifts `a` left by one.
pub fn shift_left(a: u8) -> (r: Outcome)
    ensures
        r == spec_shift_left(a),
{
    let flag: u8 = (a >> SHIFT_LEFT_FLAG_BIT) & 0x1;
    let value: u8 = a << 1;
    assert((a >> 0u8) & 0x1 == a % 2) by (bit_vector);
    assert(a << 1 == (a as u16 * 2) % 256) by (bit_vector);
    Outcome { value: Some(value), flag }
}

} // verus!
