use vstd::prelude::*;
use crate::flags::Flags;

verus! {

/// The 16-bit signed value that `n` wraps to, for `n` no further than one
/// whole range away from the signed 16-bit range.
pub open spec fn wrap_i16(n: int) -> i16 {
    if n > i16::MAX {
        (n - 0x1_0000) as i16
    } else if n < i16::MIN {
        (n + 0x1_0000) as i16
    } else {
        n as i16
    }
}

/// The signed reading of a 16-bit pattern: values from `0x8000` up stand
/// for the negative numbers.
pub open spec fn as_signed(v: u16) -> i16 {
    if v >= 0x8000 {
        (v - 0x1_0000) as i16
    } else {
        v as i16
    }
}

/// What an arithmetic instruction produces: the value for the destination
/// register and the complete new flag set.
#[derive(Clone, Copy, Debug, PartialEq, Eq, Structural)]
pub struct Arith {
    pub value: i16,
    pub flags: Flags,
}

/// Addition. The sum wraps; carry is raised on every addition; overflow
/// is raised when both operands have one sign and the result the other.
pub open spec fn add_spec(a: i16, b: i16) -> Arith {
    let value = wrap_i16(a + b);
    Arith {
        value,
        flags: Flags {
            carry: true,
            zero: value == 0,
            overflow: (a < 0 && b < 0 && value >= 0) || (a >= 0 && b >= 0 && value < 0),
            negative: value < 0,
        },
    }
}

/// Subtraction. The difference wraps; carry is raised when the minuend is
/// below the subtrahend; overflow is raised when the exact difference does
/// not fit in 16 signed bits.
pub open spec fn sub_spec(a: i16, b: i16) -> Arith {
    let value = wrap_i16(a - b);
    Arith {
        value,
        flags: Flags {
            carry: a < b,
            zero: value == 0,
            overflow: a - b > i16::MAX || a - b < i16::MIN,
            negative: value < 0,
        },
    }
}

/// Reads a 16-bit pattern as a signed number.
pub fn reinterpret(v: u16) -> (r: i16)
    ensures
        r == as_signed(v),
{
    assert(v as i16 == (if v >= 0x8000u16 { v - 0x1_0000 } else { v as int })) by (bit_vector);
    #[verifier::truncate]
    (v as i16)
}

/// Adds two register values and derives the flags.
pub fn alu_add(a: i16, b: i16) -> (r: Arith)
    ensures
        r == add_spec(a, b),
{
    let value: i16 = a.wrapping_add(b);
    Arith {
        value,
        flags: Flags {
            carry: true,
            zero: value == 0,
            overflow: (a < 0 && b < 0 && value >= 0) || (a >= 0 && b >= 0 && value < 0),
            negative: value < 0,
        },
    }
}

/// Subtracts `b` from `a` and derives the flags.
pub fn alu_sub(a: i16, b: i16) -> (r: Arith)
    ensures
        r == sub_spec(a, b),
{
    let value: i16 = a.wrapping_sub(b);
    let exact: Option<i16> = a.checked_sub(b);
    Arith {
        value,
        flags: Flags {
            carry: a < b,
            zero: value == 0,
            overflow: exact.is_none(),
            negative: value < 0,
        },
    }
}

/// After an addition or a subtraction the zero flag is raised exactly when
/// the result is 0, and the negative flag exactly when it is below 0.
pub proof fn lemma_zero_negative(a: i16, b: i16)
    ensures
        add_spec(a, b).flags.zero <==> add_spec(a, b).value == 0,
        add_spec(a, b).flags.negative <==> add_spec(a, b).value < 0,
        sub_spec(a, b).flags.zero <==> sub_spec(a, b).value == 0,
        sub_spec(a, b).flags.negative <==> sub_spec(a, b).value < 0,
{
}

/// Addition raises overflow exactly when the exact sum does not fit in 16
/// signed bits, and then the result is the sum moved by one whole range.
pub proof fn lemma_add_overflow(a: i16, b: i16)
    ensures
        add_spec(a, b).flags.overflow <==> (a + b > i16::MAX || a + b < i16::MIN),
        !add_spec(a, b).flags.overflow ==> add_spec(a, b).value == a + b,
        add_spec(a, b).flags.carry,
{
}

/// Subtraction raises overflow exactly when the operands differ in sign
/// and the sign of the result differs from that of the minuend.
pub proof fn lemma_sub_overflow(a: i16, b: i16)
    ensures
        sub_spec(a, b).flags.overflow <==> ((a < 0 && b >= 0 && sub_spec(a, b).value >= 0) || (a
            >= 0 && b < 0 && sub_spec(a, b).value < 0)),
        !sub_spec(a, b).flags.overflow ==> sub_spec(a, b).value == a - b,
        sub_spec(a, b).flags.carry <==> a < b,
{
}

} // verus!
