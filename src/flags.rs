use vstd::prelude::*;

verus! {

/// Status bit 0: carry.
pub const CARRY: u8 = 0b0000_0001;

/// Status bit 1: zero result.
pub const ZERO: u8 = 0b0000_0010;

/// Status bit 2: interrupt disable.
pub const INTERRUPT: u8 = 0b0000_0100;

/// Status bit 3: decimal mode.
pub const DECIMAL: u8 = 0b0000_1000;

/// Status bit 6: overflow.
pub const OVERFLOW: u8 = 0b0100_0000;

/// Status bit 7: negative result.
pub const NEGATIVE: u8 = 0b1000_0000;

/// Whether every bit of `mask` is set in `status`.
pub open spec fn flag_set(status: u8, mask: u8) -> bool {
    status & mask == mask
}

/// `status` with the bits of `mask` set when `cond` holds and cleared otherwise;
/// the other bits are kept.
pub open spec fn set_if(status: u8, mask: u8, cond: bool) -> u8 {
    if cond {
        status | mask
    } else {
        status & !mask
    }
}

/// `status` with Zero and Negative recomputed from the result byte `v`.
pub open spec fn with_zero_negative(status: u8, v: u8) -> u8 {
    set_if(set_if(status, ZERO, v == 0), NEGATIVE, v & NEGATIVE == NEGATIVE)
}

/// Recomputing Zero and Negative from a byte sets Zero exactly when the byte is
/// 0 and Negative exactly when its bit 7 is 1, and leaves every other status bit
/// as it was.
pub proof fn lemma_zero_negative(status: u8, v: u8)
    ensures
        flag_set(with_zero_negative(status, v), ZERO) <==> v == 0,
        flag_set(with_zero_negative(status, v), NEGATIVE) <==> v >= 0x80,
        with_zero_negative(status, v) & !(ZERO | NEGATIVE) == status & !(ZERO | NEGATIVE),
{
    assert(flag_set(with_zero_negative(status, v), ZERO) <==> v == 0) by (bit_vector);
    assert(flag_set(with_zero_negative(status, v), NEGATIVE) <==> v >= 0x80) by (bit_vector);
    assert(with_zero_negative(status, v) & !(ZERO | NEGATIVE) == status & !(ZERO | NEGATIVE))
        by (bit_vector);
}

} // verus!
