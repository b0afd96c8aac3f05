use vstd::prelude::*;
use crate::error::Error;

verus! {

/// An ASCII hex digit, upper or lower case.
pub open spec fn is_hex_digit(c: u8) -> bool {
    (0x30 <= c <= 0x39) || (0x41 <= c <= 0x46) || (0x61 <= c <= 0x66)
}

/// The four-bit value of a hex digit.
pub open spec fn digit_value(c: u8) -> u8 {
    if 0x30 <= c <= 0x39 {
        (c - 0x30) as u8
    } else if 0x41 <= c <= 0x46 {
        (c - 0x41 + 10) as u8
    } else {
        (c - 0x61 + 10) as u8
    }
}

/// The upper-case hex digit of a four-bit value.
pub open spec fn hex_digit(v: u8) -> u8 {
    if v < 10 {
        (0x30 + v) as u8
    } else {
        (0x41 + v - 10) as u8
    }
}

/// Reads one ASCII hex digit as a four-bit value.
pub fn nibble(c: u8) -> (r: Result<u8, Error>)
    ensures
        r is Ok <==> is_hex_digit(c),
        r matches Ok(v) ==> v == digit_value(c) && v < 16,
        r matches Err(e) ==> e == Error::Hex(c),
{
    if 0x30 <= c && c <= 0x39 {
        Ok(c - 0x30)
    } else if 0x41 <= c && c <= 0x46 {
        Ok(c - 0x41 + 10)
    } else if 0x61 <= c && c <= 0x66 {
        Ok(c - 0x61 + 10)
    } else {
        Err(Error::Hex(c))
    }
}

/// Writes a four-bit value as an upper-case ASCII hex digit.
pub fn hex(c: u8) -> (r: Result<u8, Error>)
    ensures
        r is Ok <==> c < 16,
        r matches Ok(d) ==> d == hex_digit(c),
        r matches Err(e) ==> e == Error::Hex(c),
{
    if c <= 9 {
        Ok(0x30 + c)
    } else if c <= 0xF {
        Ok(0x41 + (c - 10))
    } else {
        Err(Error::Hex(c))
    }
}

/// Every four-bit value survives a trip through its hex digit, and that
/// digit is the upper-case one.
pub proof fn lemma_nibble_of_hex(v: u8)
    requires
        v < 16,
    ensures
        is_hex_digit(hex_digit(v)),
        digit_value(hex_digit(v)) == v,
        !(0x61 <= hex_digit(v) <= 0x66),
{
}

} // verus!
