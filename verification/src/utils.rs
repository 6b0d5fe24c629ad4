use vstd::prelude::*;

verus! {

/// The 16-bit value formed by concatenating a high and a low byte.
pub open spec fn spec_merge(high: u8, low: u8) -> u16 {
    (256 * high + low) as u16
}

/// The number of set bits in a byte.
pub open spec fn spec_ones(b: u8) -> int {
    ((b >> 7) & 1) + ((b >> 6) & 1) + ((b >> 5) & 1) + ((b >> 4) & 1) + ((b >> 3) & 1) + ((b >> 2)
        & 1) + ((b >> 1) & 1) + (b & 1)
}

/// A byte has even parity when the number of set bits in it is even.
pub open spec fn spec_even_parity(b: u8) -> bool {
    spec_ones(b) % 2 == 0
}

/// Concatenates two bytes into a 16-bit value, high byte first.
pub fn merge_bytes(left: u8, right: u8) -> (r: u16)
    ensures
        r == spec_merge(left, right),
{
    (left as u16) * 256 + (right as u16)
}

/// Reports whether the number of set bits in `data` is even.
pub fn check_even_parity(data: u8) -> (r: bool)
    ensures
        r == spec_even_parity(data),
{
    let ones: u16 = (((data >> 7) & 1) as u16) + (((data >> 6) & 1) as u16) + (((data >> 5)
        & 1) as u16) + (((data >> 4) & 1) as u16) + (((data >> 3) & 1) as u16) + (((data >> 2)
        & 1) as u16) + (((data >> 1) & 1) as u16) + ((data & 1) as u16);
    ones % 2 == 0
}

} // verus!
