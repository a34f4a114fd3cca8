use vstd::prelude::*;

verus! {

/// The five status bits of the processor plus the architecture's reserved
/// filler bits. A flags value is a copyable snapshot; only instruction
/// handlers that declare a flag as affected may change it, every other
/// operation passes it through bit-for-bit.
#[derive(Clone, Copy, Debug, PartialEq, Eq, Structural)]
pub struct Flags {
    /// Zero: the result equals 0.
    pub z: bool,
    /// Sign: the most significant bit of the result is set.
    pub s: bool,
    /// Parity: the count of set bits in the low 8 bits of the result is even.
    pub p: bool,
    /// Carry: the result exceeded the representable width.
    pub cy: bool,
    /// Auxiliary carry: a carry occurred out of the low nibble.
    pub ac: bool,
    /// Reserved filler bits; explicit and inert, no instruction reads or
    /// writes them.
    pub pad: u8,
}

/// The Zero flag an arithmetic result gives: the result is 0.
pub open spec fn spec_zero(n: u8) -> bool {
    n == 0
}

/// The Sign flag an 8-bit result gives: bit 7 is set.
pub open spec fn spec_sign(n: u8) -> bool {
    n & 0x80 == 0x80
}

/// The Parity flag an 8-bit result gives: the number of set bits is even.
pub open spec fn spec_parity(n: u8) -> bool {
    ((n & 1) + ((n >> 1) & 1) + ((n >> 2) & 1) + ((n >> 3) & 1) + ((n >> 4) & 1) + ((n >> 5) & 1)
        + ((n >> 6) & 1) + ((n >> 7) & 1)) % 2 == 0
}

/// Even-parity test over the 8 bits of `num`, the reference computation for
/// the Parity flag.
pub fn parity(num: u8) -> (r: bool)
    ensures
        r == spec_parity(num),
{
    let b0: u8 = num & 1;
    let b1: u8 = (num >> 1) & 1;
    let b2: u8 = (num >> 2) & 1;
    let b3: u8 = (num >> 3) & 1;
    let b4: u8 = (num >> 4) & 1;
    let b5: u8 = (num >> 5) & 1;
    let b6: u8 = (num >> 6) & 1;
    let b7: u8 = (num >> 7) & 1;
    proof {
        assert((num & 1) <= 1 && ((num >> 1) & 1) <= 1 && ((num >> 2) & 1) <= 1 && ((num >> 3)
            & 1) <= 1 && ((num >> 4) & 1) <= 1 && ((num >> 5) & 1) <= 1 && ((num >> 6) & 1) <= 1
            && ((num >> 7) & 1) <= 1) by (bit_vector);
    }
    let count: u8 = b0 + b1 + b2 + b3 + b4 + b5 + b6 + b7;
    count % 2 == 0
}

} // verus!
