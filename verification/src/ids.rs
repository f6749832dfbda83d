use vstd::prelude::*;

verus! {

/// The 128-bit value of the UUID whose first field is `d1` and whose other
/// fields are zero: `d1` in the 32 most significant bits.
pub open spec fn uuid_of_first_field(d1: int) -> int {
    d1 * 0x1_0000_0000_0000_0000_0000_0000
}

/// The eight bytes `b`, read big-endian.
pub open spec fn be_u64(b: Seq<u8>) -> int {
    b[0] * 0x100_0000_0000_0000 + b[1] * 0x1_0000_0000_0000 + b[2] * 0x100_0000_0000 + b[3] * 0x1_0000_0000
        + b[4] * 0x100_0000 + b[5] * 0x1_0000 + b[6] * 0x100 + b[7]
}

/// The 128-bit big-endian value of the UUID made of the fields `d1`, `d2`,
/// `d3` and the bytes `d4`, in this order.
pub open spec fn uuid_of_fields(d1: int, d2: int, d3: int, d4: Seq<u8>) -> int {
    d1 * 0x1_0000_0000_0000_0000_0000_0000 + d2 * 0x1_0000_0000_0000_0000_0000 + d3 * 0x1_0000_0000_0000_0000
        + be_u64(d4)
}

/// Calls `uuid::Uuid::from_fields(d1, d2, d3, d4)` and takes the UUID's
/// 128-bit big-endian value (`Uuid::as_u128`). In uuid's source
/// `from_fields` lays out the big-endian bytes of `d1`, `d2`, `d3` and then
/// the bytes of `d4`, and `as_u128` reads the 16 bytes big-endian.
#[verifier::external_body]
pub(crate) fn uuid_from_fields(d1: u32, d2: u16, d3: u16, d4: &[u8; 8]) -> (r: u128)
    ensures
        r == uuid_of_fields(d1 as int, d2 as int, d3 as int, d4@),
{
    uuid::Uuid::from_fields(d1, d2, d3, d4).as_u128()
}

} // verus!
