//! Plain values read from the graphics hardware layer.

use vstd::prelude::*;

verus! {

/// The four bytes of a number, the least significant first.
pub open spec fn little_endian(n: u32) -> Seq<u8> {
    seq![
        (n % 0x100) as u8,
        (n / 0x100 % 0x100) as u8,
        (n / 0x1_0000 % 0x100) as u8,
        (n / 0x100_0000) as u8,
    ]
}

/// The bytes of an adapter's locally unique identifier as D3D12 lays them out: the low part and then
/// the high part, each with its least significant byte first.
pub fn adapter_luid(low_part: u32, high_part: i32) -> (r: [u8; 8])
    ensures
        r@ == little_endian(low_part) + little_endian(high_part as u32),
{
    let high: u32 = high_part as u32;
    let bytes = [
        (low_part % 0x100) as u8,
        (low_part / 0x100 % 0x100) as u8,
        (low_part / 0x1_0000 % 0x100) as u8,
        (low_part / 0x100_0000) as u8,
        (high % 0x100) as u8,
        (high / 0x100 % 0x100) as u8,
        (high / 0x1_0000 % 0x100) as u8,
        (high / 0x100_0000) as u8,
    ];
    assert(bytes@ =~= little_endian(low_part) + little_endian(high_part as u32));
    bytes
}

} // verus!
