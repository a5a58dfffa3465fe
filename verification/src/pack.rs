use vstd::prelude::*;

verus! {

/// Whole seconds since the epoch, given whole milliseconds since the epoch.
pub open spec fn secs_of_millis(millis: int) -> int {
    millis / 1000
}

/// Whole hours since the epoch, given whole milliseconds since the epoch.
pub open spec fn hours_of_millis(millis: int) -> int {
    millis / 1000 / 3600
}

/// The 32-bit identifier packed from an hour counter and a random draw: the
/// counter, reduced modulo 2^16, fills the high-order 16 bits, and the draw,
/// reduced modulo 2^16, fills the low-order 16 bits.
pub open spec fn suid32_spec(hours: int, rando: int) -> int {
    (hours % 0x10000) * 0x10000 + rando % 0x10000
}

/// The 64-bit identifier packed from a second counter and a random draw: the
/// counter, reduced modulo 2^40, fills the high-order 40 bits, and the draw,
/// reduced modulo 2^24, fills the low-order 24 bits.
pub open spec fn suid64_spec(secs: int, rando: int) -> int {
    (secs % 0x100_0000_0000) * 0x100_0000 + rando % 0x100_0000
}

/// The 128-bit identifier packed from a millisecond counter and a random
/// draw: the counter, reduced modulo 2^64, fills the high-order 64 bits, and
/// the draw, reduced modulo 2^64, fills the low-order 64 bits.
pub open spec fn suid128_spec(millis: int, rando: int) -> int {
    (millis % 0x1_0000_0000_0000_0000) * 0x1_0000_0000_0000_0000
        + rando % 0x1_0000_0000_0000_0000
}

/// Packs the hour counter and the random draw into a 32-bit identifier:
/// the counter is truncated into its 16-bit field and shifted to the top,
/// the draw is masked to its 16 low bits, and the two are ORed together.
pub fn pack_u32(hours: u128, rando: u32) -> (r: u32)
    ensures
        r == suid32_spec(hours as int, rando as int),
{
    let ts: u32 = #[verifier::truncate] (hours as u32);
    let r: u32 = (ts << 16u32) | (rando << 16u32 >> 16u32);
    proof {
        assert((ts << 16u32) | (rando << 16u32 >> 16u32) == (hours % 0x10000) * 0x10000
            + rando % 0x10000) by (bit_vector)
            requires
                ts == hours as u32,
        ;
    }
    r
}

/// Packs the second counter and the random draw into a 64-bit identifier:
/// the counter is truncated into its 40-bit field and shifted to the top,
/// the draw is masked to its 24 low bits, and the two are ORed together.
pub fn pack_u64(secs: u128, rando: u64) -> (r: u64)
    ensures
        r == suid64_spec(secs as int, rando as int),
{
    let ts: u64 = #[verifier::truncate] (secs as u64);
    let r: u64 = (ts << 24u64) | (rando << 40u64 >> 40u64);
    proof {
        assert((ts << 24u64) | (rando << 40u64 >> 40u64) == (secs % 0x100_0000_0000) * 0x100_0000
            + rando % 0x100_0000) by (bit_vector)
            requires
                ts == secs as u64,
        ;
    }
    r
}

/// Packs the millisecond counter and the random draw into a 128-bit
/// identifier: the counter is truncated into its 64-bit field and shifted to
/// the top, the draw is masked to its 64 low bits, and the two are ORed
/// together.
pub fn pack_u128(millis: u128, rando: u128) -> (r: u128)
    ensures
        r == suid128_spec(millis as int, rando as int),
{
    let r: u128 = (millis << 64u128) | (rando << 64u128 >> 64u128);
    proof {
        assert((millis << 64u128) | (rando << 64u128 >> 64u128) == (millis
            % 0x1_0000_0000_0000_0000) * 0x1_0000_0000_0000_0000 + rando
            % 0x1_0000_0000_0000_0000) by (bit_vector);
    }
    r
}

/// Reinterprets a 32-bit identifier as signed, keeping every bit as it is.
pub fn reinterpret_i32(v: u32) -> (r: i32)
    ensures
        r as u32 == v,
{
    let r: i32 = #[verifier::truncate] (v as i32);
    proof {
        assert(v as i32 as u32 == v) by (bit_vector);
    }
    r
}

/// Reinterprets a 64-bit identifier as signed, keeping every bit as it is.
pub fn reinterpret_i64(v: u64) -> (r: i64)
    ensures
        r as u64 == v,
{
    let r: i64 = #[verifier::truncate] (v as i64);
    proof {
        assert(v as i64 as u64 == v) by (bit_vector);
    }
    r
}

/// Reinterprets a 128-bit identifier as signed, keeping every bit as it is.
pub fn reinterpret_i128(v: u128) -> (r: i128)
    ensures
        r as u128 == v,
{
    let r: i128 = #[verifier::truncate] (v as i128);
    proof {
        assert(v as i128 as u128 == v) by (bit_vector);
    }
    r
}

/// Packs as `pack_u32` does and returns the bit-identical signed view.
pub fn pack_i32(hours: u128, rando: u32) -> (r: i32)
    ensures
        r as u32 == suid32_spec(hours as int, rando as int),
{
    reinterpret_i32(pack_u32(hours, rando))
}

/// Packs as `pack_u64` does and returns the bit-identical signed view.
pub fn pack_i64(secs: u128, rando: u64) -> (r: i64)
    ensures
        r as u64 == suid64_spec(secs as int, rando as int),
{
    reinterpret_i64(pack_u64(secs, rando))
}

/// Packs as `pack_u128` does and returns the bit-identical signed view.
pub fn pack_i128(millis: u128, rando: u128) -> (r: i128)
    ensures
        r as u128 == suid128_spec(millis as int, rando as int),
{
    reinterpret_i128(pack_u128(millis, rando))
}

} // verus!
