use vstd::prelude::*;

verus! {

use vstd::arithmetic::div_mod::{
    lemma_div_is_ordered,
    lemma_fundamental_div_mod,
    lemma_fundamental_div_mod_converse,
    lemma_fundamental_div_mod_converse_div,
    lemma_mod_bound,
    lemma_small_mod,
};
use crate::pack::{hours_of_millis, secs_of_millis, suid32_spec, suid64_spec, suid128_spec};

/// An identifier is ordered by its high field first: with the first counter
/// field strictly below the second, the packed values compare the same way,
/// whatever the two low fields.
proof fn lemma_ordered_fields(a: int, b: int, x: int, y: int, k: int)
    by (nonlinear_arith)
    requires
        0 <= a < b,
        0 <= x < k,
        0 <= y,
    ensures
        a * k + x < b * k + y,
{
}

/// The quotient grows by at least `n` once the dividend has grown by `n`
/// whole multiples of the divisor.
proof fn lemma_div_advances_by(x: int, y: int, n: int, d: int)
    requires
        0 <= x,
        0 < d,
        0 <= n,
        x + n * d <= y,
    ensures
        x / d + n <= y / d,
{
    lemma_fundamental_div_mod(x, d);
    lemma_mod_bound(x, d);
    assert((x / d + n) * d + x % d == x + n * d) by (nonlinear_arith)
        requires
            x == d * (x / d) + x % d,
    ;
    lemma_fundamental_div_mod_converse_div(x + n * d, d, x / d + n, x % d);
    lemma_div_is_ordered(x + n * d, y, d);
}

/// Bit-disjointness of the 32-bit layout: the high 16 bits and the low 16
/// bits of any value occupy disjoint, adjacent, exhaustive ranges — their
/// masks share no bit, and together they reassemble the value exactly.
pub proof fn lemma_suid32_bit_disjoint(v: u32)
    ensures
        (v & 0xFFFF_0000) & (v & 0xFFFF) == 0,
        (v & 0xFFFF_0000) | (v & 0xFFFF) == v,
        v >> 16 == v / 0x10000,
        v == (v >> 16) * 0x10000 + (v & 0xFFFF),
{
    assert((v & 0xFFFF_0000) & (v & 0xFFFF) == 0 && (v & 0xFFFF_0000) | (v & 0xFFFF) == v && v
        >> 16 == v / 0x10000 && v == (v >> 16) * 0x10000 + (v & 0xFFFF)) by (bit_vector);
}

/// Bit-disjointness of the 64-bit layout: the high 40 bits and the low 24
/// bits of any value occupy disjoint, adjacent, exhaustive ranges.
pub proof fn lemma_suid64_bit_disjoint(v: u64)
    ensures
        (v & 0xFFFF_FFFF_FF00_0000) & (v & 0xFF_FFFF) == 0,
        (v & 0xFFFF_FFFF_FF00_0000) | (v & 0xFF_FFFF) == v,
        v >> 24 == v / 0x100_0000,
        v == (v >> 24) * 0x100_0000 + (v & 0xFF_FFFF),
{
    assert((v & 0xFFFF_FFFF_FF00_0000) & (v & 0xFF_FFFF) == 0 && (v & 0xFFFF_FFFF_FF00_0000) | (v
        & 0xFF_FFFF) == v && v >> 24 == v / 0x100_0000 && v == (v >> 24) * 0x100_0000 + (v
        & 0xFF_FFFF)) by (bit_vector);
}

/// Bit-disjointness of the 128-bit layout: the high 64 bits and the low 64
/// bits of any value occupy disjoint, adjacent, exhaustive ranges.
pub proof fn lemma_suid128_bit_disjoint(v: u128)
    ensures
        (v & 0xFFFF_FFFF_FFFF_FFFF_0000_0000_0000_0000) & (v & 0xFFFF_FFFF_FFFF_FFFF) == 0,
        (v & 0xFFFF_FFFF_FFFF_FFFF_0000_0000_0000_0000) | (v & 0xFFFF_FFFF_FFFF_FFFF) == v,
        v >> 64 == v / 0x1_0000_0000_0000_0000,
        v == (v >> 64) * 0x1_0000_0000_0000_0000 + (v & 0xFFFF_FFFF_FFFF_FFFF),
{
    assert((v & 0xFFFF_FFFF_FFFF_FFFF_0000_0000_0000_0000) & (v & 0xFFFF_FFFF_FFFF_FFFF) == 0 && (v
        & 0xFFFF_FFFF_FFFF_FFFF_0000_0000_0000_0000) | (v & 0xFFFF_FFFF_FFFF_FFFF) == v && v >> 64
        == v / 0x1_0000_0000_0000_0000 && v == (v >> 64) * 0x1_0000_0000_0000_0000 + (v
        & 0xFFFF_FFFF_FFFF_FFFF)) by (bit_vector);
}

/// Field recovery in the 32-bit identifier: the quotient by 2^16 is the hour
/// counter reduced to its field (so a counter past 2^16 wraps, silently),
/// the remainder is the random draw reduced to its field, and the whole
/// value fits the width exactly.
pub proof fn lemma_suid32_fields(c: int, r: int)
    ensures
        0 <= suid32_spec(c, r) < 0x1_0000_0000,
        suid32_spec(c, r) / 0x10000 == c % 0x10000,
        suid32_spec(c, r) % 0x10000 == r % 0x10000,
{
    lemma_mod_bound(c, 0x10000);
    lemma_mod_bound(r, 0x10000);
    lemma_fundamental_div_mod_converse(suid32_spec(c, r), 0x10000, c % 0x10000, r % 0x10000);
}

/// Field recovery in the 64-bit identifier: the quotient by 2^24 is the
/// second counter reduced to its 40-bit field, the remainder is the random
/// draw reduced to its 24-bit field, and the value fits the width exactly.
pub proof fn lemma_suid64_fields(c: int, r: int)
    ensures
        0 <= suid64_spec(c, r) < 0x1_0000_0000_0000_0000,
        suid64_spec(c, r) / 0x100_0000 == c % 0x100_0000_0000,
        suid64_spec(c, r) % 0x100_0000 == r % 0x100_0000,
{
    lemma_mod_bound(c, 0x100_0000_0000);
    lemma_mod_bound(r, 0x100_0000);
    lemma_fundamental_div_mod_converse(
        suid64_spec(c, r),
        0x100_0000,
        c % 0x100_0000_0000,
        r % 0x100_0000,
    );
}

/// Field recovery in the 128-bit identifier: the quotient by 2^64 is the
/// millisecond counter reduced to its 64-bit field, the remainder is the
/// random draw reduced to its 64-bit field, and the value fits the width
/// exactly.
pub proof fn lemma_suid128_fields(c: int, r: int)
    ensures
        0 <= suid128_spec(c, r) < 0x1_0000_0000_0000_0000_0000_0000_0000_0000,
        suid128_spec(c, r) / 0x1_0000_0000_0000_0000 == c % 0x1_0000_0000_0000_0000,
        suid128_spec(c, r) % 0x1_0000_0000_0000_0000 == r % 0x1_0000_0000_0000_0000,
{
    lemma_mod_bound(c, 0x1_0000_0000_0000_0000);
    lemma_mod_bound(r, 0x1_0000_0000_0000_0000);
    lemma_fundamental_div_mod_converse(
        suid128_spec(c, r),
        0x1_0000_0000_0000_0000,
        c % 0x1_0000_0000_0000_0000,
        r % 0x1_0000_0000_0000_0000,
    );
}

/// Monotonicity over hour counters: while the 16-bit hour field has not
/// wrapped, a strictly later counter packs to a strictly larger 32-bit
/// identifier, whatever the two random draws.
pub proof fn lemma_suid32_monotonic(c1: int, c2: int, r1: int, r2: int)
    requires
        0 <= c1 < c2 < 0x10000,
    ensures
        suid32_spec(c1, r1) < suid32_spec(c2, r2),
{
    lemma_small_mod(c1 as nat, 0x10000);
    lemma_small_mod(c2 as nat, 0x10000);
    lemma_mod_bound(r1, 0x10000);
    lemma_mod_bound(r2, 0x10000);
    lemma_ordered_fields(c1, c2, r1 % 0x10000, r2 % 0x10000, 0x10000);
}

/// Monotonicity over second counters: while the 40-bit second field has not
/// wrapped, a strictly later counter packs to a strictly larger 64-bit
/// identifier, whatever the two random draws.
pub proof fn lemma_suid64_monotonic(c1: int, c2: int, r1: int, r2: int)
    requires
        0 <= c1 < c2 < 0x100_0000_0000,
    ensures
        suid64_spec(c1, r1) < suid64_spec(c2, r2),
{
    lemma_small_mod(c1 as nat, 0x100_0000_0000);
    lemma_small_mod(c2 as nat, 0x100_0000_0000);
    lemma_mod_bound(r1, 0x100_0000);
    lemma_mod_bound(r2, 0x100_0000);
    lemma_ordered_fields(c1, c2, r1 % 0x100_0000, r2 % 0x100_0000, 0x100_0000);
}

/// Monotonicity over millisecond counters: while the 64-bit millisecond
/// field has not wrapped, a strictly later counter packs to a strictly
/// larger 128-bit identifier, whatever the two random draws.
pub proof fn lemma_suid128_monotonic(c1: int, c2: int, r1: int, r2: int)
    requires
        0 <= c1 < c2 < 0x1_0000_0000_0000_0000,
    ensures
        suid128_spec(c1, r1) < suid128_spec(c2, r2),
{
    lemma_small_mod(c1 as nat, 0x1_0000_0000_0000_0000);
    lemma_small_mod(c2 as nat, 0x1_0000_0000_0000_0000);
    lemma_mod_bound(r1, 0x1_0000_0000_0000_0000);
    lemma_mod_bound(r2, 0x1_0000_0000_0000_0000);
    lemma_ordered_fields(
        c1,
        c2,
        r1 % 0x1_0000_0000_0000_0000,
        r2 % 0x1_0000_0000_0000_0000,
        0x1_0000_0000_0000_0000,
    );
}

/// Monotonicity under delay, 32-bit: an identifier generated at least one
/// full hour after another compares strictly greater as an unsigned value,
/// whatever the two random draws — as long as the later hour counter has
/// not yet wrapped its 16-bit field.
pub proof fn lemma_suid32_monotonic_under_delay(m1: int, m2: int, r1: int, r2: int)
    requires
        0 <= m1,
        m1 + 3_600_000 <= m2,
        hours_of_millis(m2) < 0x10000,
    ensures
        suid32_spec(hours_of_millis(m1), r1) < suid32_spec(hours_of_millis(m2), r2),
{
    lemma_div_advances_by(m1, m2, 3600, 1000);
    lemma_div_is_ordered(0, m1, 1000);
    lemma_div_advances_by(m1 / 1000, m2 / 1000, 1, 3600);
    lemma_div_is_ordered(0, m1 / 1000, 3600);
    lemma_suid32_monotonic(hours_of_millis(m1), hours_of_millis(m2), r1, r2);
}

/// Monotonicity under delay, 64-bit: an identifier generated at least one
/// full second after another compares strictly greater as an unsigned
/// value, whatever the two random draws — as long as the later second
/// counter has not yet wrapped its 40-bit field.
pub proof fn lemma_suid64_monotonic_under_delay(m1: int, m2: int, r1: int, r2: int)
    requires
        0 <= m1,
        m1 + 1000 <= m2,
        secs_of_millis(m2) < 0x100_0000_0000,
    ensures
        suid64_spec(secs_of_millis(m1), r1) < suid64_spec(secs_of_millis(m2), r2),
{
    lemma_div_advances_by(m1, m2, 1, 1000);
    lemma_div_is_ordered(0, m1, 1000);
    lemma_suid64_monotonic(secs_of_millis(m1), secs_of_millis(m2), r1, r2);
}

/// Monotonicity under delay, 128-bit: an identifier generated at least one
/// millisecond after another compares strictly greater as an unsigned
/// value, whatever the two random draws — as long as the later millisecond
/// counter has not yet wrapped its 64-bit field.
pub proof fn lemma_suid128_monotonic_under_delay(m1: int, m2: int, r1: int, r2: int)
    requires
        0 <= m1,
        m1 + 1 <= m2,
        m2 < 0x1_0000_0000_0000_0000,
    ensures
        suid128_spec(m1, r1) < suid128_spec(m2, r2),
{
    lemma_suid128_monotonic(m1, m2, r1, r2);
}

/// Randomness independence, 32-bit: two identifiers packed at the same hour
/// counter from draws that differ within the 16-bit random field differ —
/// and they differ exactly in that field.
pub proof fn lemma_suid32_distinct_randoms(c: int, r1: int, r2: int)
    requires
        r1 % 0x10000 != r2 % 0x10000,
    ensures
        suid32_spec(c, r1) != suid32_spec(c, r2),
        suid32_spec(c, r1) % 0x10000 != suid32_spec(c, r2) % 0x10000,
{
    lemma_suid32_fields(c, r1);
    lemma_suid32_fields(c, r2);
}

/// Randomness independence, 64-bit: two identifiers packed at the same
/// second counter from draws that differ within the 24-bit random field
/// differ — and they differ exactly in that field.
pub proof fn lemma_suid64_distinct_randoms(c: int, r1: int, r2: int)
    requires
        r1 % 0x100_0000 != r2 % 0x100_0000,
    ensures
        suid64_spec(c, r1) != suid64_spec(c, r2),
        suid64_spec(c, r1) % 0x100_0000 != suid64_spec(c, r2) % 0x100_0000,
{
    lemma_suid64_fields(c, r1);
    lemma_suid64_fields(c, r2);
}

/// Randomness independence, 128-bit: two identifiers packed at the same
/// millisecond counter from draws that differ within the 64-bit random
/// field differ — and they differ exactly in that field.
pub proof fn lemma_suid128_distinct_randoms(c: int, r1: int, r2: int)
    requires
        r1 % 0x1_0000_0000_0000_0000 != r2 % 0x1_0000_0000_0000_0000,
    ensures
        suid128_spec(c, r1) != suid128_spec(c, r2),
        suid128_spec(c, r1) % 0x1_0000_0000_0000_0000 != suid128_spec(c, r2)
            % 0x1_0000_0000_0000_0000,
{
    lemma_suid128_fields(c, r1);
    lemma_suid128_fields(c, r2);
}

} // verus!
