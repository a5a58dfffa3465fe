use vstd::prelude::*;

pub mod gen;
pub mod laws;
pub mod pack;

verus! {

use crate::pack::{pack_u32, pack_u64, pack_u128, reinterpret_i32, reinterpret_i64, reinterpret_i128};

/// A sortable unique identifier: a coarse wall-clock counter in the
/// high-order bits, fresh random bits below it.
pub trait Suid: Sized {
    fn suid() -> Self;
}

/// Relies on `rand::random` (sampling `StandardUniform`): a fresh uniformly
/// distributed value of the requested type. Nothing can be promised of which
/// value comes back.
pub assume_specification<T>[ rand::random::<T> ]() -> (r: T)
    where
        rand::distr::StandardUniform: rand::distr::Distribution<T>,
;

/// Relies on `std::time::SystemTime::now` and `duration_since(UNIX_EPOCH)`,
/// read off as whole milliseconds since 1970-01-01T00:00:00Z. A clock that
/// reads before the epoch aborts the call here — the library's one fatal
/// condition. Nothing can be promised of which reading comes back.
#[verifier::external_body]
fn clock_millis_since_epoch() -> (r: u128) {
    std::time::SystemTime::now()
        .duration_since(std::time::UNIX_EPOCH)
        .expect("UNIX_EPOCH is before now")
        .as_millis()
}

impl Suid for u32 {
    /// 16-bit timestamp (hours since the epoch) over 16 random bits.
    fn suid() -> u32 {
        let millis: u128 = clock_millis_since_epoch();
        let secs: u128 = millis / 1000;
        let hours: u128 = secs / 3600;
        let rando: u32 = rand::random::<u32>();
        pack_u32(hours, rando)
    }
}

impl Suid for i32 {
    /// The bit-identical signed view of what `u32::suid` yields.
    fn suid() -> i32 {
        reinterpret_i32(u32::suid())
    }
}

impl Suid for u64 {
    /// 40-bit timestamp (seconds since the epoch) over 24 random bits.
    fn suid() -> u64 {
        let millis: u128 = clock_millis_since_epoch();
        let secs: u128 = millis / 1000;
        let rando: u64 = rand::random::<u64>();
        pack_u64(secs, rando)
    }
}

impl Suid for i64 {
    /// The bit-identical signed view of what `u64::suid` yields.
    fn suid() -> i64 {
        reinterpret_i64(u64::suid())
    }
}

impl Suid for u128 {
    /// 64-bit timestamp (milliseconds since the epoch) over 64 random bits.
    fn suid() -> u128 {
        let millis: u128 = clock_millis_since_epoch();
        let rando: u128 = rand::random::<u128>();
        pack_u128(millis, rando)
    }
}

impl Suid for i128 {
    /// The bit-identical signed view of what `u128::suid` yields.
    fn suid() -> i128 {
        reinterpret_i128(u128::suid())
    }
}

} // verus!
