use vstd::prelude::*;

verus! {

use crate::pack::{
    hours_of_millis,
    secs_of_millis,
    suid32_spec,
    suid64_spec,
    suid128_spec,
    pack_u32,
    pack_u64,
    pack_u128,
    pack_i32,
    pack_i64,
    pack_i128,
};

/// The one failure mode: the clock reported a time before
/// 1970-01-01T00:00:00Z. It is an unrecoverable environment fault, never a
/// retryable condition.
#[derive(Clone, Copy, Debug, PartialEq, Eq, Structural)]
pub enum SuidError {
    ClockBeforeEpoch,
}

/// Generates the 32-bit identifier from an explicit clock reading (whole
/// milliseconds since the epoch, `None` when the clock reads before it) and
/// an explicit random draw. Succeeds exactly when the clock reading exists.
pub fn suid_u32_checked(clock_millis: Option<u128>, rando: u32) -> (r: Result<u32, SuidError>)
    ensures
        r is Ok <==> clock_millis is Some,
        clock_millis matches Some(m) ==> r matches Ok(v) && v == suid32_spec(
            hours_of_millis(m as int),
            rando as int,
        ),
        r is Err ==> (r matches Err(e) && e == SuidError::ClockBeforeEpoch),
{
    match clock_millis {
        Some(m) => {
            let secs: u128 = m / 1000;
            let hours: u128 = secs / 3600;
            Ok(pack_u32(hours, rando))
        },
        None => Err(SuidError::ClockBeforeEpoch),
    }
}

/// Generates the 64-bit identifier from an explicit clock reading and an
/// explicit random draw. Succeeds exactly when the clock reading exists.
pub fn suid_u64_checked(clock_millis: Option<u128>, rando: u64) -> (r: Result<u64, SuidError>)
    ensures
        r is Ok <==> clock_millis is Some,
        clock_millis matches Some(m) ==> r matches Ok(v) && v == suid64_spec(
            secs_of_millis(m as int),
            rando as int,
        ),
        r is Err ==> (r matches Err(e) && e == SuidError::ClockBeforeEpoch),
{
    match clock_millis {
        Some(m) => {
            let secs: u128 = m / 1000;
            Ok(pack_u64(secs, rando))
        },
        None => Err(SuidError::ClockBeforeEpoch),
    }
}

/// Generates the 128-bit identifier from an explicit clock reading and an
/// explicit random draw. Succeeds exactly when the clock reading exists.
pub fn suid_u128_checked(clock_millis: Option<u128>, rando: u128) -> (r: Result<u128, SuidError>)
    ensures
        r is Ok <==> clock_millis is Some,
        clock_millis matches Some(m) ==> r matches Ok(v) && v == suid128_spec(
            m as int,
            rando as int,
        ),
        r is Err ==> (r matches Err(e) && e == SuidError::ClockBeforeEpoch),
{
    match clock_millis {
        Some(m) => Ok(pack_u128(m, rando)),
        None => Err(SuidError::ClockBeforeEpoch),
    }
}

/// The signed view of `suid_u32_checked`: on success the result's bit
/// pattern equals the unsigned identifier's exactly.
pub fn suid_i32_checked(clock_millis: Option<u128>, rando: u32) -> (r: Result<i32, SuidError>)
    ensures
        r is Ok <==> clock_millis is Some,
        clock_millis matches Some(m) ==> r matches Ok(v) && v as u32 == suid32_spec(
            hours_of_millis(m as int),
            rando as int,
        ),
        r is Err ==> (r matches Err(e) && e == SuidError::ClockBeforeEpoch),
{
    match clock_millis {
        Some(m) => {
            let secs: u128 = m / 1000;
            let hours: u128 = secs / 3600;
            Ok(pack_i32(hours, rando))
        },
        None => Err(SuidError::ClockBeforeEpoch),
    }
}

/// The signed view of `suid_u64_checked`: on success the result's bit
/// pattern equals the unsigned identifier's exactly.
pub fn suid_i64_checked(clock_millis: Option<u128>, rando: u64) -> (r: Result<i64, SuidError>)
    ensures
        r is Ok <==> clock_millis is Some,
        clock_millis matches Some(m) ==> r matches Ok(v) && v as u64 == suid64_spec(
            secs_of_millis(m as int),
            rando as int,
        ),
        r is Err ==> (r matches Err(e) && e == SuidError::ClockBeforeEpoch),
{
    match clock_millis {
        Some(m) => {
            let secs: u128 = m / 1000;
            Ok(pack_i64(secs, rando))
        },
        None => Err(SuidError::ClockBeforeEpoch),
    }
}

/// The signed view of `suid_u128_checked`: on success the result's bit
/// pattern equals the unsigned identifier's exactly.
pub fn suid_i128_checked(clock_millis: Option<u128>, rando: u128) -> (r: Result<i128, SuidError>)
    ensures
        r is Ok <==> clock_millis is Some,
        clock_millis matches Some(m) ==> r matches Ok(v) && v as u128 == suid128_spec(
            m as int,
            rando as int,
        ),
        r is Err ==> (r matches Err(e) && e == SuidError::ClockBeforeEpoch),
{
    match clock_millis {
        Some(m) => Ok(pack_i128(m, rando)),
        None => Err(SuidError::ClockBeforeEpoch),
    }
}

} // verus!
