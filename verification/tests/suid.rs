use suid::Suid;
use suid::gen::{
    suid_i128_checked, suid_i32_checked, suid_i64_checked, suid_u128_checked, suid_u32_checked,
    suid_u64_checked, SuidError,
};
use suid::pack::{
    pack_i128, pack_i32, pack_i64, pack_u128, pack_u32, pack_u64, reinterpret_i128,
    reinterpret_i32, reinterpret_i64,
};

const HOUR_MILLIS: u128 = 3_600_000;

#[test]
fn generate32_example_one_hour_all_ones() {
    // A clock fixed at exactly one hour since the epoch and a random draw of
    // all ones: (1 << 16) | (0xFFFF_FFFF << 16 >> 16).
    assert_eq!(pack_u32(1, 0xFFFF_FFFF), 0x0001_FFFF);
    assert_eq!(
        suid_u32_checked(Some(HOUR_MILLIS), 0xFFFF_FFFF),
        Ok(0x0001_FFFF)
    );
}

#[test]
fn monotonic_u32_across_hours() {
    let first = suid_u32_checked(Some(5 * HOUR_MILLIS + 123), 0xFFFF_FFFF).unwrap();
    let second = suid_u32_checked(Some(6 * HOUR_MILLIS), 0).unwrap();
    assert!(first < second);
    assert!(first.to_be_bytes() < second.to_be_bytes());
}

#[test]
fn monotonic_u64_across_seconds() {
    let first = suid_u64_checked(Some(1_700_000_000_999), u64::MAX).unwrap();
    let second = suid_u64_checked(Some(1_700_000_001_999), 0).unwrap();
    assert!(first < second);
    assert!(first.to_be_bytes() < second.to_be_bytes());
}

#[test]
fn monotonic_u128_across_milliseconds() {
    let first = suid_u128_checked(Some(1_700_000_000_000), u128::MAX).unwrap();
    let second = suid_u128_checked(Some(1_700_000_000_001), 0).unwrap();
    assert!(first < second);
    assert!(first.to_be_bytes() < second.to_be_bytes());
}

#[test]
fn not_monotonic_within_one_tick() {
    // Within the same hour no ordering is owed: a larger draw wins.
    let first = suid_u32_checked(Some(HOUR_MILLIS), 9).unwrap();
    let second = suid_u32_checked(Some(HOUR_MILLIS + 1), 3).unwrap();
    assert!(second < first);
}

#[test]
fn wraparound_u32_hour_field() {
    // Hour counter past 2^16: only the low 16 bits of it survive.
    assert_eq!(pack_u32(0x10000 + 5, 0), 5 << 16);
    assert_eq!(
        suid_u32_checked(Some((0x10000 + 5) * HOUR_MILLIS), 0),
        Ok(5 << 16)
    );
}

#[test]
fn wraparound_u64_second_field() {
    assert_eq!(pack_u64(0x100_0000_0000 + 7, 0), 7 << 24);
    assert_eq!(
        suid_u64_checked(Some((0x100_0000_0000 + 7) * 1000), 0),
        Ok(7 << 24)
    );
}

#[test]
fn wraparound_u128_millisecond_field() {
    let millis = (1u128 << 64) + 9;
    assert_eq!(pack_u128(millis, 0), 9 << 64);
    assert_eq!(suid_u128_checked(Some(millis), 0), Ok(9 << 64));
}

#[test]
fn distinct_randoms_same_tick_differ() {
    assert_ne!(pack_u32(42, 1), pack_u32(42, 2));
    assert_ne!(pack_u64(42, 1), pack_u64(42, 2));
    assert_ne!(pack_u128(42, 1), pack_u128(42, 2));
}

#[test]
fn random_draw_is_masked_to_its_field() {
    // Bits of the draw above the random field are discarded.
    assert_eq!(pack_u32(42, 0x0001_0005), pack_u32(42, 5));
    assert_eq!(pack_u64(42, 0x0100_0000 + 5), pack_u64(42, 5));
    assert_eq!(pack_u32(7, 0xFFFF_0000), pack_u32(7, 0));
}

#[test]
fn clock_before_epoch_is_fatal() {
    assert_eq!(suid_u32_checked(None, 7), Err(SuidError::ClockBeforeEpoch));
    assert_eq!(suid_u64_checked(None, 7), Err(SuidError::ClockBeforeEpoch));
    assert_eq!(suid_u128_checked(None, 7), Err(SuidError::ClockBeforeEpoch));
    assert_eq!(suid_i32_checked(None, 7), Err(SuidError::ClockBeforeEpoch));
    assert_eq!(suid_i64_checked(None, 7), Err(SuidError::ClockBeforeEpoch));
    assert_eq!(suid_i128_checked(None, 7), Err(SuidError::ClockBeforeEpoch));
}

#[test]
fn signed_is_bit_identical_32() {
    // Hour counter 0xFFFF and an all-ones draw set every bit: -1 as i32.
    let unsigned = pack_u32(0xFFFF, 0xFFFF_FFFF);
    let signed = pack_i32(0xFFFF, 0xFFFF_FFFF);
    assert_eq!(unsigned, 0xFFFF_FFFF);
    assert_eq!(signed, -1);
    assert_eq!(signed as u32, unsigned);
    assert_eq!(signed.to_be_bytes(), unsigned.to_be_bytes());
}

#[test]
fn signed_is_bit_identical_64() {
    // The top bit of the 40-bit second field becomes the sign bit.
    let secs: u128 = 0xFF_FFFF_FFFF;
    let unsigned = pack_u64(secs, 0xABCD_EF01_2345_6789);
    let signed = pack_i64(secs, 0xABCD_EF01_2345_6789);
    assert!(signed < 0);
    assert_eq!(signed as u64, unsigned);
    assert_eq!(signed.to_be_bytes(), unsigned.to_be_bytes());
}

#[test]
fn signed_is_bit_identical_128() {
    let millis: u128 = 1u128 << 63;
    let unsigned = pack_u128(millis, 12345);
    let signed = pack_i128(millis, 12345);
    assert!(signed < 0);
    assert_eq!(signed as u128, unsigned);
    assert_eq!(signed.to_be_bytes(), unsigned.to_be_bytes());
}

#[test]
fn signed_checked_matches_unsigned_checked() {
    let m = Some(123 * HOUR_MILLIS + 45);
    assert_eq!(
        suid_i32_checked(m, 0xFEDC_BA98).unwrap() as u32,
        suid_u32_checked(m, 0xFEDC_BA98).unwrap()
    );
    assert_eq!(
        suid_i64_checked(m, 0xFEDC_BA98_7654_3210).unwrap() as u64,
        suid_u64_checked(m, 0xFEDC_BA98_7654_3210).unwrap()
    );
    assert_eq!(
        suid_i128_checked(m, 98765).unwrap() as u128,
        suid_u128_checked(m, 98765).unwrap()
    );
}

#[test]
fn reinterpret_keeps_every_bit() {
    assert_eq!(reinterpret_i32(0x8000_0001), 0x8000_0001u32 as i32);
    assert_eq!(reinterpret_i64(u64::MAX), -1);
    assert_eq!(reinterpret_i128(1u128 << 127), i128::MIN);
}

#[test]
fn ambient_u32_runs() {
    // Nothing is owed of a single ambient call; this exercises the real
    // clock and the real random source.
    let _ = u32::suid();
    let _ = i32::suid();
}

#[test]
fn test_u64() {
    let first = u64::suid();
    let mut second = u64::suid();
    // Wait out the tick: regenerate until the second counter has advanced.
    while second >> 24 <= first >> 24 {
        second = u64::suid();
    }
    assert!(first < second);
}

#[test]
fn test_i64() {
    let first = i64::suid();
    let mut second = i64::suid();
    while (second as u64) >> 24 <= (first as u64) >> 24 {
        second = i64::suid();
    }
    assert!(first < second);
}

#[test]
fn test_u128() {
    let first = u128::suid();
    let mut second = u128::suid();
    while second >> 64 <= first >> 64 {
        second = u128::suid();
    }
    assert!(first < second);
}

#[test]
fn test_i128() {
    let first = i128::suid();
    let mut second = i128::suid();
    while (second as u128) >> 64 <= (first as u128) >> 64 {
        second = i128::suid();
    }
    assert!(first < second);
}
