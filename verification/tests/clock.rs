use redis_toolkit::clock::clock_entropy;
use redis_toolkit::clock::entropy_from;
use redis_toolkit::clock::nanos_to_millis;
use redis_toolkit::clock::now_millis;
use redis_toolkit::clock::MILLIS_PER_SECOND;
use redis_toolkit::clock::NANOS_PER_MILLI;
use std::collections::hash_map::DefaultHasher;
use std::hash::Hasher;
use std::time::SystemTime;
use std::time::UNIX_EPOCH;

#[test]
fn nanoseconds_become_whole_milliseconds() {
    assert_eq!(MILLIS_PER_SECOND, 1_000);
    assert_eq!(NANOS_PER_MILLI, 1_000_000);
    assert_eq!(nanos_to_millis(0), 0);
    assert_eq!(nanos_to_millis(999_999), 0);
    assert_eq!(nanos_to_millis(1_000_000), 1);
    assert_eq!(nanos_to_millis(1_999_999), 1);
    assert_eq!(nanos_to_millis(1_700_000_000_123_456_789), 1_700_000_000_123);
    assert_eq!(nanos_to_millis(u64::MAX as u128 * 1_000_000), u64::MAX);
    assert_eq!(nanos_to_millis(u64::MAX as u128 * 1_000_000 - 1), u64::MAX - 1);
    assert_eq!(nanos_to_millis(u128::MAX), u64::MAX);
}

#[test]
fn the_clock_reads_the_system_time() {
    let before = SystemTime::now().duration_since(UNIX_EPOCH).unwrap().as_millis() as u64;
    let now = now_millis();
    let after = SystemTime::now().duration_since(UNIX_EPOCH).unwrap().as_millis() as u64;
    assert!(before <= now && now <= after);
}

#[test]
fn the_entropy_changes_with_the_clock() {
    let first = clock_entropy();
    let mut changed = false;
    for _ in 0..10_000 {
        if clock_entropy() != first {
            changed = true;
            break;
        }
    }
    assert!(changed);
}

#[test]
fn the_entropy_of_a_reading_is_the_hash_of_its_bytes() {
    for nanos in [0u128, 1, 255, 256, 1_700_000_000_123_456_789, u128::MAX] {
        let mut hasher = DefaultHasher::new();
        hasher.write(&nanos.to_le_bytes());
        assert_eq!(entropy_from(nanos), hasher.finish());
        assert_eq!(entropy_from(nanos), entropy_from(nanos));
    }
    assert_ne!(entropy_from(1), entropy_from(2));
    assert_ne!(entropy_from(1), 1);
}
