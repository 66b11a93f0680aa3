use mavrouter::dedup::{shard_index, shard_key, NUM_SHARDS};
use mavrouter::dedup::Dedup;
use std::time::Duration;

#[test]
fn test_dedup_disabled() {
    let dedup = Dedup::new(Duration::ZERO);

    let data = b"test_packet";
    assert!(!dedup.is_duplicate(data));
    assert!(!dedup.is_duplicate(data)); // Still not duplicate when disabled
}

#[test]
fn test_dedup_rotation_boundary() {
    let mut dedup = Dedup::new(Duration::from_millis(200));

    let data1 = b"packet_1";
    let data2 = b"packet_2";

    assert!(!dedup.check_and_insert(data1));
    assert!(dedup.check_and_insert(data1)); // Duplicate

    dedup.rotate_bucket();
    assert!(dedup.is_duplicate(data1)); // Still in old bucket

    assert!(!dedup.check_and_insert(data2));

    dedup.rotate_bucket();
    assert!(!dedup.is_duplicate(data1)); // Expired
    assert!(dedup.is_duplicate(data2)); // Still valid
}

#[test]
fn test_dedup_different_data_same_length() {
    let mut dedup = Dedup::new(Duration::from_millis(1000));

    // Same length, different content — must not hash-collide under ahash.
    let data1 = b"aaaaaaaa";
    let data2 = b"bbbbbbbb";

    assert!(!dedup.check_and_insert(data1));
    assert!(!dedup.check_and_insert(data2));
}

#[test]
fn test_dedup_time_wheel() {
    let dedup_period = Duration::from_millis(500);
    let bucket_interval = Duration::from_millis(100);
    let mut dedup = Dedup::new(dedup_period);
    assert_eq!(dedup.rotation_interval(), bucket_interval);
    assert_eq!(dedup.bucket_count(), 5);

    let data1 = b"hello";
    let data2 = b"world";

    assert!(!dedup.is_duplicate(data1));
    dedup.insert(data1);
    assert!(dedup.is_duplicate(data1));
    assert!(!dedup.is_duplicate(data2));

    let n = dedup.bucket_count();
    for i in 0..n {
        dedup.rotate_bucket();
        if i < n - 1 {
            assert!(dedup.is_duplicate(data1), "Data1 should be duplicate after {} rotations", i);
        } else {
            assert!(!dedup.is_duplicate(data1), "Data1 should NOT be duplicate after {} rotations", i);
        }
    }

    let mut dedup_exp = Dedup::new(Duration::from_millis(200));
    assert_eq!(dedup_exp.bucket_count(), 2);
    let data = b"expire_test";
    assert!(!dedup_exp.is_duplicate(data));
    dedup_exp.insert(data);
    assert!(dedup_exp.is_duplicate(data));
    dedup_exp.rotate_bucket();
    assert!(dedup_exp.is_duplicate(data));
    dedup_exp.rotate_bucket();
    assert!(!dedup_exp.is_duplicate(data));

    let mut dedup_zero = Dedup::new(Duration::ZERO);
    assert!(!dedup_zero.is_duplicate(data1));
    dedup_zero.insert(data1);
    assert!(!dedup_zero.is_duplicate(data1));
}

#[test]
fn dedup_zero_period_has_no_buckets_and_zero_interval() {
    let dedup = Dedup::new(Duration::ZERO);
    assert_eq!(dedup.bucket_count(), 0);
    assert_eq!(dedup.rotation_interval(), Duration::ZERO);
}

#[test]
fn dedup_short_period_still_gets_two_buckets() {
    let dedup = Dedup::new(Duration::from_millis(50));
    assert_eq!(dedup.bucket_count(), 2);
    assert_eq!(dedup.rotation_interval(), Duration::from_millis(100));
}

#[test]
fn dedup_hash_level_window_law() {
    // A hash recorded once stays for n-1 rotations and leaves at the n-th.
    let mut dedup = Dedup::new(Duration::from_millis(300));
    assert_eq!(dedup.bucket_count(), 3);
    assert!(!dedup.check_and_insert_with_hash(42));
    assert!(dedup.is_duplicate_hash(42));
    dedup.rotate_bucket();
    assert!(dedup.is_duplicate_hash(42));
    dedup.rotate_bucket();
    assert!(dedup.is_duplicate_hash(42));
    dedup.rotate_bucket();
    assert!(!dedup.is_duplicate_hash(42));
    dedup.insert_hash(7);
    assert!(dedup.is_duplicate_hash(7));
    assert!(!dedup.is_duplicate_hash(8));
}

#[test]
fn shard_index_is_low_bits_and_hash_is_stable() {
    assert_eq!(shard_index(0), 0);
    assert_eq!(shard_index(0x1234), 4);
    assert_eq!(shard_index(u64::MAX), 15);
    let (shard, hash) = shard_key(b"abc");
    assert!(shard < NUM_SHARDS);
    assert_eq!(shard, shard_index(hash));
    assert_eq!(shard_key(b"same"), shard_key(b"same"));
}

#[test]
fn dedup_expiry_with_other_inserts_between_rotations() {
    // 300 ms: a wheel of three buckets.
    let mut dedup = Dedup::new(Duration::from_millis(300));
    dedup.insert_hash(42);
    dedup.insert_hash(1);
    dedup.rotate_bucket();
    assert!(!dedup.check_and_insert_with_hash(2));
    dedup.insert_hash(3);
    assert!(dedup.is_duplicate_hash(42));
    dedup.rotate_bucket();
    dedup.insert_hash(4);
    assert!(dedup.check_and_insert_with_hash(3));
    assert!(dedup.is_duplicate_hash(42));
    dedup.rotate_bucket();
    assert!(!dedup.is_duplicate_hash(42));
    dedup.insert_hash(5);
    dedup.rotate_bucket();
    assert!(!dedup.is_duplicate_hash(42));
    assert!(dedup.is_duplicate_hash(4));
}
