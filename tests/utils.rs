use std::time::Duration;

use ajime_agent::backoff::{backoff_delay, calc_exp_backoff, CooldownOptions};
use ajime_agent::utils::{encode, sha256_hash, version_info};

#[test]
fn test_exp_backoff() {
    let options = CooldownOptions::default();

    assert_eq!(Duration::from_millis(calc_exp_backoff(&options, 0)), Duration::from_secs(1));
    assert_eq!(Duration::from_millis(calc_exp_backoff(&options, 1)), Duration::from_secs(2));
    assert_eq!(Duration::from_millis(calc_exp_backoff(&options, 2)), Duration::from_secs(4));
    assert_eq!(Duration::from_millis(calc_exp_backoff(&options, 10)), Duration::from_secs(300));
}

#[test]
fn test_sha256_hash() {
    let hash = sha256_hash(b"hello world");
    assert_eq!(hash.len(), 64);
}

#[test]
fn sha256_hash_known_value() {
    assert_eq!(
        sha256_hash(b"hello world"),
        "b94d27b9934d3e08a52e52d7da7dabfac484efe37a5380ee9088f7ace2efcde9"
    );
}

#[test]
fn hex_encode_values() {
    assert_eq!(encode(&[]), "");
    assert_eq!(encode(&[0x00, 0x0f, 0xa5, 0xff]), "000fa5ff");
}

#[test]
fn backoff_is_bounded_and_monotone() {
    let options = CooldownOptions { base_delay_ms: 1000, max_delay_ms: 300_000, multiplier: 2 };
    let mut prev = 0;
    for a in 0..70u32 {
        let d = calc_exp_backoff(&options, a);
        assert!(d <= 300_000);
        assert!(d >= prev);
        prev = d;
    }
    assert_eq!(calc_exp_backoff(&options, u32::MAX), 300_000);
    let zero = CooldownOptions { base_delay_ms: 5, max_delay_ms: 100, multiplier: 0 };
    assert_eq!(calc_exp_backoff(&zero, 0), 5);
    assert_eq!(calc_exp_backoff(&zero, 3), 0);
}

#[test]
fn jittered_backoff_stays_under_ceiling() {
    for seed in [0u64, 1, 12345, u64::MAX] {
        assert!(backoff_delay(0, 2, 60, seed) < 2000);
        assert!(backoff_delay(3, 2, 60, seed) < 16000);
        assert!(backoff_delay(40, 2, 60, seed) < 60000);
    }
    assert_eq!(backoff_delay(5, 0, 60, 7), 0);
    assert_eq!(backoff_delay(5, 2, 0, 7), 0);
}

#[test]
fn version_info_defaults_to_unknown() {
    let v = version_info("1.2.3", None, Some("today"));
    assert_eq!(v.version, "1.2.3");
    assert_eq!(v.git_hash, "unknown");
    assert_eq!(v.build_time, "today");
}
