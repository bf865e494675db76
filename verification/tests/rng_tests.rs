//! Tests for the named random streams and the small string helper.

use balatro_engine::rng::{GameRngManager, hash_name};
use balatro_engine::strutil::str_eq;

#[test]
fn test_stream_sample_is_below_bound() {
    let mut rng = GameRngManager::new(3);
    for _ in 0..100 {
        let v = rng.sample_stream_below("bounded", 7);
        assert!(v < 7);
    }
    // A bound of one forces the sample to zero.
    assert_eq!(rng.sample_stream_below("bounded", 1), 0);
}

#[test]
fn test_streams_independent_of_request_order() {
    // For one seed, a named stream produces the same values no matter what
    // other streams are requested or in what order.
    let mut m1 = GameRngManager::new(77);
    let mut m2 = GameRngManager::new(77);

    let a1 = m1.sample_stream_below("alpha", 1000);
    let _ = m1.sample_stream_below("beta", 1000);
    let a2_of_m1 = m1.sample_stream_below("alpha", 1000);

    let _ = m2.sample_stream_below("beta", 1000);
    let b1 = m2.sample_stream_below("alpha", 1000);
    let b2 = m2.sample_stream_below("alpha", 1000);

    assert_eq!(a1, b1);
    assert_eq!(a2_of_m1, b2);
}

#[test]
fn test_different_seeds_differ() {
    let mut m1 = GameRngManager::new(1);
    let mut m2 = GameRngManager::new(2);
    let mut any_different = false;
    for _ in 0..16 {
        if m1.sample_stream_below("s", 1000000) != m2.sample_stream_below("s", 1000000) {
            any_different = true;
        }
    }
    assert!(any_different);
    assert_eq!(m1.seed(), 1);
}

#[test]
fn test_hash_name_is_stable_and_separating() {
    assert_eq!(hash_name("DECK_SHUFFLE"), hash_name("DECK_SHUFFLE"));
    assert_ne!(hash_name("DECK_SHUFFLE"), hash_name("deck_shuffle"));
    assert_ne!(hash_name(""), hash_name("a"));
}

#[test]
fn test_str_eq() {
    assert!(str_eq("", ""));
    assert!(str_eq("pair", "pair"));
    assert!(!str_eq("pair", "pairs"));
    assert!(!str_eq("pair", "pier"));
}
