use icon_cache::cache::{evaluate_cached, is_expired, rebuild_step, CacheVerdict, RebuildAction};

#[test]
fn backoff_scenario() {
    // four consecutive reopen failures at t = 0, 100, 200, 300
    let (a1, t1, m1) = rebuild_step(false, 0, 0, 0);
    assert_eq!((a1, t1, m1), (RebuildAction::Backoff, 1, 0));
    let (a2, t2, m2) = rebuild_step(false, t1, m1, 100);
    assert_eq!((a2, t2, m2), (RebuildAction::Backoff, 2, 100));
    let (a3, t3, m3) = rebuild_step(false, t2, m2, 200);
    assert_eq!((a3, t3, m3), (RebuildAction::Backoff, 3, 200));
    let (a4, t4, m4) = rebuild_step(false, t3, m3, 300);
    // the try limit is reached and the cooldown has not elapsed: no purge
    assert_eq!((a4, t4, m4), (RebuildAction::Wait, 3, 200));
    // a fifth failure still inside the 300000 ms window since the third
    let (a5, t5, m5) = rebuild_step(false, t4, m4, 250000);
    assert_eq!((a5, t5, m5), (RebuildAction::Wait, 3, 200));
    // once the window has elapsed, the purge is due
    let (a6, t6, m6) = rebuild_step(false, t5, m5, 300301);
    assert_eq!(a6, RebuildAction::Purge);
    assert_eq!(t6, 3);
    assert_eq!(m6, 300301);
}

#[test]
fn reopen_resets_tries() {
    assert_eq!(rebuild_step(true, 3, 999, 1234), (RebuildAction::Reopened, 0, 1234));
}

#[test]
fn cooldown_boundary() {
    // exactly at the end of the window the purge fires
    assert_eq!(rebuild_step(false, 3, 200, 300200).0, RebuildAction::Purge);
    // one millisecond earlier it does not
    assert_eq!(rebuild_step(false, 3, 200, 300199).0, RebuildAction::Wait);
}

#[test]
fn expiry_boundary_values() {
    // expire_ms = 1000, now = 5000: stamped now - 1000 - 1 is expired,
    // stamped now - 1000 is not
    assert!(is_expired(3999, 1000, 5000));
    assert!(!is_expired(4000, 1000, 5000));
    assert!(!is_expired(5000, 1000, 5000));
}

#[test]
fn zero_ttl_expires_strictly() {
    assert!(is_expired(999, 0, 1000));
    assert!(!is_expired(1000, 0, 1000));
}

#[test]
fn clock_gone_backwards_is_not_expired() {
    assert!(!is_expired(5000, 1000, 4000));
}

#[test]
fn verdict_refreshes_expired_entry() {
    let bytes = 1000u64.to_le_bytes().to_vec();
    // now is far past 1000 + 500
    assert!(matches!(evaluate_cached(&bytes, 99999, 500), CacheVerdict::Refresh));
    // fresh enough: served as a hit recording a failed extraction
    match evaluate_cached(&bytes, 1200, 500) {
        CacheVerdict::Hit(img) => assert!(img.is_none()),
        CacheVerdict::Refresh => panic!("fresh entry must not refresh"),
    }
}

#[test]
fn verdict_refreshes_undecodable_entry() {
    assert!(matches!(evaluate_cached(&[1, 2, 3], 0, 500), CacheVerdict::Refresh));
    let mut bytes = 1000u64.to_le_bytes().to_vec();
    bytes.extend_from_slice(b"junk payload");
    assert!(matches!(evaluate_cached(&bytes, 1200, 500), CacheVerdict::Refresh));
}
