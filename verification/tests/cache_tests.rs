use digital_twin_mw::allocator::release_port;
use digital_twin_mw::allocator::reserve_port;
use digital_twin_mw::allocator::PORT_RANGE_HI;
use digital_twin_mw::allocator::PORT_RANGE_LO;
use digital_twin_mw::cache::CacheValue;
use digital_twin_mw::cache::TtlCache;
use digital_twin_mw::errors::ErrorKind;
use digital_twin_mw::keys::port_key;

#[test]
fn set_get_round_trip() {
    let mut c = TtlCache::new();
    c.set(b"k".to_vec(), CacheValue::Count(5), None, 100);
    match c.get(b"k", 100) {
        Some(CacheValue::Count(n)) => assert_eq!(*n, 5),
        _ => panic!("entry missing"),
    }
    assert!(c.get(b"other", 100).is_none());
}

#[test]
fn entries_expire_at_their_instant() {
    let mut c = TtlCache::new();
    c.set(b"k".to_vec(), CacheValue::Count(1), Some(60), 100);
    assert!(c.get(b"k", 100).is_some());
    assert!(c.get(b"k", 159).is_some());
    // Dead exactly at the expiry instant.
    assert!(c.get(b"k", 160).is_none());
    assert!(c.get(b"k", 1000).is_none());
}

#[test]
fn get_with_ttl_reports_remaining_window() {
    let mut c = TtlCache::new();
    c.set(b"k".to_vec(), CacheValue::Count(1), Some(60), 100);
    let (_, remaining) = c.get_with_ttl(b"k", 130).unwrap();
    assert_eq!(remaining, Some(30));
    c.set(b"p".to_vec(), CacheValue::Count(1), None, 100);
    let (_, remaining) = c.get_with_ttl(b"p", 130).unwrap();
    assert_eq!(remaining, None);
}

#[test]
fn set_replaces_and_delete_kills() {
    let mut c = TtlCache::new();
    c.set(b"k".to_vec(), CacheValue::Count(1), None, 0);
    c.set(b"k".to_vec(), CacheValue::Count(2), None, 1);
    match c.get(b"k", 2) {
        Some(CacheValue::Count(n)) => assert_eq!(*n, 2),
        _ => panic!("entry missing"),
    }
    c.delete(b"k");
    assert!(c.get(b"k", 2).is_none());
    // Deleting again, or deleting an absent key, is harmless.
    c.delete(b"k");
    c.delete(b"missing");
}

#[test]
fn set_if_absent_claims_exactly_once() {
    let mut c = TtlCache::new();
    assert!(c.set_if_absent(b"k".to_vec(), CacheValue::Count(1), None, 0));
    assert!(!c.set_if_absent(b"k".to_vec(), CacheValue::Count(2), None, 1));
    match c.get(b"k", 1) {
        Some(CacheValue::Count(n)) => assert_eq!(*n, 1),
        _ => panic!("entry missing"),
    }
    // An expired claim no longer blocks.
    let mut c2 = TtlCache::new();
    assert!(c2.set_if_absent(b"x".to_vec(), CacheValue::Count(1), Some(10), 0));
    assert!(!c2.set_if_absent(b"x".to_vec(), CacheValue::Count(2), Some(10), 9));
    assert!(c2.set_if_absent(b"x".to_vec(), CacheValue::Count(2), Some(10), 10));
}

#[test]
fn reserved_ports_are_exclusive() {
    let mut markers = TtlCache::new();
    let mut seen = Vec::new();
    for _ in 0..50 {
        let p = reserve_port(&mut markers, 0).unwrap();
        assert!((PORT_RANGE_LO..PORT_RANGE_HI).contains(&p));
        assert!(!seen.contains(&p), "port {} handed out twice", p);
        seen.push(p);
    }
}

#[test]
fn released_ports_can_be_reserved_again() {
    let mut markers = TtlCache::new();
    let p = reserve_port(&mut markers, 0).unwrap();
    assert!(markers.get(&port_key(p), 0).is_some());
    release_port(&mut markers, p);
    assert!(markers.get(&port_key(p), 0).is_none());
    // Releasing twice is the same as releasing once.
    release_port(&mut markers, p);
    assert!(markers.get(&port_key(p), 0).is_none());
}

#[test]
fn exhausted_range_fails_reservation() {
    let mut markers = TtlCache::new();
    let mut p = PORT_RANGE_LO;
    while p < PORT_RANGE_HI {
        markers.set(port_key(p), CacheValue::Count(p as u64), None, 0);
        p += 1;
    }
    let e = reserve_port(&mut markers, 0).unwrap_err();
    assert_eq!(e.error_kind(), ErrorKind::ResourceExhausted);
    assert_eq!(e.status_code(), 503);
}
