use digital_twin_mw::keys::model_limit_key;
use digital_twin_mw::keys::port_key;
use digital_twin_mw::keys::user_count_key;
use digital_twin_mw::keys::verb_key;
use digital_twin_mw::names::derive_container_name;
use digital_twin_mw::names::derive_network_name;
use digital_twin_mw::text::ascii_lower;
use digital_twin_mw::text::ascii_upper;
use digital_twin_mw::text::bytes_eq;
use digital_twin_mw::text::push_bytes;
use digital_twin_mw::text::sanitize;
use digital_twin_mw::text::u64_to_dec;

#[test]
fn sanitize_lowercases_and_drops() {
    assert_eq!(sanitize(b"My Model"), b"my_model".to_vec());
    assert_eq!(sanitize(b"user@mail.com"), b"usermailcom".to_vec());
    assert_eq!(sanitize(b"abc_123"), b"abc_123".to_vec());
    assert_eq!(sanitize(b"!!!"), b"".to_vec());
    assert_eq!(sanitize(b""), b"".to_vec());
}

#[test]
fn decimal_rendering() {
    assert_eq!(u64_to_dec(0), b"0".to_vec());
    assert_eq!(u64_to_dec(7), b"7".to_vec());
    assert_eq!(u64_to_dec(42), b"42".to_vec());
    assert_eq!(u64_to_dec(9999), b"9999".to_vec());
    assert_eq!(u64_to_dec(18446744073709551615), b"18446744073709551615".to_vec());
}

#[test]
fn case_mapping() {
    assert_eq!(ascii_lower(b"PoSt-9/z"), b"post-9/z".to_vec());
    assert_eq!(ascii_upper(b"put"), b"PUT".to_vec());
    assert_eq!(ascii_upper(b"PUT:2"), b"PUT:2".to_vec());
}

#[test]
fn byte_helpers() {
    assert!(bytes_eq(b"abc", b"abc"));
    assert!(!bytes_eq(b"abc", b"abd"));
    assert!(!bytes_eq(b"abc", b"ab"));
    let mut v = b"ab".to_vec();
    push_bytes(&mut v, b"cd");
    assert_eq!(v, b"abcd".to_vec());
}

#[test]
fn network_name_derivation() {
    let name = derive_network_name("My Model", "user@mail.com", 42);
    assert_eq!(name, "my_model_network_usermailcom_42");
}

#[test]
fn container_name_derivation() {
    let name = derive_container_name("API Server", "user@mail.com", 7);
    assert_eq!(name, "api_server_container_usermailcom_7");
}

#[test]
fn cache_key_layout() {
    assert_eq!(
        model_limit_key("pol-1", b"infer"),
        b"Policy:Models:pol-1:Access:infer".to_vec()
    );
    assert_eq!(verb_key("pol-1", b"infer"), b"Policy:Models:pol-1:Verb:infer".to_vec());
    assert_eq!(
        user_count_key("user-1", "twin-1", b"infer"),
        b"Policy:Users:user-1:twin-1:infer".to_vec()
    );
    assert_eq!(port_key(8080), b"Ports:host:8080".to_vec());
}
