use traindaily::auth::{generate_auth_token, strip_bearer, verify_auth};
use traindaily::identity::{device_id_for, device_id_from_parts, generate_device_id};
use traindaily::pairing::{decimal, generate_qr_data, SYNC_PORT};

#[test]
fn bearer_header_is_accepted() {
    assert!(verify_auth(None, Some("Bearer s3cret"), "s3cret"));
    assert!(!verify_auth(None, Some("bearer s3cret"), "s3cret"));
    assert!(!verify_auth(None, Some("s3cret"), "s3cret"));
    assert!(!verify_auth(None, Some("Bearer s3cret "), "s3cret"));
    assert!(!verify_auth(None, None, "s3cret"));
    assert!(verify_auth(Some("s3cret"), None, "s3cret"));
    assert!(!verify_auth(Some(""), Some("Bearer s3cret"), "s3cret"));
}

#[test]
fn strip_bearer_takes_the_token() {
    assert_eq!(strip_bearer("Bearer abc"), Some("abc"));
    assert_eq!(strip_bearer("Bearer "), Some(""));
    assert_eq!(strip_bearer("Basic abc"), None);
    assert_eq!(strip_bearer("Bear"), None);
}

#[test]
fn auth_token_is_32_lowercase_hex_digits() {
    let t = generate_auth_token();
    assert_eq!(t.len(), 32);
    assert!(t.chars().all(|c| c.is_ascii_digit() || ('a'..='f').contains(&c)));
    let u = generate_auth_token();
    assert_ne!(t, u);
}

#[test]
fn qr_data_is_the_pairing_link() {
    let s = generate_qr_data("studio-a1b2c3", "deadbeef", "192.168.1.20");
    assert_eq!(
        s,
        "https://traindaily.vercel.app/pair?deviceId=studio-a1b2c3&ip=192.168.1.20&port=8841&secret=deadbeef"
    );
    assert_eq!(SYNC_PORT, 8841);
}

#[test]
fn decimal_writes_numbers() {
    assert_eq!(decimal(0), "0");
    assert_eq!(decimal(7), "7");
    assert_eq!(decimal(8841), "8841");
    assert_eq!(decimal(65535), "65535");
}

#[test]
fn device_id_suffix_uses_short_hex() {
    assert_eq!(device_id_from_parts("studio", &vec![0x0a, 0xff, 0x10, 0x00, 0x7b, 0x05]), "studio-aff1007b5");
}

#[test]
fn device_id_lowercases_the_host() {
    assert_eq!(device_id_for(Some("Studio-MAC".to_string()), &vec![1, 2]), "studio-mac-12");
    assert_eq!(device_id_for(None, &vec![0xab]), "macbook-ab");
}

#[test]
fn generated_device_id_is_lowercase_with_a_suffix() {
    let id = generate_device_id();
    let (_host, suffix) = id.rsplit_once('-').unwrap();
    assert!(suffix.len() >= 6 && suffix.len() <= 12);
    assert!(suffix.chars().all(|c| c.is_ascii_digit() || ('a'..='f').contains(&c)));
    assert_eq!(id, id.to_lowercase());
}
