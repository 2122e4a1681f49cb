use traindaily::cert::{subject_alt_names, Certificate};

#[test]
fn test_certificate_generation() {
    let cert = Certificate::generate().unwrap();
    assert!(!cert.cert_pem.is_empty());
    assert!(!cert.key_pem.is_empty());
    assert!(String::from_utf8(cert.cert_pem).unwrap().starts_with("-----BEGIN CERTIFICATE-----"));
}

#[test]
fn certificate_names() {
    assert_eq!(subject_alt_names(), vec!["localhost".to_string(), "127.0.0.1".to_string(), "0.0.0.0".to_string()]);
}
