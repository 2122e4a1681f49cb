//! The relay's self-signed TLS certificate.
use vstd::prelude::*;

verus! {

/// A certificate and its private key, both PEM-encoded.
pub struct Certificate {
    pub cert_pem: Vec<u8>,
    pub key_pem: Vec<u8>,
}

/// The names the certificate covers.
pub open spec fn subject_names() -> Seq<Seq<char>> {
    seq!["localhost"@, "127.0.0.1"@, "0.0.0.0"@]
}

pub fn subject_alt_names() -> (r: Vec<String>)
    ensures
        r@.map_values(|s: String| s@) == subject_names(),
{
    let mut r: Vec<String> = Vec::new();
    r.push(String::from_str("localhost"));
    r.push(String::from_str("127.0.0.1"));
    r.push(String::from_str("0.0.0.0"));
    assert(r@.map_values(|s: String| s@) =~= subject_names());
    r
}

/// Relies on rcgen::generate_simple_self_signed, read out with
/// Certificate::pem and KeyPair::serialize_pem: a fresh key pair and a
/// certificate signed with it for the given names, PEM-encoded; `None` where
/// generation fails. The key is random, so of the bytes only this is
/// promised: each PEM text opens with its `-----BEGIN` line, so neither is
/// empty.
#[verifier::external_body]
fn self_signed_pem(names: Vec<String>) -> (r: Option<(Vec<u8>, Vec<u8>)>)
    ensures
        r matches Some(p) ==> p.0@.len() > 0 && p.1@.len() > 0,
{
    rcgen::generate_simple_self_signed(names).ok().map(
        |c| (c.cert.pem().into_bytes(), c.key_pair.serialize_pem().into_bytes()),
    )
}

impl Certificate {
    /// A new self-signed certificate for `localhost`, `127.0.0.1` and
    /// `0.0.0.0`; `None` where the key could not be generated.
    pub fn generate() -> (r: Option<Certificate>)
        ensures
            r matches Some(c) ==> c.cert_pem@.len() > 0 && c.key_pem@.len() > 0,
    {
        match self_signed_pem(subject_alt_names()) {
            Some((cert_pem, key_pem)) => Some(Certificate { cert_pem, key_pem }),
            None => None,
        }
    }
}

} // verus!
