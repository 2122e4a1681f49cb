//! The device identifier: the lowercased host name, a dash, and a short
//! random suffix, drawn once per install.
use crate::auth::{hex_digit, random_byte};
use crate::calendar::digit_str;
use vstd::prelude::*;

verus! {

/// The lowercase form of a string, as `str::to_lowercase` gives it.
pub uninterp spec fn lower_of(s: Seq<char>) -> Seq<char>;

/// Relies on str::to_lowercase: the result depends on the characters alone.
#[verifier::external_body]
fn lowercase(s: &str) -> (r: String)
    ensures
        r@ == lower_of(s@),
{
    s.to_lowercase()
}

/// Relies on hostname::get: the machine's host name where it can be read
/// and is valid Unicode, else `None`; nothing is promised of its text.
#[verifier::external_body]
fn machine_hostname() -> (r: Option<String>) {
    hostname::get().ok().and_then(|h| h.into_string().ok())
}

/// A byte in lowercase hexadecimal without a leading zero: one digit below
/// 16, two from there.
pub open spec fn short_hex(b: u8) -> Seq<char> {
    if b < 16 {
        seq![hex_digit(b as nat)]
    } else {
        seq![hex_digit((b / 16) as nat), hex_digit((b % 16) as nat)]
    }
}

/// The suffix written for a sequence of random bytes.
pub open spec fn suffix_of(bytes: Seq<u8>) -> Seq<char>
    decreases bytes.len(),
{
    if bytes.len() == 0 {
        Seq::empty()
    } else {
        suffix_of(bytes.drop_last()) + short_hex(bytes.last())
    }
}

/// A device identifier from an already lowercased host name and random bytes.
pub open spec fn device_id_of(host_lower: Seq<char>, bytes: Seq<u8>) -> Seq<char> {
    host_lower + seq!['-'] + suffix_of(bytes)
}

/// The host name used where the machine's cannot be read.
pub open spec fn fallback_host() -> Seq<char> {
    seq!['m', 'a', 'c', 'b', 'o', 'o', 'k']
}

/// Number of random bytes in a device identifier's suffix.
pub const SUFFIX_BYTES: usize = 6;

/// The one-character string of the hexadecimal digit `n`.
fn hex_digit_str(n: u8) -> (r: &'static str)
    requires
        n < 16,
    ensures
        r@ == seq![hex_digit(n as nat)],
{
    if n < 10 {
        return digit_str(n);
    }
    proof {
        reveal_strlit("a");
        reveal_strlit("b");
        reveal_strlit("c");
        reveal_strlit("d");
        reveal_strlit("e");
        reveal_strlit("f");
    }
    match n {
        10 => "a",
        11 => "b",
        12 => "c",
        13 => "d",
        14 => "e",
        _ => "f",
    }
}

/// A device identifier from a lowercased host name and the suffix bytes.
pub fn device_id_from_parts(host_lower: &str, bytes: &Vec<u8>) -> (r: String)
    ensures
        r@ == device_id_of(host_lower@, bytes@),
{
    let mut s = String::from_str(host_lower);
    proof {
        reveal_strlit("-");
    }
    s.append("-");
    let mut i: usize = 0;
    while i < bytes.len()
        invariant
            i <= bytes@.len(),
            s@ == host_lower@ + seq!['-'] + suffix_of(bytes@.subrange(0, i as int)),
        decreases bytes@.len() - i,
    {
        let b = bytes[i];
        if b >= 16 {
            s.append(hex_digit_str(b / 16));
        }
        s.append(hex_digit_str(b % 16));
        proof {
            let next = bytes@.subrange(0, i + 1);
            assert(next.drop_last() =~= bytes@.subrange(0, i as int));
            assert(next.last() == b);
        }
        i = i + 1;
    }
    proof {
        assert(bytes@.subrange(0, bytes@.len() as int) =~= bytes@);
    }
    s
}

/// A device identifier from the machine's host name, where one was read,
/// and the suffix bytes.
pub fn device_id_for(hostname: Option<String>, bytes: &Vec<u8>) -> (r: String)
    ensures
        r@ == device_id_of(
            lower_of(
                match hostname {
                    Some(h) => h@,
                    None => fallback_host(),
                },
            ),
            bytes@,
        ),
{
    let host = match hostname {
        Some(h) => h,
        None => {
            proof {
                reveal_strlit("macbook");
                assert("macbook"@ =~= fallback_host());
            }
            String::from_str("macbook")
        },
    };
    let lower = lowercase(host.as_str());
    device_id_from_parts(lower.as_str(), bytes)
}

/// A fresh device identifier: this machine's lowercased host name and six
/// random bytes.
pub fn generate_device_id() -> (r: String)
    ensures
        exists|host: Seq<char>, b: Seq<u8>| b.len() == 6 && r@ == device_id_of(lower_of(host), b),
{
    let mut bytes: Vec<u8> = Vec::new();
    let mut i: usize = 0;
    while i < SUFFIX_BYTES
        invariant
            i <= SUFFIX_BYTES,
            bytes@.len() == i,
        decreases SUFFIX_BYTES - i,
    {
        bytes.push(random_byte());
        i = i + 1;
    }
    let host = machine_hostname();
    let ghost h = match &host {
        Some(h) => h@,
        None => fallback_host(),
    };
    let r = device_id_for(host, &bytes);
    proof {
        assert(bytes@.len() == 6 && r@ == device_id_of(lower_of(h), bytes@));
    }
    r
}

} // verus!
