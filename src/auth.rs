//! The relay's shared secret: how a request presents it, how it is checked,
//! and how a new one is drawn.
use crate::calendar::digit_char;
use vstd::prelude::*;

verus! {

/// The scheme word that opens an `Authorization` header carrying the secret.
pub open spec fn bearer_prefix() -> Seq<char> {
    seq!['B', 'e', 'a', 'r', 'e', 'r', ' ']
}

/// The token of an `Authorization` header of the form `Bearer <token>`.
pub open spec fn bearer_token(header: Seq<char>) -> Option<Seq<char>> {
    if header.len() >= 7 && header.subrange(0, 7) == bearer_prefix() {
        Some(header.subrange(7, header.len() as int))
    } else {
        None
    }
}

/// A request is trusted when its `token` query parameter, if it has one,
/// equals the secret; without one, when its `Authorization` header is
/// `Bearer ` followed by the secret.
pub open spec fn authorized(query_token: Option<Seq<char>>, authorization: Option<Seq<char>>, expected: Seq<char>) -> bool {
    match query_token {
        Some(t) => t == expected,
        None => match authorization {
            Some(h) => match bearer_token(h) {
                Some(t) => t == expected,
                None => false,
            },
            None => false,
        },
    }
}

pub open spec fn str_opt_view(o: Option<&str>) -> Option<Seq<char>> {
    match o {
        Some(s) => Some(s@),
        None => None,
    }
}

/// Whether two strings hold the same characters.
pub fn same_text(a: &str, b: &str) -> (r: bool)
    ensures
        r == (a@ == b@),
{
    let x = a.to_owned();
    let y = b.to_owned();
    x == y
}

/// The token of a `Bearer <token>` header value.
pub fn strip_bearer(header: &str) -> (r: Option<&str>)
    ensures
        str_opt_view(r) == bearer_token(header@),
{
    let n = header.unicode_len();
    if n < 7 {
        return None;
    }
    let prefix = header.substring_char(0, 7);
    proof {
        reveal_strlit("Bearer ");
        assert("Bearer "@ =~= bearer_prefix());
    }
    if !same_text(prefix, "Bearer ") {
        return None;
    }
    Some(header.substring_char(7, n))
}

/// Checks a request's credentials against the secret: the `token` query
/// parameter first, then a `Bearer` `Authorization` header.
pub fn verify_auth(query_token: Option<&str>, authorization: Option<&str>, expected: &str) -> (r: bool)
    ensures
        r == authorized(str_opt_view(query_token), str_opt_view(authorization), expected@),
{
    if let Some(token) = query_token {
        return same_text(token, expected);
    }
    if let Some(header) = authorization {
        if let Some(token) = strip_bearer(header) {
            return same_text(token, expected);
        }
    }
    false
}

/// The lowercase hexadecimal digit of `n < 16`.
pub open spec fn hex_digit(n: nat) -> char {
    if n < 10 {
        digit_char(n)
    } else if n == 10 {
        'a'
    } else if n == 11 {
        'b'
    } else if n == 12 {
        'c'
    } else if n == 13 {
        'd'
    } else if n == 14 {
        'e'
    } else {
        'f'
    }
}

/// Bytes written as lowercase hexadecimal, two digits each, high first.
pub open spec fn hex_of(bytes: Seq<u8>) -> Seq<char>
    decreases bytes.len(),
{
    if bytes.len() == 0 {
        Seq::empty()
    } else {
        let b = bytes.last();
        hex_of(bytes.drop_last()) + seq![hex_digit((b / 16) as nat), hex_digit((b % 16) as nat)]
    }
}

pub proof fn lemma_hex_len(bytes: Seq<u8>)
    ensures
        hex_of(bytes).len() == 2 * bytes.len(),
    decreases bytes.len(),
{
    if bytes.len() > 0 {
        lemma_hex_len(bytes.drop_last());
    }
}

/// Relies on hex::encode: two lowercase hexadecimal digits per byte, the
/// high half first.
#[verifier::external_body]
fn hex_encode(bytes: &Vec<u8>) -> (r: String)
    ensures
        r@ == hex_of(bytes@),
{
    hex::encode(bytes)
}

/// Number of random bytes in a secret.
pub const SECRET_BYTES: usize = 16;

/// A fresh secret: 16 random bytes written as 32 lowercase hexadecimal digits.
pub fn generate_auth_token() -> (r: String)
    ensures
        r@.len() == 32,
        exists|b: Seq<u8>| b.len() == 16 && r@ == hex_of(b),
{
    let mut bytes: Vec<u8> = Vec::new();
    let mut i: usize = 0;
    while i < SECRET_BYTES
        invariant
            i <= SECRET_BYTES,
            bytes@.len() == i,
        decreases SECRET_BYTES - i,
    {
        bytes.push(random_byte());
        i = i + 1;
    }
    let r = hex_encode(&bytes);
    proof {
        lemma_hex_len(bytes@);
        assert(bytes@.len() == 16 && r@ == hex_of(bytes@));
    }
    r
}

/// Relies on rand::random: a byte drawn from the thread-local generator;
/// nothing is promised of it.
#[verifier::external_body]
pub(crate) fn random_byte() -> (r: u8) {
    rand::random::<u8>()
}

} // verus!
