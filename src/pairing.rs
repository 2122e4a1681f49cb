//! The pairing payload: the link a companion client scans to find and
//! authenticate to the relay.
use crate::calendar::{digit_char, digit_str};
use vstd::prelude::*;

verus! {

/// The port the relay listens on.
pub const SYNC_PORT: u16 = 8841;

/// `n` in decimal, without leading zeros.
pub open spec fn decimal_of(n: nat) -> Seq<char>
    decreases n,
{
    if n < 10 {
        seq![digit_char(n)]
    } else {
        decimal_of(n / 10) + seq![digit_char(n % 10)]
    }
}

pub fn decimal(n: u16) -> (r: String)
    ensures
        r@ == decimal_of(n as nat),
    decreases n,
{
    if n < 10 {
        String::from_str(digit_str(n as u8))
    } else {
        let mut s = decimal(n / 10);
        s.append(digit_str((n % 10) as u8));
        s
    }
}

/// The pairing link for a device, its secret and its local address.
pub open spec fn pairing_uri(device_id: Seq<char>, auth_token: Seq<char>, local_ip: Seq<char>) -> Seq<char> {
    "https://traindaily.vercel.app/pair?deviceId="@ + device_id + "&ip="@ + local_ip + "&port="@
        + decimal_of(SYNC_PORT as nat) + "&secret="@ + auth_token
}

/// The pairing link that a QR code shows to the companion client.
pub fn generate_qr_data(device_id: &str, auth_token: &str, local_ip: &str) -> (r: String)
    ensures
        r@ == pairing_uri(device_id@, auth_token@, local_ip@),
{
    let mut s = String::from_str("https://traindaily.vercel.app/pair?deviceId=");
    s.append(device_id);
    s.append("&ip=");
    s.append(local_ip);
    s.append("&port=");
    let port = decimal(SYNC_PORT);
    s.append(port.as_str());
    s.append("&secret=");
    s.append(auth_token);
    s
}

} // verus!
