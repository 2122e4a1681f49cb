//! The presence signal: whether an audio input device is in use.
use vstd::prelude::*;

verus! {

/// The presence signal could not be read.
#[derive(Clone, Copy, Debug, PartialEq, Eq, Structural)]
pub enum PresenceError {
    Unavailable,
}

/// Whether an audio input device is in use. Without a platform query the
/// answer is that none is.
pub fn is_mic_active() -> (r: Result<bool, PresenceError>)
    ensures
        r == Ok::<bool, PresenceError>(false),
{
    Ok(false)
}

/// Whether the default input device is in use, from two readings: the
/// default input device (`None` where it could not be read, 0 for none
/// configured) and, for a configured one, its running flag (`None` where it
/// could not be read). A reading that failed counts as not in use.
pub fn input_in_use(default_device: Option<u32>, running: Option<u32>) -> (r: bool)
    ensures
        r == match default_device {
            Some(d) => d != 0 && match running {
                Some(x) => x != 0,
                None => false,
            },
            None => false,
        },
{
    match default_device {
        Some(d) => {
            if d == 0 {
                return false;
            }
            match running {
                Some(x) => x != 0,
                None => false,
            }
        },
        None => false,
    }
}

/// The presence signal as the schedulers take it: a failure to read it
/// counts as no device in use.
pub fn presence_or_inactive(reading: Result<bool, PresenceError>) -> (r: bool)
    ensures
        r == match reading {
            Ok(active) => active,
            Err(_) => false,
        },
{
    match reading {
        Ok(active) => active,
        Err(_) => false,
    }
}

} // verus!
