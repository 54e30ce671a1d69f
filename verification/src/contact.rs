//! What the contact form answers to a submission.

use vstd::prelude::*;

verus! {

/// The status of a submission that was mailed: 200, OK.
pub const STATUS_SENT: u16 = 200;

/// The status of a submission that the rate limiter turned away: 429, Too
/// Many Requests.
pub const STATUS_LIMITED: u16 = 429;

/// The status of a submission that was let through but could not be mailed:
/// 500, Internal Server Error.
pub const STATUS_FAILED: u16 = 500;

/// The HTTP status that answers a submission, given whether the rate limiter
/// admitted it and whether the mail went out.
///
/// A submission that was not admitted is turned away whatever `sent` says:
/// nothing is mailed for it.
pub fn contact_status(admitted: bool, sent: bool) -> (code: u16)
    ensures
        code == if !admitted {
            STATUS_LIMITED
        } else if sent {
            STATUS_SENT
        } else {
            STATUS_FAILED
        },
        code == if !admitted {
            429u16
        } else if sent {
            200u16
        } else {
            500u16
        },
{
    if !admitted {
        STATUS_LIMITED
    } else if sent {
        STATUS_SENT
    } else {
        STATUS_FAILED
    }
}

} // verus!
