//! The uniform response envelope: every API result is wrapped as
//! `{code, msg, data, timestamp}`. Code zero means success; a non-zero
//! code is a business error independent of the transport status, and an
//! error envelope never carries data.

use vstd::prelude::*;
use vstd::string::*;

verus! {

/// Relies on chrono's `Utc::now` and `DateTime::to_rfc3339`: the current
/// instant rendered as an RFC 3339 date-time string. A clock reading
/// promises nothing beyond being non-empty.
#[verifier::external_body]
fn now_rfc3339() -> (r: String)
    ensures
        r@.len() > 0,
{
    chrono::Utc::now().to_rfc3339()
}

/// The envelope around every API response.
pub struct ApiResponse<T> {
    /// Business status code; zero means success.
    pub code: u32,
    /// Response message.
    pub msg: String,
    /// Payload on success; empty on errors.
    pub data: Option<T>,
    /// Construction time, RFC 3339.
    pub timestamp: String,
}

impl<T> ApiResponse<T> {
    /// An envelope with the given code, message and payload, stamped
    /// with the construction time.
    pub fn new(code: u32, msg: String, data: Option<T>) -> (r: Self)
        ensures
            r.code == code,
            r.msg == msg,
            r.data == data,
            r.timestamp@.len() > 0,
    {
        ApiResponse { code, msg, data, timestamp: now_rfc3339() }
    }

    /// A success envelope: code zero, the fixed success message, and
    /// the payload present.
    pub fn success(data: T) -> (r: Self)
        ensures
            r.code == 0,
            r.msg@ == "Success"@,
            r.data == Some(data),
            r.timestamp@.len() > 0,
    {
        Self::new(0, String::from_str("Success"), Some(data))
    }

    /// An error envelope: the given business code and message, and no
    /// payload.
    pub fn error(code: u32, msg: String) -> (r: ApiResponse<()>)
        ensures
            r.code == code,
            r.msg == msg,
            r.data is None,
            r.timestamp@.len() > 0,
    {
        ApiResponse { code, msg, data: None, timestamp: now_rfc3339() }
    }

    /// A generic failure envelope: business code one, no payload.
    pub fn fail(msg: String) -> (r: ApiResponse<()>)
        ensures
            r.code == 1,
            r.msg == msg,
            r.data is None,
            r.timestamp@.len() > 0,
    {
        Self::error(1, msg)
    }
}

} // verus!
