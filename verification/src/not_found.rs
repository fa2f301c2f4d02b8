//! Data behind the not-found page: the requested path, the moment of the
//! request, and the request's tracing identifier when one was set.

use vstd::prelude::*;

verus! {

/// Relies on chrono's `Utc::now` and `DateTime::format` with a fixed
/// `%Y-%m-%d %H:%M:%S UTC` layout: the current instant as display text.
/// A clock reading promises nothing beyond being non-empty.
#[verifier::external_body]
fn now_display_utc() -> (r: String)
    ensures
        r@.len() > 0,
{
    chrono::Utc::now().format("%Y-%m-%d %H:%M:%S UTC").to_string()
}

/// What the not-found page shows.
pub struct NotFoundTemplate {
    /// The path that was requested.
    pub request_path: Option<String>,
    /// When the page was rendered.
    pub timestamp: Option<String>,
    /// The request identifier, when the tagging middleware set one.
    pub request_id: Option<String>,
}

impl NotFoundTemplate {
    /// A page for the given path, stamped with the rendering time and
    /// carrying the request identifier through unchanged.
    pub fn new(request_path: String, request_id: Option<String>) -> (r: Self)
        ensures
            r.request_path == Some(request_path),
            r.request_id == request_id,
            r.timestamp is Some,
            r.timestamp->0@.len() > 0,
    {
        let timestamp = now_display_utc();
        NotFoundTemplate { request_path: Some(request_path), timestamp: Some(timestamp), request_id }
    }
}

} // verus!
