//! The envelope of every lookup answer: data, or an error message.

use vstd::prelude::*;
use crate::lookup::UpstreamError;

verus! {

pub struct DSResponse<T> {
    pub data: Option<T>,
    pub err: Option<&'static str>,
}

impl<T> DSResponse<T> {
    pub fn new(data: Option<T>, err: Option<&'static str>) -> (r: Self)
        ensures
            r.data == data,
            r.err == err,
    {
        Self { data, err }
    }
}

pub const EMAIL_NOT_FOUND: &'static str = "Your email wasn't found in the darkweb or any hacked lists.";

pub const DOMAIN_NOT_FOUND: &'static str = "No data found. Your wasn't domain hasn't been found in the darkweb.";

/// The HTTP status and envelope for the outcome of a lookup. Every upstream
/// failure, whatever its kind, is reported as not found.
pub fn from_lookup<T>(result: Result<T, UpstreamError>, not_found: &'static str) -> (r: (u16, DSResponse<T>))
    ensures
        match result {
            Ok(v) => r.0 == 200 && r.1.data == Some(v) && r.1.err is None,
            Err(_) => r.0 == 404 && r.1.data is None && r.1.err == Some(not_found),
        },
{
    match result {
        Ok(v) => (200, DSResponse::new(Some(v), None)),
        Err(_) => (404, DSResponse::new(None, Some(not_found))),
    }
}

} // verus!
