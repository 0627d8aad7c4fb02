//! Why a fetch did not yield a value.

use vstd::prelude::*;
use vstd::string::*;

verus! {

/// The four ways in which a fetch fails.
#[derive(Clone, Copy, Debug, PartialEq, Eq, Structural)]
pub enum FetchErrorKind {
    /// The request was not answered, or was answered with a status outside
    /// 200 to 299.
    Network,
    /// The answer did not have the expected shape.
    Parse,
    /// The answer was well-formed and held no data.
    EmptyResult,
    /// The handshake that issues the access token failed.
    Credential,
}

/// A failed fetch: its kind, and a line of text for the status area.
#[derive(Debug, PartialEq, Eq)]
pub struct FetchError {
    pub kind: FetchErrorKind,
    pub detail: String,
}

impl FetchError {
    /// A failure of the given kind, described by `detail`.
    pub fn new(kind: FetchErrorKind, detail: &str) -> (e: FetchError)
        ensures
            e.kind == kind,
            e.detail@ == detail@,
    {
        FetchError { kind, detail: String::from_str(detail) }
    }

    /// A copy of this failure.
    pub fn duplicate(&self) -> (e: FetchError)
        ensures
            e.kind == self.kind,
            e.detail@ == self.detail@,
    {
        FetchError { kind: self.kind, detail: self.detail.clone() }
    }
}

} // verus!
