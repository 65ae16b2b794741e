//! The error taxonomy for remote calls.
//!
//! A failed remote call is one of three things: the service could not be
//! reached at all, the service answered with a non-success status, or the
//! answer did not match the expected schema. The diagnostic text travels
//! with the error so the user can see what went wrong.

use vstd::prelude::*;

verus! {

/// Why a remote call failed.
#[derive(Debug, Clone, PartialEq, Eq)]
pub enum RemoteError {
    /// Transport failure reaching the remote service.
    Network(String),
    /// Non-success status from the remote service, carrying the response
    /// body as diagnostic text.
    Request(String),
    /// Response body that does not match the expected schema.
    Decode(String),
}

/// The abstract value of a [`RemoteError`].
pub enum RemoteErrorView {
    Network(Seq<char>),
    Request(Seq<char>),
    Decode(Seq<char>),
}

impl View for RemoteError {
    type V = RemoteErrorView;

    open spec fn view(&self) -> RemoteErrorView {
        match self {
            RemoteError::Network(m) => RemoteErrorView::Network(m@),
            RemoteError::Request(m) => RemoteErrorView::Request(m@),
            RemoteError::Decode(m) => RemoteErrorView::Decode(m@),
        }
    }
}

/// The diagnostic text a [`RemoteErrorView`] carries.
pub open spec fn error_text(e: RemoteErrorView) -> Seq<char> {
    match e {
        RemoteErrorView::Network(m) => m,
        RemoteErrorView::Request(m) => m,
        RemoteErrorView::Decode(m) => m,
    }
}

impl RemoteError {
    /// The diagnostic text carried by the error.
    pub fn message(&self) -> (r: &String)
        ensures
            r@ == error_text(self@),
    {
        match self {
            RemoteError::Network(m) => m,
            RemoteError::Request(m) => m,
            RemoteError::Decode(m) => m,
        }
    }
}

} // verus!
