//! The errors of a quote fetch and the mapping from HTTP status to error.

use vstd::prelude::*;

verus! {

/// Why a quote fetch ended without a result.
#[derive(Debug)]
pub enum YfError {
    /// The endpoint answered 404.
    NotFound { url: String },
    /// The endpoint answered 429.
    RateLimited { url: String },
    /// The endpoint answered with a status from 500 to 599.
    ServerError { status: u16, url: String },
    /// The endpoint answered with any other status outside 200 to 299.
    Status { status: u16, url: String },
    /// Credentials could not be acquired, or no crumb was there afterwards.
    Auth(String),
    /// A successful response lacked a record that the caller asked for.
    MissingData(String),
    /// The body of a successful response is not JSON of the expected shape.
    Decode(serde_json::Error),
}

/// [`YfError`] with its texts as sequences of characters.
pub enum ErrorView {
    NotFound { url: Seq<char> },
    RateLimited { url: Seq<char> },
    ServerError { status: u16, url: Seq<char> },
    Status { status: u16, url: Seq<char> },
    Auth(Seq<char>),
    MissingData(Seq<char>),
    Decode(serde_json::Error),
}

impl View for YfError {
    type V = ErrorView;

    open spec fn view(&self) -> ErrorView {
        match self {
            YfError::NotFound { url } => ErrorView::NotFound { url: url@ },
            YfError::RateLimited { url } => ErrorView::RateLimited { url: url@ },
            YfError::ServerError { status, url } => ErrorView::ServerError {
                status: *status,
                url: url@,
            },
            YfError::Status { status, url } => ErrorView::Status { status: *status, url: url@ },
            YfError::Auth(message) => ErrorView::Auth(message@),
            YfError::MissingData(message) => ErrorView::MissingData(message@),
            YfError::Decode(cause) => ErrorView::Decode(*cause),
        }
    }
}

impl From<serde_json::Error> for YfError {
    /// A body that `serde_json` refused is a decode error.
    fn from(cause: serde_json::Error) -> (err: YfError) {
        YfError::Decode(cause)
    }
}

impl vstd::std_specs::convert::FromSpecImpl<serde_json::Error> for YfError {
    open spec fn obeys_from_spec() -> bool {
        true
    }

    open spec fn from_spec(cause: serde_json::Error) -> YfError {
        YfError::Decode(cause)
    }
}

/// The error that a response with `status` outside 200 to 299 stands for,
/// for the request sent to `url`.
pub open spec fn status_error(status: u16, url: Seq<char>) -> ErrorView {
    if status == 404 {
        ErrorView::NotFound { url }
    } else if status == 429 {
        ErrorView::RateLimited { url }
    } else if 500 <= status <= 599 {
        ErrorView::ServerError { status, url }
    } else {
        ErrorView::Status { status, url }
    }
}

/// Maps the status of an unsuccessful response to its error. The one mapping
/// serves the anonymous and the authenticated attempt alike.
pub fn classify_status(status: u16, url: String) -> (err: YfError)
    ensures
        err@ == status_error(status, url@),
{
    if status == 404 {
        YfError::NotFound { url }
    } else if status == 429 {
        YfError::RateLimited { url }
    } else if 500 <= status && status <= 599 {
        YfError::ServerError { status, url }
    } else {
        YfError::Status { status, url }
    }
}

} // verus!
