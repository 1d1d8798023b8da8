//! Errors of request handling, and the one place that maps them to HTTP
//! status codes.

use vstd::prelude::*;

verus! {

/// Why a request could not be answered with a redirect.
#[derive(Debug)]
pub enum RequestError {
    /// The store would not presign a request for the object.
    PresignFailure { object_key: String },
    /// The presigning parameters were refused.
    PresignConfigFailure,
    /// No channel is served under the requested name, or it has nothing
    /// published yet.
    NoSuchChannel { file_name: String },
    /// The requested name does not end with an extension that is served.
    InvalidFile { file_name: String },
    /// The request's token is missing or was not accepted.
    InvalidToken { reason: String },
    /// Only GET and HEAD requests can be presigned.
    UnsupportedMethod { method: String },
    /// Something else went wrong.
    Unknown,
}

pub enum RequestErrorView {
    PresignFailure(Seq<char>),
    PresignConfigFailure,
    NoSuchChannel(Seq<char>),
    InvalidFile(Seq<char>),
    InvalidToken(Seq<char>),
    UnsupportedMethod(Seq<char>),
    Unknown,
}

impl View for RequestError {
    type V = RequestErrorView;

    open spec fn view(&self) -> RequestErrorView {
        match self {
            RequestError::PresignFailure { object_key } => RequestErrorView::PresignFailure(object_key@),
            RequestError::PresignConfigFailure => RequestErrorView::PresignConfigFailure,
            RequestError::NoSuchChannel { file_name } => RequestErrorView::NoSuchChannel(file_name@),
            RequestError::InvalidFile { file_name } => RequestErrorView::InvalidFile(file_name@),
            RequestError::InvalidToken { reason } => RequestErrorView::InvalidToken(reason@),
            RequestError::UnsupportedMethod { method } => RequestErrorView::UnsupportedMethod(method@),
            RequestError::Unknown => RequestErrorView::Unknown,
        }
    }
}

pub const BAD_REQUEST: u16 = 400;
pub const UNAUTHORIZED: u16 = 401;
pub const NOT_FOUND: u16 = 404;
pub const METHOD_NOT_ALLOWED: u16 = 405;
pub const INTERNAL_SERVER_ERROR: u16 = 500;

/// The HTTP status code that answers a request failing with `e`.
pub open spec fn status_of(e: RequestErrorView) -> u16 {
    match e {
        RequestErrorView::NoSuchChannel(_) => NOT_FOUND,
        RequestErrorView::InvalidFile(_) => BAD_REQUEST,
        RequestErrorView::InvalidToken(_) => UNAUTHORIZED,
        RequestErrorView::UnsupportedMethod(_) => METHOD_NOT_ALLOWED,
        RequestErrorView::PresignFailure(_) => INTERNAL_SERVER_ERROR,
        RequestErrorView::PresignConfigFailure => INTERNAL_SERVER_ERROR,
        RequestErrorView::Unknown => INTERNAL_SERVER_ERROR,
    }
}

impl RequestError {
    /// The HTTP status code of the response to a request failing this way.
    pub fn status_code(&self) -> (r: u16)
        ensures
            r == status_of(self@),
    {
        match self {
            RequestError::NoSuchChannel { .. } => NOT_FOUND,
            RequestError::InvalidFile { .. } => BAD_REQUEST,
            RequestError::InvalidToken { .. } => UNAUTHORIZED,
            RequestError::UnsupportedMethod { .. } => METHOD_NOT_ALLOWED,
            RequestError::PresignFailure { .. } => INTERNAL_SERVER_ERROR,
            RequestError::PresignConfigFailure => INTERNAL_SERVER_ERROR,
            RequestError::Unknown => INTERNAL_SERVER_ERROR,
        }
    }
}

} // verus!
