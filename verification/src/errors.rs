//! The library's error taxonomy.
//!
//! Every failure a call can end in is one of three disjoint kinds, so a
//! caller can handle each exhaustively: the transport failed before a status
//! code was obtained; a body that should have matched a known shape did not
//! parse; or the API answered with a non-success status and a structured
//! error body.

use vstd::prelude::*;

verus! {

/// Why a response body could not be decoded.
#[derive(Debug)]
pub enum DecodeFault {
    /// The body was not syntactically valid JSON; carries the parser's
    /// message.
    Syntax(String),
    /// The body was valid JSON but did not have the expected shape: a
    /// required field was missing or a field had the wrong type.
    Shape,
}

/// The model of a [`DecodeFault`].
pub enum DecodeFaultModel {
    /// The body was not syntactically valid JSON.
    Syntax(Seq<char>),
    /// The body did not have the expected shape.
    Shape,
}

impl View for DecodeFault {
    type V = DecodeFaultModel;

    open spec fn view(&self) -> DecodeFaultModel {
        match self {
            DecodeFault::Syntax(m) => DecodeFaultModel::Syntax(m@),
            DecodeFault::Shape => DecodeFaultModel::Shape,
        }
    }
}

/// A failed call: one of the three disjoint failure kinds.
#[derive(Debug)]
pub enum Error {
    /// The API answered with a non-success status code; carries that code
    /// and the decoded error body.
    BadResponse(u16, crate::records::Error),
    /// A response body failed to decode.
    BadJsonResponse(DecodeFault),
    /// The transport failed before a status code was obtained (DNS, TLS,
    /// connection, timeout); carries the transport's message.
    NetworkError(String),
}

/// The model of an [`Error`].
pub enum FailureModel {
    /// A non-success status code together with the decoded error body.
    BadResponse(u16, crate::records::ErrorModel),
    /// A response body failed to decode.
    BadJsonResponse(DecodeFaultModel),
    /// The transport failed; carries the transport's message.
    NetworkError(Seq<char>),
}

impl View for Error {
    type V = FailureModel;

    open spec fn view(&self) -> FailureModel {
        match self {
            Error::BadResponse(status, body) => FailureModel::BadResponse(*status, body@),
            Error::BadJsonResponse(fault) => FailureModel::BadJsonResponse(fault@),
            Error::NetworkError(m) => FailureModel::NetworkError(m@),
        }
    }
}

} // verus!
