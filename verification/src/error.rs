//! The errors of the client.

use crate::value::{Value, ValueView};
use vstd::prelude::*;
use vstd::string::*;

verus! {

/// What can go wrong between a caller and its answer.
#[derive(Debug, PartialEq)]
pub enum Error {
    /// The transport could not be set up, or failed.
    ConnectionError(String),
    /// An incoming frame was malformed.
    DecodingError(String),
    /// An outgoing frame could not be written.
    EncodingError(String),
    /// No answer came before the deadline.
    TimeoutError(String),
    /// The channel to the reader broke while a caller waited on it.
    MpscError(String),
    /// The peer called a method that no handler serves; holds the method.
    NotImplemented(String),
    /// The peer answered with an error; holds the error it sent.
    ProtocolError(Value),
}

/// The mathematical content of an [`Error`].
#[verifier::ext_equal]
pub enum ErrorView {
    ConnectionError(Seq<char>),
    DecodingError(Seq<char>),
    EncodingError(Seq<char>),
    TimeoutError(Seq<char>),
    MpscError(Seq<char>),
    NotImplemented(Seq<char>),
    ProtocolError(ValueView),
}

impl ErrorView {
    /// The text that the error shows.
    pub open spec fn message(self) -> Seq<char> {
        match self {
            ErrorView::ConnectionError(text) => text,
            ErrorView::DecodingError(text) => text,
            ErrorView::EncodingError(text) => text,
            ErrorView::TimeoutError(text) => text,
            ErrorView::MpscError(text) => text,
            ErrorView::NotImplemented(text) => text,
            ErrorView::ProtocolError(_) => "Error in RPC response"@,
        }
    }
}

impl View for Error {
    type V = ErrorView;

    open spec fn view(&self) -> ErrorView {
        match self {
            Error::ConnectionError(text) => ErrorView::ConnectionError(text@),
            Error::DecodingError(text) => ErrorView::DecodingError(text@),
            Error::EncodingError(text) => ErrorView::EncodingError(text@),
            Error::TimeoutError(text) => ErrorView::TimeoutError(text@),
            Error::MpscError(text) => ErrorView::MpscError(text@),
            Error::NotImplemented(text) => ErrorView::NotImplemented(text@),
            Error::ProtocolError(value) => ErrorView::ProtocolError(value@),
        }
    }
}

/// The content of an outcome: of a value, or of the error in its place.
pub open spec fn outcome_view(r: Result<Value, Error>) -> Result<ValueView, ErrorView> {
    match r {
        Ok(value) => Ok(value@),
        Err(e) => Err(e@),
    }
}

impl Error {
    /// The text that the error shows.
    pub fn to_string(&self) -> (r: String)
        ensures
            r@ == self@.message(),
    {
        match self {
            Error::ConnectionError(text) => text.clone(),
            Error::DecodingError(text) => text.clone(),
            Error::EncodingError(text) => text.clone(),
            Error::TimeoutError(text) => text.clone(),
            Error::MpscError(text) => text.clone(),
            Error::NotImplemented(text) => text.clone(),
            Error::ProtocolError(_) => String::from_str("Error in RPC response"),
        }
    }
}

impl Clone for Error {
    fn clone(&self) -> (r: Error)
        ensures
            r@ == self@,
    {
        match self {
            Error::ConnectionError(text) => Error::ConnectionError(text.clone()),
            Error::DecodingError(text) => Error::DecodingError(text.clone()),
            Error::EncodingError(text) => Error::EncodingError(text.clone()),
            Error::TimeoutError(text) => Error::TimeoutError(text.clone()),
            Error::MpscError(text) => Error::MpscError(text.clone()),
            Error::NotImplemented(text) => Error::NotImplemented(text.clone()),
            Error::ProtocolError(value) => Error::ProtocolError(value.clone()),
        }
    }
}

impl vstd::std_specs::convert::FromSpecImpl<Error> for Value {
    open spec fn obeys_from_spec() -> bool {
        false
    }

    open spec fn from_spec(value: Error) -> Value {
        Value::Nil
    }
}

impl From<Error> for Value {
    /// The error as a frame carries it: its text, as a string value.
    fn from(value: Error) -> (r: Value)
        ensures
            r@ == ValueView::String(value@.message()),
    {
        Value::String(value.to_string())
    }
}

} // verus!
