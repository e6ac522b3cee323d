//! The errors of the generator.

use vstd::prelude::*;

verus! {

/// What can go wrong while the generated code is produced.
#[derive(Debug, PartialEq)]
pub enum Error {
    /// A file of generated code could not be saved.
    IoError(String),
    /// A template could not be rendered.
    RenderError(String),
}

/// The mathematical content of an [`Error`].
pub enum ErrorView {
    IoError(Seq<char>),
    RenderError(Seq<char>),
}

impl ErrorView {
    /// The text that the error shows.
    pub open spec fn message(self) -> Seq<char> {
        match self {
            ErrorView::IoError(text) => text,
            ErrorView::RenderError(text) => text,
        }
    }
}

impl View for Error {
    type V = ErrorView;

    open spec fn view(&self) -> ErrorView {
        match self {
            Error::IoError(text) => ErrorView::IoError(text@),
            Error::RenderError(text) => ErrorView::RenderError(text@),
        }
    }
}

impl Error {
    /// The text that the error shows.
    pub fn to_string(&self) -> (r: String)
        ensures
            r@ == self@.message(),
    {
        match self {
            Error::IoError(text) => text.clone(),
            Error::RenderError(text) => text.clone(),
        }
    }
}

} // verus!
