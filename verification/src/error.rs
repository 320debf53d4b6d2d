//! The library's error type.
use vstd::prelude::*;

verus! {

/// What went wrong in a backend or session operation.
#[derive(Debug, Clone)]
pub enum Error {
    /// A setting or an advertised capability is not acceptable.
    InvalidConfig(String),
    /// The device, or the thread that serves it, is gone.
    Disconnected(String),
    /// The device reported a failure of its own.
    Backend(String),
}

/// Mathematical view of an [`Error`]: its category and its text.
#[verifier::ext_equal]
pub enum ErrorView {
    InvalidConfig(Seq<char>),
    Disconnected(Seq<char>),
    Backend(Seq<char>),
}

impl View for Error {
    type V = ErrorView;

    open spec fn view(&self) -> ErrorView {
        match self {
            Error::InvalidConfig(s) => ErrorView::InvalidConfig(s@),
            Error::Disconnected(s) => ErrorView::Disconnected(s@),
            Error::Backend(s) => ErrorView::Backend(s@),
        }
    }
}

impl ErrorView {
    /// The text of the error.
    pub open spec fn text(self) -> Seq<char> {
        match self {
            ErrorView::InvalidConfig(s) => s,
            ErrorView::Disconnected(s) => s,
            ErrorView::Backend(s) => s,
        }
    }
}

impl Error {
    /// An error about a setting or an advertised capability.
    pub fn invalid_config(message: String) -> (r: Error)
        ensures
            r@ == ErrorView::InvalidConfig(message@),
    {
        Error::InvalidConfig(message)
    }

    /// An error about a lost device or a lost service thread.
    pub fn disconnected(message: &str) -> (r: Error)
        ensures
            r@ == ErrorView::Disconnected(message@),
    {
        Error::Disconnected(message.to_owned())
    }

    /// An error that the device itself reported.
    pub fn backend(message: String) -> (r: Error)
        ensures
            r@ == ErrorView::Backend(message@),
    {
        Error::Backend(message)
    }

    /// The text of the error.
    pub fn message(&self) -> (r: &str)
        ensures
            r@ == self@.text(),
    {
        match self {
            Error::InvalidConfig(s) => s.as_str(),
            Error::Disconnected(s) => s.as_str(),
            Error::Backend(s) => s.as_str(),
        }
    }
}

} // verus!
