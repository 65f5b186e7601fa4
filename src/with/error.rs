//! The error of the fallible mappers.
use vstd::prelude::*;

verus! {

/// An error while mapping between types, with its message.
#[derive(Debug)]
pub struct MapperError {
    pub message: String,
}

impl MapperError {
    pub open spec fn spec_message(&self) -> Seq<char> {
        self.message@
    }

    /// An error with the given message.
    pub fn new(message: &str) -> (r: MapperError)
        ensures
            r.spec_message() == message@,
    {
        MapperError { message: String::from_str(message) }
    }

    /// An error carrying the display text of another error.
    pub fn from<E: std::fmt::Display>(error: E) -> (r: MapperError)
        ensures
            vstd::string::to_string_from_display_ensures::<E>(&error, r.message),
    {
        MapperError { message: error.to_string() }
    }

    /// The message of the error.
    pub fn message(&self) -> (r: &str)
        ensures
            r@ == self.spec_message(),
    {
        self.message.as_str()
    }
}

/// Declares `anyhow::Error`, the error type of the fallible mappers that
/// gather errors of any kind.
#[verifier::external_type_specification]
#[verifier::external_body]
pub struct ExAnyhowError(anyhow::Error);

/// Relies on `anyhow::Error::msg`: an error holding the given message.
#[verifier::external_body]
pub(crate) fn anyhow_message(message: &'static str) -> anyhow::Error {
    anyhow::Error::msg(message)
}

/// Relies on `anyhow::Error::new`: an error wrapping the given one.
#[verifier::external_body]
pub(crate) fn anyhow_wrap<E>(error: E) -> anyhow::Error
    where
        E: std::error::Error + Send + Sync + 'static,
{
    anyhow::Error::new(error)
}

} // verus!
