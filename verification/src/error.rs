//! The failures of the runtime's operations.

use vstd::prelude::*;

verus! {

/// Why an operation of the runtime failed.
#[derive(Debug, PartialEq, Eq)]
pub enum Error {
    /// The guest instance could not be made ready: its sandbox could not be set up.
    Init(String),
    /// The source text of a function did not compile, or failed while it was loaded.
    Compile(String),
    /// The loaded source holds nothing callable under the function's name.
    Lookup(String),
    /// No function is registered under the name that was called.
    NotFound,
    /// A column has an element type that cannot be handed to guest code.
    UnsupportedType,
    /// The guest's result for the row with this index does not fit the declared return type.
    TypeMismatch(usize),
    /// The guest function raised; the text describes the guest exception.
    GuestExecution(String),
    /// The results hold more text or bytes than one column can.
    TooLarge,
}

impl Clone for Error {
    fn clone(&self) -> (copy: Error)
        ensures
            copy == *self,
    {
        match self {
            Error::Init(text) => Error::Init(text.clone()),
            Error::Compile(text) => Error::Compile(text.clone()),
            Error::Lookup(text) => Error::Lookup(text.clone()),
            Error::NotFound => Error::NotFound,
            Error::UnsupportedType => Error::UnsupportedType,
            Error::TypeMismatch(row) => Error::TypeMismatch(*row),
            Error::GuestExecution(text) => Error::GuestExecution(text.clone()),
            Error::TooLarge => Error::TooLarge,
        }
    }
}

} // verus!
