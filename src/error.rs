use vstd::prelude::*;

verus! {

/// Failures of building a calculation from named parameters.
#[derive(Debug)]
pub enum Error {
    /// A parameter is missing or has the wrong type.
    ParaError(String),
    /// A calculation could not be constructed.
    ConstructorError(String),
    /// Any other failure.
    OtherError(String),
}

/// Marker for a parameter that is missing or has the wrong type.
#[derive(Clone, Copy, Debug, PartialEq, Eq, Structural)]
pub struct ParaError;

impl Error {
    /// The text that the failure carries.
    pub open spec fn text(&self) -> Seq<char> {
        match self {
            Error::ParaError(s) => s@,
            Error::ConstructorError(s) => s@,
            Error::OtherError(s) => s@,
        }
    }

    /// The text that the failure carries, whatever its kind.
    pub fn message(&self) -> (r: &String)
        ensures
            r@ == self.text(),
    {
        match self {
            Error::ParaError(s) => s,
            Error::ConstructorError(s) => s,
            Error::OtherError(s) => s,
        }
    }

    /// Whether the failure is about a missing or mistyped parameter.
    pub fn is_parameter_error(&self) -> (r: bool)
        ensures
            r == (self is ParaError),
    {
        match self {
            Error::ParaError(_) => true,
            _ => false,
        }
    }
}

} // verus!
