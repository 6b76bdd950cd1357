//! Why the change for a region could not be calculated.

use vstd::prelude::*;

verus! {

/// The ways in which the store's answer to a read can fail to say what a
/// region holds.
#[derive(Debug, Clone, Copy, PartialEq, Eq, Structural)]
pub enum CalculateSSMChangeErrorKind {
    /// The store answered, but the answer carried no parameter.
    NoParameterInResponse,
    /// The parameter in the answer lacked its value or its type.
    NoValueInParameter,
    /// The read failed for a reason other than the parameter being absent.
    UnexpectedError,
}

impl CalculateSSMChangeErrorKind {
    /// The text shown to the user for this kind of error.
    pub open spec fn description(self) -> Seq<char> {
        match self {
            CalculateSSMChangeErrorKind::NoParameterInResponse => "no parameter in response"@,
            CalculateSSMChangeErrorKind::NoValueInParameter => "no value in parameter"@,
            CalculateSSMChangeErrorKind::UnexpectedError => "unexpected error"@,
        }
    }

    /// Returns the description of this kind of error.
    pub fn as_str(&self) -> (text: &'static str)
        ensures
            text@ == self.description(),
    {
        match *self {
            CalculateSSMChangeErrorKind::NoParameterInResponse => "no parameter in response",
            CalculateSSMChangeErrorKind::NoValueInParameter => "no value in parameter",
            CalculateSSMChangeErrorKind::UnexpectedError => "unexpected error",
        }
    }
}

/// An error met while calculating the change for one region.
#[derive(Debug, Clone, Copy, PartialEq, Eq, Structural)]
pub struct SSMChangeError {
    pub kind: CalculateSSMChangeErrorKind,
}

impl SSMChangeError {
    /// Wraps a kind of error.
    pub fn new(kind: CalculateSSMChangeErrorKind) -> (error: SSMChangeError)
        ensures
            error.kind == kind,
    {
        SSMChangeError { kind }
    }

    /// Returns the description of the kind of error, which is all that the
    /// error is shown as.
    pub fn as_str(&self) -> (text: &'static str)
        ensures
            text@ == self.kind.description(),
    {
        self.kind.as_str()
    }
}

} // verus!
