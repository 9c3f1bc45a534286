//! The conditions under which an operation of the kernel has no result.
use vstd::prelude::*;

verus! {

/// Why an operation on spatial values was refused.
#[derive(Debug, Copy, Clone, PartialEq, Eq, Structural)]
pub enum Error {
    /// Two points were added: the sum of two locations has no meaning.
    NonsensicalAddition,
}

impl Error {
    /// The message that describes the error to a reader.
    pub fn message(&self) -> (text: &'static str)
        ensures
            text@ == "It is meaningless to add two Point3Ds"@,
    {
        match self {
            Error::NonsensicalAddition => "It is meaningless to add two Point3Ds",
        }
    }
}

} // verus!
