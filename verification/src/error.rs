//! The ways in which opening a dataset or extracting a variable can fail.
use std::path::PathBuf;
use vstd::prelude::*;

verus! {

/// `std::path::PathBuf`: a path is carried through as it was given, and
/// nothing is read from it.
#[verifier::external_type_specification]
#[verifier::external_body]
pub struct ExPathBuf(PathBuf);

/// `PathBuf::clone` returns a path equal to the one it was given.
pub assume_specification[ <PathBuf as Clone>::clone ](path: &PathBuf) -> (copy: PathBuf)
    ensures
        copy == *path,
;

/// What the netCDF library reported when one of its operations failed.
#[derive(Debug, PartialEq, Eq)]
pub struct LibraryError {
    /// The library's own description of the failure.
    pub message: String,
}

impl View for LibraryError {
    type V = Seq<char>;

    open spec fn view(&self) -> Seq<char> {
        self.message@
    }
}

impl LibraryError {
    /// A failure with the given description.
    pub fn new(message: &str) -> (cause: LibraryError)
        ensures
            cause@ == message@,
    {
        LibraryError { message: message.to_owned() }
    }
}

impl Clone for LibraryError {
    fn clone(&self) -> (copy: LibraryError)
        ensures
            copy == *self,
    {
        LibraryError { message: self.message.clone() }
    }
}

/// Various error types.
#[non_exhaustive]
#[derive(Debug, PartialEq, Eq)]
pub enum NcError {
    /// Given path is not a file.
    FileNotFound(PathBuf),
    /// Errors from the wrapped netCDF library.
    NetCDF { source: LibraryError, reason: String },
    /// Variable does not exist.
    VariableNotFound(String),
    /// Variable is empty.
    EmptyVariable(String),
    /// Expected scalar value, found array.
    NotScalar(String),
    /// Attempted to extract non-1D variable as 1D.
    Not1D(String),
    /// Attempted to extract non-2D variable as 2D.
    Not2D(String),
    /// The values of a variable could not be read.
    GetValuesError { source: LibraryError, name: String },
}

/// An [`NcError`] with each text taken as the sequence of its characters.
pub enum Failure {
    FileNotFound(PathBuf),
    NetCDF { source: Seq<char>, reason: Seq<char> },
    VariableNotFound(Seq<char>),
    EmptyVariable(Seq<char>),
    NotScalar(Seq<char>),
    Not1D(Seq<char>),
    Not2D(Seq<char>),
    GetValuesError { source: Seq<char>, name: Seq<char> },
}

impl View for NcError {
    type V = Failure;

    open spec fn view(&self) -> Failure {
        match self {
            NcError::FileNotFound(path) => Failure::FileNotFound(*path),
            NcError::NetCDF { source, reason } => Failure::NetCDF { source: source@, reason: reason@ },
            NcError::VariableNotFound(name) => Failure::VariableNotFound(name@),
            NcError::EmptyVariable(name) => Failure::EmptyVariable(name@),
            NcError::NotScalar(name) => Failure::NotScalar(name@),
            NcError::Not1D(name) => Failure::Not1D(name@),
            NcError::Not2D(name) => Failure::Not2D(name@),
            NcError::GetValuesError { source, name } => Failure::GetValuesError {
                source: source@,
                name: name@,
            },
        }
    }
}

} // verus!
