//! Decode failures and their mathematical model.

use vstd::prelude::*;
use crate::value::Kind;

verus! {

/// The integer type that a document integer was to be narrowed to.
#[derive(Clone, Copy, Debug, PartialEq, Eq, Structural)]
pub enum IntTarget {
    U8,
    U32,
    I32,
}

/// Why a node could not be decoded as the shape asked for.
#[derive(Debug)]
pub enum DecodeError {
    /// A required key is absent from the table of the named shape.
    MissingField { field: String, shape: String },
    /// A closed shape met a key that it does not declare.
    UnknownField { key: String },
    /// The node is of another kind than the shape takes.
    TypeMismatch { expected: Kind, found: Kind },
    /// The integer does not fit the target type.
    IntegerOutOfRange { value: i64, target: IntTarget },
    /// The string names no variant of the tagged shape.
    UnknownVariant { name: String },
    /// Every variant of an untagged shape failed; one entry per variant, in
    /// declaration order, with the reason it failed for.
    NoMatchingVariant { attempted: Vec<(String, DecodeError)> },
    /// The item at `index` of an array, the first that failed, failed with `cause`.
    Element { index: usize, cause: Box<DecodeError> },
    /// The value under `key` of a table, the first that failed, failed with `cause`.
    Entry { key: String, cause: Box<DecodeError> },
}

/// The mathematical model of a [`DecodeError`].
pub enum Fault {
    MissingField { field: Seq<char>, shape: Seq<char> },
    UnknownField { key: Seq<char> },
    TypeMismatch { expected: Kind, found: Kind },
    IntegerOutOfRange { value: i64, target: IntTarget },
    UnknownVariant { name: Seq<char> },
    NoMatchingVariant { attempted: Seq<(Seq<char>, Fault)> },
    Element { index: int, cause: Box<Fault> },
    Entry { key: Seq<char>, cause: Box<Fault> },
}

/// The model of a list of failed attempts.
pub open spec fn attempts_model(attempted: Vec<(String, DecodeError)>) -> Seq<(Seq<char>, Fault)>
    decreases attempted,
{
    Seq::new(
        attempted.len() as nat,
        |i: int|
            if 0 <= i < attempted.len() {
                (attempted[i].0@, attempted[i].1.model())
            } else {
                (Seq::empty(), Fault::UnknownField { key: Seq::empty() })
            },
    )
}

impl DecodeError {
    /// The model of this failure.
    pub open spec fn model(self) -> Fault
        decreases self,
    {
        match self {
            DecodeError::MissingField { field, shape } => Fault::MissingField {
                field: field@,
                shape: shape@,
            },
            DecodeError::UnknownField { key } => Fault::UnknownField { key: key@ },
            DecodeError::TypeMismatch { expected, found } => Fault::TypeMismatch {
                expected,
                found,
            },
            DecodeError::IntegerOutOfRange { value, target } => Fault::IntegerOutOfRange {
                value,
                target,
            },
            DecodeError::UnknownVariant { name } => Fault::UnknownVariant { name: name@ },
            DecodeError::NoMatchingVariant { attempted } => Fault::NoMatchingVariant {
                attempted: attempts_model(attempted),
            },
            DecodeError::Element { index, cause } => Fault::Element {
                index: index as int,
                cause: Box::new(cause.model()),
            },
            DecodeError::Entry { key, cause } => Fault::Entry {
                key: key@,
                cause: Box::new(cause.model()),
            },
        }
    }
}

impl DeepView for DecodeError {
    type V = Fault;

    open spec fn deep_view(&self) -> Fault {
        self.model()
    }
}


/// A failure to read a file, kept as the message of the operating system.
#[derive(Debug)]
pub struct IoError {
    pub message: String,
}

impl IoError {
    /// Wraps the message of a failed read.
    pub fn new(message: String) -> (e: IoError)
        ensures
            e.message@ == message@,
    {
        IoError { message }
    }
}

/// Errors that can occur when a manifest or a lockfile is read and decoded.
#[derive(Debug)]
#[non_exhaustive]
pub enum Error {
    /// The file at `path` could not be read.
    Io { path: String, source: IoError },
    /// The text is no document, or the document is not of the shape asked
    /// for: the message says which, and where.
    Parse { message: String },
}

/// The mathematical model of an [`Error`].
pub enum ErrorModel {
    Io { path: Seq<char>, message: Seq<char> },
    Parse { message: Seq<char> },
}

impl Error {
    /// The model of this error.
    pub open spec fn model(self) -> ErrorModel {
        match self {
            Error::Io { path, source } => ErrorModel::Io { path: path@, message: source.message@ },
            Error::Parse { message } => ErrorModel::Parse { message: message@ },
        }
    }

    /// The error of a file that could not be read.
    pub fn io(path: String, source: IoError) -> (e: Error)
        ensures
            e.model() == (ErrorModel::Io { path: path@, message: source.message@ }),
    {
        Error::Io { path, source }
    }
}

} // verus!
