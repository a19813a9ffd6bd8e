//! The classes into which every failure of the tool falls.

use vstd::prelude::*;

verus! {

/// The class of a failure. Every error of this library belongs to one.
#[derive(Debug, Clone, Copy, PartialEq, Eq, Structural)]
pub enum ErrorKind {
    /// The user named a model or a runtime that does not exist.
    Validation,
    /// The hub answered with a failure, or without saying how much it sends.
    Remote,
    /// A file or a directory could not be found, read or written.
    Io,
    /// A program that the tool started ended with a failure.
    Process,
}

} // verus!
