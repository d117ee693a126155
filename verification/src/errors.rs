//! Plain markers for the stage at which a run failed.

use vstd::prelude::*;
use vstd::string::StringExecFns;

verus! {

/// The run failed and cannot go on.
#[derive(Debug, Clone, Copy, PartialEq, Eq)]
pub struct AppError;

/// A file could not be read.
#[derive(Debug, Clone, Copy, PartialEq, Eq)]
pub struct FileError;

/// A directory could not be read.
#[derive(Debug, Clone, Copy, PartialEq, Eq)]
pub struct DirError;

/// The document could not be made.
#[derive(Debug, Clone, Copy, PartialEq, Eq)]
pub struct LaTeXError;

impl AppError {
    /// What the marker says, in words.
    pub fn message(&self) -> (text: String)
        ensures
            text@ == "Unrecoverable error."@,
    {
        String::from_str("Unrecoverable error.")
    }
}

impl FileError {
    /// What the marker says, in words.
    pub fn message(&self) -> (text: String)
        ensures
            text@ == "Error reading file."@,
    {
        String::from_str("Error reading file.")
    }
}

impl DirError {
    /// What the marker says, in words: the same as for a file.
    pub fn message(&self) -> (text: String)
        ensures
            text@ == "Error reading file."@,
    {
        String::from_str("Error reading file.")
    }
}

impl LaTeXError {
    /// What the marker says, in words.
    pub fn message(&self) -> (text: String)
        ensures
            text@ == "LaTeX error."@,
    {
        String::from_str("LaTeX error.")
    }
}

} // verus!
