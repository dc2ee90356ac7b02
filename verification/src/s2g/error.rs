//! What can go wrong in a conversion.

use vstd::prelude::*;

verus! {

/// The kinds of failure. Only those of configuration stop a job whose
/// failures are forced through.
#[derive(Clone, Copy, PartialEq, Eq, Structural, Debug)]
pub enum ErrorKind {
    /// A tool is missing, or the Wine prefix that a tool needs.
    Configuration,
    /// A file that a stage needs beside its input is missing.
    Validation,
    /// A descriptor or a mesh could not be loaded.
    Parse,
    /// A descriptor or a mesh could not be saved.
    Write,
    /// A decompiler could not be started or reported failure.
    Process,
}

/// A failure: its kind and the text that describes it.
#[derive(Debug)]
pub struct S2GError {
    pub kind: ErrorKind,
    pub text: String,
}

/// A failure as a value of specifications.
pub struct ErrorView {
    pub kind: ErrorKind,
    pub text: Seq<char>,
}

impl View for S2GError {
    type V = ErrorView;

    open spec fn view(&self) -> ErrorView {
        ErrorView { kind: self.kind, text: self.text@ }
    }
}

impl S2GError {
    /// A failure of kind `kind` described by `text`.
    pub fn new(kind: ErrorKind, text: &str) -> (e: S2GError)
        ensures
            e@ == (ErrorView { kind, text: text@ }),
    {
        S2GError { kind, text: String::from_str(text) }
    }

    /// The text that describes the failure.
    pub fn message(&self) -> (s: String)
        ensures
            s@ == self@.text,
    {
        self.text.clone()
    }
}

} // verus!
