use vstd::prelude::*;

verus! {

/// The ways that processing one candidate file can fail inside the library.
///
/// Both are per-file errors: a caller reports them and moves on to the next
/// file. Failures of the surrounding I/O (reading the file, the rename
/// itself) never reach this crate and are reported by the caller directly.
#[derive(Clone, Copy, Debug, PartialEq, Eq, Structural)]
pub enum ProcessError {
    /// No metadata container could be parsed out of the file's bytes.
    Metadata,
    /// The capture-time field is present but does not have the expected
    /// two-part, single-space-separated textual shape.
    Format,
}

impl ProcessError {
    /// A short description of the error, for per-file reporting.
    pub fn describe(&self) -> (r: &'static str)
        ensures
            *self == ProcessError::Metadata ==> r@ == "no valid metadata container could be read"@,
            *self == ProcessError::Format ==> r@ == "the capture-time field does not have the expected format"@,
    {
        match self {
            ProcessError::Metadata => "no valid metadata container could be read",
            ProcessError::Format => "the capture-time field does not have the expected format",
        }
    }
}

} // verus!
