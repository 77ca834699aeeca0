use vstd::prelude::*;

verus! {

/// Why a generation run was abandoned. Every error is terminal for the run:
/// there is no retry and no partial output.
#[derive(Clone, Copy, Debug, PartialEq, Eq, Structural)]
pub enum CrashTableError {
    /// The input could not be read as delimited text (missing file or a
    /// stream the reader rejects).
    SourceUnavailable,
    /// A data row lacks the required columns.
    RowTooShort,
    /// The destination file could not be created or written.
    OutputUnwritable,
}

} // verus!
