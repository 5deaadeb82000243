//! The error of the pipeline stages.

use std::fmt::Debug;
use std::path::PathBuf;
use vstd::prelude::*;

verus! {

/// A pattern that the matcher refused.
#[derive(Debug)]
pub struct BadPattern {
    /// About where in the pattern the fault lies, counted in characters.
    pub pos: usize,
    /// What is wrong there.
    pub msg: String,
}

/// A path that could not be read while a pattern was matched.
#[derive(Debug)]
pub struct UnreadablePath {
    /// The path.
    pub path: PathBuf,
    /// Why it could not be read.
    pub error: std::io::Error,
}

/// What can end a pipeline.
#[derive(Debug)]
pub enum Error {
    /// A file or directory could not be read or written.
    IO(std::io::Error),
    /// The glob pattern is malformed.
    GlobPatternError(BadPattern),
    /// A directory could not be read while the pattern was matched.
    GlobError(UnreadablePath),
    /// A parse function failed. Holds the `Debug` text of what it returned.
    Parse(String),
    /// A render function failed. Holds the `Debug` text of what it returned.
    Render(String),
    /// A file already stands where a copy was to go.
    FileExists(PathBuf),
}

/// Calls `Debug::fmt` of a value, through `format!`, and hands back the
/// text. What the text holds is up to the value's own `Debug` impl, so
/// nothing is stated of it.
#[verifier::external_body]
pub(crate) fn debug_text<E: Debug>(cause: &E) -> (text: String) {
    format!("{:?}", cause)
}

} // verus!
