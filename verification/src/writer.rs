//! Writing a file: the directories above it come first.

use std::path::PathBuf;
use vstd::prelude::*;

verus! {

/// One thing to do to the disk.
#[derive(Debug)]
pub enum WriteStep {
    /// Create this directory and every directory above it that is missing.
    CreateDirs(PathBuf),
    /// Write these bytes to the file at this path, in place of what it held.
    WriteFile(PathBuf, Vec<u8>),
}

/// What std's `Path::parent` gives for a path: the path without its last
/// component, if it has one. std reads a path by the rules of the platform
/// it is built for.
pub uninterp spec fn parent_of(path: PathBuf) -> Option<PathBuf>;

/// Calls `Path::parent` and copies what it returns into a path of its own.
#[verifier::external_body]
pub(crate) fn parent(path: &PathBuf) -> (dir: Option<PathBuf>)
    ensures
        dir == parent_of(*path),
{
    match path.parent() {
        Some(dir) => Some(dir.to_path_buf()),
        None => None,
    }
}

/// The steps that write a file: its parent directory is created if the path
/// has one, then the file is written.
pub open spec fn write_steps(path: PathBuf, contents: Vec<u8>) -> Seq<WriteStep> {
    match parent_of(path) {
        Some(dir) => seq![WriteStep::CreateDirs(dir), WriteStep::WriteFile(path, contents)],
        None => seq![WriteStep::WriteFile(path, contents)],
    }
}

/// Says how to write `contents` to `path` when directories above it may be
/// missing. The write replaces a file that is there, and nothing is staged:
/// a write that is cut short leaves a short file.
pub fn write(path: PathBuf, contents: Vec<u8>) -> (steps: Vec<WriteStep>)
    ensures
        steps@ == write_steps(path, contents),
{
    let mut steps: Vec<WriteStep> = Vec::new();
    match parent(&path) {
        Some(dir) => {
            steps.push(WriteStep::CreateDirs(dir));
        },
        None => {},
    }
    steps.push(WriteStep::WriteFile(path, contents));
    assert(steps@ =~= write_steps(path, contents));
    steps
}

} // verus!
