//! Types of std and of outside crates that the library carries through.
//!
//! Each is opaque here: values are moved, compared in contracts and handed
//! back to the crate that made them, never looked into.

use grass::Error as GrassError;
use notify_debouncer_mini::notify::Error as NotifyError;
use serde_json::Error as JsonError;
use vstd::prelude::*;

verus! {

/// A filesystem path of std. The library never reads one: it keeps the paths
/// it is given and hands them back.
#[verifier::external_type_specification]
#[verifier::external_body]
pub struct ExPathBuf(std::path::PathBuf);

/// The error of std's I/O functions.
#[verifier::external_type_specification]
#[verifier::external_body]
pub struct ExIoError(std::io::Error);

/// serde_json's error, which decoding a front matter block gives.
#[verifier::external_type_specification]
#[verifier::external_body]
pub struct ExJsonError(JsonError);

/// gray_matter's value for a parsed front matter block.
#[verifier::external_type_specification]
#[verifier::external_body]
pub struct ExPod(gray_matter::Pod);

/// comrak's adapter for syntect, the highlighter of fenced code blocks.
#[verifier::external_type_specification]
#[verifier::external_body]
pub struct ExSyntectAdapter(comrak::plugins::syntect::SyntectAdapter);

/// notify's error, which a watcher gives when it cannot go on.
#[verifier::external_type_specification]
#[verifier::external_body]
pub struct ExNotifyError(NotifyError);

/// grass's error: a diagnostic of the style sheet compiler.
#[verifier::external_type_specification]
#[verifier::external_body]
pub struct ExGrassError(GrassError);

/// A copy of a path is the same path.
pub assume_specification[ <std::path::PathBuf as Clone>::clone ](path: &std::path::PathBuf) -> (copy:
    std::path::PathBuf)
    ensures
        copy == *path,
;

} // verus!
