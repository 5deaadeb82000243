//! A content-build pipeline: source files found by pattern are parsed,
//! sorted and rendered in parallel, and the library says which files are to
//! be written.
//!
//! The library touches no disk. Whoever drives it matches the pattern, reads
//! the files and carries out the writes, and hands the library what came of
//! it; the library decides what follows.

pub mod error;
pub mod keys;
pub mod markdown;
pub mod mirror;
pub mod outside;
mod parallel;
pub mod pipeline;
pub mod sass;
pub mod watch;
pub mod writer;

pub use error::BadPattern;
pub use error::Error;
pub use error::UnreadablePath;
pub use markdown::parse_markdown;
pub use markdown::Markdown;
pub use markdown::MarkdownContext;
pub use markdown::MarkdownError;
pub use mirror::copy_dir;
pub use pipeline::glob;
pub use pipeline::FileWrite;
pub use pipeline::Glob;
pub use pipeline::Parsed;
pub use sass::render_sass;
pub use sass::SassError;
pub use watch::watch;
pub use watch::WatchError;
