//! The content stage: a file with a YAML front matter block and a Markdown
//! body becomes one item of a pipeline.

use crate::error::debug_text;
use crate::error::Error;
use crate::pipeline::Glob;
use crate::pipeline::Parsed;
use comrak::plugins::syntect::SyntectAdapter;
use gray_matter::engine::YAML;
use gray_matter::Matter;
use gray_matter::Pod;
use std::path::PathBuf;
use vstd::prelude::*;

verus! {

/// Why a content file could not be parsed.
#[derive(Debug)]
pub enum MarkdownError {
    /// The file could not be read.
    IO(std::io::Error),
    /// The file has no front matter block.
    MissingFrontmatter(PathBuf),
    /// The front matter does not fit the caller's type.
    DeserializeFrontmatter(PathBuf, serde_json::Error),
    /// The path has no file name to take a stem from.
    NoFileStem(PathBuf),
}

/// One parsed content file.
#[derive(Debug, Clone)]
pub struct Markdown<T> {
    /// The decoded front matter.
    pub frontmatter: T,
    /// File name without its last extension.
    pub basename: String,
    /// The body text, front matter removed.
    pub markdown: String,
    /// The body rendered to HTML.
    pub html: String,
}

/// The switches of the Markdown engine that the library sets. Every other
/// switch of the engine keeps its default.
#[derive(Debug)]
pub struct MarkdownOptions {
    /// Raw HTML in the source passes through to the output.
    pub unsafe_html: bool,
    /// Strikethrough with tildes.
    pub strikethrough: bool,
    /// A fixed set of HTML tags is escaped even when raw HTML passes.
    pub tagfilter: bool,
    /// Tables.
    pub table: bool,
    /// Superscript with carets.
    pub superscript: bool,
    /// Headings get an id, made of this prefix and the heading's text.
    pub header_ids: Option<String>,
    /// Footnotes.
    pub footnotes: bool,
    /// Description lists.
    pub description_lists: bool,
    /// Straight quotes, dashes and dots become typographic ones.
    pub smart: bool,
}

/// The engine's configuration and the highlighter of fenced code, as every
/// parse uses them. Building one loads the syntax and theme definitions,
/// which is slow: build one per process and share it.
pub struct MarkdownContext {
    highlighter: SyntectAdapter,
    options: MarkdownOptions,
}

/// What gray_matter's parser makes of a text with `---` as the delimiter and
/// YAML as the format: whether the text starts with a front matter block
/// that is not empty, and the text without that block.
pub uninterp spec fn split_matter(text: Seq<char>) -> (bool, Seq<char>);

/// The HTML that comrak renders for a Markdown text under given switches,
/// with fenced code highlighted through CSS classes.
pub uninterp spec fn comrak_html(text: Seq<char>, options: MarkdownOptions) -> Seq<char>;

/// What std's `Path::file_stem` gives for a path, as text: the last
/// component without its last extension, if the path ends in a file name.
/// std reads a path by the rules of the platform it is built for.
pub uninterp spec fn file_stem_of(path: PathBuf) -> Option<Seq<char>>;

/// Calls `Matter::<YAML>::new().parse(text)` and hands back two of the
/// fields of what it returns: `data` and `content`. Whether there is data,
/// and the content, gray_matter computes from the text alone. The data
/// itself holds hash maps, which differ from one call to the next: nothing
/// is stated of it.
#[verifier::external_body]
fn split_frontmatter(text: &str) -> (parts: (Option<Pod>, String))
    ensures
        parts.0 is Some == split_matter(text@).0,
        parts.1@ == split_matter(text@).1,
{
    let entity = Matter::<YAML>::new().parse(text);
    (entity.data, entity.content)
}

/// Calls `comrak::markdown_to_html_with_plugins` with the defaults of
/// comrak's options, the context's switches copied over them one by one, and
/// the context's highlighter as the plugin for fenced code. comrak computes
/// the HTML from the text, the options and the plugin alone, and every
/// context holds the same plugin.
#[verifier::external_body]
fn to_html(text: &str, context: &MarkdownContext) -> (html: String)
    ensures
        html@ == comrak_html(text@, context.options()),
{
    let options = &context.options;
    let mut all = comrak::Options::default();
    all.render.unsafe_ = options.unsafe_html;
    all.extension.strikethrough = options.strikethrough;
    all.extension.tagfilter = options.tagfilter;
    all.extension.table = options.table;
    all.extension.superscript = options.superscript;
    all.extension.header_ids = options.header_ids.clone();
    all.extension.footnotes = options.footnotes;
    all.extension.description_lists = options.description_lists;
    all.parse.smart = options.smart;
    let mut plugins = comrak::Plugins::default();
    plugins.render.codefence_syntax_highlighter = Some(&context.highlighter);
    comrak::markdown_to_html_with_plugins(text, &all, &plugins)
}

/// Calls `SyntectAdapter::new(None)`: the adapter that marks code with CSS
/// classes and names no theme.
#[verifier::external_body]
fn class_adapter() -> (adapter: SyntectAdapter) {
    SyntectAdapter::new(None)
}

/// Calls `Path::file_stem` and turns what it returns into text, with
/// `to_string_lossy`.
#[verifier::external_body]
fn file_stem(path: &PathBuf) -> (stem: Option<String>)
    ensures
        stem is Some == file_stem_of(*path) is Some,
        stem matches Some(text) ==> Some(text@) == file_stem_of(*path),
{
    match path.file_stem() {
        Some(stem) => Some(stem.to_string_lossy().into_owned()),
        None => None,
    }
}

/// The switches that every parse of the library uses: those that are on,
/// and the tag filter, which is off as the engine has it by default.
pub open spec fn standard_options(options: MarkdownOptions) -> bool {
    &&& options.unsafe_html
    &&& options.strikethrough
    &&& !options.tagfilter
    &&& options.table
    &&& options.superscript
    &&& options.header_ids matches Some(prefix) && prefix@ == Seq::<char>::empty()
    &&& options.footnotes
    &&& options.description_lists
    &&& options.smart
}

impl MarkdownContext {
    /// The switches of this context.
    pub closed spec fn options(&self) -> MarkdownOptions {
        self.options
    }

    /// The context of the library: raw HTML passes and no tag is filtered
    /// out of it, the extensions for strikethrough, tables, superscript,
    /// footnotes and description lists are on, punctuation is typographic,
    /// headings get an id without a prefix, and fenced code is highlighted
    /// through CSS classes.
    pub fn new() -> (context: MarkdownContext)
        ensures
            standard_options(context.options()),
    {
        let options = MarkdownOptions {
            unsafe_html: true,
            strikethrough: true,
            tagfilter: false,
            table: true,
            superscript: true,
            header_ids: Some(String::new()),
            footnotes: true,
            description_lists: true,
            smart: true,
        };
        MarkdownContext { highlighter: class_adapter(), options }
    }

    /// Renders a Markdown text to HTML.
    pub fn render(&self, text: &str) -> (html: String)
        ensures
            html@ == comrak_html(text@, self.options()),
    {
        to_html(text, self)
    }
}

/// What a content file comes to, given the front matter and the body that
/// were found in it.
///
/// A file without front matter is refused. The front matter goes to
/// `decode`, whose error is handed on with the path. A path without a file
/// stem is refused. Otherwise the item holds what `decode` gave, the stem,
/// the body and the body's HTML.
pub open spec fn parts_outcome<T, D: Fn(&Pod) -> Result<T, serde_json::Error>>(
    path: PathBuf,
    data: Option<Pod>,
    body: Seq<char>,
    options: MarkdownOptions,
    decode: D,
    result: Result<Markdown<T>, MarkdownError>,
) -> bool {
    match data {
        None => result == Err::<Markdown<T>, MarkdownError>(
            MarkdownError::MissingFrontmatter(path),
        ),
        Some(pod) => match result {
            Ok(item) => {
                &&& decode.ensures((&pod,), Ok(item.frontmatter))
                &&& file_stem_of(path) == Some(item.basename@)
                &&& item.markdown@ == body
                &&& item.html@ == comrak_html(body, options)
            },
            Err(MarkdownError::DeserializeFrontmatter(at, e)) => {
                &&& at == path
                &&& decode.ensures((&pod,), Err(e))
            },
            Err(MarkdownError::NoFileStem(at)) => {
                &&& at == path
                &&& file_stem_of(path) is None
                &&& exists|frontmatter: T| decode.ensures((&pod,), Ok(frontmatter))
            },
            Err(_) => false,
        },
    }
}

/// What parsing one content file comes to, given what reading it gave.
///
/// A failed read is handed on. Otherwise the text is split, and the file
/// comes to what its parts come to: it has front matter exactly when the
/// parser finds some, and its body is the text without it.
pub open spec fn markdown_outcome<T, D: Fn(&Pod) -> Result<T, serde_json::Error>>(
    path: PathBuf,
    contents: Result<String, std::io::Error>,
    options: MarkdownOptions,
    decode: D,
    result: Result<Markdown<T>, MarkdownError>,
) -> bool {
    match contents {
        Err(e) => result == Err::<Markdown<T>, MarkdownError>(MarkdownError::IO(e)),
        Ok(text) => exists|data: Option<Pod>|
            {
                &&& data is Some == split_matter(text@).0
                &&& #[trigger] parts_outcome(
                    path,
                    data,
                    split_matter(text@).1,
                    options,
                    decode,
                    result,
                )
            },
    }
}

/// Makes the item of a content file from the front matter and the body that
/// were found in it.
pub fn markdown_from_parts<T, D: Fn(&Pod) -> Result<T, serde_json::Error>>(
    path: &PathBuf,
    data: Option<Pod>,
    body: String,
    context: &MarkdownContext,
    decode: &D,
) -> (result: Result<Markdown<T>, MarkdownError>)
    requires
        forall|pod: Pod| decode.requires((&pod,)),
    ensures
        parts_outcome(*path, data, body@, context.options(), *decode, result),
{
    let pod = match data {
        Some(pod) => pod,
        None => { return Err(MarkdownError::MissingFrontmatter(path.clone())); },
    };
    let frontmatter = match decode(&pod) {
        Ok(frontmatter) => frontmatter,
        Err(e) => { return Err(MarkdownError::DeserializeFrontmatter(path.clone(), e)); },
    };
    let html = context.render(body.as_str());
    let basename = match file_stem(path) {
        Some(stem) => stem,
        None => { return Err(MarkdownError::NoFileStem(path.clone())); },
    };
    Ok(Markdown { frontmatter, basename, markdown: body, html })
}

/// Parses one content file from what reading it gave.
pub fn parse_markdown<T, D: Fn(&Pod) -> Result<T, serde_json::Error>>(
    path: &PathBuf,
    contents: Result<String, std::io::Error>,
    context: &MarkdownContext,
    decode: &D,
) -> (result: Result<Markdown<T>, MarkdownError>)
    requires
        forall|pod: Pod| decode.requires((&pod,)),
    ensures
        markdown_outcome(*path, contents, context.options(), *decode, result),
{
    let text = match contents {
        Ok(text) => text,
        Err(e) => { return Err(MarkdownError::IO(e)); },
    };
    let (data, body) = split_frontmatter(text.as_str());
    let ghost found = data;
    let result = markdown_from_parts(path, data, body, context, decode);
    assert(parts_outcome(
        *path,
        found,
        split_matter(text@).1,
        context.options(),
        *decode,
        result,
    ));
    result
}

/// `result` is what parsing the file at `path` can come to, when `read` gives
/// the file's text.
pub open spec fn parsed_from<
    T,
    R: Fn(&PathBuf) -> Result<String, std::io::Error>,
    D: Fn(&Pod) -> Result<T, serde_json::Error>,
>(
    path: PathBuf,
    read: R,
    options: MarkdownOptions,
    decode: D,
    result: Result<Markdown<T>, MarkdownError>,
) -> bool {
    exists|contents: Result<String, std::io::Error>|
        read.ensures((&path,), contents) && #[trigger] markdown_outcome(
            path,
            contents,
            options,
            decode,
            result,
        )
}

impl Glob {
    /// Reads and parses every path as a content file, in parallel. One file
    /// that fails makes the whole call fail, with the error of one of the
    /// files that failed.
    pub fn parse_markdown_cause<
        T: Send + Sync,
        R: Fn(&PathBuf) -> Result<String, std::io::Error> + Send + Sync,
        D: Fn(&Pod) -> Result<T, serde_json::Error> + Send + Sync,
    >(self, context: &MarkdownContext, read: R, decode: D) -> (result: Result<
        Parsed<Markdown<T>>,
        MarkdownError,
    >)
        requires
            forall|i: int| 0 <= i < self@.len() ==> read.requires((&#[trigger] self@[i],)),
            forall|pod: Pod| decode.requires((&pod,)),
        ensures
            match result {
                Ok(parsed) => {
                    &&& parsed@.len() == self@.len()
                    &&& forall|i: int|
                        0 <= i < self@.len() ==> parsed_from(
                            self@[i],
                            read,
                            context.options(),
                            decode,
                            Ok(#[trigger] parsed@[i]),
                        )
                },
                Err(cause) => exists|i: int|
                    0 <= i < self@.len() && parsed_from(
                        #[trigger] self@[i],
                        read,
                        context.options(),
                        decode,
                        Err::<Markdown<T>, MarkdownError>(cause),
                    ),
            },
    {
        let read = &read;
        let decode = &decode;
        let each = |path: &PathBuf| -> (parsed: Result<Markdown<T>, MarkdownError>)
            requires
                read.requires((path,)),
            ensures
                parsed_from(*path, *read, context.options(), *decode, parsed),
            {
                let contents = read(path);
                parse_markdown(path, contents, context, decode)
            };
        self.try_parse_cause(each)
    }

    /// As `parse_markdown_cause`, with the failure as an error of the
    /// pipeline.
    pub fn parse_markdown<
        T: Send + Sync,
        R: Fn(&PathBuf) -> Result<String, std::io::Error> + Send + Sync,
        D: Fn(&Pod) -> Result<T, serde_json::Error> + Send + Sync,
    >(self, context: &MarkdownContext, read: R, decode: D) -> (result: Result<
        Parsed<Markdown<T>>,
        Error,
    >)
        requires
            forall|i: int| 0 <= i < self@.len() ==> read.requires((&#[trigger] self@[i],)),
            forall|pod: Pod| decode.requires((&pod,)),
        ensures
            match result {
                Ok(parsed) => {
                    &&& parsed@.len() == self@.len()
                    &&& forall|i: int|
                        0 <= i < self@.len() ==> parsed_from(
                            self@[i],
                            read,
                            context.options(),
                            decode,
                            Ok(#[trigger] parsed@[i]),
                        )
                },
                Err(error) => {
                    &&& error is Parse
                    &&& exists|i: int, cause: MarkdownError|
                        0 <= i < self@.len() && #[trigger] parsed_from(
                            self@[i],
                            read,
                            context.options(),
                            decode,
                            Err::<Markdown<T>, MarkdownError>(cause),
                        )
                },
            },
    {
        match self.parse_markdown_cause(context, read, decode) {
            Ok(parsed) => Ok(parsed),
            Err(cause) => Err(Error::Parse(debug_text(&cause))),
        }
    }
}

} // verus!
