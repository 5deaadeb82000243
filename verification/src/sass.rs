//! The style sheet stage: compiled CSS goes to its destination, and the
//! caller gets a short fingerprint of it for cache-busting.

use crate::pipeline::FileWrite;
use crate::writer::parent;
use crate::writer::parent_of;
use grass::Error as GrassError;
use std::path::PathBuf;
use vstd::prelude::*;
use vstd::string::StringExecFns;
use vstd::utf8::encode_utf8;

verus! {

/// Why a style sheet could not be rendered.
#[derive(Debug)]
pub enum SassError {
    /// A file could not be read or written.
    IO(std::io::Error),
    /// The compiler refused the style sheet.
    SassCompile(Box<GrassError>),
}

/// The 32 bytes that BLAKE3 gives for an input.
pub uninterp spec fn blake3_digest(input: Seq<u8>) -> Seq<u8>;

/// Calls `blake3::hash` and copies out the bytes of the hash, of which
/// there are always 32.
#[verifier::external_body]
fn digest(input: &[u8]) -> (bytes: Vec<u8>)
    ensures
        bytes@ == blake3_digest(input@),
        bytes@.len() == 32,
{
    blake3::hash(input).as_bytes().to_vec()
}

/// The lower-case hexadecimal digit for a value below 16.
pub open spec fn hex_digit(value: u8) -> char {
    "0123456789abcdef"@[value as int]
}

/// The lower-case hexadecimal text of some bytes: two digits for each byte,
/// the high half first.
pub open spec fn hex(bytes: Seq<u8>) -> Seq<char> {
    Seq::new(
        2 * bytes.len(),
        |i: int|
            if i % 2 == 0 {
                hex_digit(bytes[i / 2] >> 4)
            } else {
                hex_digit(bytes[i / 2] & 0xf)
            },
    )
}

/// A digit or one of the letters `a` to `f`.
pub open spec fn is_lower_hex(c: char) -> bool {
    ('0' <= c && c <= '9') || ('a' <= c && c <= 'f')
}

/// The fingerprint of a text: the first 16 hexadecimal digits of the BLAKE3
/// hash of its UTF-8 bytes.
pub open spec fn fingerprint_of(css: Seq<char>) -> Seq<char> {
    hex(blake3_digest(encode_utf8(css)).take(8))
}

/// What rendering a style sheet comes to, given what the compiler gave.
pub open spec fn sass_outcome(
    compiled: Result<String, Box<GrassError>>,
    path: PathBuf,
    result: Result<(FileWrite, String), SassError>,
) -> bool {
    match compiled {
        Err(e) => result == Err::<(FileWrite, String), SassError>(SassError::SassCompile(e)),
        Ok(css) => {
            &&& result matches Ok(stage)
            &&& stage.0.path == path
            &&& stage.0.contents == css
            &&& stage.1@ == fingerprint_of(css@)
            &&& stage.1@.len() == 16
            &&& forall|i: int| 0 <= i < 16 ==> is_lower_hex(#[trigger] stage.1@[i])
        },
    }
}

/// Hexadecimal text holds nothing but digits and the letters `a` to `f`.
pub proof fn lemma_hex_is_lower_hex(bytes: Seq<u8>)
    ensures
        hex(bytes).len() == 2 * bytes.len(),
        forall|i: int| 0 <= i < 2 * bytes.len() ==> is_lower_hex(#[trigger] hex(bytes)[i]),
{
    reveal_strlit("0123456789abcdef");
    assert forall|i: int| 0 <= i < 2 * bytes.len() implies is_lower_hex(
        #[trigger] hex(bytes)[i],
    ) by {
        let byte = bytes[i / 2];
        let high: u8 = byte >> 4;
        let low: u8 = byte & 0xf;
        assert(high < 16 && low < 16) by (bit_vector)
            requires
                high == byte >> 4,
                low == byte & 0xf,
        ;
    }
}

/// The text of one hexadecimal digit.
fn digit_text(value: u8) -> (text: &'static str)
    requires
        value < 16,
    ensures
        text@ == seq![hex_digit(value)],
{
    proof {
        reveal_strlit("0123456789abcdef");
        reveal_strlit("0");
        reveal_strlit("1");
        reveal_strlit("2");
        reveal_strlit("3");
        reveal_strlit("4");
        reveal_strlit("5");
        reveal_strlit("6");
        reveal_strlit("7");
        reveal_strlit("8");
        reveal_strlit("9");
        reveal_strlit("a");
        reveal_strlit("b");
        reveal_strlit("c");
        reveal_strlit("d");
        reveal_strlit("e");
        reveal_strlit("f");
    }
    let text = match value {
        0 => "0",
        1 => "1",
        2 => "2",
        3 => "3",
        4 => "4",
        5 => "5",
        6 => "6",
        7 => "7",
        8 => "8",
        9 => "9",
        10 => "a",
        11 => "b",
        12 => "c",
        13 => "d",
        14 => "e",
        _ => "f",
    };
    assert(text@ =~= seq![hex_digit(value)]);
    text
}

/// The lower-case hexadecimal text of the first `count` bytes.
fn hex_prefix(bytes: &Vec<u8>, count: usize) -> (text: String)
    requires
        count <= bytes@.len(),
    ensures
        text@ == hex(bytes@.take(count as int)),
{
    let mut text = String::new();
    let mut i: usize = 0;
    assert(text@ =~= hex(bytes@.take(0)));
    while i < count
        invariant
            i <= count <= bytes@.len(),
            text@ == hex(bytes@.take(i as int)),
        decreases count - i,
    {
        let byte = bytes[i];
        let high: u8 = byte >> 4;
        let low: u8 = byte & 0xf;
        assert(high < 16 && low < 16) by (bit_vector)
            requires
                high == byte >> 4,
                low == byte & 0xf,
        ;
        let ghost before = text@;
        text.append(digit_text(high));
        text.append(digit_text(low));
        proof {
            let shorter = bytes@.take(i as int);
            let longer = bytes@.take(i + 1);
            assert(longer.len() == i + 1);
            assert(text@ == before + seq![hex_digit(high)] + seq![hex_digit(low)]);
            assert forall|k: int| 0 <= k < 2 * (i + 1) implies text@[k] == hex(longer)[k] by {
                if k < 2 * i {
                    assert(text@[k] == hex(shorter)[k]);
                    assert(shorter[k / 2] == longer[k / 2]);
                } else {
                    assert(k / 2 == i);
                    assert(longer[k / 2] == byte);
                }
            }
            assert(text@ =~= hex(longer));
        }
        i = i + 1;
    }
    text
}

/// The directory from which the compiler may include other style sheets:
/// the one that holds the source, if the source's path has one above it.
pub fn include_dir(source: &PathBuf) -> (dir: Option<PathBuf>)
    ensures
        dir == parent_of(*source),
{
    parent(source)
}

/// The fingerprint of a text, 16 characters long.
pub fn fingerprint(css: &str) -> (mark: String)
    ensures
        mark@ == fingerprint_of(css@),
        mark@.len() == 16,
        forall|i: int| 0 <= i < 16 ==> is_lower_hex(#[trigger] mark@[i]),
{
    let bytes = digest(css.as_bytes());
    proof {
        lemma_hex_is_lower_hex(bytes@.take(8));
    }
    hex_prefix(&bytes, 8)
}

/// Turns what the compiler gave into the stage's result: the write that
/// puts the CSS at `path`, with the fingerprint of the CSS; or the
/// compiler's diagnostic as the error.
pub fn render_sass(compiled: Result<String, Box<GrassError>>, path: PathBuf) -> (result: Result<
    (FileWrite, String),
    SassError,
>)
    ensures
        sass_outcome(compiled, path, result),
{
    match compiled {
        Ok(css) => {
            let mark = fingerprint(css.as_str());
            Ok((FileWrite { path, contents: css }, mark))
        },
        Err(e) => Err(SassError::SassCompile(e)),
    }
}

} // verus!
