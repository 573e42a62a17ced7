//! Format detection and decoding: from the bytes of a source, and the name
//! it was fetched under, to a dataset.

use vstd::prelude::*;
use vstd::string::StrSliceExecFns;
use crate::dataset::DataSet;
use crate::engine::{csv_frame, error_message, error_text, json_frame, read_csv, read_json};
use crate::error::{QueryError, QueryErrorView};

verus! {

/// A format that the loader decodes.
#[derive(Clone, Copy, Debug, PartialEq, Eq, Structural)]
pub enum Format {
    /// Delimited text with a header line.
    Csv,
    /// One JSON array of records.
    Json,
    /// One JSON record on each line.
    JsonLines,
}

/// Space, tab, line feed or carriage return.
pub open spec fn blank(byte: u8) -> bool {
    byte == 0x20 || byte == 0x09 || byte == 0x0a || byte == 0x0d
}

/// The first byte of `bytes` that is not blank.
pub open spec fn first_mark(bytes: Seq<u8>) -> Option<u8>
    decreases bytes.len(),
{
    if bytes.len() == 0 {
        None
    } else if blank(bytes[0]) {
        first_mark(bytes.drop_first())
    } else {
        Some(bytes[0])
    }
}

/// What the content says of its format: `[` opens an array of records, `{`
/// the first of a run of records, any other byte that is no control
/// character a line of delimited text.
pub open spec fn format_of_content(bytes: Seq<u8>) -> Option<Format> {
    match first_mark(bytes) {
        None => None,
        Some(mark) => if mark == 0x5b {
            Some(Format::Json)
        } else if mark == 0x7b {
            Some(Format::JsonLines)
        } else if mark >= 0x20 && mark != 0x7f {
            Some(Format::Csv)
        } else {
            None
        },
    }
}

/// `text` ends with `suffix`.
pub open spec fn is_suffix(text: Seq<char>, suffix: Seq<char>) -> bool {
    text.len() >= suffix.len() && text.subrange(text.len() - suffix.len(), text.len() as int)
        == suffix
}

/// What the name of a source says of its format, by its extension.
pub open spec fn format_of_name(name: Seq<char>) -> Option<Format> {
    if is_suffix(name, ".csv"@) {
        Some(Format::Csv)
    } else if is_suffix(name, ".json"@) {
        Some(Format::Json)
    } else if is_suffix(name, ".ndjson"@) || is_suffix(name, ".jsonl"@) {
        Some(Format::JsonLines)
    } else {
        None
    }
}

/// The format of a source: what its name says, else what its content says.
pub open spec fn detected(name: Seq<char>, bytes: Seq<u8>) -> Option<Format> {
    match format_of_name(name) {
        Some(format) => Some(format),
        None => format_of_content(bytes),
    }
}

/// What the engine makes of `bytes` read as `format`.
pub open spec fn decoded(format: Format, bytes: Seq<u8>) -> Option<polars::prelude::DataFrame> {
    match format {
        Format::Csv => csv_frame(bytes),
        Format::Json => json_frame(bytes, false),
        Format::JsonLines => json_frame(bytes, true),
    }
}

/// Blank bytes in front do not change the first mark.
pub proof fn first_mark_skips_blanks(bytes: Seq<u8>, i: int)
    requires
        0 <= i <= bytes.len(),
        forall|j: int| 0 <= j < i ==> blank(#[trigger] bytes[j]),
    ensures
        first_mark(bytes) == first_mark(bytes.skip(i)),
    decreases i,
{
    if i == 0 {
        assert(bytes.skip(0) =~= bytes);
    } else {
        first_mark_skips_blanks(bytes.drop_first(), i - 1);
        assert(bytes.drop_first().skip(i - 1) =~= bytes.skip(i));
    }
}

/// Finds the first byte that is not blank.
pub fn first_significant(bytes: &Vec<u8>) -> (r: Option<u8>)
    ensures
        r == first_mark(bytes@),
{
    let mut i: usize = 0;
    while i < bytes.len()
        invariant
            i <= bytes.len(),
            forall|j: int| 0 <= j < i ==> blank(#[trigger] bytes@[j]),
        decreases bytes.len() - i,
    {
        let byte: u8 = bytes[i];
        if !(byte == 0x20 || byte == 0x09 || byte == 0x0a || byte == 0x0d) {
            proof {
                first_mark_skips_blanks(bytes@, i as int);
                assert(bytes@.skip(i as int)[0] == byte);
            }
            return Some(byte);
        }
        i += 1;
    }
    proof {
        first_mark_skips_blanks(bytes@, bytes@.len() as int);
    }
    None
}

/// Decides whether `text` ends with `suffix`.
pub fn ends_with(text: &str, suffix: &str) -> (r: bool)
    ensures
        r == is_suffix(text@, suffix@),
{
    let n: usize = text.unicode_len();
    let m: usize = suffix.unicode_len();
    if n < m {
        return false;
    }
    let start: usize = n - m;
    let ghost tail = text@.subrange(start as int, n as int);
    let mut i: usize = 0;
    while i < m
        invariant
            i <= m,
            n == text@.len(),
            m == suffix@.len(),
            start == n - m,
            tail == text@.subrange(start as int, n as int),
            forall|j: int| 0 <= j < i ==> tail[j] == suffix@[j],
        decreases m - i,
    {
        if text.get_char(start + i) != suffix.get_char(i) {
            assert(tail[i as int] != suffix@[i as int]);
            return false;
        }
        i += 1;
    }
    assert(tail =~= suffix@);
    true
}

/// Detects the format of a source from its name and its content.
pub fn detect_content(name: &str, bytes: &Vec<u8>) -> (r: Option<Format>)
    ensures
        r == detected(name@, bytes@),
{
    if ends_with(name, ".csv") {
        return Some(Format::Csv);
    }
    if ends_with(name, ".json") {
        return Some(Format::Json);
    }
    if ends_with(name, ".ndjson") || ends_with(name, ".jsonl") {
        return Some(Format::JsonLines);
    }
    match first_significant(bytes) {
        None => None,
        Some(mark) => if mark == 0x5b {
            Some(Format::Json)
        } else if mark == 0x7b {
            Some(Format::JsonLines)
        } else if mark >= 0x20 && mark != 0x7f {
            Some(Format::Csv)
        } else {
            None
        },
    }
}

/// Whether `r` is what loading `bytes`, fetched under `name`, comes to.
pub open spec fn loaded(name: Seq<char>, bytes: Seq<u8>, r: Result<DataSet, QueryError>) -> bool {
    match detected(name, bytes) {
        None => r matches Err(e) && e@ == QueryErrorView::UnknownFormat,
        Some(format) => match decoded(format, bytes) {
            Some(frame) => r matches Ok(data) && data.frame() == frame,
            None => r matches Err(e) && e@ is Malformed && e@->format == format,
        },
    }
}

/// Turns what the decoder of `format` made of the bytes into the loaded
/// dataset: its frame, or its refusal as a `Malformed` failure with the
/// format and the decoder's message.
pub fn framed(
    format: Format,
    outcome: Result<polars::prelude::DataFrame, polars::prelude::PolarsError>,
) -> (r: Result<DataSet, QueryError>)
    ensures
        match outcome {
            Ok(frame) => r matches Ok(data) && data.frame() == frame,
            Err(cause) => r matches Err(e) && e@ == (QueryErrorView::Malformed {
                format,
                reason: error_message(cause),
            }),
        },
{
    match outcome {
        Ok(frame) => Ok(DataSet::new(frame)),
        Err(cause) => Err(QueryError::Malformed { format, reason: error_text(&cause) }),
    }
}

/// Decodes `bytes`, fetched under `name`, into a dataset.
///
/// Fails with `UnknownFormat` exactly when neither the name nor the content
/// tells a format, and with `Malformed`, under the format that was told,
/// exactly when the decoder of that format refuses the bytes; the dataset is
/// otherwise what that decoder made of them.
pub fn load(name: &str, bytes: Vec<u8>) -> (r: Result<DataSet, QueryError>)
    ensures
        loaded(name@, bytes@, r),
{
    let format = match detect_content(name, &bytes) {
        Some(format) => format,
        None => { return Err(QueryError::UnknownFormat); },
    };
    let outcome = match format {
        Format::Csv => read_csv(bytes),
        Format::Json => read_json(bytes, false),
        Format::JsonLines => read_json(bytes, true),
    };
    framed(format, outcome)
}

} // verus!
