//! The layout of a note's file: a header block between two delimiter lines,
//! then the body.

use crate::text::{
    chars_of, find, find_from, lemma_find_from, lemma_first_occurrence, matches_at, occurs_at,
    slice, starts_with,
};
use vstd::prelude::*;

verus! {

/// The delimiter: three hyphens and a line feed.
pub open spec fn delimiter() -> Seq<char> {
    seq!['-', '-', '-', '\n']
}

/// What a file's text is, as far as its layout tells.
pub enum Framed {
    /// The text does not begin with the delimiter: the file is no note.
    NotANote,
    /// The text begins with the delimiter, and no second one closes the header.
    Malformed,
    /// The header block and the body, without the delimiters.
    Note { header: String, body: String },
}

/// The model of `Framed`.
pub enum FramedText {
    NotANote,
    Malformed,
    Note { header: Seq<char>, body: Seq<char> },
}

impl View for Framed {
    type V = FramedText;

    open spec fn view(&self) -> FramedText {
        match self {
            Framed::NotANote => FramedText::NotANote,
            Framed::Malformed => FramedText::Malformed,
            Framed::Note { header, body } => FramedText::Note { header: header@, body: body@ },
        }
    }
}

/// How a file's text divides. The header runs from behind the leading
/// delimiter to the next place where the delimiter occurs; the body is all
/// that follows that second delimiter.
pub open spec fn framing(raw: Seq<char>) -> FramedText {
    if !starts_with(raw, delimiter()) {
        FramedText::NotANote
    } else {
        let close = find_from(raw, delimiter(), 4);
        if close < 0 {
            FramedText::Malformed
        } else {
            FramedText::Note {
                header: raw.subrange(4, close),
                body: raw.subrange(close + 4, raw.len() as int),
            }
        }
    }
}

/// The delimiter, as characters.
fn delimiter_chars() -> (d: Vec<char>)
    ensures
        d@ == delimiter(),
{
    let mut d: Vec<char> = Vec::new();
    d.push('-');
    d.push('-');
    d.push('-');
    d.push('\n');
    d
}

/// Divides a file's text into header and body, or says why it has none.
pub fn split_content(raw: &str) -> (framed: Framed)
    ensures
        framed@ == framing(raw@),
{
    let chars = chars_of(raw);
    let delim = delimiter_chars();
    if !matches_at(&chars, &delim, 0) {
        return Framed::NotANote;
    }
    let n = chars.len();
    match find(&chars, &delim, 4) {
        None => Framed::Malformed,
        Some(close) => {
            proof {
                lemma_find_from(raw@, delimiter(), 4);
            }
            let header = slice(raw, 4, close);
            let body = slice(raw, close + 4, n);
            Framed::Note { header, body }
        },
    }
}

/// A header block as it stands in a file: ended by a line feed, unless it is
/// empty.
pub open spec fn closed(header: Seq<char>) -> Seq<char> {
    if header.len() == 0 || header.last() == '\n' {
        header
    } else {
        header.push('\n')
    }
}

/// The body block of a note's file: the title as a top-level heading, an
/// empty line, then the body.
pub open spec fn body_block(title: Seq<char>, body: Seq<char>) -> Seq<char> {
    seq!['#', ' '] + title + seq!['\n', '\n'] + body
}

/// The text of a note's file: delimiter, header block, delimiter, body block.
pub open spec fn file_text(header: Seq<char>, title: Seq<char>, body: Seq<char>) -> Seq<char> {
    delimiter() + closed(header) + delimiter() + body_block(title, body)
}

/// Writes out the text of a note's file.
pub fn compose(header: &str, title: &str, body: &str) -> (text: String)
    ensures
        text@ == file_text(header@, title@, body@),
{
    proof {
        reveal_strlit("---\n");
        reveal_strlit("\n");
        reveal_strlit("# ");
        reveal_strlit("\n\n");
    }
    let head = chars_of(header);
    let mut text = String::from_str("---\n");
    text.append(header);
    if head.len() > 0 && head[head.len() - 1] != '\n' {
        text.append("\n");
    }
    text.append("---\n");
    text.append("# ");
    text.append(title);
    text.append("\n\n");
    text.append(body);
    text
}

/// Where the parts of a composed file stand in it.
proof fn lemma_file_layout(header: Seq<char>, title: Seq<char>, body: Seq<char>)
    ensures
        ({
            let file = file_text(header, title, body);
            let block = closed(header);
            let close = (4 + block.len()) as int;
            &&& file.len() == close + 4 + body_block(title, body).len()
            &&& file[0] == '-' && file[1] == '-' && file[2] == '-' && file[3] == '\n'
            &&& file[close] == '-' && file[close + 1] == '-' && file[close + 2] == '-'
                && file[close + 3] == '\n'
            &&& file.subrange(4, close) == block
            &&& file.subrange(close + 4, file.len() as int) == body_block(title, body)
        }),
{
    let file = file_text(header, title, body);
    let block = closed(header);
    assert(file.subrange(4, (4 + block.len()) as int) =~= block);
}

/// The delimiter stands at `k` exactly where its four characters do.
proof fn lemma_delimiter_at(s: Seq<char>, k: int)
    ensures
        occurs_at(s, delimiter(), k) <==> (0 <= k && k + 4 <= s.len() && s[k] == '-' && s[k + 1]
            == '-' && s[k + 2] == '-' && s[k + 3] == '\n'),
{
    if 0 <= k && k + 4 <= s.len() && s[k] == '-' && s[k + 1] == '-' && s[k + 2] == '-' && s[k + 3]
        == '\n' {
        assert(s.subrange(k, k + 4) =~= delimiter());
    }
}

/// Inside a file, no delimiter begins within a header block that holds
/// none and ends with a line feed.
proof fn lemma_no_early_delimiter(file: Seq<char>, block: Seq<char>, k: int)
    requires
        4 <= k < 4 + block.len(),
        4 + block.len() + 4 <= file.len(),
        file.subrange(4, 4 + block.len() as int) == block,
        block.last() == '\n',
        forall|j: int| 0 <= j ==> !occurs_at(block, delimiter(), j),
    ensures
        !occurs_at(file, delimiter(), k),
{
    // a delimiter here would stand inside the block, or have a hyphen
    // where the block ends with its line feed
    lemma_delimiter_at(file, k);
    lemma_delimiter_at(block, k - 4);
}

/// A file that `compose` wrote divides again into the header block and the
/// body block it was written from, provided that the delimiter occurs
/// nowhere inside the header block.
pub proof fn law_compose_then_split(header: Seq<char>, title: Seq<char>, body: Seq<char>)
    requires
        find_from(closed(header), delimiter(), 0) == -1,
    ensures
        framing(file_text(header, title, body)) == (FramedText::Note {
            header: closed(header),
            body: body_block(title, body),
        }),
{
    let file = file_text(header, title, body);
    let block = closed(header);
    let d = delimiter();
    let close = (4 + block.len()) as int;
    lemma_file_layout(header, title, body);
    lemma_delimiter_at(file, 0);
    lemma_delimiter_at(file, close);
    lemma_find_from(block, d, 0);
    assert forall|k: int| 4 <= k < close implies !occurs_at(file, d, k) by {
        lemma_no_early_delimiter(file, block, k);
    }
    lemma_first_occurrence(file, d, 4, close);
}

} // verus!
