//! The identifier builder: a note's identifier from its project, its title
//! and, where it has no title, the first line of its body.

use crate::path::{escapes, parent_segment_at};
use crate::text::{
    chars_of, ends_with, find, find_from, lemma_find_from, matches_at, slice, starts_with,
};
use vstd::prelude::*;

verus! {

/// The slug that the `slugify` crate makes of a text, with its default
/// separator, no stop words and no limit on the length.
pub uninterp spec fn slug_text(text: Seq<char>) -> Seq<char>;

/// A character that a slug is made of: a lower-case ASCII letter, a digit
/// or the hyphen.
pub open spec fn slug_char(c: char) -> bool {
    ('a' <= c && c <= 'z') || ('0' <= c && c <= '9') || c == '-'
}

/// A text has the form of a slug: it is made of lower-case ASCII letters,
/// digits and hyphens, neither begins nor ends with a hyphen, and has no
/// two hyphens in a row.
pub open spec fn is_slug(text: Seq<char>) -> bool {
    &&& forall|i: int| 0 <= i < text.len() ==> slug_char(#[trigger] text[i])
    &&& text.len() > 0 ==> text[0] != '-' && text.last() != '-'
    &&& forall|i: int|
        0 <= i < text.len() - 1 ==> !(#[trigger] text[i] == '-' && text[i + 1] == '-')
}

/// Calls `slugify::slugify` with the arguments that its macro gives by
/// default: no stop words, the hyphen as separator, no maximum length. The
/// function transliterates the text to ASCII and lower case, then pushes
/// each letter and digit to the result, and one separator after a letter
/// or digit for each run of anything else; at the end it drops a separator
/// that stands last. Nothing else is ever pushed, which is what the second
/// clause states.
#[verifier::external_body]
fn slug(text: &str) -> (out: String)
    ensures
        out@ == slug_text(text@),
        is_slug(out@),
{
    slugify::slugify(text, "", "-", None)
}

/// The first line of a text: what stands before its first line feed,
/// without the carriage return that may precede the line feed; the whole
/// text where it has no line feed.
pub open spec fn first_line(text: Seq<char>) -> Seq<char> {
    let end = find_from(text, seq!['\n'], 0);
    if end < 0 {
        text
    } else {
        let line = text.subrange(0, end);
        if line.len() > 0 && line.last() == '\r' {
            line.drop_last()
        } else {
            line
        }
    }
}

/// The opening tag of a paragraph.
pub open spec fn paragraph_open() -> Seq<char> {
    seq!['<', 'p', '>']
}

/// The closing tag of a paragraph.
pub open spec fn paragraph_close() -> Seq<char> {
    seq!['<', '/', 'p', '>']
}

/// The line without the paragraph tags that wrap it; the line itself where
/// it is not wrapped in them.
pub open spec fn unwrapped(line: Seq<char>) -> Seq<char> {
    if line.len() >= 7 && starts_with(line, paragraph_open()) && ends_with(
        line,
        paragraph_close(),
    ) {
        line.subrange(3, line.len() - 4)
    } else {
        line
    }
}

/// The slug of a text; the empty text has the empty slug.
pub open spec fn slug_or_empty(text: Seq<char>) -> Seq<char> {
    if text.len() == 0 {
        Seq::empty()
    } else {
        slug_text(text)
    }
}

/// What a note is named after: its title, or without one the first line of
/// its body, taken out of its paragraph tags.
pub open spec fn name_source(title: Seq<char>, body: Seq<char>) -> Seq<char> {
    if title.len() > 0 {
        title
    } else {
        unwrapped(first_line(body))
    }
}

/// The two slugs joined by a slash; where one is empty, the other alone.
pub open spec fn joined(project_slug: Seq<char>, name_slug: Seq<char>) -> Seq<char> {
    if project_slug.len() == 0 {
        name_slug
    } else if name_slug.len() == 0 {
        project_slug
    } else {
        project_slug + seq!['/'] + name_slug
    }
}

/// The identifier of a note with the given project, title and body. It is
/// empty where neither the project nor the title nor the body gives a slug.
pub open spec fn id_text(project: Seq<char>, title: Seq<char>, body: Seq<char>) -> Seq<char> {
    joined(slug_or_empty(project), slug_or_empty(name_source(title, body)))
}

/// The form of an identifier that the builder gives: slugs, with one
/// slash between two of them.
pub open spec fn is_built_id(id: Seq<char>) -> bool {
    &&& forall|i: int| 0 <= i < id.len() ==> slug_char(#[trigger] id[i]) || id[i] == '/'
    &&& id.len() > 0 ==> id[0] != '/' && id.last() != '/'
}

/// The first line of a text.
pub fn first_line_of(text: &str) -> (line: String)
    ensures
        line@ == first_line(text@),
{
    let chars = chars_of(text);
    let mut feed: Vec<char> = Vec::new();
    feed.push('\n');
    match find(&chars, &feed, 0) {
        None => String::from_str(text),
        Some(end) => {
            proof {
                lemma_find_from(text@, seq!['\n'], 0);
            }
            if end > 0 && chars[end - 1] == '\r' {
                slice(text, 0, end - 1)
            } else {
                slice(text, 0, end)
            }
        },
    }
}

/// The line without the paragraph tags that wrap it.
pub fn unwrap_paragraph(line: &str) -> (inner: String)
    ensures
        inner@ == unwrapped(line@),
{
    let chars = chars_of(line);
    let n = chars.len();
    let mut open: Vec<char> = Vec::new();
    open.push('<');
    open.push('p');
    open.push('>');
    assert(open@ =~= paragraph_open());
    let mut close: Vec<char> = Vec::new();
    close.push('<');
    close.push('/');
    close.push('p');
    close.push('>');
    assert(close@ =~= paragraph_close());
    if n >= 7 && matches_at(&chars, &open, 0) && matches_at(&chars, &close, n - 4) {
        slice(line, 3, n - 4)
    } else {
        String::from_str(line)
    }
}

/// The slug of a text, for every value that the slug maker may hand back:
/// the empty text is given the empty slug without asking it.
pub fn slug_of(text: &str) -> (out: String)
    ensures
        out@ == slug_or_empty(text@),
        is_slug(out@),
{
    if text.is_empty() {
        String::new()
    } else {
        slug(text)
    }
}

/// Joins the slug of the project and the slug of the name to an identifier.
pub fn join_id(project_slug: &str, name_slug: &str) -> (id: String)
    ensures
        id@ == joined(project_slug@, name_slug@),
{
    if project_slug.is_empty() {
        String::from_str(name_slug)
    } else if name_slug.is_empty() {
        String::from_str(project_slug)
    } else {
        proof {
            reveal_strlit("/");
        }
        let mut id = String::from_str(project_slug);
        id.append("/");
        id.append(name_slug);
        id
    }
}

/// Two slugs joined to an identifier have the form of one, and never
/// lead out of the root.
pub proof fn lemma_joined_is_safe(project_slug: Seq<char>, name_slug: Seq<char>)
    requires
        is_slug(project_slug),
        is_slug(name_slug),
    ensures
        is_built_id(joined(project_slug, name_slug)),
        !escapes(joined(project_slug, name_slug)),
{
    let id = joined(project_slug, name_slug);
    // every character is a slug's or the slash, so none is a dot
    assert forall|i: int| 0 <= i < id.len() implies (slug_char(#[trigger] id[i]) || id[i] == '/')
        && id[i] != '.' by {}
    assert forall|i: int| !parent_segment_at(id, i) by {}
}

/// The identifier of a note with the given project, title and body: the
/// slug of the project and the slug of the title, joined by a slash. A note
/// without a title is named after the first line of its body. The result is
/// empty where nothing gives a slug; it never leads out of the root.
pub fn compute_id(project: &str, title: &str, body: &str) -> (id: String)
    ensures
        id@ == id_text(project@, title@, body@),
        is_built_id(id@),
        !escapes(id@),
{
    let project_slug = slug_of(project);
    let name_slug = if title.is_empty() {
        let line = first_line_of(body);
        let inner = unwrap_paragraph(line.as_str());
        slug_of(inner.as_str())
    } else {
        slug_of(title)
    };
    proof {
        lemma_joined_is_safe(project_slug@, name_slug@);
    }
    join_id(project_slug.as_str(), name_slug.as_str())
}

/// The same project, title and body always give the same identifier.
pub proof fn law_id_is_deterministic(
    project_a: Seq<char>,
    title_a: Seq<char>,
    body_a: Seq<char>,
    project_b: Seq<char>,
    title_b: Seq<char>,
    body_b: Seq<char>,
)
    requires
        project_a == project_b,
        title_a == title_b,
        body_a == body_b,
    ensures
        id_text(project_a, title_a, body_a) == id_text(project_b, title_b, body_b),
{
}

/// Without a project, a note with a title has the slug of its title as its
/// identifier, whatever its body.
pub proof fn law_id_of_title_alone(title: Seq<char>, body: Seq<char>)
    requires
        title.len() > 0,
    ensures
        id_text(Seq::empty(), title, body) == slug_text(title),
{
}

/// Without a project and a title, a note whose body has an empty first
/// line has the empty identifier.
pub proof fn law_id_of_nothing(body: Seq<char>)
    requires
        first_line(body).len() == 0,
    ensures
        id_text(Seq::empty(), Seq::empty(), body).len() == 0,
{
}

} // verus!
