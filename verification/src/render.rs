//! Rendering of a note's marked-up body, and what is read out of the
//! rendered text: the title and the body that follows it.

use crate::text::{trim, trimmed};
use vstd::prelude::*;

verus! {

/// The HTML that the `markdown` crate renders from a CommonMark text.
pub uninterp spec fn markdown_html(text: Seq<char>) -> Seq<char>;

/// The text of `html` after `lol_html` has removed, with its content, the
/// first element that the CSS selector matches; `None` where the selector
/// or the rewrite fails.
pub uninterp spec fn html_without(html: Seq<char>, selector: Seq<char>) -> Option<Seq<char>>;

/// The inner text of the first element of `html` that the selector matches
/// for the `tl` parser, or `None` where it parses nothing or finds none.
pub uninterp spec fn html_first_text(html: Seq<char>, selector: Seq<char>) -> Option<Seq<char>>;

/// Calls `markdown::to_html`, which compiles CommonMark to HTML with the
/// crate's default options. The result is a function of the text alone; the
/// contract gives it its name and claims nothing else.
#[verifier::external_body]
fn render_markdown(text: &str) -> (html: String)
    ensures
        html@ == markdown_html(text@),
{
    markdown::to_html(text)
}

/// Whether this is the first time of asking; from then on it is not.
fn first_time(seen: &mut bool) -> (first: bool)
    ensures
        first == !*old(seen),
        *final(seen),
{
    let first = !*seen;
    *seen = true;
    first
}

/// Calls `lol_html::rewrite_str` with one element handler, bound to the
/// given selector. The rewriter calls the handler for each matching element
/// in the order of the document; the handler removes the first one with
/// its content and leaves the others. A selector that does not parse and a
/// rewrite that fails both give `None`.
#[verifier::external_body]
fn remove_first_element(html: &str, selector: &str) -> (out: Option<String>)
    ensures
        match out {
            Some(text) => html_without(html@, selector@) == Some(text@),
            None => html_without(html@, selector@) is None,
        },
{
    let parsed = selector.parse::<lol_html::Selector>().ok()?;
    let mut seen = false;
    let drop_first = |el: &mut lol_html::html_content::Element| {
        if first_time(&mut seen) {
            el.remove();
        }
        Ok(())
    };
    let handlers = lol_html::ElementContentHandlers::default().element(drop_first);
    let settings = lol_html::RewriteStrSettings::new()
        .append_element_content_handler((std::borrow::Cow::Owned(parsed), handlers));
    lol_html::rewrite_str(html, settings).ok()
}

/// Calls `tl::parse` with the default options, then `query_selector` on the
/// document, and takes `inner_text` of the first tag it yields. A document
/// or selector that does not parse, and no match, all give `None`.
#[verifier::external_body]
fn first_element_text(html: &str, selector: &str) -> (out: Option<String>)
    ensures
        match out {
            Some(text) => html_first_text(html@, selector@) == Some(text@),
            None => html_first_text(html@, selector@) is None,
        },
{
    let dom = tl::parse(html, tl::ParserOptions::default()).ok()?;
    let handle = dom.query_selector(selector)?.next()?;
    let tag = handle.get(dom.parser())?.as_tag()?;
    Some(tag.inner_text(dom.parser()).into_owned())
}

/// The selector of a top-level heading.
pub open spec fn heading() -> Seq<char> {
    seq!['h', '1']
}

/// The title that a rendered body gives: the text of its first top-level
/// heading, or nothing where it has none.
pub open spec fn title_of(html: Seq<char>) -> Seq<char> {
    match html_first_text(html, heading()) {
        Some(text) => text,
        None => Seq::empty(),
    }
}

/// The body that a rendered body gives: what is left when the first
/// top-level heading is taken out, without the white space around it. Where
/// it cannot be taken out, the rendered body stands as it is.
pub open spec fn body_of(html: Seq<char>) -> Seq<char> {
    trimmed(
        match html_without(html, heading()) {
            Some(rest) => rest,
            None => html,
        },
    )
}

/// Renders a marked-up text.
pub fn render(text: &str) -> (html: String)
    ensures
        html@ == markdown_html(text@),
{
    render_markdown(text)
}

/// The title for what the search for a heading gave.
pub fn title_from(found: Option<String>) -> (title: String)
    ensures
        title@ == match found {
            Some(text) => text@,
            None => Seq::<char>::empty(),
        },
{
    match found {
        Some(text) => text,
        None => String::new(),
    }
}

/// The body for what the removal of the heading gave: that text, or the
/// rendered body itself where the removal failed, trimmed.
pub fn body_from(stripped: Option<String>, html: &str) -> (body: String)
    ensures
        body@ == trimmed(
            match stripped {
                Some(rest) => rest@,
                None => html@,
            },
        ),
{
    match stripped {
        Some(rest) => trim(rest.as_str()),
        None => trim(html),
    }
}

/// The title of a note with the given rendered body.
pub fn derive_title(html: &str) -> (title: String)
    ensures
        title@ == title_of(html@),
{
    proof {
        reveal_strlit("h1");
        assert("h1"@ =~= heading());
    }
    title_from(first_element_text(html, "h1"))
}

/// The body of a note with the given rendered body.
pub fn derive_body(html: &str) -> (body: String)
    ensures
        body@ == body_of(html@),
{
    proof {
        reveal_strlit("h1");
        assert("h1"@ =~= heading());
    }
    body_from(remove_first_element(html, "h1"), html)
}

} // verus!
