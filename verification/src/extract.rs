//! From the markup of a page to the text that the persona learns from.

use crate::text::{blank, is_blank, join, joined};
use vstd::prelude::*;
use vstd::string::{StrSliceExecFns, StringExecFns};

verus! {

/// How many characters a page may have to be read. The parser keeps the
/// page, and each text in it, in buffers that grow by doubling and hold
/// less than 2^32 bytes. A page within this limit has at most 2^26 bytes,
/// and no text that the parser makes of it is more than three times as
/// long as the page.
pub const MAX_PAGE_CHARS: usize = 0x100_0000;

/// How many characters a selector may have to be applied.
pub const MAX_SELECTOR_CHARS: usize = 32;

/// Whether `page` is short enough to be read.
pub open spec fn readable(page: Seq<char>) -> bool {
    page.len() <= MAX_PAGE_CHARS
}

/// A document as `scraper` holds it once it is parsed.
#[verifier::external_type_specification]
#[verifier::external_body]
pub struct ExHtml(scraper::Html);

/// What `scraper` finds in a parsed document under the CSS selector
/// `selector`: for each element that matches, in the order in which
/// `scraper` hands them out, the text nodes below it, in document order.
/// `None` where `selector` is no valid selector.
pub uninterp spec fn selected_in(document: scraper::Html, selector: Seq<char>) -> Option<
    Seq<Seq<Seq<char>>>,
>;

/// What `scraper` finds under the CSS selector `selector` in the document
/// that it parses `page` to.
pub uninterp spec fn selected_text(page: Seq<char>, selector: Seq<char>) -> Option<
    Seq<Seq<Seq<char>>>,
>;

/// Parses `page` with `scraper::Html::parse_document`. The contract
/// claims only that the document is decided by the text of the page: what
/// is found in it is what is found in the page. Longer pages are left
/// out, since the parser stops the program when a buffer of it overflows.
#[verifier::external_body]
fn parse_page(page: &str) -> (document: scraper::Html)
    requires
        readable(page@),
    ensures
        forall|selector: Seq<char>| #[trigger]
            selected_in(document, selector) == selected_text(page@, selector),
{
    scraper::Html::parse_document(page)
}

/// Parses `selector` with `scraper::Selector::parse`, walks
/// `Html::select` on `document` and reads each element's
/// `ElementRef::text`. The contract claims only that what comes out is
/// decided by the document and the selector. Longer selectors are left
/// out, since the selector parser goes as deep as the selector is nested.
#[verifier::external_body]
fn select_text(document: &scraper::Html, selector: &str) -> (found: Option<Vec<Vec<String>>>)
    requires
        selector@.len() <= MAX_SELECTOR_CHARS,
    ensures
        found.deep_view() == selected_in(*document, selector@),
{
    let selector = scraper::Selector::parse(selector).ok()?;
    let elements = document.select(&selector);
    Some(elements.map(|element| element.text().map(String::from).collect()).collect())
}

/// How many selectors a page is searched with.
pub const SELECTOR_COUNT: usize = 10;

/// The selectors that a page is searched with, in the order in which they
/// are applied: paragraphs, articles, the usual content classes and ids,
/// wiki content, character and profile boxes.
pub open spec fn selector_text(at: int) -> Seq<char> {
    if at == 0 {
        "p"@
    } else if at == 1 {
        "article"@
    } else if at == 2 {
        ".content"@
    } else if at == 3 {
        ".article"@
    } else if at == 4 {
        "main"@
    } else if at == 5 {
        "#content"@
    } else if at == 6 {
        ".wiki-content"@
    } else if at == 7 {
        ".mw-parser-output"@
    } else if at == 8 {
        ".character-info"@
    } else {
        ".profile-content"@
    }
}

/// No selector is too long to be applied.
pub proof fn lemma_selectors_are_short(at: int)
    ensures
        selector_text(at).len() <= MAX_SELECTOR_CHARS,
{
    reveal_strlit("p");
    reveal_strlit("article");
    reveal_strlit(".content");
    reveal_strlit(".article");
    reveal_strlit("main");
    reveal_strlit("#content");
    reveal_strlit(".wiki-content");
    reveal_strlit(".mw-parser-output");
    reveal_strlit(".character-info");
    reveal_strlit(".profile-content");
}

/// The selector that is applied at place `at`.
fn selector(at: usize) -> (out: &'static str)
    requires
        at < SELECTOR_COUNT,
    ensures
        out@ == selector_text(at as int),
        out@.len() <= MAX_SELECTOR_CHARS,
{
    proof {
        lemma_selectors_are_short(at as int);
    }
    if at == 0 {
        "p"
    } else if at == 1 {
        "article"
    } else if at == 2 {
        ".content"
    } else if at == 3 {
        ".article"
    } else if at == 4 {
        "main"
    } else if at == 5 {
        "#content"
    } else if at == 6 {
        ".wiki-content"
    } else if at == 7 {
        ".mw-parser-output"
    } else if at == 8 {
        ".character-info"
    } else {
        ".profile-content"
    }
}

/// The text that one element adds: its text nodes with a space between
/// each two, and a blank line after them; nothing where that is blank.
pub open spec fn element_text(nodes: Seq<Seq<char>>) -> Seq<char> {
    let text = joined(nodes, " "@);
    if blank(text) {
        Seq::empty()
    } else {
        text + "\n\n"@
    }
}

/// The text that a run of elements adds, one after the other.
pub open spec fn elements_text(elements: Seq<Seq<Seq<char>>>) -> Seq<char>
    decreases elements.len(),
{
    if elements.len() == 0 {
        Seq::empty()
    } else {
        elements_text(elements.drop_last()) + element_text(elements.last())
    }
}

/// The text that one selector adds: nothing where it is no valid selector.
pub open spec fn selection_text(found: Option<Seq<Seq<Seq<char>>>>) -> Seq<char> {
    match found {
        Some(elements) => elements_text(elements),
        None => Seq::empty(),
    }
}

/// The text that the first `upto` selectors add.
pub open spec fn content_upto(page: Seq<char>, upto: int) -> Seq<char>
    decreases upto,
{
    if upto <= 0 {
        Seq::empty()
    } else {
        content_upto(page, upto - 1) + selection_text(
            selected_text(page, selector_text(upto - 1)),
        )
    }
}

/// The text of a page: what each selector adds, in the selectors' order.
pub open spec fn content_of(page: Seq<char>) -> Seq<char> {
    content_upto(page, SELECTOR_COUNT as int)
}

/// Adds to `content` the text of `elements`, each given by its text nodes.
pub fn gather_text(content: &mut String, elements: &Vec<Vec<String>>)
    ensures
        final(content)@ == old(content)@ + elements_text(elements.deep_view()),
{
    let ghost all = elements.deep_view();
    let mut at: usize = 0;
    proof {
        assert(all.take(0) =~= Seq::empty());
    }
    while at < elements.len()
        invariant
            at <= elements.len(),
            all == elements.deep_view(),
            content@ == old(content)@ + elements_text(all.take(at as int)),
        decreases elements.len() - at,
    {
        proof {
            assert(all.take(at + 1).drop_last() =~= all.take(at as int));
            assert(all.take(at + 1).last() == elements@[at as int].deep_view());
        }
        let text = join(&elements[at], " ");
        if !is_blank(text.as_str()) {
            content.append(text.as_str());
            content.append("\n\n");
        }
        at += 1;
    }
    proof {
        assert(all.take(at as int) =~= all);
    }
}

/// The text of `page`: for each selector in turn, the text of every
/// element that it matches. The page is parsed once.
pub fn extract_content(page: &str) -> (content: String)
    requires
        readable(page@),
    ensures
        content@ == content_of(page@),
{
    let document = parse_page(page);
    let mut content = String::new();
    let mut at: usize = 0;
    while at < SELECTOR_COUNT
        invariant
            at <= SELECTOR_COUNT,
            forall|selector: Seq<char>| #[trigger]
                selected_in(document, selector) == selected_text(page@, selector),
            content@ == content_upto(page@, at as int),
        decreases SELECTOR_COUNT - at,
    {
        match select_text(&document, selector(at)) {
            Some(elements) => {
                gather_text(&mut content, &elements);
            },
            None => {},
        }
        at += 1;
    }
    content
}

/// The text of `page`, where the page is short enough to be read.
pub open spec fn read_of(page: Seq<char>) -> Option<Seq<char>> {
    if readable(page) {
        Some(content_of(page))
    } else {
        None
    }
}

/// The text of `page`, where the page is short enough to be read; nothing
/// of a longer one.
pub fn read_page(page: &str) -> (content: Option<String>)
    ensures
        content.deep_view() == read_of(page@),
{
    if page.unicode_len() <= MAX_PAGE_CHARS {
        Some(extract_content(page))
    } else {
        None
    }
}

} // verus!
