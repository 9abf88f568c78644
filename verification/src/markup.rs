use vstd::prelude::*;

verus! {

/// `scraper::Html`, a parsed document: a tree of nodes. Opaque here; what the
/// library reads of it is named below.
#[verifier::external_type_specification]
#[verifier::external_body]
pub struct ExHtml(scraper::Html);

/// `scraper::Selector`, a parsed selector group; opaque here.
#[verifier::external_type_specification]
#[verifier::external_body]
pub struct ExSelector(scraper::Selector);

/// `scraper::ElementRef`, a handle on one element of a document, with the
/// nodes below it. Opaque here; what the library reads of it is named below.
#[verifier::external_type_specification]
#[verifier::external_body]
pub struct ExElementRef<'a>(scraper::ElementRef<'a>);

/// What `Selector::parse` makes of a text: the selector group, or nothing
/// where the text is no CSS selector group. The grammar is the outside
/// parser's; the result is named here and not restated.
pub uninterp spec fn parsed_selector(css: Seq<char>) -> Option<scraper::Selector>;

/// Whether `Selector::parse` accepts a text as a CSS selector group.
pub open spec fn selector_parses(css: Seq<char>) -> bool {
    parsed_selector(css) is Some
}

/// The longest text, in bytes, that is handed to the markup parser. The
/// parser keeps the text, and the text of each node that it builds, in
/// buffers whose lengths are 32-bit numbers and whose capacities are rounded
/// up to a power of two; it panics where one outgrows them. The limit is a
/// sixteenth of what such a length can hold: a node's text comes from the
/// text of the page, and a byte of the page gives at most three bytes of it
/// (a NUL becomes a replacement character).
pub const MAX_DOCUMENT_BYTES: usize = 0x0FFF_FFFF;

/// A text is short enough to be handed to the markup parser.
pub open spec fn document_fits(text: Seq<char>) -> bool {
    vstd::utf8::encode_utf8(text).len() <= MAX_DOCUMENT_BYTES
}

/// The tree that `Html::parse_document` builds from a text. The parsing rules
/// are the outside parser's; the result is named here and not restated.
pub uninterp spec fn parsed_document(text: Seq<char>) -> scraper::Html;

/// The elements that a document holds and a selector matches, in the order
/// in which `Html::select` yields them. Matching is the outside crate's; the
/// result is named here and not restated.
pub uninterp spec fn selected_in_document(
    document: &scraper::Html,
    selector: scraper::Selector,
) -> Seq<scraper::ElementRef>;

/// The descendants that an element holds and a selector matches, in the
/// order in which `ElementRef::select` yields them.
pub uninterp spec fn selected_in_element(
    element: scraper::ElementRef,
    selector: scraper::Selector,
) -> Seq<scraper::ElementRef>;

/// The text nodes that an element holds below it, in the order in which
/// `ElementRef::text` yields them.
pub uninterp spec fn texts_below(element: scraper::ElementRef) -> Seq<Seq<char>>;

/// The value that an element holds for an attribute, as `ElementRef::attr`
/// gives it; nothing where the element lacks the attribute.
pub uninterp spec fn attribute_of(element: scraper::ElementRef, name: Seq<char>) -> Option<
    Seq<char>,
>;

/// The characters of an optional text.
pub open spec fn text_view(text: Option<String>) -> Option<Seq<char>> {
    match text {
        Some(text) => Some(text@),
        None => None,
    }
}

/// Calls `Selector::parse`. The result depends on the text alone:
/// [`parsed_selector`] names it.
#[verifier::external_body]
pub(crate) fn parse_selector(css: &str) -> (selector: Option<scraper::Selector>)
    ensures
        selector == parsed_selector(css@),
{
    scraper::Selector::parse(css).ok()
}

/// Calls `Html::parse_document`. The parser recovers from malformed markup,
/// so every text that fits yields a tree; on a text of more than `u32::MAX`
/// bytes it panics, so the text must fit. The tree depends on the text alone:
/// [`parsed_document`] names it.
#[verifier::external_body]
pub(crate) fn parse_document(text: &str) -> (document: scraper::Html)
    requires
        document_fits(text@),
    ensures
        document == parsed_document(text@),
{
    scraper::Html::parse_document(text)
}

/// Calls `Html::select` and collects the elements that its iterator yields,
/// in that order: the elements that [`selected_in_document`] names.
#[verifier::external_body]
pub(crate) fn select_in_document<'a>(
    document: &'a scraper::Html,
    selector: &scraper::Selector,
) -> (elements: Vec<scraper::ElementRef<'a>>)
    ensures
        elements@ == selected_in_document(document, *selector),
{
    document.select(selector).collect()
}

/// Calls `ElementRef::select` and collects the descendants that its iterator
/// yields, in that order: the elements that [`selected_in_element`] names.
#[verifier::external_body]
pub(crate) fn select_in_element<'a>(
    element: &scraper::ElementRef<'a>,
    selector: &scraper::Selector,
) -> (elements: Vec<scraper::ElementRef<'a>>)
    ensures
        elements@ == selected_in_element(*element, *selector),
{
    element.select(selector).collect()
}

/// Calls `ElementRef::text` and collects the text nodes that its iterator
/// yields, in that order: the texts that [`texts_below`] names.
#[verifier::external_body]
pub(crate) fn element_texts(element: &scraper::ElementRef<'_>) -> (texts: Vec<String>)
    ensures
        texts@.map_values(|text: String| text@) == texts_below(*element),
{
    element.text().map(String::from).collect()
}

/// Calls `ElementRef::attr`: the value of the attribute, if the element has
/// it, which [`attribute_of`] names.
#[verifier::external_body]
pub(crate) fn element_attr(element: &scraper::ElementRef<'_>, name: &str) -> (value: Option<
    String,
>)
    ensures
        text_view(value) == attribute_of(*element, name@),
{
    element.attr(name).map(String::from)
}

} // verus!
