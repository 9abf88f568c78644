use crate::markup::{
    attribute_of, document_fits, element_attr, element_texts, parse_document, parse_selector,
    parsed_document, parsed_selector, select_in_document, select_in_element,
    selected_in_document, selected_in_element, selector_parses, text_view, texts_below,
    MAX_DOCUMENT_BYTES,
};
use vstd::string::StringSliceAdditionalSpecFns;
use vstd::prelude::*;

verus! {

/// A link inside a listing item.
#[derive(Debug)]
pub struct Link {
    /// The visible text of the link.
    pub text: String,
    /// The target of the link, if it has one.
    pub href: Option<String>,
}

/// One item of a listing page.
#[derive(Debug)]
pub struct Article {
    /// The title of the item, if its heading has one.
    pub title: Option<String>,
    /// The texts of the tag links of the item.
    pub tags: Vec<String>,
    /// The links of the item, in the order in which the markup yields them.
    pub links: Vec<Link>,
}

/// What the extraction reads of a listing page.
#[derive(Debug)]
pub struct Page {
    /// The page holds the heading that marks the end of the listing.
    pub end_of_listing: bool,
    /// The items of the page, in the order in which the markup yields them;
    /// none where the page marks
    /// the end of the listing.
    pub articles: Vec<Article>,
}

/// What a [`Link`] stands for in contracts.
pub struct LinkView {
    pub text: Seq<char>,
    pub href: Option<Seq<char>>,
}

/// What an [`Article`] stands for in contracts.
pub struct ArticleView {
    pub title: Option<Seq<char>>,
    pub tags: Seq<Seq<char>>,
    pub links: Seq<LinkView>,
}

/// What a [`Page`] stands for in contracts.
pub struct PageView {
    pub end_of_listing: bool,
    pub articles: Seq<ArticleView>,
}

impl View for Link {
    type V = LinkView;

    open spec fn view(&self) -> LinkView {
        LinkView {
            text: self.text@,
            href: match self.href {
                Some(href) => Some(href@),
                None => None,
            },
        }
    }
}

impl View for Article {
    type V = ArticleView;

    open spec fn view(&self) -> ArticleView {
        ArticleView {
            title: match self.title {
                Some(title) => Some(title@),
                None => None,
            },
            tags: self.tags@.map_values(|tag: String| tag@),
            links: self.links@.map_values(|link: Link| link@),
        }
    }
}

impl View for Page {
    type V = PageView;

    open spec fn view(&self) -> PageView {
        PageView {
            end_of_listing: self.end_of_listing,
            articles: self.articles@.map_values(|article: Article| article@),
        }
    }
}

/// The queries that read a listing page, parsed once and used for every page.
pub struct Selectors {
    article: scraper::Selector,
    link: scraper::Selector,
    page_end: scraper::Selector,
    tag: scraper::Selector,
    title: scraper::Selector,
}

/// The selector of the items of a page.
pub open spec fn article_css() -> Seq<char> {
    "article"@
}

/// The selector of the links of an item.
pub open spec fn link_css() -> Seq<char> {
    "a"@
}

/// The selector of the heading that marks the end of the listing.
pub open spec fn page_end_css() -> Seq<char> {
    "h1.page-title"@
}

/// The selector of the tag links of an item.
pub open spec fn tag_css() -> Seq<char> {
    "div.entry-content > p > a:not(:first-child)"@
}

/// The selector of the title of an item.
pub open spec fn title_css() -> Seq<char> {
    "header > h1.entry-title > a"@
}

/// What [`Selectors`] stands for in contracts.
pub struct SelectorsView {
    pub article: scraper::Selector,
    pub link: scraper::Selector,
    pub page_end: scraper::Selector,
    pub tag: scraper::Selector,
    pub title: scraper::Selector,
}

/// The five queries as the selector parser reads them.
pub open spec fn queries() -> SelectorsView {
    SelectorsView {
        article: parsed_selector(article_css())->0,
        link: parsed_selector(link_css())->0,
        page_end: parsed_selector(page_end_css())->0,
        tag: parsed_selector(tag_css())->0,
        title: parsed_selector(title_css())->0,
    }
}

impl View for Selectors {
    type V = SelectorsView;

    closed spec fn view(&self) -> SelectorsView {
        SelectorsView {
            article: self.article,
            link: self.link,
            page_end: self.page_end,
            tag: self.tag,
            title: self.title,
        }
    }
}

impl Selectors {
    #[verifier::type_invariant]
    spec fn holds_the_queries(self) -> bool {
        self@ == queries()
    }

    /// Parses the five queries. Fails exactly when the selector parser
    /// rejects one of them; what it gives holds the five as parsed.
    pub fn new() -> (selectors: Option<Selectors>)
        ensures
            selectors is Some <==> selector_parses(article_css()) && selector_parses(link_css())
                && selector_parses(page_end_css()) && selector_parses(tag_css())
                && selector_parses(title_css()),
            selectors matches Some(parsed) ==> parsed@ == queries(),
    {
        let article = parse_selector("article");
        let link = parse_selector("a");
        let page_end = parse_selector("h1.page-title");
        let tag = parse_selector("div.entry-content > p > a:not(:first-child)");
        let title = parse_selector("header > h1.entry-title > a");
        match (article, link, page_end, tag, title) {
            (Some(article), Some(link), Some(page_end), Some(tag), Some(title)) => Some(
                Selectors { article, link, page_end, tag, title },
            ),
            _ => None,
        }
    }
}

/// The characters of each of a sequence of texts.
pub open spec fn text_views(texts: Seq<String>) -> Seq<Seq<char>> {
    texts.map_values(|text: String| text@)
}

/// Joins texts in order, with nothing between them.
pub fn join_texts(parts: &Vec<String>) -> (text: String)
    ensures
        text@ == text_views(parts@).flatten(),
{
    let ghost views = text_views(parts@);
    let mut text = String::new();
    let mut i: usize = 0;
    assert(views.take(0) =~= Seq::empty());
    while i < parts.len()
        invariant
            i <= parts.len(),
            views == text_views(parts@),
            text@ == views.take(i as int).flatten(),
        decreases parts.len() - i,
    {
        proof {
            views.take(i as int).lemma_flatten_push(views[i as int]);
            assert(views.take(i + 1) =~= views.take(i as int).push(views[i as int]));
        }
        text.append(parts[i].as_str());
        i = i + 1;
    }
    assert(views.take(i as int) =~= views);
    text
}

/// The first of a sequence of texts, if there is one.
pub fn first_text(texts: &Vec<String>) -> (first: Option<String>)
    ensures
        match first {
            Some(text) => texts.len() > 0 && text@ == texts[0]@,
            None => texts.len() == 0,
        },
{
    if texts.len() == 0 {
        None
    } else {
        Some(texts[0].clone())
    }
}

/// The text of an element: the text nodes below it, joined in order.
pub open spec fn text_in(element: scraper::ElementRef) -> Seq<char> {
    texts_below(element).flatten()
}

/// The title of an item: the first text node below the first element that
/// the title query finds in the item, if there is one.
pub open spec fn title_in(item: scraper::ElementRef) -> Option<Seq<char>> {
    let headings = selected_in_element(item, queries().title);
    if headings.len() == 0 || texts_below(headings[0]).len() == 0 {
        None
    } else {
        Some(texts_below(headings[0])[0])
    }
}

/// The tags of an item: the texts of the elements that the tag query finds
/// in the item, in order.
pub open spec fn tags_in(item: scraper::ElementRef) -> Seq<Seq<char>> {
    let found = selected_in_element(item, queries().tag);
    Seq::new(found.len(), |i: int| text_in(found[i]))
}

/// A link as it is read from its element: its text, and its `href`
/// attribute as its target.
pub open spec fn link_in(element: scraper::ElementRef) -> LinkView {
    LinkView { text: text_in(element), href: attribute_of(element, "href"@) }
}

/// The links of an item: the elements that the link query finds in the
/// item, in order.
pub open spec fn links_in(item: scraper::ElementRef) -> Seq<LinkView> {
    let found = selected_in_element(item, queries().link);
    Seq::new(found.len(), |i: int| link_in(found[i]))
}

/// An item as it is read from its element.
pub open spec fn article_in(item: scraper::ElementRef) -> ArticleView {
    ArticleView { title: title_in(item), tags: tags_in(item), links: links_in(item) }
}

/// The page that a markup text holds. A text too long for the markup parser
/// holds no page: it is taken as a page without items. Where the document
/// holds an element that the end-of-listing query matches, the page marks the
/// end and has no items; otherwise its items are the elements that the item
/// query finds, in order.
pub open spec fn page_of(text: Seq<char>) -> PageView {
    let document = parsed_document(text);
    if !document_fits(text) {
        PageView { end_of_listing: false, articles: Seq::empty() }
    } else if selected_in_document(&document, queries().page_end).len() > 0 {
        PageView { end_of_listing: true, articles: Seq::empty() }
    } else {
        let found = selected_in_document(&document, queries().article);
        PageView {
            end_of_listing: false,
            articles: Seq::new(found.len(), |i: int| article_in(found[i])),
        }
    }
}

/// The text nodes below an element, joined in the order in which the element
/// yields them.
fn joined_text(element: &scraper::ElementRef<'_>) -> (text: String)
    ensures
        text@ == text_in(*element),
{
    let parts = element_texts(element);
    join_texts(&parts)
}

/// The first text node below the first element that the title query finds
/// in an item.
fn read_title(element: &scraper::ElementRef<'_>, selectors: &Selectors) -> (title: Option<
    String,
>)
    ensures
        text_view(title) == title_in(*element),
{
    proof {
        use_type_invariant(selectors);
    }
    let headings = select_in_element(element, &selectors.title);
    if headings.len() == 0 {
        return None;
    }
    let texts = element_texts(&headings[0]);
    first_text(&texts)
}

/// The texts of the tag links of an item.
fn read_tags(element: &scraper::ElementRef<'_>, selectors: &Selectors) -> (tags: Vec<String>)
    ensures
        text_views(tags@) == tags_in(*element),
{
    proof {
        use_type_invariant(selectors);
    }
    let found = select_in_element(element, &selectors.tag);
    let mut tags: Vec<String> = Vec::new();
    let mut i: usize = 0;
    while i < found.len()
        invariant
            i <= found.len(),
            found@ == selected_in_element(*element, queries().tag),
            tags.len() == i,
            forall|k: int| 0 <= k < i ==> (#[trigger] tags[k])@ == text_in(found[k]),
        decreases found.len() - i,
    {
        tags.push(joined_text(&found[i]));
        i = i + 1;
    }
    assert(text_views(tags@) =~= tags_in(*element));
    tags
}

/// The links of an item, each with its text and its target.
fn read_links(element: &scraper::ElementRef<'_>, selectors: &Selectors) -> (links: Vec<Link>)
    ensures
        links@.map_values(|link: Link| link@) == links_in(*element),
{
    proof {
        use_type_invariant(selectors);
    }
    let found = select_in_element(element, &selectors.link);
    let mut links: Vec<Link> = Vec::new();
    let mut i: usize = 0;
    while i < found.len()
        invariant
            i <= found.len(),
            found@ == selected_in_element(*element, queries().link),
            links.len() == i,
            forall|k: int| 0 <= k < i ==> (#[trigger] links[k])@ == link_in(found[k]),
        decreases found.len() - i,
    {
        links.push(Link { text: joined_text(&found[i]), href: element_attr(&found[i], "href") });
        i = i + 1;
    }
    assert(links@.map_values(|link: Link| link@) =~= links_in(*element));
    links
}

/// Reads a listing page from its markup: the items that the item query
/// finds, each with the first text of its heading link as its title, the
/// joined texts of its tag links, and its links with their joined texts and
/// their targets. A page that holds the end-of-listing heading is read no
/// further, and a text too long for the markup parser is not parsed: it
/// reads as a page without items. What the markup parser and the queries
/// find is theirs to say; the page is put together from it as [`page_of`]
/// tells.
pub fn read_page(text: &str, selectors: &Selectors) -> (page: Page)
    ensures
        page@ == page_of(text@),
        page.end_of_listing ==> page.articles@.len() == 0,
{
    proof {
        use_type_invariant(selectors);
    }
    let mut articles: Vec<Article> = Vec::new();
    if text.as_bytes().len() > MAX_DOCUMENT_BYTES {
        let page = Page { end_of_listing: false, articles };
        assert(page@.articles =~= Seq::empty());
        return page;
    }
    let document = parse_document(text);
    if select_in_document(&document, &selectors.page_end).len() > 0 {
        let page = Page { end_of_listing: true, articles };
        assert(page@.articles =~= Seq::empty());
        return page;
    }
    let found = select_in_document(&document, &selectors.article);
    let mut i: usize = 0;
    while i < found.len()
        invariant
            i <= found.len(),
            found@ == selected_in_document(&document, queries().article),
            selectors@ == queries(),
            articles.len() == i,
            forall|k: int| 0 <= k < i ==> (#[trigger] articles[k])@ == article_in(found[k]),
        decreases found.len() - i,
    {
        articles.push(
            Article {
                title: read_title(&found[i], selectors),
                tags: read_tags(&found[i], selectors),
                links: read_links(&found[i], selectors),
            },
        );
        i = i + 1;
    }
    let page = Page { end_of_listing: false, articles };
    assert(page@.articles =~= page_of(text@).articles);
    page
}

} // verus!
