use fitgirl_torrent_scrap::extract_links::{
    candidate, download_worker, extract, extract_candidates, extract_links, item_is_adult,
    link_qualifies, Extraction, WorkerAction, WorkerEvent,
};
use fitgirl_torrent_scrap::listing::{
    first_text, join_texts, read_page, Article, Link, Page, Selectors,
};
use fitgirl_torrent_scrap::markup::MAX_DOCUMENT_BYTES;
use fitgirl_torrent_scrap::termination::{react, Reaction, Trigger};
use fitgirl_torrent_scrap::FilterType;

const MARKER: &str = ".torrent file only";

fn link(text: &str, href: Option<&str>) -> Link {
    Link { text: text.to_string(), href: href.map(str::to_string) }
}

fn article(title: Option<&str>, tags: &[&str], links: Vec<Link>) -> Article {
    Article {
        title: title.map(str::to_string),
        tags: tags.iter().map(|t| t.to_string()).collect(),
        links,
    }
}

fn pairs(extraction: &Extraction) -> Vec<(String, String)> {
    match extraction {
        Extraction::EndOfListing => panic!("end of listing"),
        Extraction::Candidates(games) => {
            games.iter().map(|g| (g.title().clone(), g.paste_url().clone())).collect()
        }
    }
}

fn item_markup(title: &str, tags: &[&str], links: &[(&str, &str)]) -> String {
    let mut tag_links = String::from("<a href=\"/genre\">Genres</a>");
    for tag in tags {
        tag_links.push_str(&format!("<a href=\"/tag\">{tag}</a>"));
    }
    let mut item_links = String::new();
    for (text, href) in links {
        item_links.push_str(&format!("<li><a href=\"{href}\">{text}</a></li>"));
    }
    format!(
        "<article><header><h1 class=\"entry-title\"><a href=\"/item\">{title}</a></h1></header>\
         <div class=\"entry-content\"><p>{tag_links}</p><ul>{item_links}</ul></div></article>"
    )
}

fn page_markup(items: &[String]) -> String {
    format!("<html><head><title>t</title></head><body>{}</body></html>", items.concat())
}

fn end_markup() -> String {
    "<html><body><h1 class=\"page-title\">Oops! That page can&rsquo;t be found.</h1></body></html>"
        .to_string()
}

#[test]
fn link_qualifies_by_text_target_and_host() {
    assert!(link_qualifies(&link(MARKER, Some("https://paste.example/?a#b"))));
    assert!(!link_qualifies(&link(MARKER, None)));
    assert!(!link_qualifies(&link(MARKER, Some("https://sendfile.su/abc"))));
    assert!(!link_qualifies(&link(".torrent file only ", Some("https://paste.example/?a#b"))));
    assert!(!link_qualifies(&link(".Torrent file only", Some("https://paste.example/?a#b"))));
    assert!(!link_qualifies(&link("magnet", Some("https://paste.example/?a#b"))));
    assert!(!link_qualifies(&link("", Some("https://paste.example/?a#b"))));
}

#[test]
fn item_is_adult_by_title_or_tag_in_any_case() {
    let tags = |t: &[&str]| t.iter().map(|s| s.to_string()).collect::<Vec<String>>();
    assert!(item_is_adult("An ADULT Game", &tags(&[])));
    assert!(item_is_adult("A Game", &tags(&["Action", "Adult"])));
    assert!(item_is_adult("A Game", &tags(&["adult"])));
    assert!(item_is_adult("A Game", &tags(&["RPG", "3D", "ADULT"])));
    assert!(!item_is_adult("A Game", &tags(&["Action", "RPG"])));
    assert!(!item_is_adult("A Game", &tags(&[])));
}

#[test]
fn candidate_takes_the_first_qualifying_link() {
    let item = article(
        Some("A Game"),
        &["Action"],
        vec![
            link("magnet", Some("magnet:?x")),
            link(MARKER, Some("https://sendfile.su/1")),
            link(MARKER, None),
            link(MARKER, Some("https://paste.example/?first#k")),
            link(MARKER, Some("https://paste.example/?second#k")),
        ],
    );
    let game = candidate(&item, FilterType::All).expect("a candidate");
    assert_eq!(game.title(), "A Game");
    assert_eq!(game.paste_url(), "https://paste.example/?first#k");
}

#[test]
fn item_without_qualifying_link_yields_no_candidate() {
    let item = article(
        Some("A Game"),
        &[],
        vec![link("magnet", Some("magnet:?x")), link(MARKER, Some("http://sendfile.su/1"))],
    );
    assert!(candidate(&item, FilterType::All).is_none());
    assert!(candidate(&article(Some("A Game"), &[], Vec::new()), FilterType::All).is_none());
}

#[test]
fn item_without_title_yields_no_candidate() {
    let item = article(None, &[], vec![link(MARKER, Some("https://paste.example/?a#k"))]);
    assert!(candidate(&item, FilterType::All).is_none());
    assert!(candidate(&item, FilterType::AdultOnly).is_none());
    assert!(candidate(&item, FilterType::NoAdult).is_none());
}

#[test]
fn filters_decide_by_the_adult_mark() {
    let marked_by_title =
        article(Some("Adult Game"), &[], vec![link(MARKER, Some("https://paste.example/?a#k"))]);
    let marked_by_tag = article(
        Some("Some Game"),
        &["Action", "ADULT"],
        vec![link(MARKER, Some("https://paste.example/?b#k"))],
    );
    let unmarked = article(
        Some("Plain Game"),
        &["Action"],
        vec![link(MARKER, Some("https://paste.example/?c#k"))],
    );
    for marked in [&marked_by_title, &marked_by_tag] {
        assert!(candidate(marked, FilterType::AdultOnly).is_some());
        assert!(candidate(marked, FilterType::NoAdult).is_none());
        assert!(candidate(marked, FilterType::All).is_some());
    }
    assert!(candidate(&unmarked, FilterType::AdultOnly).is_none());
    assert!(candidate(&unmarked, FilterType::NoAdult).is_some());
    assert!(candidate(&unmarked, FilterType::All).is_some());
}

#[test]
fn candidates_keep_the_order_of_the_items() {
    let items = vec![
        article(Some("One"), &[], vec![link(MARKER, Some("u1"))]),
        article(Some("Two"), &[], Vec::new()),
        article(None, &[], vec![link(MARKER, Some("u3"))]),
        article(Some("Four (Adult)"), &[], vec![link(MARKER, Some("u4"))]),
        article(Some("Five"), &[], vec![link(MARKER, Some("u5"))]),
    ];
    let games = extract_candidates(&items, FilterType::NoAdult);
    let found: Vec<(&str, &str)> =
        games.iter().map(|g| (g.title().as_str(), g.paste_url().as_str())).collect();
    assert_eq!(found, vec![("One", "u1"), ("Five", "u5")]);
    assert!(extract_candidates(&Vec::new(), FilterType::All).is_empty());
}

#[test]
fn page_at_the_end_of_the_listing_yields_only_the_stop() {
    let page = Page {
        end_of_listing: true,
        articles: vec![article(Some("One"), &[], vec![link(MARKER, Some("u1"))])],
    };
    assert!(matches!(extract(&page, FilterType::All), Extraction::EndOfListing));
    let page = Page { end_of_listing: false, articles: Vec::new() };
    assert!(pairs(&extract(&page, FilterType::All)).is_empty());
}

#[test]
fn selectors_parse() {
    assert!(Selectors::new().is_some());
}

#[test]
fn page_is_read_from_markup() {
    let selectors = Selectors::new().expect("selectors");
    let text = page_markup(&[
        item_markup(
            "First Game",
            &["Action", "Adult"],
            &[("magnet", "magnet:?x"), (MARKER, "https://paste.example/?1#k")],
        ),
        item_markup("Second Game", &[], &[]),
    ]);
    let page = read_page(&text, &selectors);
    assert!(!page.end_of_listing);
    assert_eq!(page.articles.len(), 2);
    let first = &page.articles[0];
    assert_eq!(first.title.as_deref(), Some("First Game"));
    assert_eq!(first.tags, vec!["Action".to_string(), "Adult".to_string()]);
    let texts: Vec<&str> = first.links.iter().map(|l| l.text.as_str()).collect();
    assert_eq!(texts, vec!["First Game", "Genres", "Action", "Adult", "magnet", MARKER]);
    assert_eq!(first.links[5].href.as_deref(), Some("https://paste.example/?1#k"));
    let second = &page.articles[1];
    assert_eq!(second.title.as_deref(), Some("Second Game"));
    assert!(second.tags.is_empty());
}

#[test]
fn link_text_is_joined_over_nested_markup() {
    let selectors = Selectors::new().expect("selectors");
    let text = page_markup(&["<article><header><h1 class=\"entry-title\"><a href=\"/i\">Game</a>\
        </h1></header><div class=\"entry-content\"><ul><li>\
        <a href=\"https://paste.example/?1#k\">.torrent <b>file</b> only</a></li>\
        <li><a>.torrent file only</a></li></ul></div></article>"
        .to_string()]);
    let page = read_page(&text, &selectors);
    assert_eq!(page.articles.len(), 1);
    let links = &page.articles[0].links;
    assert_eq!(links[1].text, MARKER);
    assert_eq!(links[1].href.as_deref(), Some("https://paste.example/?1#k"));
    assert_eq!(links[2].text, MARKER);
    assert_eq!(links[2].href, None);
}

#[test]
fn title_is_the_first_text_of_the_heading_link() {
    let selectors = Selectors::new().expect("selectors");
    let text = page_markup(&[
        "<article><header><h1 class=\"entry-title\"><a href=\"/i\">Game &#8211; <i>v2</i></a>\
         </h1></header></article>"
            .to_string(),
        "<article><header><h1 class=\"entry-title\"><a href=\"/i\"></a></h1></header></article>"
            .to_string(),
        "<article><header><h2>No heading link</h2></header></article>".to_string(),
    ]);
    let page = read_page(&text, &selectors);
    assert_eq!(page.articles.len(), 3);
    assert_eq!(page.articles[0].title.as_deref(), Some("Game \u{2013} "));
    assert_eq!(page.articles[1].title, None);
    assert_eq!(page.articles[2].title, None);
}

#[test]
fn end_of_listing_page_is_read_no_further() {
    let selectors = Selectors::new().expect("selectors");
    let text = format!(
        "<html><body><h1 class=\"page-title\">Nothing here</h1>{}</body></html>",
        item_markup("Game", &[], &[(MARKER, "https://paste.example/?1#k")])
    );
    let page = read_page(&text, &selectors);
    assert!(page.end_of_listing);
    assert!(page.articles.is_empty());
}

#[test]
fn malformed_markup_still_reads_as_a_page() {
    let selectors = Selectors::new().expect("selectors");
    for text in ["", "not markup at all", "<article><h1", "<<<>>>"] {
        let page = read_page(text, &selectors);
        assert!(!page.end_of_listing);
        assert!(pairs(&extract(&page, FilterType::All)).is_empty());
    }
}

#[test]
fn extract_links_applies_the_filter_to_markup() {
    let selectors = Selectors::new().expect("selectors");
    let text = page_markup(&[
        item_markup("Plain Game", &["Action"], &[(MARKER, "https://paste.example/?1#k")]),
        item_markup("Marked Game", &["Adult"], &[(MARKER, "https://paste.example/?2#k")]),
        item_markup("An adult Title", &[], &[(MARKER, "https://paste.example/?3#k")]),
        item_markup("Hosted Elsewhere", &[], &[(MARKER, "https://sendfile.su/4")]),
    ]);
    let plain = ("Plain Game".to_string(), "https://paste.example/?1#k".to_string());
    let marked = ("Marked Game".to_string(), "https://paste.example/?2#k".to_string());
    let titled = ("An adult Title".to_string(), "https://paste.example/?3#k".to_string());
    assert_eq!(
        pairs(&extract_links(&text, &selectors, FilterType::All)),
        vec![plain.clone(), marked.clone(), titled.clone()]
    );
    assert_eq!(pairs(&extract_links(&text, &selectors, FilterType::NoAdult)), vec![plain]);
    assert_eq!(
        pairs(&extract_links(&text, &selectors, FilterType::AdultOnly)),
        vec![marked, titled]
    );
}

#[test]
fn tag_in_first_place_is_no_tag() {
    let selectors = Selectors::new().expect("selectors");
    let text = page_markup(&["<article><header><h1 class=\"entry-title\"><a href=\"/i\">Game</a>\
        </h1></header><div class=\"entry-content\"><p><a href=\"/t\">Adult</a></p>\
        <ul><li><a href=\"https://paste.example/?1#k\">.torrent file only</a></li></ul></div>\
        </article>"
        .to_string()]);
    assert_eq!(pairs(&extract_links(&text, &selectors, FilterType::NoAdult)).len(), 1);
    assert!(pairs(&extract_links(&text, &selectors, FilterType::AdultOnly)).is_empty());
}

/// Runs one download worker over a queue of page contents. Tells how many
/// candidates each page that the worker took gave to be saved, and how the
/// flag stands when the worker leaves.
fn run_worker(contents: &[String], mut flag: bool) -> (Vec<usize>, bool) {
    let selectors = Selectors::new().expect("selectors");
    let mut queue = contents.iter();
    let mut saved_per_page: Vec<usize> = Vec::new();
    let mut action = WorkerAction::Receive;
    loop {
        let event = match action {
            WorkerAction::Receive => match queue.next() {
                Some(text) => {
                    WorkerEvent::Page(extract_links(text, &selectors, FilterType::All))
                }
                None => WorkerEvent::Closed,
            },
            WorkerAction::RaiseStop => {
                saved_per_page.push(0);
                assert_eq!(react(flag, Trigger::EndOfListing), Reaction::RequestStop);
                flag = true;
                WorkerEvent::Raised
            }
            WorkerAction::Save(games) => {
                saved_per_page.push(games.len());
                WorkerEvent::Saved
            }
            WorkerAction::ReadFlag => WorkerEvent::Flag(flag),
            WorkerAction::Exit => return (saved_per_page, flag),
        };
        action = download_worker(event);
    }
}

fn one_item_page(title: &str, url: &str) -> String {
    page_markup(&[item_markup(title, &[], &[(MARKER, url)])])
}

#[test]
fn end_marker_on_the_third_page_raises_the_flag_and_yields_nothing() {
    let contents = vec![
        one_item_page("One", "https://paste.example/?1#k"),
        one_item_page("Two", "https://paste.example/?2#k"),
        end_markup(),
    ];
    let (saved_per_page, flag) = run_worker(&contents[..2], false);
    assert_eq!(saved_per_page, vec![1, 1]);
    assert!(!flag);
    let (saved_per_page, flag) = run_worker(&contents, false);
    assert_eq!(saved_per_page, vec![1, 1, 0]);
    assert!(flag);
}

#[test]
fn worker_takes_no_page_after_the_end_marker() {
    let contents = vec![end_markup(), one_item_page("Next", "u9")];
    let (saved_per_page, flag) = run_worker(&contents, false);
    assert_eq!(saved_per_page, vec![0]);
    assert!(flag);
    assert!(matches!(download_worker(WorkerEvent::Raised), WorkerAction::Exit));
}

#[test]
fn end_marker_is_found_whatever_the_order_of_arrival() {
    let selectors = Selectors::new().expect("selectors");
    let contents = vec![one_item_page("Three", "u3"), end_markup(), one_item_page("Two", "u2")];
    let (saved_per_page, flag) = run_worker(&contents, false);
    assert_eq!(saved_per_page, vec![1, 0]);
    assert!(flag);
    let late = extract_links(&contents[2], &selectors, FilterType::All);
    match download_worker(WorkerEvent::Page(late)) {
        WorkerAction::Save(games) => assert_eq!(games.len(), 1),
        other => panic!("unexpected action {other:?}"),
    }
}

#[test]
fn worker_leaves_after_a_batch_once_the_flag_is_set() {
    let contents = vec![one_item_page("One", "u1"), one_item_page("Two", "u2")];
    let (saved_per_page, flag) = run_worker(&contents, true);
    assert_eq!(saved_per_page, vec![1]);
    assert!(flag);
    assert!(matches!(download_worker(WorkerEvent::Saved), WorkerAction::ReadFlag));
    assert!(matches!(download_worker(WorkerEvent::Flag(true)), WorkerAction::Exit));
    assert!(matches!(download_worker(WorkerEvent::Flag(false)), WorkerAction::Receive));
}

#[test]
fn text_too_long_for_the_parser_reads_as_a_page_without_items() {
    let selectors = Selectors::new().expect("selectors");
    let mut text = one_item_page("One", "https://paste.example/?1#k");
    assert_eq!(pairs(&extract_links(&text, &selectors, FilterType::All)).len(), 1);
    text.push_str(&" ".repeat(MAX_DOCUMENT_BYTES + 1 - text.len()));
    assert_eq!(text.len(), MAX_DOCUMENT_BYTES + 1);
    let page = read_page(&text, &selectors);
    assert!(!page.end_of_listing);
    assert!(page.articles.is_empty());
    assert!(pairs(&extract_links(&text, &selectors, FilterType::All)).is_empty());
}

#[test]
fn worker_leaves_when_the_content_queue_is_closed() {
    assert!(matches!(download_worker(WorkerEvent::Closed), WorkerAction::Exit));
}

#[test]
fn texts_are_joined_in_order() {
    let parts =
        vec![".torrent ".to_string(), "file".to_string(), String::new(), " only".to_string()];
    assert_eq!(join_texts(&parts), MARKER);
    assert_eq!(join_texts(&Vec::new()), "");
    assert_eq!(join_texts(&vec!["one".to_string()]), "one");
}

#[test]
fn first_text_is_the_first() {
    assert_eq!(first_text(&vec!["a".to_string(), "b".to_string()]), Some("a".to_string()));
    assert_eq!(first_text(&vec![String::new()]), Some(String::new()));
    assert_eq!(first_text(&Vec::new()), None);
}
