use crate::filter::{mentions_adult, text_mentions_adult, FilterType};
use crate::game::{game_views, Game, GameView};
use crate::listing::{
    page_of, read_page, Article, ArticleView, Link, LinkView, Page, PageView, Selectors,
};
use crate::text::{contains, occurs_in, same_text};
use vstd::prelude::*;

verus! {

/// The visible text of the link that leads to the paste of a torrent.
pub open spec fn torrent_link_text() -> Seq<char> {
    ".torrent file only"@
}

/// The host whose links are never taken.
pub open spec fn disallowed_host() -> Seq<char> {
    "sendfile.su"@
}

/// A link qualifies as the paste reference of its item: its text is the
/// torrent marker, it has a target, and the target does not name the
/// disallowed host.
pub open spec fn qualifies(link: LinkView) -> bool {
    &&& link.text == torrent_link_text()
    &&& link.href matches Some(href)
    &&& !occurs_in(disallowed_host(), href)
}

/// The position of the first qualifying link at or after `from`, or the
/// number of links where there is none.
pub open spec fn first_qualifying(links: Seq<LinkView>, from: nat) -> nat
    decreases links.len() - from,
{
    if from >= links.len() {
        links.len()
    } else if qualifies(links[from as int]) {
        from
    } else {
        first_qualifying(links, from + 1)
    }
}

/// An item is marked as adult content: its title or one of its tags holds
/// the marker `adult`, in any case.
pub open spec fn is_adult(title: Seq<char>, tags: Seq<Seq<char>>) -> bool {
    mentions_adult(title) || exists|i: int|
        0 <= i < tags.len() && mentions_adult(#[trigger] tags[i])
}

/// The candidate that an item yields under a filter: none where the item has
/// no title, where the filter drops it, or where no link qualifies; otherwise
/// the title with the target of the first qualifying link.
pub open spec fn candidate_of(article: ArticleView, filter: FilterType) -> Option<GameView> {
    match article.title {
        None => None,
        Some(title) => {
            let at = first_qualifying(article.links, 0);
            if filter.keeps(is_adult(title, article.tags)) && at < article.links.len() {
                Some(GameView { title, paste_url: article.links[at as int].href->0 })
            } else {
                None
            }
        },
    }
}

/// The function that maps an item to its candidate under a filter.
pub open spec fn candidate_under(filter: FilterType) -> spec_fn(ArticleView) -> Option<GameView> {
    |article: ArticleView| candidate_of(article, filter)
}

/// The candidates of the items of a page, in the order of the items.
pub open spec fn candidates_of(articles: Seq<ArticleView>, filter: FilterType) -> Seq<GameView> {
    articles.filter_map(candidate_under(filter))
}

/// What the extraction makes of one page.
#[derive(Debug)]
pub enum Extraction {
    /// The page marks the end of the listing: the crawl is to stop, and the
    /// page yields no candidate.
    EndOfListing,
    /// The candidates of the page, in the order of its items.
    Candidates(Vec<Game>),
}

/// What an [`Extraction`] stands for in contracts.
pub enum ExtractionView {
    EndOfListing,
    Candidates(Seq<GameView>),
}

impl View for Extraction {
    type V = ExtractionView;

    open spec fn view(&self) -> ExtractionView {
        match self {
            Extraction::EndOfListing => ExtractionView::EndOfListing,
            Extraction::Candidates(games) => ExtractionView::Candidates(game_views(games@)),
        }
    }
}

/// What the extraction makes of a page.
pub open spec fn extraction_of(page: PageView, filter: FilterType) -> ExtractionView {
    if page.end_of_listing {
        ExtractionView::EndOfListing
    } else {
        ExtractionView::Candidates(candidates_of(page.articles, filter))
    }
}

/// `first_qualifying` stays within the links, lands on a qualifying link,
/// and passes over none.
proof fn lemma_first_qualifying(links: Seq<LinkView>, from: nat)
    requires
        from <= links.len(),
    ensures
        from <= first_qualifying(links, from) <= links.len(),
        first_qualifying(links, from) < links.len() ==> qualifies(
            links[first_qualifying(links, from) as int],
        ),
        forall|k: int|
            from <= k < first_qualifying(links, from) ==> !qualifies(#[trigger] links[k]),
    decreases links.len() - from,
{
    if from < links.len() && !qualifies(links[from as int]) {
        lemma_first_qualifying(links, from + 1);
    }
}

/// Tells whether a link qualifies as the paste reference of its item.
pub fn link_qualifies(link: &Link) -> (qualified: bool)
    ensures
        qualified == qualifies(link@),
{
    if !same_text(link.text.as_str(), ".torrent file only") {
        return false;
    }
    match &link.href {
        Some(href) => !contains(href.as_str(), "sendfile.su"),
        None => false,
    }
}

/// Tells whether an item is marked as adult content.
pub fn item_is_adult(title: &str, tags: &Vec<String>) -> (adult: bool)
    ensures
        adult == is_adult(title@, tags@.map_values(|tag: String| tag@)),
{
    if text_mentions_adult(title) {
        return true;
    }
    let ghost views = tags@.map_values(|tag: String| tag@);
    let mut i: usize = 0;
    while i < tags.len()
        invariant
            i <= tags.len(),
            views == tags@.map_values(|tag: String| tag@),
            forall|k: int| 0 <= k < i ==> !mentions_adult(#[trigger] views[k]),
        decreases tags.len() - i,
    {
        if text_mentions_adult(tags[i].as_str()) {
            assert(mentions_adult(views[i as int]));
            return true;
        }
        i = i + 1;
    }
    false
}

/// The candidate that an item yields under a filter.
pub fn candidate(article: &Article, filter: FilterType) -> (game: Option<Game>)
    ensures
        match game {
            Some(game) => candidate_of(article@, filter) == Some(game@),
            None => candidate_of(article@, filter) is None,
        },
{
    let title = match &article.title {
        Some(title) => title,
        None => {
            return None;
        },
    };
    if !filter.retains(item_is_adult(title.as_str(), &article.tags)) {
        return None;
    }
    let ghost links = article@.links;
    let mut i: usize = 0;
    while i < article.links.len()
        invariant
            i <= article.links.len(),
            links == article@.links,
            links.len() == article.links.len(),
            article@.title == Some(title@),
            filter.keeps(is_adult(title@, article@.tags)),
            first_qualifying(links, i as nat) == first_qualifying(links, 0),
        decreases article.links.len() - i,
    {
        assert(links[i as int] == article.links[i as int]@);
        if link_qualifies(&article.links[i]) {
            match &article.links[i].href {
                Some(href) => {
                    assert(first_qualifying(links, i as nat) == i);
                    assert(links[i as int].href == Some(href@));
                    return Some(Game::new(title.clone(), href.clone()));
                },
                None => {},
            }
        }
        i = i + 1;
    }
    None
}

/// The candidates of the items of a page, in the order of the items.
pub fn extract_candidates(articles: &Vec<Article>, filter: FilterType) -> (games: Vec<Game>)
    ensures
        game_views(games@) == candidates_of(
            articles@.map_values(|article: Article| article@),
            filter,
        ),
{
    let ghost views = articles@.map_values(|article: Article| article@);
    let mut games: Vec<Game> = Vec::new();
    let mut i: usize = 0;
    assert(views.take(0) =~= Seq::empty());
    assert(game_views(games@) =~= Seq::empty());
    while i < articles.len()
        invariant
            i <= articles.len(),
            views == articles@.map_values(|article: Article| article@),
            game_views(games@) == candidates_of(views.take(i as int), filter),
        decreases articles.len() - i,
    {
        let ghost before = game_views(games@);
        assert(views.take(i + 1).drop_last() =~= views.take(i as int));
        assert(views.take(i + 1).last() == articles[i as int]@);
        match candidate(&articles[i], filter) {
            Some(game) => {
                games.push(game);
                assert(game_views(games@) =~= before + seq![game@]);
            },
            None => {},
        }
        i = i + 1;
    }
    assert(views.take(i as int) =~= views);
    games
}

/// What the extraction makes of a page that was read: nothing but the stop
/// signal where the page marks the end of the listing, the candidates of its
/// items otherwise.
pub fn extract(page: &Page, filter: FilterType) -> (extraction: Extraction)
    ensures
        extraction@ == extraction_of(page@, filter),
{
    if page.end_of_listing {
        Extraction::EndOfListing
    } else {
        Extraction::Candidates(extract_candidates(&page.articles, filter))
    }
}

/// Reads a page from its markup and extracts from it: the result is the
/// extraction of the page that the markup holds.
pub fn extract_links(text: &str, selectors: &Selectors, filter: FilterType) -> (extraction:
    Extraction)
    ensures
        extraction@ == extraction_of(page_of(text@), filter),
{
    let page = read_page(text, selectors);
    extract(&page, filter)
}

/// What a download worker is told.
#[derive(Debug)]
pub enum WorkerEvent {
    /// The content queue is closed and empty.
    Closed,
    /// A page content was received, and this is what the extraction made of
    /// it.
    Page(Extraction),
    /// The termination flag has been set, as [`WorkerAction::RaiseStop`] asked.
    Raised,
    /// The batch of the page is over, committed or cut short.
    Saved,
    /// The termination flag, as read after a batch.
    Flag(bool),
}

/// What a download worker does next.
#[derive(Debug)]
pub enum WorkerAction {
    /// Wait for the next page content.
    Receive,
    /// Set the termination flag.
    RaiseStop,
    /// Save the torrents of these candidates, as one batch.
    Save(Vec<Game>),
    /// Read the termination flag.
    ReadFlag,
    /// Leave the loop.
    Exit,
}

/// What a [`WorkerEvent`] stands for in contracts.
pub enum WorkerEventView {
    Closed,
    Page(ExtractionView),
    Raised,
    Saved,
    Flag(bool),
}

/// What a [`WorkerAction`] stands for in contracts.
pub enum WorkerActionView {
    Receive,
    RaiseStop,
    Save(Seq<GameView>),
    ReadFlag,
    Exit,
}

impl View for WorkerEvent {
    type V = WorkerEventView;

    open spec fn view(&self) -> WorkerEventView {
        match self {
            WorkerEvent::Closed => WorkerEventView::Closed,
            WorkerEvent::Page(extraction) => WorkerEventView::Page(extraction@),
            WorkerEvent::Raised => WorkerEventView::Raised,
            WorkerEvent::Saved => WorkerEventView::Saved,
            WorkerEvent::Flag(set) => WorkerEventView::Flag(*set),
        }
    }
}

impl View for WorkerAction {
    type V = WorkerActionView;

    open spec fn view(&self) -> WorkerActionView {
        match self {
            WorkerAction::Receive => WorkerActionView::Receive,
            WorkerAction::RaiseStop => WorkerActionView::RaiseStop,
            WorkerAction::Save(games) => WorkerActionView::Save(game_views(games@)),
            WorkerAction::ReadFlag => WorkerActionView::ReadFlag,
            WorkerAction::Exit => WorkerActionView::Exit,
        }
    }
}

/// A download worker's next action. A page that marks the end of the listing
/// has the flag set and yields no batch, and with the flag set the worker
/// leaves. Any other page has its candidates saved as one batch, after which
/// the worker reads the flag: it leaves if the flag is set and receives again
/// if it is clear. The worker also leaves when the content queue is closed
/// and empty.
pub open spec fn worker_step(event: WorkerEventView) -> WorkerActionView {
    match event {
        WorkerEventView::Closed => WorkerActionView::Exit,
        WorkerEventView::Page(ExtractionView::EndOfListing) => WorkerActionView::RaiseStop,
        WorkerEventView::Page(ExtractionView::Candidates(games)) => WorkerActionView::Save(games),
        WorkerEventView::Raised => WorkerActionView::Exit,
        WorkerEventView::Saved => WorkerActionView::ReadFlag,
        WorkerEventView::Flag(true) => WorkerActionView::Exit,
        WorkerEventView::Flag(false) => WorkerActionView::Receive,
    }
}

/// Decides a download worker's next action from what it is told.
pub fn download_worker(event: WorkerEvent) -> (action: WorkerAction)
    ensures
        action@ == worker_step(event@),
{
    match event {
        WorkerEvent::Closed => WorkerAction::Exit,
        WorkerEvent::Page(Extraction::EndOfListing) => WorkerAction::RaiseStop,
        WorkerEvent::Page(Extraction::Candidates(games)) => WorkerAction::Save(games),
        WorkerEvent::Raised => WorkerAction::Exit,
        WorkerEvent::Saved => WorkerAction::ReadFlag,
        WorkerEvent::Flag(true) => WorkerAction::Exit,
        WorkerEvent::Flag(false) => WorkerAction::Receive,
    }
}

/// A worker takes a further page only after it has read the flag and found
/// it clear: no other report has it receive. A worker that has found the end
/// of the listing sets the flag and leaves.
pub proof fn law_worker_receives_only_while_flag_is_clear(event: WorkerEventView)
    ensures
        worker_step(event) is Receive <==> event == WorkerEventView::Flag(false),
        event == WorkerEventView::Page(ExtractionView::EndOfListing) ==> worker_step(event)
            is RaiseStop,
        event is Raised ==> worker_step(event) is Exit,
{
}

/// An item marked as adult content yields under `AdultOnly` what it yields
/// under `All`, and nothing under `NoAdult`; an item not so marked yields
/// under `NoAdult` what it yields under `All`, and nothing under `AdultOnly`.
/// Under `All` the tags of an item make no difference.
pub proof fn law_filter_decides_candidates(article: ArticleView, other_tags: Seq<Seq<char>>)
    requires
        article.title is Some,
    ensures
        is_adult(article.title->0, article.tags) ==> {
            &&& candidate_of(article, FilterType::AdultOnly) == candidate_of(
                article,
                FilterType::All,
            )
            &&& candidate_of(article, FilterType::NoAdult) is None
        },
        !is_adult(article.title->0, article.tags) ==> {
            &&& candidate_of(article, FilterType::NoAdult) == candidate_of(
                article,
                FilterType::All,
            )
            &&& candidate_of(article, FilterType::AdultOnly) is None
        },
        candidate_of(article, FilterType::All) == candidate_of(
            ArticleView { tags: other_tags, ..article },
            FilterType::All,
        ),
{
}

/// An item that the filter keeps yields its title with the target of its
/// first qualifying link: the link at `at` qualifies, and none before it
/// does.
pub proof fn law_first_qualifying_link_is_taken(
    article: ArticleView,
    filter: FilterType,
    at: int,
)
    requires
        article.title is Some,
        filter.keeps(is_adult(article.title->0, article.tags)),
        0 <= at < article.links.len(),
        qualifies(article.links[at]),
        forall|k: int| 0 <= k < at ==> !qualifies(#[trigger] article.links[k]),
    ensures
        candidate_of(article, filter) == Some(
            GameView { title: article.title->0, paste_url: article.links[at].href->0 },
        ),
{
    lemma_first_qualifying(article.links, 0);
    let first = first_qualifying(article.links, 0) as int;
    if first < at {
        assert(!qualifies(article.links[first]));
    }
}

/// An item without a title yields no candidate, and neither does an item
/// none of whose links qualifies.
pub proof fn law_no_title_or_link_no_candidate(article: ArticleView, filter: FilterType)
    requires
        article.title is None || forall|k: int|
            0 <= k < article.links.len() ==> !qualifies(#[trigger] article.links[k]),
    ensures
        candidate_of(article, filter) is None,
{
    lemma_first_qualifying(article.links, 0);
}

} // verus!
