use crate::artifact::ArtifactView;
use crate::decrypt_torrents::{
    lemma_next_fetchable, law_step_keeps_well_formed, next_fetchable, start, step, ActionView,
    EventView, SessionView,
};
use crate::game::GameView;
use crate::paste::paste_url_parses;
use vstd::prelude::*;

verus! {

/// What outlives a batch: the store and the output directory.
pub struct Persisted {
    /// The committed records, `title -> name`.
    pub store: Map<Seq<char>, Seq<char>>,
    /// The records of the open write transaction.
    pub staged: Map<Seq<char>, Seq<char>>,
    /// The files of the output directory, `name -> content`.
    pub files: Map<Seq<char>, Seq<u8>>,
}

/// What retrieving and decoding yields for each locator.
pub type Decoder = spec_fn(Seq<char>) -> Option<ArtifactView>;

impl Persisted {
    /// A title needs no work: the store has a name for it, and a file of that
    /// name exists.
    pub open spec fn satisfied(self, title: Seq<char>) -> bool {
        self.store.contains_key(title) && self.files.contains_key(self.store[title])
    }

    /// The write transaction is committed: its records override the store's.
    pub open spec fn committed(self) -> Persisted {
        Persisted {
            store: self.store.union_prefer_right(self.staged),
            staged: Map::empty(),
            ..self
        }
    }

    /// One pending candidate is saved: where its locator parses and its paste
    /// decodes, the record is staged and the file is written unless a file of
    /// that name exists.
    pub open spec fn saved_one(self, game: GameView, decoder: Decoder) -> Persisted {
        if paste_url_parses(game.paste_url) {
            match decoder(game.paste_url) {
                Some(artifact) => Persisted {
                    staged: self.staged.insert(game.title, artifact.name),
                    files: if self.files.contains_key(artifact.name) {
                        self.files
                    } else {
                        self.files.insert(artifact.name, artifact.bytes)
                    },
                    ..self
                },
                None => self,
            }
        } else {
            self
        }
    }

    /// The pending candidates are saved one after the other.
    pub open spec fn saved_all(self, pending: Seq<GameView>, decoder: Decoder) -> Persisted
        decreases pending.len(),
    {
        if pending.len() == 0 {
            self
        } else {
            self.saved_all(pending.drop_last(), decoder).saved_one(pending.last(), decoder)
        }
    }
}

/// The candidates that are not satisfied yet.
pub open spec fn needs_download(p: Persisted) -> spec_fn(GameView) -> bool {
    |game: GameView| !p.satisfied(game.title)
}

/// The candidates whose locator parses.
pub open spec fn fetchable() -> spec_fn(GameView) -> bool {
    |game: GameView| paste_url_parses(game.paste_url)
}

/// The locators of a sequence of candidates.
pub open spec fn locators(games: Seq<GameView>) -> Seq<Seq<char>> {
    games.map_values(|game: GameView| game.paste_url)
}

/// A session together with the surroundings that a faithful driver acts on,
/// and the locators that the driver was asked to retrieve so far.
pub struct Run {
    pub session: SessionView,
    pub world: Persisted,
    pub fetched: Seq<Seq<char>>,
}

/// What a faithful driver reports for an action, and what the action leaves
/// behind, when no store or file operation fails.
pub open spec fn perform(world: Persisted, action: ActionView, decoder: Decoder) -> (
    EventView,
    Persisted,
) {
    match action {
        ActionView::BeginRead => (EventView::Ready, world),
        ActionView::Lookup { title } => (
            EventView::Stored(
                if world.store.contains_key(title) {
                    Some(world.store[title])
                } else {
                    None
                },
            ),
            world,
        ),
        ActionView::Probe { name } => (EventView::Present(world.files.contains_key(name)), world),
        ActionView::BeginWrite => (EventView::Ready, Persisted { staged: Map::empty(), ..world }),
        ActionView::Fetch { paste_url } => (EventView::Decoded(decoder(paste_url)), world),
        ActionView::Record { title, name } => (
            EventView::Ready,
            Persisted { staged: world.staged.insert(title, name), ..world },
        ),
        ActionView::Write { name, bytes } => (
            EventView::Ready,
            Persisted { files: world.files.insert(name, bytes), ..world },
        ),
        ActionView::Commit => (EventView::Ready, world.committed()),
        ActionView::Finish { .. } => (EventView::Ready, world),
    }
}

/// One action carried out faithfully, and reported to the session.
pub open spec fn advance(r: Run, decoder: Decoder) -> Run {
    let (event, world) = perform(r.world, r.session.awaiting, decoder);
    Run {
        session: step(r.session, event),
        world,
        fetched: match r.session.awaiting {
            ActionView::Fetch { paste_url } => r.fetched.push(paste_url),
            _ => r.fetched,
        },
    }
}

/// A bound on the actions that a session has yet to ask for.
pub open spec fn effort(s: SessionView) -> nat {
    let rank: nat = match s.awaiting {
        ActionView::BeginRead => 5,
        ActionView::Lookup { .. } => 3,
        ActionView::Probe { .. } => if s.held is None {
            2
        } else {
            1
        },
        ActionView::BeginWrite => 4,
        ActionView::Fetch { .. } => 3,
        ActionView::Record { .. } => 2,
        ActionView::Write { .. } => 0,
        ActionView::Commit => 0,
        ActionView::Finish { .. } => 0,
    };
    if s.awaiting is Finish {
        0
    } else {
        (1 + 8 * (s.games.len() - s.screened) + 5 * (s.pending.len() - s.saved) + rank) as nat
    }
}

/// Each faithful step brings a session that is not over nearer to its end.
pub proof fn lemma_advance_decreases(r: Run, decoder: Decoder)
    requires
        r.session.wf(),
        !r.session.finished(),
    ensures
        advance(r, decoder).session.wf(),
        effort(advance(r, decoder).session) < effort(r.session),
{
    let s = r.session;
    law_step_keeps_well_formed(s, perform(r.world, s.awaiting, decoder).0);
    if s.saved < s.pending.len() {
        lemma_next_fetchable(s.pending, s.saved + 1);
    }
    lemma_next_fetchable(s.pending, 0);
}

/// The session driven faithfully until it is over.
pub open spec fn run(r: Run, decoder: Decoder) -> Run
    decreases effort(r.session),
{
    if r.session.wf() && !r.session.finished() {
        proof {
            lemma_advance_decreases(r, decoder);
        }
        run(advance(r, decoder), decoder)
    } else {
        r
    }
}

/// A batch at its start, in given surroundings.
pub open spec fn begin(games: Seq<GameView>, world: Persisted) -> Run {
    Run { session: start(games), world, fetched: Seq::empty() }
}

/// Filtering one element more keeps or drops that element.
proof fn lemma_filter_take<A>(s: Seq<A>, pred: spec_fn(A) -> bool, i: int)
    requires
        0 <= i < s.len(),
    ensures
        s.take(i + 1).filter(pred) == if pred(s[i]) {
            s.take(i).filter(pred).push(s[i])
        } else {
            s.take(i).filter(pred)
        },
{
    reveal(Seq::filter);
    assert(s.take(i + 1).drop_last() =~= s.take(i));
}

/// Saving one candidate more applies `saved_one` to it.
proof fn lemma_saved_take(p: Persisted, pending: Seq<GameView>, decoder: Decoder, i: int)
    requires
        0 <= i < pending.len(),
    ensures
        p.saved_all(pending.take(i + 1), decoder) == p.saved_all(
            pending.take(i),
            decoder,
        ).saved_one(pending[i], decoder),
{
    assert(pending.take(i + 1).drop_last() =~= pending.take(i));
}

/// Candidates whose locators do not parse leave no trace.
proof fn lemma_unfetchable_stretch(
    p: Persisted,
    pending: Seq<GameView>,
    decoder: Decoder,
    lo: int,
    hi: int,
)
    requires
        0 <= lo <= hi <= pending.len(),
        forall|k: int| lo <= k < hi ==> !paste_url_parses(#[trigger] pending[k].paste_url),
    ensures
        p.saved_all(pending.take(hi), decoder) == p.saved_all(pending.take(lo), decoder),
        pending.take(hi).filter(fetchable()) == pending.take(lo).filter(fetchable()),
    decreases hi - lo,
{
    if lo < hi {
        lemma_unfetchable_stretch(p, pending, decoder, lo, hi - 1);
        lemma_saved_take(p, pending, decoder, hi - 1);
        lemma_filter_take(pending, fetchable(), hi - 1);
    }
}

/// From a state that is about to retrieve a paste or to commit, a faithful
/// run saves the rest of the pending candidates and commits.
proof fn lemma_saving(r: Run, decoder: Decoder, base: Persisted, before: Seq<Seq<char>>)
    requires
        r.session.wf(),
        r.session.awaiting is Fetch || r.session.awaiting is Commit,
        r.world == base.saved_all(r.session.pending.take(r.session.saved as int), decoder),
        r.fetched == before + locators(
            r.session.pending.take(r.session.saved as int).filter(fetchable()),
        ),
    ensures
        run(r, decoder).session.awaiting == (ActionView::Finish { committed: true }),
        run(r, decoder).world == base.saved_all(r.session.pending, decoder).committed(),
        run(r, decoder).fetched == before + locators(r.session.pending.filter(fetchable())),
    decreases r.session.pending.len() - r.session.saved,
{
    let s = r.session;
    let pending = s.pending;
    let k = s.saved as int;
    if s.awaiting is Commit {
        assert(pending.take(k) =~= pending);
        let end = advance(r, decoder);
        assert(run(r, decoder) == run(end, decoder));
        assert(run(end, decoder) == end);
    } else {
        let game = pending[k];
        lemma_saved_take(base, pending, decoder, k);
        lemma_filter_take(pending, fetchable(), k);
        lemma_next_fetchable(pending, (k + 1) as nat);
        let at = next_fetchable(pending, (k + 1) as nat) as int;
        lemma_unfetchable_stretch(base, pending, decoder, k + 1, at);
        let shown = pending.take(k).filter(fetchable());
        assert(locators(shown.push(game)) =~= locators(shown).push(game.paste_url));
        assert(before + locators(shown).push(game.paste_url) =~= (before + locators(shown)).push(
            game.paste_url,
        ));
        let r1 = advance(r, decoder);
        lemma_advance_decreases(r, decoder);
        assert(run(r, decoder) == run(r1, decoder));
        match decoder(game.paste_url) {
            None => {
                lemma_saving(r1, decoder, base, before);
            },
            Some(artifact) => {
                let r2 = advance(r1, decoder);
                lemma_advance_decreases(r1, decoder);
                assert(run(r1, decoder) == run(r2, decoder));
                let r3 = advance(r2, decoder);
                lemma_advance_decreases(r2, decoder);
                assert(run(r2, decoder) == run(r3, decoder));
                if r.world.files.contains_key(artifact.name) {
                    lemma_saving(r3, decoder, base, before);
                } else {
                    let r4 = advance(r3, decoder);
                    lemma_advance_decreases(r3, decoder);
                    assert(run(r3, decoder) == run(r4, decoder));
                    lemma_saving(r4, decoder, base, before);
                }
            },
        }
    }
}

/// From a state that is about to look a title up or to open the write
/// transaction, a faithful run lets through the candidates that are not
/// satisfied, saves them and commits.
proof fn lemma_screening(r: Run, decoder: Decoder)
    requires
        r.session.wf(),
        r.session.awaiting is Lookup || r.session.awaiting is BeginWrite,
        r.session.pending == r.session.games.take(r.session.screened as int).filter(
            needs_download(r.world),
        ),
    ensures
        run(r, decoder).session.awaiting == (ActionView::Finish { committed: true }),
        run(r, decoder).world == (Persisted { staged: Map::empty(), ..r.world }).saved_all(
            r.session.games.filter(needs_download(r.world)),
            decoder,
        ).committed(),
        run(r, decoder).fetched == r.fetched + locators(
            r.session.games.filter(needs_download(r.world)).filter(fetchable()),
        ),
    decreases r.session.games.len() - r.session.screened,
{
    let s = r.session;
    let games = s.games;
    let i = s.screened as int;
    let r1 = advance(r, decoder);
    lemma_advance_decreases(r, decoder);
    assert(run(r, decoder) == run(r1, decoder));
    if s.awaiting is BeginWrite {
        assert(games.take(i) =~= games);
        let base = Persisted { staged: Map::empty(), ..r.world };
        let pending = s.pending;
        lemma_next_fetchable(pending, 0);
        let at = next_fetchable(pending, 0) as int;
        lemma_unfetchable_stretch(base, pending, decoder, 0, at);
        assert(pending.take(0) =~= Seq::<GameView>::empty());
        reveal(Seq::filter);
        assert(locators(Seq::<GameView>::empty().filter(fetchable())) =~= Seq::<
            Seq<char>,
        >::empty());
        assert(r.fetched + Seq::<Seq<char>>::empty() =~= r.fetched);
        lemma_saving(r1, decoder, base, r.fetched);
    } else {
        lemma_filter_take(games, needs_download(r.world), i);
        let title = games[i].title;
        if r.world.store.contains_key(title) {
            let r2 = advance(r1, decoder);
            lemma_advance_decreases(r1, decoder);
            assert(run(r1, decoder) == run(r2, decoder));
            lemma_screening(r2, decoder);
        } else {
            lemma_screening(r1, decoder);
        }
    }
}

/// A batch that a faithful driver carries through, with no store or file
/// operation failing, ends committed. The pastes that it retrieves are those
/// of the candidates that are not satisfied at the start and whose locators
/// parse, in order and once each: a title that the store maps to an existing
/// file is never retrieved again. What it leaves behind is what saving these
/// candidates one after the other leaves behind.
pub proof fn law_batch_saves_what_is_missing(
    games: Seq<GameView>,
    world: Persisted,
    decoder: Decoder,
)
    ensures
        run(begin(games, world), decoder).session.awaiting == (ActionView::Finish {
            committed: true,
        }),
        run(begin(games, world), decoder).fetched == locators(
            games.filter(needs_download(world)).filter(fetchable()),
        ),
        run(begin(games, world), decoder).world == (Persisted {
            staged: Map::empty(),
            ..world
        }).saved_all(games.filter(needs_download(world)), decoder).committed(),
{
    let r = begin(games, world);
    let r1 = advance(r, decoder);
    lemma_advance_decreases(r, decoder);
    assert(run(r, decoder) == run(r1, decoder));
    assert(games.take(0) =~= Seq::<GameView>::empty());
    reveal(Seq::filter);
    assert(Seq::<GameView>::empty().filter(needs_download(world)) =~= Seq::<GameView>::empty());
    lemma_screening(r1, decoder);
    assert(Seq::<Seq<char>>::empty() + locators(
        games.filter(needs_download(world)).filter(fetchable()),
    ) =~= locators(games.filter(needs_download(world)).filter(fetchable())));
}

/// What saving a sequence of candidates preserves and establishes.
proof fn lemma_saved_all(p: Persisted, pending: Seq<GameView>, decoder: Decoder)
    requires
        forall|t: Seq<char>| #[trigger]
            p.staged.contains_key(t) ==> p.files.contains_key(p.staged[t]),
    ensures
        p.saved_all(pending, decoder).store == p.store,
        forall|name: Seq<char>| #[trigger]
            p.files.contains_key(name) ==> p.saved_all(pending, decoder).files.contains_key(name)
                && p.saved_all(pending, decoder).files[name] == p.files[name],
        forall|t: Seq<char>| #[trigger]
            p.saved_all(pending, decoder).staged.contains_key(t) ==> p.saved_all(
                pending,
                decoder,
            ).files.contains_key(p.saved_all(pending, decoder).staged[t]),
        forall|i: int|
            0 <= i < pending.len() && paste_url_parses(pending[i].paste_url) && decoder(
                pending[i].paste_url,
            ) is Some ==> p.saved_all(pending, decoder).staged.contains_key(
                #[trigger] pending[i].title,
            ),
    decreases pending.len(),
{
    if pending.len() > 0 {
        let rest = pending.drop_last();
        lemma_saved_all(p, rest, decoder);
        let q = p.saved_all(rest, decoder);
        assert forall|i: int|
            0 <= i < pending.len() && paste_url_parses(pending[i].paste_url) && decoder(
                pending[i].paste_url,
            ) is Some implies p.saved_all(pending, decoder).staged.contains_key(
            #[trigger] pending[i].title,
        ) by {
            if i < pending.len() - 1 {
                assert(rest[i] == pending[i]);
                assert(q.staged.contains_key(rest[i].title));
            }
        }
    }
}

/// After a batch that a faithful driver carries through, every title that
/// was satisfied before is satisfied still, and so is the title of every
/// candidate whose locator parses and whose paste decodes. No file that
/// existed before has changed.
pub proof fn law_batch_satisfies_what_decodes(
    games: Seq<GameView>,
    world: Persisted,
    decoder: Decoder,
)
    ensures
        forall|i: int|
            0 <= i < games.len() && (world.satisfied(games[i].title) || (paste_url_parses(
                games[i].paste_url,
            ) && decoder(games[i].paste_url) is Some)) ==> run(
                begin(games, world),
                decoder,
            ).world.satisfied(#[trigger] games[i].title),
        forall|name: Seq<char>| #[trigger]
            world.files.contains_key(name) ==> run(
                begin(games, world),
                decoder,
            ).world.files.contains_key(name) && run(begin(games, world), decoder).world.files[name]
                == world.files[name],
{
    law_batch_saves_what_is_missing(games, world, decoder);
    let base = Persisted { staged: Map::empty(), ..world };
    let pending = games.filter(needs_download(world));
    lemma_saved_all(base, pending, decoder);
    let saved = base.saved_all(pending, decoder);
    let after = run(begin(games, world), decoder).world;
    assert(after == saved.committed());
    assert forall|name: Seq<char>| #[trigger]
        world.files.contains_key(name) implies after.files.contains_key(name) && after.files[name]
        == world.files[name] by {
        assert(base.files.contains_key(name));
    }
    assert forall|i: int|
        0 <= i < games.len() && (world.satisfied(games[i].title) || (paste_url_parses(
            games[i].paste_url,
        ) && decoder(games[i].paste_url) is Some)) implies after.satisfied(
        #[trigger] games[i].title,
    ) by {
        let title = games[i].title;
        if world.satisfied(title) {
            if saved.staged.contains_key(title) {
            } else {
                assert(world.files.contains_key(world.store[title]));
            }
        } else {
            games.lemma_filter_contains(needs_download(world), i);
            let j = choose|j: int| 0 <= j < pending.len() && pending[j] == games[i];
            assert(saved.staged.contains_key(pending[j].title));
        }
    }
}

/// Running a batch a second time, on what the first run left behind,
/// retrieves no paste that decodes: whatever decoded was saved by the first
/// run, and is skipped by the second.
pub proof fn law_second_run_retrieves_nothing_saved(
    games: Seq<GameView>,
    world: Persisted,
    decoder: Decoder,
)
    ensures
        forall|k: int|
            0 <= k < run(
                begin(games, run(begin(games, world), decoder).world),
                decoder,
            ).fetched.len() ==> decoder(
                #[trigger] run(
                    begin(games, run(begin(games, world), decoder).world),
                    decoder,
                ).fetched[k],
            ) is None,
{
    let after = run(begin(games, world), decoder).world;
    let again = run(begin(games, after), decoder);
    law_batch_saves_what_is_missing(games, after, decoder);
    law_batch_satisfies_what_decodes(games, world, decoder);
    let missing = games.filter(needs_download(after));
    let chosen = missing.filter(fetchable());
    assert(again.fetched == locators(chosen));
    assert forall|k: int| 0 <= k < again.fetched.len() implies decoder(
        #[trigger] again.fetched[k],
    ) is None by {
        let game = chosen[k];
        assert(again.fetched[k] == game.paste_url);
        missing.lemma_filter_pred(fetchable(), k);
        missing.lemma_filter_contains_rev(fetchable(), game);
        let j = choose|j: int| 0 <= j < missing.len() && missing[j] == game;
        games.lemma_filter_pred(needs_download(after), j);
        games.lemma_filter_contains_rev(needs_download(after), game);
        let i = choose|i: int| 0 <= i < games.len() && games[i] == game;
        assert(!after.satisfied(games[i].title));
    }
}

} // verus!
