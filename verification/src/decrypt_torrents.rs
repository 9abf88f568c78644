use crate::artifact::{outcome_view, ArtifactView, DecodedArtifact};
use crate::game::{game_views, Game, GameView};
use crate::paste::{parse_paste_url, paste_url_parses, DecodeError};
use vstd::prelude::*;

verus! {

/// What the driver of a session is asked to do next.
#[derive(Debug)]
pub enum Action {
    /// Open a read transaction on the store.
    BeginRead,
    /// Look a title up in the store; answer with [`Event::Stored`].
    Lookup { title: String },
    /// Tell whether a file of this name is in the output directory; answer
    /// with [`Event::Present`].
    Probe { name: String },
    /// Close the read transaction and open a write transaction.
    BeginWrite,
    /// Retrieve and decode the paste at this locator; answer with
    /// [`Event::Decoded`].
    Fetch { paste_url: String },
    /// Record `title -> name` in the write transaction.
    Record { title: String, name: String },
    /// Write the bytes to a new file of this name in the output directory.
    Write { name: String, bytes: Vec<u8> },
    /// Commit the write transaction.
    Commit,
    /// The batch is over; `committed` tells whether its records were
    /// committed or a store failure cut the batch short.
    Finish { committed: bool },
}

/// What the driver reports back after it has carried out an [`Action`].
#[derive(Debug)]
pub enum Event {
    /// The store operation succeeded, or the file was written.
    Ready,
    /// The store operation failed, or the file could not be written.
    Failed,
    /// The name recorded under the title that was looked up, if any.
    Stored(Option<String>),
    /// Whether the probed file exists.
    Present(bool),
    /// How retrieving and decoding the paste ended.
    Decoded(Result<DecodedArtifact, DecodeError>),
}

/// What an [`Action`] stands for in contracts.
pub enum ActionView {
    BeginRead,
    Lookup { title: Seq<char> },
    Probe { name: Seq<char> },
    BeginWrite,
    Fetch { paste_url: Seq<char> },
    Record { title: Seq<char>, name: Seq<char> },
    Write { name: Seq<char>, bytes: Seq<u8> },
    Commit,
    Finish { committed: bool },
}

/// What an [`Event`] stands for in contracts: of a decode attempt, only the
/// artifact, if there is one.
pub enum EventView {
    Ready,
    Failed,
    Stored(Option<Seq<char>>),
    Present(bool),
    Decoded(Option<ArtifactView>),
}

impl View for Action {
    type V = ActionView;

    open spec fn view(&self) -> ActionView {
        match self {
            Action::BeginRead => ActionView::BeginRead,
            Action::Lookup { title } => ActionView::Lookup { title: title@ },
            Action::Probe { name } => ActionView::Probe { name: name@ },
            Action::BeginWrite => ActionView::BeginWrite,
            Action::Fetch { paste_url } => ActionView::Fetch { paste_url: paste_url@ },
            Action::Record { title, name } => ActionView::Record { title: title@, name: name@ },
            Action::Write { name, bytes } => ActionView::Write { name: name@, bytes: bytes@ },
            Action::Commit => ActionView::Commit,
            Action::Finish { committed } => ActionView::Finish { committed: *committed },
        }
    }
}

impl View for Event {
    type V = EventView;

    open spec fn view(&self) -> EventView {
        match self {
            Event::Ready => EventView::Ready,
            Event::Failed => EventView::Failed,
            Event::Stored(Some(name)) => EventView::Stored(Some(name@)),
            Event::Stored(None) => EventView::Stored(None),
            Event::Present(present) => EventView::Present(*present),
            Event::Decoded(outcome) => EventView::Decoded(outcome_view(*outcome)),
        }
    }
}

/// The state of a session, as contracts see it.
pub struct SessionView {
    /// The candidates of the batch, in the order of extraction.
    pub games: Seq<GameView>,
    /// How many candidates have been screened against the store.
    pub screened: nat,
    /// The candidates that the screening let through, in order.
    pub pending: Seq<GameView>,
    /// How many pending candidates have been dealt with.
    pub saved: nat,
    /// The artifact that is being recorded and written, if any.
    pub held: Option<ArtifactView>,
    /// What the driver has been asked to do.
    pub awaiting: ActionView,
}

/// The state in which a batch starts.
pub open spec fn start(games: Seq<GameView>) -> SessionView {
    SessionView {
        games,
        screened: 0,
        pending: Seq::empty(),
        saved: 0,
        held: None,
        awaiting: ActionView::BeginRead,
    }
}

/// Screening goes on with the candidate at `at`, or ends where there is none.
pub open spec fn screen_from(s: SessionView, at: nat) -> SessionView {
    if at < s.games.len() {
        SessionView {
            screened: at,
            awaiting: ActionView::Lookup { title: s.games[at as int].title },
            ..s
        }
    } else {
        SessionView { screened: at, awaiting: ActionView::BeginWrite, ..s }
    }
}

/// The candidate under screening is let through.
pub open spec fn keep_current(s: SessionView) -> SessionView {
    screen_from(
        SessionView { pending: s.pending.push(s.games[s.screened as int]), ..s },
        s.screened + 1,
    )
}

/// The candidate under screening is dropped as already satisfied.
pub open spec fn skip_current(s: SessionView) -> SessionView {
    screen_from(s, s.screened + 1)
}

/// The first position at or after `from` whose locator parses, or the length
/// of `pending` where there is none.
pub open spec fn next_fetchable(pending: Seq<GameView>, from: nat) -> nat
    decreases pending.len() - from,
{
    if from >= pending.len() {
        pending.len()
    } else if paste_url_parses(pending[from as int].paste_url) {
        from
    } else {
        next_fetchable(pending, from + 1)
    }
}

/// Saving goes on with the first candidate at or after `from` whose locator
/// parses, or ends with the commit where there is none.
pub open spec fn save_from(s: SessionView, from: nat) -> SessionView {
    let at = next_fetchable(s.pending, from);
    if at < s.pending.len() {
        SessionView {
            saved: at,
            held: None,
            awaiting: ActionView::Fetch { paste_url: s.pending[at as int].paste_url },
            ..s
        }
    } else {
        SessionView { saved: at, held: None, awaiting: ActionView::Commit, ..s }
    }
}

/// The batch is over.
pub open spec fn finish(s: SessionView, committed: bool) -> SessionView {
    SessionView { held: None, awaiting: ActionView::Finish { committed }, ..s }
}

/// The state after the driver has reported `e` in state `s`. A report that
/// does not answer what was asked leaves the state as it is.
pub open spec fn step(s: SessionView, e: EventView) -> SessionView {
    match (s.awaiting, e) {
        (ActionView::BeginRead, EventView::Ready) => screen_from(s, 0),
        (ActionView::Lookup { .. }, EventView::Stored(None)) => keep_current(s),
        (ActionView::Lookup { .. }, EventView::Stored(Some(name))) => SessionView {
            awaiting: ActionView::Probe { name },
            ..s
        },
        (ActionView::Probe { .. }, EventView::Present(present)) => match s.held {
            None => if present {
                skip_current(s)
            } else {
                keep_current(s)
            },
            Some(artifact) => if present {
                save_from(s, s.saved + 1)
            } else {
                SessionView {
                    held: None,
                    awaiting: ActionView::Write { name: artifact.name, bytes: artifact.bytes },
                    ..s
                }
            },
        },
        (ActionView::BeginWrite, EventView::Ready) => save_from(s, 0),
        (ActionView::Fetch { .. }, EventView::Decoded(Some(artifact))) => SessionView {
            held: Some(artifact),
            awaiting: ActionView::Record {
                title: s.pending[s.saved as int].title,
                name: artifact.name,
            },
            ..s
        },
        (ActionView::Fetch { .. }, EventView::Decoded(None)) => save_from(s, s.saved + 1),
        (ActionView::Record { name, .. }, EventView::Ready) => SessionView {
            awaiting: ActionView::Probe { name },
            ..s
        },
        (ActionView::Write { .. }, EventView::Ready) => save_from(s, s.saved + 1),
        (ActionView::Write { .. }, EventView::Failed) => save_from(s, s.saved + 1),
        (ActionView::Commit, EventView::Ready) => finish(s, true),
        (ActionView::BeginRead, EventView::Failed) => finish(s, false),
        (ActionView::Lookup { .. }, EventView::Failed) => finish(s, false),
        (ActionView::BeginWrite, EventView::Failed) => finish(s, false),
        (ActionView::Record { .. }, EventView::Failed) => finish(s, false),
        (ActionView::Commit, EventView::Failed) => finish(s, false),
        _ => s,
    }
}

impl SessionView {
    /// What holds of every state that a session can be in.
    pub open spec fn wf(self) -> bool {
        &&& self.screened <= self.games.len()
        &&& self.saved <= self.pending.len()
        &&& match self.awaiting {
            ActionView::BeginRead => {
                &&& self.held is None
                &&& self.screened == 0
                &&& self.saved == 0
                &&& self.pending.len() == 0
            },
            ActionView::Lookup { title } => {
                &&& self.held is None
                &&& self.saved == 0
                &&& self.screened < self.games.len()
                &&& title == self.games[self.screened as int].title
            },
            ActionView::Probe { name } => match self.held {
                None => self.screened < self.games.len() && self.saved == 0,
                Some(artifact) => {
                    &&& artifact.name == name
                    &&& self.screened == self.games.len()
                    &&& self.saved < self.pending.len()
                },
            },
            ActionView::BeginWrite => {
                &&& self.held is None
                &&& self.screened == self.games.len()
                &&& self.saved == 0
            },
            ActionView::Fetch { paste_url } => {
                &&& self.held is None
                &&& self.screened == self.games.len()
                &&& self.saved < self.pending.len()
                &&& paste_url == self.pending[self.saved as int].paste_url
                &&& paste_url_parses(paste_url)
            },
            ActionView::Record { title, name } => {
                &&& self.screened == self.games.len()
                &&& self.saved < self.pending.len()
                &&& title == self.pending[self.saved as int].title
                &&& self.held matches Some(artifact)
                &&& artifact.name == name
            },
            ActionView::Write { .. } => {
                &&& self.held is None
                &&& self.screened == self.games.len()
                &&& self.saved < self.pending.len()
            },
            ActionView::Commit => {
                &&& self.held is None
                &&& self.screened == self.games.len()
                &&& self.saved == self.pending.len()
            },
            ActionView::Finish { .. } => self.held is None,
        }
    }

    /// Whether the batch is over.
    pub open spec fn finished(self) -> bool {
        self.awaiting is Finish
    }
}

/// `next_fetchable` stays within `pending` and lands on a locator that parses.
pub(crate) proof fn lemma_next_fetchable(pending: Seq<GameView>, from: nat)
    requires
        from <= pending.len(),
    ensures
        from <= next_fetchable(pending, from) <= pending.len(),
        next_fetchable(pending, from) < pending.len() ==> paste_url_parses(
            pending[next_fetchable(pending, from) as int].paste_url,
        ),
        forall|k: int|
            from <= k < next_fetchable(pending, from) ==> !paste_url_parses(
                #[trigger] pending[k].paste_url,
            ),
    decreases pending.len() - from,
{
    if from < pending.len() && !paste_url_parses(pending[from as int].paste_url) {
        lemma_next_fetchable(pending, from + 1);
    }
}

/// Every step leads from a well-formed state to a well-formed state.
pub proof fn law_step_keeps_well_formed(s: SessionView, e: EventView)
    requires
        s.wf(),
    ensures
        step(s, e).wf(),
{
    if s.saved < s.pending.len() {
        lemma_next_fetchable(s.pending, s.saved + 1);
    }
    lemma_next_fetchable(s.pending, 0);
}

/// The decisions of one batch of candidates: which titles to look up, which
/// pastes to retrieve, what to record and which files to write. The driver
/// carries out [`SaveSession::action`] and reports with
/// [`SaveSession::handle`] until the action is [`Action::Finish`].
pub struct SaveSession {
    games: Vec<Game>,
    screened: usize,
    pending: Vec<Game>,
    saved: usize,
    held: Option<DecodedArtifact>,
    awaiting: Action,
}

impl View for SaveSession {
    type V = SessionView;

    closed spec fn view(&self) -> SessionView {
        SessionView {
            games: game_views(self.games@),
            screened: self.screened as nat,
            pending: game_views(self.pending@),
            saved: self.saved as nat,
            held: match self.held {
                Some(artifact) => Some(artifact@),
                None => None,
            },
            awaiting: self.awaiting@,
        }
    }
}

/// Starts the session that saves the torrents of one batch of candidates.
pub fn save_torrent_files(games: Vec<Game>) -> (session: SaveSession)
    ensures
        session@ == start(game_views(games@)),
        session@.wf(),
{
    let session = SaveSession {
        games,
        screened: 0,
        pending: Vec::new(),
        saved: 0,
        held: None,
        awaiting: Action::BeginRead,
    };
    assert(session@.pending =~= Seq::empty());
    session
}

impl SaveSession {
    #[verifier::type_invariant]
    spec fn well_formed(self) -> bool {
        self@.wf()
    }

    /// What the driver is asked to do now.
    pub fn action(&self) -> (action: &Action)
        ensures
            action@ == self@.awaiting,
    {
        &self.awaiting
    }

    /// Whether the batch is over.
    pub fn is_finished(&self) -> (finished: bool)
        ensures
            finished == self@.finished(),
    {
        match self.awaiting {
            Action::Finish { .. } => true,
            _ => false,
        }
    }

    /// The candidates that the screening has let through so far.
    pub fn pending(&self) -> (pending: &Vec<Game>)
        ensures
            game_views(pending@) == self@.pending,
    {
        &self.pending
    }

    /// Takes the driver's report on the action that was asked for, and moves
    /// on to the next action.
    pub fn handle(&mut self, event: Event)
        ensures
            final(self)@ == step(old(self)@, event@),
            final(self)@.wf(),
    {
        let mut current = SaveSession {
            games: Vec::new(),
            screened: 0,
            pending: Vec::new(),
            saved: 0,
            held: None,
            awaiting: Action::Finish { committed: false },
        };
        std::mem::swap(self, &mut current);
        let next = current.after(event);
        proof {
            use_type_invariant(&next);
        }
        *self = next;
    }

    fn after(self, event: Event) -> (next: SaveSession)
        ensures
            next@ == step(self@, event@),
    {
        proof {
            use_type_invariant(&self);
            law_step_keeps_well_formed(self@, event@);
        }
        let ghost old_view = self@;
        let SaveSession { games, screened, mut pending, saved, held, awaiting } = self;
        assert(old_view.games.len() == games.len());
        assert(old_view.pending.len() == pending.len());
        match (awaiting, event) {
            (Action::BeginRead, Event::Ready) => screening(games, pending, 0),
            (Action::Lookup { .. }, Event::Stored(None)) => keeping(games, pending, screened),
            (Action::Lookup { .. }, Event::Stored(Some(name))) => SaveSession {
                games,
                screened,
                pending,
                saved,
                held,
                awaiting: Action::Probe { name },
            },
            (Action::Probe { name }, Event::Present(present)) => match held {
                None => if present {
                    screening(games, pending, screened + 1)
                } else {
                    keeping(games, pending, screened)
                },
                Some(artifact) => if present {
                    saving(games, pending, saved + 1)
                } else {
                    SaveSession {
                        games,
                        screened,
                        pending,
                        saved,
                        held: None,
                        awaiting: Action::Write { name: artifact.name, bytes: artifact.bytes },
                    }
                },
            },
            (Action::BeginWrite, Event::Ready) => saving(games, pending, 0),
            (Action::Fetch { .. }, Event::Decoded(Ok(artifact))) => {
                let awaiting = Action::Record {
                    title: pending[saved].title().clone(),
                    name: artifact.name.clone(),
                };
                SaveSession { games, screened, pending, saved, held: Some(artifact), awaiting }
            },
            (Action::Fetch { .. }, Event::Decoded(Err(_))) => saving(games, pending, saved + 1),
            (Action::Record { name, .. }, Event::Ready) => SaveSession {
                games,
                screened,
                pending,
                saved,
                held,
                awaiting: Action::Probe { name },
            },
            (Action::Write { .. }, Event::Ready) => saving(games, pending, saved + 1),
            (Action::Write { .. }, Event::Failed) => saving(games, pending, saved + 1),
            (Action::Commit, Event::Ready) => SaveSession {
                games,
                screened,
                pending,
                saved,
                held: None,
                awaiting: Action::Finish { committed: true },
            },
            (Action::BeginRead, Event::Failed)
            | (Action::Lookup { .. }, Event::Failed)
            | (Action::BeginWrite, Event::Failed)
            | (Action::Record { .. }, Event::Failed)
            | (Action::Commit, Event::Failed) => SaveSession {
                games,
                screened,
                pending,
                saved,
                held: None,
                awaiting: Action::Finish { committed: false },
            },
            (awaiting, _) => SaveSession { games, screened, pending, saved, held, awaiting },
        }
    }
}

/// The session that goes on screening with the candidate at `at`.
fn screening(games: Vec<Game>, pending: Vec<Game>, at: usize) -> (next: SaveSession)
    requires
        at <= games.len(),
    ensures
        next@ == screen_from(
            SessionView {
                games: game_views(games@),
                screened: 0,
                pending: game_views(pending@),
                saved: 0,
                held: None,
                awaiting: ActionView::BeginRead,
            },
            at as nat,
        ),
{
    assert(game_views(games@).len() == games.len());
    let awaiting = if at < games.len() {
        Action::Lookup { title: games[at].title().clone() }
    } else {
        Action::BeginWrite
    };
    SaveSession { games, screened: at, pending, saved: 0, held: None, awaiting }
}

/// The session that lets the candidate at `at` through and goes on screening.
fn keeping(games: Vec<Game>, pending: Vec<Game>, at: usize) -> (next: SaveSession)
    requires
        at < games.len(),
    ensures
        next@ == keep_current(
            SessionView {
                games: game_views(games@),
                screened: at as nat,
                pending: game_views(pending@),
                saved: 0,
                held: None,
                awaiting: ActionView::BeginRead,
            },
        ),
{
    let mut pending = pending;
    let ghost before = game_views(pending@);
    pending.push(games[at].clone());
    assert(game_views(pending@) =~= before.push(game_views(games@)[at as int]));
    screening(games, pending, at + 1)
}

/// The session that goes on saving with the first candidate at or after
/// `from` whose locator parses.
fn saving(games: Vec<Game>, pending: Vec<Game>, from: usize) -> (next: SaveSession)
    requires
        from <= pending.len(),
    ensures
        next@ == save_from(
            SessionView {
                games: game_views(games@),
                screened: games@.len(),
                pending: game_views(pending@),
                saved: 0,
                held: None,
                awaiting: ActionView::BeginRead,
            },
            from as nat,
        ),
{
    let ghost views = game_views(pending@);
    assert(views.len() == pending.len());
    assert(game_views(games@).len() == games.len());
    let mut at = from;
    while at < pending.len() && parse_paste_url(pending[at].paste_url().as_str()).is_err()
        invariant
            from <= at <= pending.len(),
            views == game_views(pending@),
            next_fetchable(views, at as nat) == next_fetchable(views, from as nat),
        decreases pending.len() - at,
    {
        at = at + 1;
    }
    let screened = games.len();
    let awaiting = if at < pending.len() {
        Action::Fetch { paste_url: pending[at].paste_url().clone() }
    } else {
        Action::Commit
    };
    SaveSession { games, screened, pending, saved: at, held: None, awaiting }
}

} // verus!
