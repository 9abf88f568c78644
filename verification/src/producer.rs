use vstd::prelude::*;

verus! {

/// The page numbers from `start` to `end`, both included, in ascending order;
/// none where `start` is above `end`.
pub open spec fn pages(start: u16, end: u16) -> Seq<u16> {
    if start <= end {
        Seq::new((end - start + 1) as nat, |i: int| (start + i) as u16)
    } else {
        Seq::empty()
    }
}

/// What the producer does with the page queue.
#[derive(Clone, Copy, Debug, PartialEq, Eq, Structural)]
pub enum ProducerAction {
    /// Send this page number into the queue.
    Emit(u16),
    /// The termination flag is set: close the queue at once. Page numbers
    /// that wait in the queue are given up.
    Close,
    /// Nothing is left to emit: leave, and let the queue end once it has been
    /// drained.
    Finish,
}

/// The state of a producer, as contracts see it.
pub struct ProducerView {
    /// The page numbers that are still to be emitted, in order.
    pub remaining: Seq<u16>,
    /// The producer has stopped, by closing the queue or by finishing.
    pub stopped: bool,
}

/// The producer's next state and action, given whether the termination flag
/// is set when it looks. With no page left it finishes, without a look at the
/// flag. Before each emission it looks at the flag: where the flag is set it
/// closes the queue, otherwise it emits the next page. Once stopped, it has
/// nothing more to do.
pub open spec fn produce(p: ProducerView, stop_requested: bool) -> (ProducerView, ProducerAction) {
    if p.stopped || p.remaining.len() == 0 {
        (ProducerView { stopped: true, ..p }, ProducerAction::Finish)
    } else if stop_requested {
        (ProducerView { stopped: true, ..p }, ProducerAction::Close)
    } else {
        (
            ProducerView { remaining: p.remaining.drop_first(), ..p },
            ProducerAction::Emit(p.remaining[0]),
        )
    }
}

/// The page numbers that a producer emits while it takes one step for each
/// entry of `stops`, the values of the termination flag that it sees.
pub open spec fn emitted(p: ProducerView, stops: Seq<bool>) -> Seq<u16>
    decreases stops.len(),
{
    if stops.len() == 0 {
        Seq::empty()
    } else {
        let (next, action) = produce(p, stops[0]);
        match action {
            ProducerAction::Emit(page) => seq![page] + emitted(next, stops.drop_first()),
            _ => emitted(next, stops.drop_first()),
        }
    }
}

/// Emits the page numbers of a range into the page queue, one at a time, and
/// stops as soon as it sees the termination flag set.
#[derive(Debug)]
pub struct PageProducer {
    next: u16,
    end: u16,
    exhausted: bool,
    stopped: bool,
}

impl View for PageProducer {
    type V = ProducerView;

    closed spec fn view(&self) -> ProducerView {
        ProducerView {
            remaining: if self.exhausted {
                Seq::empty()
            } else {
                pages(self.next, self.end)
            },
            stopped: self.stopped,
        }
    }
}

impl PageProducer {
    /// A producer for the pages from `start_page` to `end_page`.
    pub fn new(start_page: u16, end_page: u16) -> (producer: PageProducer)
        ensures
            producer@ == (ProducerView { remaining: pages(start_page, end_page), stopped: false }),
    {
        PageProducer { next: start_page, end: end_page, exhausted: false, stopped: false }
    }

    /// Takes the producer's next step, given the value of the termination
    /// flag read just before.
    pub fn step(&mut self, stop_requested: bool) -> (action: ProducerAction)
        ensures
            (final(self)@, action) == produce(old(self)@, stop_requested),
    {
        if self.stopped || self.exhausted || self.next > self.end {
            self.stopped = true;
            return ProducerAction::Finish;
        }
        if stop_requested {
            self.stopped = true;
            return ProducerAction::Close;
        }
        let page = self.next;
        if self.next < self.end {
            self.next = self.next + 1;
        } else {
            self.exhausted = true;
        }
        assert(self@.remaining =~= old(self)@.remaining.drop_first());
        ProducerAction::Emit(page)
    }
}

/// A producer that has stopped emits nothing, whatever it sees.
proof fn lemma_stopped_emits_nothing(p: ProducerView, stops: Seq<bool>)
    requires
        p.stopped,
    ensures
        emitted(p, stops) == Seq::<u16>::empty(),
    decreases stops.len(),
{
    if stops.len() > 0 {
        lemma_stopped_emits_nothing(produce(p, stops[0]).0, stops.drop_first());
    }
}

/// While the flag stays clear, a producer that has not stopped emits its
/// remaining pages in order, as many as it takes steps.
proof fn lemma_emits_in_order(p: ProducerView, stops: Seq<bool>)
    requires
        !p.stopped,
        forall|i: int| 0 <= i < stops.len() ==> !stops[i],
    ensures
        emitted(p, stops) == if stops.len() <= p.remaining.len() {
            p.remaining.take(stops.len() as int)
        } else {
            p.remaining
        },
    decreases stops.len(),
{
    if stops.len() == 0 {
        assert(p.remaining.take(0) =~= Seq::empty());
    } else if p.remaining.len() == 0 {
        lemma_stopped_emits_nothing(produce(p, stops[0]).0, stops.drop_first());
    } else {
        let next = produce(p, stops[0]).0;
        let rest = stops.drop_first();
        lemma_emits_in_order(next, rest);
        if stops.len() <= p.remaining.len() {
            assert(seq![p.remaining[0]] + p.remaining.drop_first().take(rest.len() as int)
                =~= p.remaining.take(stops.len() as int));
        } else {
            assert(seq![p.remaining[0]] + p.remaining.drop_first() =~= p.remaining);
        }
    }
}

/// Absent cancellation, the producer of a range emits each page number of
/// the range exactly once and in ascending order, and then finishes: given at
/// least as many steps as the range has pages, what it emits is the range.
pub proof fn law_emits_each_page_once(start_page: u16, end_page: u16, stops: Seq<bool>)
    requires
        start_page <= end_page,
        stops.len() >= end_page - start_page + 1,
        forall|i: int| 0 <= i < stops.len() ==> !stops[i],
    ensures
        emitted(
            ProducerView { remaining: pages(start_page, end_page), stopped: false },
            stops,
        ) == pages(start_page, end_page),
        pages(start_page, end_page).len() == end_page - start_page + 1,
        forall|i: int|
            0 <= i < pages(start_page, end_page).len() ==> #[trigger] pages(
                start_page,
                end_page,
            )[i] == start_page + i,
{
    let p = ProducerView { remaining: pages(start_page, end_page), stopped: false };
    lemma_emits_in_order(p, stops);
    assert(p.remaining.take(p.remaining.len() as int) =~= p.remaining);
}

/// What is emitted in two stretches of steps is what is emitted in the two
/// stretches together.
proof fn lemma_emitted_splits(p: ProducerView, stops: Seq<bool>, at: int)
    requires
        0 <= at <= stops.len(),
    ensures
        emitted(p, stops) == emitted(p, stops.take(at)) + emitted(
            after(p, stops.take(at)),
            stops.skip(at),
        ),
    decreases at,
{
    if at == 0 {
        assert(stops.skip(0) =~= stops);
        assert(stops.take(0) =~= Seq::empty());
        assert(Seq::<u16>::empty() + emitted(p, stops) =~= emitted(p, stops));
    } else {
        let next = produce(p, stops[0]).0;
        let head = stops.take(at);
        assert(head.drop_first() =~= stops.drop_first().take(at - 1));
        assert(stops.skip(at) =~= stops.drop_first().skip(at - 1));
        lemma_emitted_splits(next, stops.drop_first(), at - 1);
        let a = emitted(next, head.drop_first());
        let b = emitted(after(next, head.drop_first()), stops.skip(at));
        match produce(p, stops[0]).1 {
            ProducerAction::Emit(page) => {
                assert(seq![page] + (a + b) =~= (seq![page] + a) + b);
            },
            _ => {},
        }
    }
}

/// The state of a producer after one step for each entry of `stops`.
pub open spec fn after(p: ProducerView, stops: Seq<bool>) -> ProducerView
    decreases stops.len(),
{
    if stops.len() == 0 {
        p
    } else {
        after(produce(p, stops[0]).0, stops.drop_first())
    }
}

/// Once the producer has seen the termination flag set, it emits no further
/// page number: what it emits over all its steps is what it had emitted
/// before the step that saw the flag.
pub proof fn law_nothing_emitted_after_stop(p: ProducerView, stops: Seq<bool>, at: int)
    requires
        0 <= at < stops.len(),
        stops[at],
    ensures
        emitted(p, stops) == emitted(p, stops.take(at)),
{
    lemma_emitted_splits(p, stops, at);
    let q = after(p, stops.take(at));
    let rest = stops.skip(at);
    assert(rest[0] == stops[at]);
    lemma_stopped_emits_nothing(produce(q, rest[0]).0, rest.drop_first());
    assert(emitted(p, stops.take(at)) + Seq::<u16>::empty() =~= emitted(p, stops.take(at)));
}

/// The producer emits at most one page number for each step that it takes:
/// it has a further page number to send only after the queue has taken the
/// one before. How long a send waits for room in the page queue is the
/// queue's doing.
pub proof fn law_one_page_per_step(p: ProducerView, stops: Seq<bool>)
    ensures
        emitted(p, stops).len() <= stops.len(),
    decreases stops.len(),
{
    if stops.len() > 0 {
        law_one_page_per_step(produce(p, stops[0]).0, stops.drop_first());
    }
}

} // verus!
