//! The presentation of a query, as a machine that is told what the store and
//! the driver answered and says what to do next.
//!
//! The caller looks the query up in the store and reports how many
//! candidates came back. The machine then asks for one entry after the other,
//! at most ten and in the order of the store, and takes the rendered text of
//! each. When the last one is in, it hands the texts out to be written to the
//! output channel. With no candidate it hands out a message instead, and the
//! channel is never asked for.

use vstd::prelude::*;
use crate::text::texts;

verus! {

/// How many of the candidates are shown at most.
pub const MAX_RESULTS: usize = 10;

/// Where a session stands.
#[derive(Debug, Clone, Copy, PartialEq, Eq)]
pub enum Stage {
    /// Waiting for the number of candidates.
    Searching,
    /// Waiting for the rendered text of an entry.
    Resolving,
    /// Nothing more will be done.
    Finished,
}

/// What the caller reports.
#[derive(Debug, Clone, PartialEq, Eq)]
pub enum Event {
    /// The store returned this many candidates.
    Candidates(usize),
    /// The entry that was asked for, formatted and rendered.
    Rendered(String),
    /// The driver could not produce the entry that was asked for.
    Unresolved,
}

/// What the caller is to do.
#[derive(Debug, Clone, PartialEq, Eq)]
pub enum Action {
    /// Resolve the candidate at this position and report its rendered text.
    Resolve(usize),
    /// Print the message and end with success, without an output channel.
    Report(String),
    /// Acquire the output channel, write the texts in order, release it.
    Page(Vec<String>),
    /// End with failure: an entry could not be resolved.
    Abort,
}

/// The presentation of one query.
#[derive(Debug)]
pub struct Session {
    query: String,
    stage: Stage,
    selected: usize,
    rendered: Vec<String>,
}

/// A session over sequences of characters.
pub ghost struct SessionView {
    pub query: Seq<char>,
    pub stage: Stage,
    /// How many candidates are to be shown.
    pub selected: nat,
    /// The rendered texts that are in, in the order of the candidates.
    pub rendered: Seq<Seq<char>>,
}

/// An event over sequences of characters.
pub ghost enum EventView {
    Candidates(nat),
    Rendered(Seq<char>),
    Unresolved,
}

/// An action over sequences of characters.
pub ghost enum ActionView {
    Resolve(nat),
    Report(Seq<char>),
    Page(Seq<Seq<char>>),
    Abort,
}

impl View for Event {
    type V = EventView;

    open spec fn view(&self) -> EventView {
        match *self {
            Event::Candidates(count) => EventView::Candidates(count as nat),
            Event::Rendered(text) => EventView::Rendered(text@),
            Event::Unresolved => EventView::Unresolved,
        }
    }
}

impl View for Action {
    type V = ActionView;

    open spec fn view(&self) -> ActionView {
        match *self {
            Action::Resolve(position) => ActionView::Resolve(position as nat),
            Action::Report(message) => ActionView::Report(message@),
            Action::Page(pages) => ActionView::Page(texts(pages@)),
            Action::Abort => ActionView::Abort,
        }
    }
}

impl View for Session {
    type V = SessionView;

    closed spec fn view(&self) -> SessionView {
        SessionView {
            query: self.query@,
            stage: self.stage,
            selected: self.selected as nat,
            rendered: texts(self.rendered@),
        }
    }
}

/// The view of an optional action.
pub open spec fn optional_action(action: Option<Action>) -> Option<ActionView> {
    match action {
        Some(a) => Some(a@),
        None => None,
    }
}

/// A session that has just been opened for `query`.
pub open spec fn opened(query: Seq<char>) -> SessionView {
    SessionView { query, stage: Stage::Searching, selected: 0, rendered: Seq::empty() }
}

/// A session that has come to its end.
pub open spec fn finished(query: Seq<char>) -> SessionView {
    SessionView { query, stage: Stage::Finished, selected: 0, rendered: Seq::empty() }
}

/// How many of `candidates` are shown: all of them up to the limit.
pub open spec fn selected_count(candidates: nat) -> nat {
    if candidates <= MAX_RESULTS {
        candidates
    } else {
        MAX_RESULTS as nat
    }
}

/// What is said when nothing matches.
pub open spec fn no_results_message(query: Seq<char>) -> Seq<char> {
    "No results for \""@ + query + "\"."@
}

/// Whether a session at `stage` is waiting for `event`.
pub open spec fn awaited(stage: Stage, event: EventView) -> bool {
    match stage {
        Stage::Searching => event is Candidates,
        Stage::Resolving => event is Rendered || event is Unresolved,
        Stage::Finished => false,
    }
}

/// The session after `event`, and what the caller is to do. An event that
/// the session is not waiting for changes nothing and asks for nothing.
pub open spec fn next(session: SessionView, event: EventView) -> (SessionView, Option<ActionView>) {
    if !awaited(session.stage, event) {
        (session, None)
    } else {
        match event {
            EventView::Candidates(count) => {
                if count == 0 {
                    (
                        finished(session.query),
                        Some(ActionView::Report(no_results_message(session.query))),
                    )
                } else {
                    (
                        SessionView {
                            query: session.query,
                            stage: Stage::Resolving,
                            selected: selected_count(count),
                            rendered: Seq::empty(),
                        },
                        Some(ActionView::Resolve(0)),
                    )
                }
            },
            EventView::Rendered(text) => {
                let rendered = session.rendered.push(text);
                if rendered.len() >= session.selected {
                    (finished(session.query), Some(ActionView::Page(rendered)))
                } else {
                    (
                        SessionView {
                            query: session.query,
                            stage: Stage::Resolving,
                            selected: session.selected,
                            rendered,
                        },
                        Some(ActionView::Resolve(rendered.len())),
                    )
                }
            },
            EventView::Unresolved => (finished(session.query), Some(ActionView::Abort)),
        }
    }
}

/// What is said when nothing matches `query`.
pub fn no_results(query: &str) -> (out: String)
    ensures
        out@ == no_results_message(query@),
{
    let mut out = String::from_str("No results for \"");
    out.append(query);
    out.append("\".");
    out
}

/// How many of `candidates` are shown.
pub fn select(candidates: usize) -> (count: usize)
    ensures
        count == selected_count(candidates as nat),
{
    if candidates <= MAX_RESULTS {
        candidates
    } else {
        MAX_RESULTS
    }
}

impl Session {
    /// Opens the presentation of `query`. The caller looks the query up in
    /// the store and reports the number of candidates.
    pub fn new(query: &str) -> (session: Session)
        ensures
            session@ == opened(query@),
            well_formed(session@),
    {
        let session = Session {
            query: String::from_str(query),
            stage: Stage::Searching,
            selected: 0,
            rendered: Vec::new(),
        };
        assert(texts(session.rendered@) =~= Seq::<Seq<char>>::empty());
        session
    }

    /// Where the session stands.
    pub fn stage(&self) -> (stage: Stage)
        ensures
            stage == self@.stage,
    {
        self.stage
    }

    fn finish(query: String) -> (session: Session)
        ensures
            session@ == finished(query@),
    {
        let session = Session { query, stage: Stage::Finished, selected: 0, rendered: Vec::new() };
        assert(texts(session.rendered@) =~= Seq::<Seq<char>>::empty());
        session
    }

    /// Takes an event and says what to do next. The result is `None` exactly
    /// when the session is not waiting for the event; it is then unchanged.
    pub fn step(self, event: Event) -> (out: (Session, Option<Action>))
        ensures
            (out.0@, optional_action(out.1)) == next(self@, event@),
            well_formed(self@) ==> well_formed(out.0@),
    {
        let Session { query, stage, selected, rendered } = self;
        match (stage, event) {
            (Stage::Searching, Event::Candidates(count)) => {
                if count == 0 {
                    let message = no_results(query.as_str());
                    (Session::finish(query), Some(Action::Report(message)))
                } else {
                    let session = Session {
                        query,
                        stage: Stage::Resolving,
                        selected: select(count),
                        rendered: Vec::new(),
                    };
                    assert(texts(session.rendered@) =~= Seq::<Seq<char>>::empty());
                    (session, Some(Action::Resolve(0)))
                }
            },
            (Stage::Resolving, Event::Rendered(text)) => {
                let mut rendered = rendered;
                let ghost before = texts(rendered@);
                rendered.push(text);
                assert(texts(rendered@) =~= before.push(text@));
                if rendered.len() >= selected {
                    (Session::finish(query), Some(Action::Page(rendered)))
                } else {
                    let position = rendered.len();
                    (
                        Session { query, stage: Stage::Resolving, selected, rendered },
                        Some(Action::Resolve(position)),
                    )
                }
            },
            (Stage::Resolving, Event::Unresolved) => (Session::finish(query), Some(Action::Abort)),
            (stage, _) => (Session { query, stage, selected, rendered }, None),
        }
    }
}

/// What holds of a session at every moment: while entries are resolved,
/// fewer texts are in than candidates were selected, and no more than the
/// limit were selected; before and after, no text is held.
pub open spec fn well_formed(session: SessionView) -> bool {
    match session.stage {
        Stage::Resolving => session.rendered.len() < session.selected <= MAX_RESULTS,
        _ => session.rendered.len() == 0,
    }
}

/// A session is well formed when it is opened and stays so whatever is
/// reported to it. The position it asks for is that of the next candidate,
/// and lies below the number selected. The output channel is asked for only
/// when there is output: the texts handed out are as many as were selected,
/// at least one and at most the limit.
pub proof fn lemma_step_keeps_well_formed(session: SessionView, event: EventView)
    requires
        well_formed(session),
    ensures
        well_formed(opened(session.query)),
        well_formed(next(session, event).0),
        next(session, event).0.query == session.query,
        next(session, event).1 matches Some(ActionView::Resolve(position)) ==> {
            &&& position == next(session, event).0.rendered.len()
            &&& position < next(session, event).0.selected
        },
        next(session, event).1 matches Some(ActionView::Page(pages)) ==> {
            &&& pages.len() == session.selected
            &&& 1 <= pages.len() <= MAX_RESULTS
        },
{
}

/// A finished session asks for nothing more: whatever is reported to it, it
/// stays as it is. After the message that nothing matched, no output channel
/// is ever asked for.
pub proof fn lemma_finished_is_final(session: SessionView, event: EventView)
    requires
        session.stage == Stage::Finished,
    ensures
        next(session, event) == (session, None::<ActionView>),
{
}

/// With no candidate the only action is the message, and the session is
/// finished.
pub proof fn lemma_nothing_found(query: Seq<char>)
    ensures
        next(opened(query), EventView::Candidates(0)) == (
            finished(query),
            Some(ActionView::Report(no_results_message(query))),
        ),
{
}

/// The session after a series of events, and the actions it asked for on the
/// way.
pub open spec fn run(session: SessionView, events: Seq<EventView>) -> (SessionView, Seq<ActionView>)
    decreases events.len(),
{
    if events.len() == 0 {
        (session, Seq::empty())
    } else {
        let (before, actions) = run(session, events.drop_last());
        let (after, action) = next(before, events.last());
        match action {
            Some(a) => (after, actions.push(a)),
            None => (after, actions),
        }
    }
}

/// The events of a query with `candidates` candidates whose entries all
/// resolve: the number of candidates, then the rendered texts in order.
pub open spec fn resolved_events(candidates: nat, pages: Seq<Seq<char>>) -> Seq<EventView> {
    seq![EventView::Candidates(candidates)] + Seq::new(
        pages.len(),
        |i: int| EventView::Rendered(pages[i]),
    )
}

/// The positions from zero up to `count`, each to be resolved.
pub open spec fn resolve_actions(count: nat) -> Seq<ActionView> {
    Seq::new(count, |i: int| ActionView::Resolve(i as nat))
}

/// While texts are still missing the session has asked for the candidates
/// from the first up to the next one, and holds the texts that came in.
proof fn lemma_run_resolving(query: Seq<char>, candidates: nat, pages: Seq<Seq<char>>)
    requires
        candidates > 0,
        pages.len() < selected_count(candidates),
    ensures
        run(opened(query), resolved_events(candidates, pages)) == (
            SessionView {
                query,
                stage: Stage::Resolving,
                selected: selected_count(candidates),
                rendered: pages,
            },
            resolve_actions(pages.len() + 1),
        ),
    decreases pages.len(),
{
    let events = resolved_events(candidates, pages);
    if pages.len() == 0 {
        assert(events.drop_last() =~= Seq::<EventView>::empty());
        assert(run(opened(query), events.drop_last()) == (opened(query), Seq::<ActionView>::empty()));
        assert(events.last() == EventView::Candidates(candidates));
        assert(pages =~= Seq::<Seq<char>>::empty());
        assert(Seq::<ActionView>::empty().push(ActionView::Resolve(0)) =~= resolve_actions(1));
    } else {
        let earlier = pages.drop_last();
        lemma_run_resolving(query, candidates, earlier);
        assert(events.drop_last() =~= resolved_events(candidates, earlier));
        assert(events.last() == EventView::Rendered(pages.last()));
        assert(earlier.push(pages.last()) =~= pages);
        assert(resolve_actions(earlier.len() + 1).push(ActionView::Resolve(pages.len()))
            =~= resolve_actions(pages.len() + 1));
    }
}

/// Of the candidates that the store returned, the first ones up to the limit
/// are resolved, each once and in the order of the store, and when the text
/// of the last is in, the texts are handed out in that same order. No
/// candidate beyond the limit is asked for.
pub proof fn lemma_shows_first_candidates_in_order(
    query: Seq<char>,
    candidates: nat,
    pages: Seq<Seq<char>>,
)
    requires
        candidates > 0,
        pages.len() == selected_count(candidates),
    ensures
        run(opened(query), resolved_events(candidates, pages)) == (
            finished(query),
            resolve_actions(pages.len()).push(ActionView::Page(pages)),
        ),
{
    let events = resolved_events(candidates, pages);
    let earlier = pages.drop_last();
    lemma_run_resolving(query, candidates, earlier);
    assert(events.drop_last() =~= resolved_events(candidates, earlier));
    assert(events.last() == EventView::Rendered(pages.last()));
    assert(earlier.push(pages.last()) =~= pages);
    assert(resolve_actions(earlier.len() + 1) =~= resolve_actions(pages.len()));
}

/// As soon as an entry cannot be resolved the session ends with failure, and
/// the texts that were in are not handed out.
pub proof fn lemma_unresolved_aborts(session: SessionView)
    requires
        session.stage == Stage::Resolving,
    ensures
        next(session, EventView::Unresolved) == (
            finished(session.query),
            Some(ActionView::Abort),
        ),
{
}

} // verus!
