//! The synchronisation cycle as a state machine.
//!
//! The machine decides; the caller acts. `step` takes the state and what
//! happened, and gives the next state and what to do next: send a request,
//! write the new local state down, or stop. The local state changes in one
//! step only, the one that ends a cycle as `Persisted`, and there the change
//! tag and the records change together.

use crate::discovery::{
    addressbook_in, find_addressbook, find_addressbook_home_set, find_current_user_principal,
    home_set_in, principal_in,
};
use crate::error::{Error, ErrorKind, Step};
use crate::props::Ctag;
use crate::records::{
    all_records_of, ctag_of, fetch_all_records, fetch_ctag, reconcile, reconciliation_of,
    record_views, Reconciliation, ReconciliationView, Record, RecordView,
};
use crate::request::{request_of, Method, Request, RequestView};
use vstd::prelude::*;

verus! {

/// Where a cycle stands.
#[derive(Clone, Copy, Debug, PartialEq, Eq, Structural)]
pub enum Phase {
    /// Nothing has been asked yet.
    Idle,
    /// A discovery request is out: the one of this step.
    DiscoveryInFlight(Step),
    /// The change-tag request is out.
    ChangeCheck,
    /// The server's change tag is the stored one. The cycle is over.
    UpToDate,
    /// The bulk request is out.
    RecordsFetching,
    /// The records are here and wait to be written down.
    Reconciling,
    /// The new local state is written down. The cycle is over.
    Persisted,
    /// The cycle is over with an error.
    Failed(Error),
}

/// The local state: the change tag and the records as of the last cycle that
/// ended `Persisted`.
#[derive(Clone, Debug, PartialEq, Eq)]
pub struct Store {
    pub ctag: Option<Ctag>,
    pub records: Vec<Record>,
}

pub ghost struct StoreView {
    pub ctag: Option<Seq<char>>,
    pub records: Seq<RecordView>,
}

impl View for Store {
    type V = StoreView;

    open spec fn view(&self) -> StoreView {
        StoreView {
            ctag: match self.ctag {
                Some(tag) => Some(tag@),
                None => None,
            },
            records: record_views(self.records@),
        }
    }
}

/// The state of a cycle.
#[derive(Clone, Debug, PartialEq, Eq)]
pub struct Sync {
    pub phase: Phase,
    pub host: String,
    /// The path as far as discovery has resolved it.
    pub path: String,
    /// The discovery steps that found nothing and kept the path they were
    /// given, in the order in which they were made.
    pub kept: Vec<Step>,
    pub store: Store,
    /// The server's change tag, once it is known to differ from the stored
    /// one.
    pub seen: Option<Ctag>,
    /// The records of the server, while they wait to be written down.
    pub fetched: Vec<Record>,
}

pub ghost struct SyncView {
    pub phase: Phase,
    pub host: Seq<char>,
    pub path: Seq<char>,
    pub kept: Seq<Step>,
    pub store: StoreView,
    pub seen: Option<Seq<char>>,
    pub fetched: Seq<RecordView>,
}

impl View for Sync {
    type V = SyncView;

    open spec fn view(&self) -> SyncView {
        SyncView {
            phase: self.phase,
            host: self.host@,
            path: self.path@,
            kept: self.kept@,
            store: self.store@,
            seen: match self.seen {
                Some(tag) => Some(tag@),
                None => None,
            },
            fetched: record_views(self.fetched@),
        }
    }
}

/// What happened since the last step.
#[derive(Clone, Debug, PartialEq, Eq)]
pub enum Event {
    /// The caller wants a cycle.
    Start,
    /// The request that was sent last was answered with this body.
    Response(String),
    /// What the last step asked for could not be done.
    Failure,
    /// The new local state is written down.
    Stored,
}

pub ghost enum EventView {
    Start,
    Response(Seq<char>),
    Failure,
    Stored,
}

impl View for Event {
    type V = EventView;

    open spec fn view(&self) -> EventView {
        match self {
            Event::Start => EventView::Start,
            Event::Response(body) => EventView::Response(body@),
            Event::Failure => EventView::Failure,
            Event::Stored => EventView::Stored,
        }
    }
}

/// What the caller is to do next.
#[derive(Clone, Debug, PartialEq, Eq)]
pub enum Action {
    /// Send this request and come back with its response.
    Send(Request),
    /// Write the fetched records and the new change tag down, then come
    /// back. The difference to what was held comes along.
    Persist(Reconciliation),
    /// The cycle is over.
    Stop,
    /// The event has no meaning in this phase. Nothing changed.
    Ignore,
}

pub ghost enum ActionView {
    Send(RequestView),
    Persist(ReconciliationView),
    Stop,
    Ignore,
}

impl View for Action {
    type V = ActionView;

    open spec fn view(&self) -> ActionView {
        match self {
            Action::Send(request) => ActionView::Send(request@),
            Action::Persist(changes) => ActionView::Persist(changes@),
            Action::Stop => ActionView::Stop,
            Action::Ignore => ActionView::Ignore,
        }
    }
}

/// A cycle that is still to begin.
pub open spec fn fresh(host: Seq<char>, path: Seq<char>, store: StoreView) -> SyncView {
    SyncView {
        phase: Phase::Idle,
        host,
        path,
        kept: Seq::empty(),
        store,
        seen: None,
        fetched: Seq::empty(),
    }
}

/// The cycle ends with an error. The local state stays as it was.
pub open spec fn failed(s: SyncView, error: Error) -> (SyncView, ActionView) {
    (SyncView { phase: Phase::Failed(error), ..s }, ActionView::Stop)
}

/// A discovery step is done. What it found is the path of the next request;
/// where it found nothing the path stays, and the step is noted.
pub open spec fn advance(
    s: SyncView,
    made: Step,
    found: Result<Option<Seq<char>>, Error>,
    phase: Phase,
    step: Step,
) -> (SyncView, ActionView) {
    match found {
        Ok(Some(url)) => (
            SyncView { phase, path: url, ..s },
            ActionView::Send(request_of(step, s.host, url)),
        ),
        Ok(None) => (
            SyncView { phase, kept: s.kept.push(made), ..s },
            ActionView::Send(request_of(step, s.host, s.path)),
        ),
        Err(error) => failed(s, error),
    }
}

/// The response to a discovery request has come.
pub open spec fn discovered(s: SyncView, step: Step, body: Seq<char>) -> (SyncView, ActionView) {
    match step {
        Step::Principal => advance(
            s,
            step,
            principal_in(body),
            Phase::DiscoveryInFlight(Step::HomeSet),
            Step::HomeSet,
        ),
        Step::HomeSet => advance(
            s,
            step,
            home_set_in(body),
            Phase::DiscoveryInFlight(Step::Collection),
            Step::Collection,
        ),
        Step::Collection => advance(s, step, addressbook_in(body), Phase::ChangeCheck, Step::ChangeTag),
        _ => (s, ActionView::Ignore),
    }
}

/// The response to the change-tag request has come: with the stored tag the
/// cycle is over, with another the records are asked for.
pub open spec fn checked(s: SyncView, body: Seq<char>) -> (SyncView, ActionView) {
    match ctag_of(body) {
        Ok(tag) => if s.store.ctag == Some(tag) {
            (SyncView { phase: Phase::UpToDate, ..s }, ActionView::Stop)
        } else {
            (
                SyncView { phase: Phase::RecordsFetching, seen: Some(tag), ..s },
                ActionView::Send(request_of(Step::Records, s.host, s.path)),
            )
        },
        Err(error) => failed(s, error),
    }
}

/// The response to the bulk request has come.
pub open spec fn received(s: SyncView, body: Seq<char>) -> (SyncView, ActionView) {
    match all_records_of(body) {
        Ok(records) => (
            SyncView { phase: Phase::Reconciling, fetched: records, ..s },
            ActionView::Persist(reconciliation_of(s.store.records, records)),
        ),
        Err(error) => failed(s, error),
    }
}

/// The fetched records and the tag they came under become the local state.
pub open spec fn persisted(s: SyncView) -> (SyncView, ActionView) {
    (
        SyncView {
            phase: Phase::Persisted,
            store: StoreView { ctag: s.seen, records: s.fetched },
            seen: None,
            fetched: Seq::empty(),
            ..s
        },
        ActionView::Stop,
    )
}

/// The next state and the next action.
pub open spec fn next(s: SyncView, event: EventView) -> (SyncView, ActionView) {
    match s.phase {
        Phase::Idle => match event {
            EventView::Start => (
                SyncView { phase: Phase::DiscoveryInFlight(Step::Principal), ..s },
                ActionView::Send(request_of(Step::Principal, s.host, s.path)),
            ),
            _ => (s, ActionView::Ignore),
        },
        Phase::DiscoveryInFlight(step) => match event {
            EventView::Response(body) => discovered(s, step, body),
            EventView::Failure => failed(s, Error { kind: ErrorKind::Transport, step }),
            _ => (s, ActionView::Ignore),
        },
        Phase::ChangeCheck => match event {
            EventView::Response(body) => checked(s, body),
            EventView::Failure => failed(
                s,
                Error { kind: ErrorKind::Transport, step: Step::ChangeTag },
            ),
            _ => (s, ActionView::Ignore),
        },
        Phase::RecordsFetching => match event {
            EventView::Response(body) => received(s, body),
            EventView::Failure => failed(
                s,
                Error { kind: ErrorKind::Transport, step: Step::Records },
            ),
            _ => (s, ActionView::Ignore),
        },
        Phase::Reconciling => match event {
            EventView::Stored => persisted(s),
            EventView::Failure => failed(
                s,
                Error { kind: ErrorKind::Transport, step: Step::Records },
            ),
            _ => (s, ActionView::Ignore),
        },
        _ => (s, ActionView::Ignore),
    }
}

/// A phase in which the cycle is over.
pub open spec fn is_over(phase: Phase) -> bool {
    phase is UpToDate || phase is Persisted || phase is Failed
}

/// How far a cycle has come.
pub open spec fn rank(phase: Phase) -> int {
    match phase {
        Phase::Idle => 0,
        Phase::DiscoveryInFlight(Step::Principal) => 1,
        Phase::DiscoveryInFlight(Step::HomeSet) => 2,
        Phase::DiscoveryInFlight(_) => 3,
        Phase::ChangeCheck => 4,
        Phase::RecordsFetching => 5,
        Phase::Reconciling => 6,
        _ => 7,
    }
}

/// A cycle goes forward one phase at a time, in the order principal, home
/// set, collection, change check, records, reconciling, unless it ends. An
/// event that is ignored changes nothing.
pub proof fn lemma_cycle_goes_forward(s: SyncView, event: EventView)
    ensures
        next(s, event).1 is Ignore ==> next(s, event).0 == s,
        !(next(s, event).1 is Ignore) ==> is_over(next(s, event).0.phase) || rank(
            next(s, event).0.phase,
        ) == rank(s.phase) + 1,
{
}

/// A cycle that is over stays as it is.
pub proof fn lemma_over_is_final(s: SyncView, event: EventView)
    requires
        is_over(s.phase),
    ensures
        next(s, event) == (s, ActionView::Ignore),
{
}

/// A cycle only reads from the server, and every request goes to the path
/// that discovery has resolved so far. Records are asked for in one place:
/// after a change check.
pub proof fn lemma_requests_only_read(s: SyncView, event: EventView)
    ensures
        next(s, event).1 matches ActionView::Send(request) ==> {
            &&& request.method == Method::Propfind || request.method == Method::Report
            &&& request.url == next(s, event).0.host + next(s, event).0.path
            &&& request.method == Method::Report ==> s.phase is ChangeCheck
        },
{
}

/// The state after a run of events, each taken by `next` in turn.
pub open spec fn run(s: SyncView, events: Seq<EventView>) -> SyncView
    decreases events.len(),
{
    if events.len() == 0 {
        s
    } else {
        next(run(s, events.drop_last()), events.last()).0
    }
}

/// A request for records in bulk.
pub open spec fn is_record_fetch(action: ActionView) -> bool {
    action matches ActionView::Send(request) && request.method == Method::Report
}

/// How many bulk requests a run of events asks for.
pub open spec fn record_fetches(s: SyncView, events: Seq<EventView>) -> nat
    decreases events.len(),
{
    if events.len() == 0 {
        0
    } else {
        let before = record_fetches(s, events.drop_last());
        if is_record_fetch(next(run(s, events.drop_last()), events.last()).1) {
            before + 1
        } else {
            before
        }
    }
}

/// The server's change tag is `tag` throughout: no response among the events
/// carries another.
pub open spec fn serves(events: Seq<EventView>, tag: Seq<char>) -> bool {
    forall|i: int|
        0 <= i < events.len() ==> match #[trigger] events[i] {
            EventView::Response(body) => match ctag_of(body) {
                Ok(other) => other == tag,
                Err(_) => true,
            },
            _ => true,
        }
}

/// What holds of a cycle for as long as the server's change tag is `tag`:
/// the tag that it has seen is `tag`, and so is the tag that it ends with.
pub open spec fn follows(s: SyncView, tag: Seq<char>) -> bool {
    &&& s.phase is RecordsFetching || s.phase is Reconciling ==> s.seen == Some(tag)
    &&& s.phase is UpToDate || s.phase is Persisted ==> s.store.ctag == Some(tag)
}

/// A phase in which no record has been asked for.
pub open spec fn is_quiet(phase: Phase) -> bool {
    !(phase is RecordsFetching || phase is Reconciling || phase is Persisted)
}

/// A cycle keeps to the tag that the server serves.
pub proof fn lemma_run_follows(s: SyncView, events: Seq<EventView>, tag: Seq<char>)
    requires
        follows(s, tag),
        serves(events, tag),
    ensures
        follows(run(s, events), tag),
    decreases events.len(),
{
    if events.len() > 0 {
        lemma_run_follows(s, events.drop_last(), tag);
    }
}

/// With the server's tag already stored, a cycle asks for no records and
/// leaves the local state as it is.
pub proof fn lemma_run_quiet(s: SyncView, events: Seq<EventView>, tag: Seq<char>)
    requires
        is_quiet(s.phase),
        s.store.ctag == Some(tag),
        serves(events, tag),
    ensures
        is_quiet(run(s, events).phase),
        run(s, events).store == s.store,
        record_fetches(s, events) == 0,
    decreases events.len(),
{
    if events.len() > 0 {
        lemma_run_quiet(s, events.drop_last(), tag);
    }
}

/// Synchronising twice is synchronising once: after a cycle that ended
/// `UpToDate` or `Persisted`, a second cycle over the local state that the
/// first one left, with the server's change tag unchanged, asks for no
/// records and leaves the local state as it is.
pub proof fn lemma_second_cycle_changes_nothing(
    first: SyncView,
    first_events: Seq<EventView>,
    second: SyncView,
    second_events: Seq<EventView>,
    tag: Seq<char>,
)
    requires
        first.phase is Idle,
        second.phase is Idle,
        serves(first_events, tag),
        serves(second_events, tag),
        run(first, first_events).phase is UpToDate || run(first, first_events).phase is Persisted,
        second.store == run(first, first_events).store,
    ensures
        record_fetches(second, second_events) == 0,
        run(second, second_events).store == second.store,
{
    lemma_run_follows(first, first_events, tag);
    lemma_run_quiet(second, second_events, tag);
}

/// A cycle that is cut short leaves the local state as it was: only the step
/// into `Persisted` changes it.
pub proof fn lemma_store_changes_at_persisted_only(s: SyncView, event: EventView)
    ensures
        next(s, event).0.store != s.store ==> s.phase is Reconciling && next(s, event).0.phase
            is Persisted,
        next(s, event).0.phase is Failed ==> next(s, event).0.store == s.store,
{
}

/// Whether the stored tag is `tag`.
pub fn holds_tag(store: &Store, tag: &Ctag) -> (same: bool)
    ensures
        same == (store@.ctag == Some(tag@)),
{
    match &store.ctag {
        Some(held) => held.same_as(tag),
        None => false,
    }
}

impl Sync {
    /// A cycle that is still to begin, over the local state of the last one.
    pub fn new(host: String, path: String, store: Store) -> (s: Sync)
        ensures
            s@ == fresh(host@, path@, store@),
    {
        let s = Sync {
            phase: Phase::Idle,
            host,
            path,
            kept: Vec::new(),
            store,
            seen: None,
            fetched: Vec::new(),
        };
        assert(s@.fetched =~= Seq::empty());
        s
    }

    /// The cycle ends with an error.
    fn fail(self, error: Error) -> (r: (Sync, Action))
        ensures
            (r.0@, r.1@) == failed(self@, error),
    {
        let Sync { phase: _, host, path, kept, store, seen, fetched } = self;
        (
            Sync { phase: Phase::Failed(error), host, path, kept, store, seen, fetched },
            Action::Stop,
        )
    }

    /// A discovery step is done.
    fn go_on(
        self,
        made: Step,
        found: Result<Option<String>, Error>,
        phase: Phase,
        step: Step,
    ) -> (r: (Sync, Action))
        ensures
            (r.0@, r.1@) == advance(
                self@,
                made,
                match found {
                    Ok(Some(url)) => Ok(Some(url@)),
                    Ok(None) => Ok(None),
                    Err(error) => Err(error),
                },
                phase,
                step,
            ),
    {
        match found {
            Ok(Some(url)) => {
                let Sync { phase: _, host, path: _, kept, store, seen, fetched } = self;
                let request = Request::new(step, host.as_str(), url.as_str());
                (Sync { phase, host, path: url, kept, store, seen, fetched }, Action::Send(request))
            },
            Ok(None) => {
                let Sync { phase: _, host, path, mut kept, store, seen, fetched } = self;
                let request = Request::new(step, host.as_str(), path.as_str());
                kept.push(made);
                (Sync { phase, host, path, kept, store, seen, fetched }, Action::Send(request))
            },
            Err(error) => self.fail(error),
        }
    }

    /// Takes an event and gives the next state and the next action.
    pub fn step(self, event: Event) -> (r: (Sync, Action))
        ensures
            (r.0@, r.1@) == next(self@, event@),
    {
        match self.phase {
            Phase::Idle => match event {
                Event::Start => {
                    let Sync { phase: _, host, path, kept, store, seen, fetched } = self;
                    let request = Request::new(Step::Principal, host.as_str(), path.as_str());
                    (
                        Sync {
                            phase: Phase::DiscoveryInFlight(Step::Principal),
                            host,
                            path,
                            kept,
                            store,
                            seen,
                            fetched,
                        },
                        Action::Send(request),
                    )
                },
                _ => (self, Action::Ignore),
            },
            Phase::DiscoveryInFlight(step) => match event {
                Event::Response(body) => match step {
                    Step::Principal => {
                        let found = find_current_user_principal(body.as_str());
                        self.go_on(
                            step,
                            found,
                            Phase::DiscoveryInFlight(Step::HomeSet),
                            Step::HomeSet,
                        )
                    },
                    Step::HomeSet => {
                        let found = find_addressbook_home_set(body.as_str());
                        self.go_on(
                            step,
                            found,
                            Phase::DiscoveryInFlight(Step::Collection),
                            Step::Collection,
                        )
                    },
                    Step::Collection => {
                        let found = find_addressbook(body.as_str());
                        self.go_on(step, found, Phase::ChangeCheck, Step::ChangeTag)
                    },
                    _ => (self, Action::Ignore),
                },
                Event::Failure => self.fail(Error { kind: ErrorKind::Transport, step }),
                _ => (self, Action::Ignore),
            },
            Phase::ChangeCheck => match event {
                Event::Response(body) => match fetch_ctag(body.as_str()) {
                    Ok(tag) => {
                        let Sync { phase: _, host, path, kept, store, seen, fetched } = self;
                        if holds_tag(&store, &tag) {
                            (
                                Sync {
                                    phase: Phase::UpToDate,
                                    host,
                                    path,
                                    kept,
                                    store,
                                    seen,
                                    fetched,
                                },
                                Action::Stop,
                            )
                        } else {
                            let request = Request::new(
                                Step::Records,
                                host.as_str(),
                                path.as_str(),
                            );
                            (
                                Sync {
                                    phase: Phase::RecordsFetching,
                                    host,
                                    path,
                                    kept,
                                    store,
                                    seen: Some(tag),
                                    fetched,
                                },
                                Action::Send(request),
                            )
                        }
                    },
                    Err(error) => self.fail(error),
                },
                Event::Failure => self.fail(
                    Error { kind: ErrorKind::Transport, step: Step::ChangeTag },
                ),
                _ => (self, Action::Ignore),
            },
            Phase::RecordsFetching => match event {
                Event::Response(body) => match fetch_all_records(body.as_str()) {
                    Ok(records) => {
                        let Sync { phase: _, host, path, kept, store, seen, fetched: _ } = self;
                        let changes = reconcile(&store.records, &records);
                        (
                            Sync {
                                phase: Phase::Reconciling,
                                host,
                                path,
                                kept,
                                store,
                                seen,
                                fetched: records,
                            },
                            Action::Persist(changes),
                        )
                    },
                    Err(error) => self.fail(error),
                },
                Event::Failure => self.fail(
                    Error { kind: ErrorKind::Transport, step: Step::Records },
                ),
                _ => (self, Action::Ignore),
            },
            Phase::Reconciling => match event {
                Event::Stored => {
                    let Sync { phase: _, host, path, kept, store: _, seen, fetched } = self;
                    let s = Sync {
                        phase: Phase::Persisted,
                        host,
                        path,
                        kept,
                        store: Store { ctag: seen, records: fetched },
                        seen: None,
                        fetched: Vec::new(),
                    };
                    assert(s@.fetched =~= Seq::empty());
                    (s, Action::Stop)
                },
                Event::Failure => self.fail(
                    Error { kind: ErrorKind::Transport, step: Step::Records },
                ),
                _ => (self, Action::Ignore),
            },
            _ => (self, Action::Ignore),
        }
    }
}

} // verus!
