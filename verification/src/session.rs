//! The course of one lookup, as a machine that is driven from outside: it
//! is told what happened and says what to do next. Whoever drives it does
//! the connecting, the querying and the printing.

use crate::error::LookupError;
use crate::predicate::{main_query, main_query_text};
use crate::record::{render_row, row_lines, OutcomeRecord};
use crate::request::LookupRequest;
use crate::resolver::{find_org_id, first_nonzero, org_probe_query, probe_text};
use vstd::prelude::*;

verus! {

/// The line that is printed where no row matches.
pub const NO_OUTCOMES: &'static str = "no outcomes found";

/// How far a lookup has come.
#[derive(Debug, Clone, Copy, PartialEq, Eq, Structural)]
pub enum State {
    /// Nothing has happened yet; the connection is awaited.
    Idle,
    /// The probe for the organization is under way.
    Resolving,
    /// The query is under way, and no row of it has been seen.
    Connected,
    /// At least one row has been printed, and more may follow.
    Printing,
    /// All rows have been printed, and there was at least one.
    Done,
    /// The query returned no row, which has been said.
    Empty,
    /// The lookup failed.
    Failed,
}

/// What went wrong outside.
#[derive(Debug, Clone, Copy, PartialEq, Eq, Structural)]
pub enum Fault {
    /// The store could not be reached.
    Connection,
    /// The store refused or failed a query.
    Query,
    /// A row did not have the expected columns.
    Decode,
}

/// What happened outside.
#[derive(Debug, Clone, PartialEq, Eq)]
pub enum Event {
    /// The connection stands.
    Connected,
    /// The probe returned these organizations, in order.
    Organizations(Vec<u64>),
    /// The query returned one more row.
    Row(OutcomeRecord),
    /// The query has no more rows.
    EndOfRows,
    /// Something failed.
    Failed(Fault),
}

/// What to do next.
#[derive(Debug, Clone, PartialEq, Eq)]
pub enum Action {
    /// Connect to the store at this endpoint.
    Connect { endpoint: String },
    /// Run the probe for the organization and report what it returns.
    Probe { query: String },
    /// Run the query and report its rows one by one.
    Query { query: String },
    /// Print these lines, each on a line of its own.
    Print { lines: Vec<String> },
    /// Nothing is left to do.
    Finish,
    /// Give up with this error.
    Abort { error: LookupError },
}

/// An action with its texts as plain sequences.
pub enum Step {
    Connect { endpoint: Seq<char> },
    Probe { query: Seq<char> },
    Query { query: Seq<char> },
    Print { lines: Seq<Seq<char>> },
    Finish,
    Abort { error: LookupError },
}

impl View for Action {
    type V = Step;

    open spec fn view(&self) -> Step {
        match self {
            Action::Connect { endpoint } => Step::Connect { endpoint: endpoint@ },
            Action::Probe { query } => Step::Probe { query: query@ },
            Action::Query { query } => Step::Query { query: query@ },
            Action::Print { lines } => Step::Print { lines: lines.deep_view() },
            Action::Finish => Step::Finish,
            Action::Abort { error } => Step::Abort { error: *error },
        }
    }
}

/// The error that reports a fault.
pub open spec fn error_of(fault: Fault) -> LookupError {
    match fault {
        Fault::Connection => LookupError::Connection,
        Fault::Query => LookupError::Query,
        Fault::Decode => LookupError::Decode,
    }
}

/// Whether a lookup in this state is over.
pub open spec fn is_final(state: State) -> bool {
    state == State::Done || state == State::Empty || state == State::Failed
}

/// The answer to an event that the state does not wait for.
pub open spec fn out_of_order() -> (State, Step) {
    (State::Failed, Step::Abort { error: LookupError::OutOfOrder })
}

/// The first step of a lookup: to connect, unless the request holds a time
/// bound that cannot be written, which is said before anything is sent.
pub open spec fn first_step(request: LookupRequest) -> (State, Step) {
    if main_query_text(request, None) is Some {
        (State::Idle, Step::Connect { endpoint: request.endpoint@ })
    } else {
        (State::Failed, Step::Abort { error: LookupError::Usage })
    }
}

/// Sending the query, with the organization that was given or found.
pub open spec fn send_query(request: LookupRequest, org_id: Option<u64>) -> (State, Step) {
    match main_query_text(request, org_id) {
        Some(query) => (State::Connected, Step::Query { query }),
        None => (State::Failed, Step::Abort { error: LookupError::Usage }),
    }
}

/// Once connected: the query at once where the organization is given or
/// there is no project to find it by, else the probe.
pub open spec fn on_connected(request: LookupRequest) -> (State, Step) {
    match request.org_id {
        Some(org_id) => send_query(request, Some(org_id)),
        None => match request.project_id {
            Some(project_id) => (State::Resolving, Step::Probe { query: probe_text(project_id) }),
            None => send_query(request, None),
        },
    }
}

/// Once the probe has returned: the query with the first organization that
/// is not zero, or a failure where there is none.
pub open spec fn on_organizations(request: LookupRequest, org_ids: Seq<u64>) -> (State, Step) {
    match (request.org_id, request.project_id) {
        (None, Some(project_id)) => match first_nonzero(org_ids) {
            Some(org_id) => send_query(request, Some(org_id)),
            None => (State::Failed, Step::Abort { error: LookupError::Resolution { project_id } }),
        },
        _ => out_of_order(),
    }
}

/// For one more row: its lines, all of them or none.
pub open spec fn on_row(record: OutcomeRecord) -> (State, Step) {
    match row_lines(record) {
        Some(lines) => (State::Printing, Step::Print { lines }),
        None => (State::Failed, Step::Abort { error: LookupError::Decode }),
    }
}

/// The state that follows a state on an event, and what is to be done.
pub open spec fn next_step(request: LookupRequest, state: State, event: Event) -> (State, Step) {
    if is_final(state) {
        out_of_order()
    } else {
        match event {
            Event::Failed(fault) => (State::Failed, Step::Abort { error: error_of(fault) }),
            Event::Connected => if state == State::Idle {
                on_connected(request)
            } else {
                out_of_order()
            },
            Event::Organizations(org_ids) => if state == State::Resolving {
                on_organizations(request, org_ids@)
            } else {
                out_of_order()
            },
            Event::Row(record) => if state == State::Connected || state == State::Printing {
                on_row(record)
            } else {
                out_of_order()
            },
            Event::EndOfRows => if state == State::Connected {
                (State::Empty, Step::Print { lines: seq![NO_OUTCOMES@] })
            } else if state == State::Printing {
                (State::Done, Step::Finish)
            } else {
                out_of_order()
            },
        }
    }
}

/// The steps that a series of events leads to, from a state on.
pub open spec fn steps(request: LookupRequest, state: State, events: Seq<Event>) -> Seq<Step>
    decreases events.len(),
{
    if events.len() == 0 {
        Seq::empty()
    } else {
        seq![next_step(request, state, events[0]).1] + steps(
            request,
            next_step(request, state, events[0]).0,
            events.drop_first(),
        )
    }
}

/// The state that a series of events leads to, from a state on.
pub open spec fn state_after(request: LookupRequest, state: State, events: Seq<Event>) -> State
    decreases events.len(),
{
    if events.len() == 0 {
        state
    } else {
        state_after(request, next_step(request, state, events[0]).0, events.drop_first())
    }
}

/// The events that hand over the rows of a result, one by one.
pub open spec fn row_events(records: Seq<OutcomeRecord>) -> Seq<Event> {
    Seq::new(records.len(), |i: int| Event::Row(records[i]))
}

/// The steps that print the rows of a result, one block for each row.
pub open spec fn row_prints(records: Seq<OutcomeRecord>) -> Seq<Step> {
    Seq::new(records.len(), |i: int| Step::Print { lines: row_lines(records[i])->0 })
}

/// Whether every row of a result can be printed.
pub open spec fn all_printable(records: Seq<OutcomeRecord>) -> bool {
    forall|i: int| 0 <= i < records.len() ==> (#[trigger] row_lines(records[i])) is Some
}

/// How many of the steps send something to the store.
pub open spec fn round_trips(taken: Seq<Step>) -> nat
    decreases taken.len(),
{
    if taken.len() == 0 {
        0
    } else {
        round_trips(taken.drop_first()) + if taken[0] is Probe || taken[0] is Query {
            1nat
        } else {
            0nat
        }
    }
}

/// How many round trips a lookup can still make from a state on.
pub open spec fn trips_left(request: LookupRequest, state: State) -> nat {
    if state == State::Idle {
        if request.org_id is None && request.project_id is Some {
            2
        } else {
            1
        }
    } else if state == State::Resolving {
        1
    } else {
        0
    }
}

impl State {
    /// Whether the lookup is over.
    pub fn is_over(&self) -> (over: bool)
        ensures
            over == is_final(*self),
    {
        match self {
            State::Done | State::Empty | State::Failed => true,
            _ => false,
        }
    }

    /// The exit code of a lookup that is over: 0 where it ran, with or
    /// without a row, 1 where it failed. `None` while it is under way.
    pub fn exit_code(&self) -> (code: Option<u8>)
        ensures
            code == exit_code_of(*self),
    {
        match self {
            State::Done | State::Empty => Some(0),
            State::Failed => Some(1),
            _ => None,
        }
    }
}

/// The exit code that belongs to a state.
pub open spec fn exit_code_of(state: State) -> Option<u8> {
    if state == State::Done || state == State::Empty {
        Some(0u8)
    } else if state == State::Failed {
        Some(1u8)
    } else {
        None
    }
}

fn abort(error: LookupError) -> (step: (State, Action))
    ensures
        step.0 == State::Failed,
        step.1@ == (Step::Abort { error }),
{
    (State::Failed, Action::Abort { error })
}

fn send(request: &LookupRequest, org_id: Option<u64>) -> (step: (State, Action))
    ensures
        (step.0, step.1@) == send_query(*request, org_id),
{
    match main_query(request, org_id) {
        Ok(query) => (State::Connected, Action::Query { query }),
        Err(error) => abort(error),
    }
}

/// Begins a lookup.
pub fn start(request: &LookupRequest) -> (step: (State, Action))
    ensures
        (step.0, step.1@) == first_step(*request),
{
    match main_query(request, None) {
        Ok(_) => (State::Idle, Action::Connect { endpoint: request.endpoint.clone() }),
        Err(error) => abort(error),
    }
}

/// Takes a lookup one event further.
pub fn advance(request: &LookupRequest, state: State, event: Event) -> (step: (State, Action))
    ensures
        (step.0, step.1@) == next_step(*request, state, event),
{
    if state.is_over() {
        return abort(LookupError::OutOfOrder);
    }
    match event {
        Event::Failed(fault) => {
            let error = match fault {
                Fault::Connection => LookupError::Connection,
                Fault::Query => LookupError::Query,
                Fault::Decode => LookupError::Decode,
            };
            abort(error)
        },
        Event::Connected => {
            if state != State::Idle {
                return abort(LookupError::OutOfOrder);
            }
            match request.org_id {
                Some(org_id) => send(request, Some(org_id)),
                None => match request.project_id {
                    Some(project_id) => (
                        State::Resolving,
                        Action::Probe { query: org_probe_query(project_id) },
                    ),
                    None => send(request, None),
                },
            }
        },
        Event::Organizations(org_ids) => {
            if state != State::Resolving {
                return abort(LookupError::OutOfOrder);
            }
            match (request.org_id, request.project_id) {
                (None, Some(project_id)) => match find_org_id(&org_ids) {
                    Some(org_id) => send(request, Some(org_id)),
                    None => abort(LookupError::Resolution { project_id }),
                },
                _ => abort(LookupError::OutOfOrder),
            }
        },
        Event::Row(record) => {
            if state != State::Connected && state != State::Printing {
                return abort(LookupError::OutOfOrder);
            }
            match render_row(&record) {
                Ok(lines) => (State::Printing, Action::Print { lines }),
                Err(error) => abort(error),
            }
        },
        Event::EndOfRows => {
            if state == State::Connected {
                let mut lines: Vec<String> = Vec::new();
                lines.push(String::from_str(NO_OUTCOMES));
                assert(lines.deep_view() =~= seq![NO_OUTCOMES@]);
                (State::Empty, Action::Print { lines })
            } else if state == State::Printing {
                (State::Done, Action::Finish)
            } else {
                abort(LookupError::OutOfOrder)
            }
        },
    }
}

/// A project without an organization, and a probe that returns no
/// organization but zero: the lookup asks the probe, then fails with the error
/// that names the project. It prints nothing, and does not end as a lookup
/// without rows does.
pub proof fn unresolved_project_fails(request: LookupRequest, project_id: u64, org_ids: Vec<u64>)
    requires
        request.org_id is None,
        request.project_id == Some(project_id),
        forall|i: int| 0 <= i < org_ids@.len() ==> org_ids@[i] == 0,
    ensures
        next_step(request, State::Idle, Event::Connected) == (
            State::Resolving,
            Step::Probe { query: probe_text(project_id) },
        ),
        next_step(request, State::Resolving, Event::Organizations(org_ids)) == (
            State::Failed,
            Step::Abort { error: LookupError::Resolution { project_id } },
        ),
        steps(request, State::Idle, seq![Event::Connected, Event::Organizations(org_ids)])
            == seq![
            Step::Probe { query: probe_text(project_id) },
            Step::Abort { error: LookupError::Resolution { project_id } },
        ],
        state_after(request, State::Idle, seq![Event::Connected, Event::Organizations(org_ids)])
            == State::Failed,
        exit_code_of(State::Failed) == Some(1u8),
{
    crate::resolver::first_nonzero_is_first(org_ids@);
    let events = seq![Event::Connected, Event::Organizations(org_ids)];
    assert(events.drop_first() =~= seq![Event::Organizations(org_ids)]);
    assert(events.drop_first().drop_first() =~= Seq::<Event>::empty());
    reveal_with_fuel(steps, 3);
    reveal_with_fuel(state_after, 3);
    assert(steps(request, State::Idle, events) =~= seq![
        Step::Probe { query: probe_text(project_id) },
        Step::Abort { error: LookupError::Resolution { project_id } },
    ]);
}

/// With the organization given, no series of events leads to a probe: the
/// one thing that is ever sent to the store is the query.
pub proof fn given_organization_is_not_probed(
    request: LookupRequest,
    state: State,
    events: Seq<Event>,
)
    requires
        request.org_id is Some,
    ensures
        forall|i: int|
            0 <= i < steps(request, state, events).len() ==> !(#[trigger] steps(
                request,
                state,
                events,
            )[i] is Probe),
        round_trips(steps(request, State::Idle, events)) <= 1,
    decreases events.len(),
{
    round_trips_are_bounded(request, State::Idle, events);
    if events.len() > 0 {
        let following = next_step(request, state, events[0]);
        given_organization_is_not_probed(request, following.0, events.drop_first());
        let rest = steps(request, following.0, events.drop_first());
        assert forall|i: int| 0 <= i < steps(request, state, events).len() implies !(
        #[trigger] steps(request, state, events)[i] is Probe) by {
            if i > 0 {
                assert(steps(request, state, events)[i] == rest[i - 1]);
            }
        }
    }
}

/// A lookup sends at most two things to the store, the probe and the
/// query, and only the query where it needs no probe.
pub proof fn round_trips_are_bounded(request: LookupRequest, state: State, events: Seq<Event>)
    ensures
        round_trips(steps(request, state, events)) <= trips_left(request, state),
    decreases events.len(),
{
    if events.len() > 0 {
        let following = next_step(request, state, events[0]);
        round_trips_are_bounded(request, following.0, events.drop_first());
        let rest = steps(request, following.0, events.drop_first());
        let taken = steps(request, state, events);
        assert(taken[0] == following.1);
        assert(taken.drop_first() =~= rest);
    }
}

/// A query that returns no row: the one line that says so is printed, the
/// lookup is over, and its exit code is 0. Where no probe is needed, the
/// query and that line are all that happens.
pub proof fn no_rows_say_so(request: LookupRequest, query: Seq<char>)
    ensures
        next_step(request, State::Connected, Event::EndOfRows) == (
            State::Empty,
            Step::Print { lines: seq![NO_OUTCOMES@] },
        ),
        is_final(State::Empty),
        exit_code_of(State::Empty) == Some(0u8),
        (request.org_id is Some || request.project_id is None) && main_query_text(
            request,
            request.org_id,
        ) == Some(query) ==> steps(request, State::Idle, seq![Event::Connected, Event::EndOfRows])
            == seq![Step::Query { query }, Step::Print { lines: seq![NO_OUTCOMES@] }]
            && state_after(request, State::Idle, seq![Event::Connected, Event::EndOfRows])
            == State::Empty,
{
    let events = seq![Event::Connected, Event::EndOfRows];
    assert(events.drop_first() =~= seq![Event::EndOfRows]);
    assert(events.drop_first().drop_first() =~= Seq::<Event>::empty());
    reveal_with_fuel(steps, 3);
    reveal_with_fuel(state_after, 3);
    if (request.org_id is Some || request.project_id is None) && main_query_text(
        request,
        request.org_id,
    ) == Some(query) {
        assert(steps(request, State::Idle, events) =~= seq![
            Step::Query { query },
            Step::Print { lines: seq![NO_OUTCOMES@] },
        ]);
    }
}

/// Events that follow other events are answered from the state that those
/// have led to.
pub proof fn steps_continue(
    request: LookupRequest,
    state: State,
    first: Seq<Event>,
    then: Seq<Event>,
)
    ensures
        steps(request, state, first + then) == steps(request, state, first) + steps(
            request,
            state_after(request, state, first),
            then,
        ),
        state_after(request, state, first + then) == state_after(
            request,
            state_after(request, state, first),
            then,
        ),
    decreases first.len(),
{
    if first.len() == 0 {
        assert(first + then =~= then);
        assert(steps(request, state, first) + steps(request, state, then) =~= steps(
            request,
            state,
            then,
        ));
    } else {
        let following = next_step(request, state, first[0]).0;
        assert((first + then)[0] == first[0]);
        assert((first + then).drop_first() =~= first.drop_first() + then);
        steps_continue(request, following, first.drop_first(), then);
        assert(steps(request, state, first + then) =~= steps(request, state, first) + steps(
            request,
            state_after(request, state, first),
            then,
        ));
    }
}

/// Rows that can be printed are printed one block each, in order, and
/// nothing else happens while they come.
pub proof fn every_row_prints_its_block(
    request: LookupRequest,
    state: State,
    records: Seq<OutcomeRecord>,
)
    requires
        state == State::Connected || state == State::Printing,
        all_printable(records),
    ensures
        steps(request, state, row_events(records)) == row_prints(records),
        state_after(request, state, row_events(records)) == if records.len() == 0 {
            state
        } else {
            State::Printing
        },
    decreases records.len(),
{
    if records.len() > 0 {
        let rest = records.drop_first();
        assert(row_lines(records[0]) is Some);
        assert(row_events(records)[0] == Event::Row(records[0]));
        assert(row_events(records).drop_first() =~= row_events(rest));
        assert forall|i: int| 0 <= i < rest.len() implies (#[trigger] row_lines(
            rest[i],
        )) is Some by {
            assert(rest[i] == records[i + 1]);
        }
        every_row_prints_its_block(request, State::Printing, rest);
        assert(steps(request, state, row_events(records)) =~= row_prints(records));
    } else {
        assert(steps(request, state, row_events(records)) =~= row_prints(records));
    }
}

/// A result is printed whole: one block for each row, and then, only where
/// there was no row at all, the line that says so. Either way the lookup
/// is over and its exit code is 0.
pub proof fn result_is_printed_whole(request: LookupRequest, records: Seq<OutcomeRecord>)
    requires
        all_printable(records),
    ensures
        steps(request, State::Connected, row_events(records) + seq![Event::EndOfRows])
            == row_prints(records) + seq![
            if records.len() == 0 {
                Step::Print { lines: seq![NO_OUTCOMES@] }
            } else {
                Step::Finish
            },
        ],
        state_after(request, State::Connected, row_events(records) + seq![Event::EndOfRows])
            == if records.len() == 0 {
            State::Empty
        } else {
            State::Done
        },
        exit_code_of(
            state_after(request, State::Connected, row_events(records) + seq![Event::EndOfRows]),
        ) == Some(0u8),
{
    let end = seq![Event::EndOfRows];
    every_row_prints_its_block(request, State::Connected, records);
    steps_continue(request, State::Connected, row_events(records), end);
    assert(end.drop_first() =~= Seq::<Event>::empty());
    reveal_with_fuel(steps, 2);
    reveal_with_fuel(state_after, 2);
    let reached = state_after(request, State::Connected, row_events(records));
    assert(steps(request, reached, end) =~= seq![next_step(request, reached, end[0]).1]);
}

/// A row that cannot be printed ends the lookup where it stands: the rows
/// before it have been printed, nothing of the row itself is, and the
/// lookup has failed.
pub proof fn unprintable_row_stops_the_lookup(
    request: LookupRequest,
    state: State,
    before: Seq<OutcomeRecord>,
    broken: OutcomeRecord,
)
    requires
        state == State::Connected || state == State::Printing,
        all_printable(before),
        row_lines(broken) is None,
    ensures
        steps(request, state, row_events(before) + seq![Event::Row(broken)]) == row_prints(before)
            + seq![Step::Abort { error: LookupError::Decode }],
        state_after(request, state, row_events(before) + seq![Event::Row(broken)])
            == State::Failed,
{
    let last = seq![Event::Row(broken)];
    every_row_prints_its_block(request, state, before);
    steps_continue(request, state, row_events(before), last);
    assert(last.drop_first() =~= Seq::<Event>::empty());
    reveal_with_fuel(steps, 2);
    reveal_with_fuel(state_after, 2);
    let reached = state_after(request, state, row_events(before));
    assert(steps(request, reached, last) =~= seq![next_step(request, reached, last[0]).1]);
}

/// A request that cannot be written into a query is refused at the start,
/// before anything is sent: once a lookup has begun, no step gives up for
/// that reason.
pub proof fn usage_is_settled_at_the_start(request: LookupRequest, state: State, event: Event)
    requires
        first_step(request).0 == State::Idle,
    ensures
        next_step(request, state, event).1 != (Step::Abort { error: LookupError::Usage }),
{
    match event {
        Event::Connected => {
            crate::predicate::organization_never_blocks(request, None, request.org_id);
        },
        Event::Organizations(org_ids) => {
            crate::predicate::organization_never_blocks(request, None, first_nonzero(org_ids@));
        },
        _ => {},
    }
}

/// A lookup that is over stays over: whatever is reported then is out of
/// order, and nothing more is sent or printed.
pub proof fn over_is_over(request: LookupRequest, state: State, event: Event)
    requires
        is_final(state),
    ensures
        next_step(request, state, event) == out_of_order(),
        is_final(next_step(request, state, event).0),
{
}

} // verus!
