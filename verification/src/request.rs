//! What a lookup is asked for.

use crate::ident::EventId;
use crate::text::opt_view;
use crate::time::{day_start, starts_day, Day, Timestamp};
use vstd::prelude::*;

verus! {

/// The endpoint that is used where none is configured.
pub const DEFAULT_ENDPOINT: &'static str = "tcp://127.0.0.1:9000";

/// The environment variable that configures the endpoint.
pub const ENDPOINT_VARIABLE: &'static str = "OUTCOMES_LOOKUP_DSN";

/// One lookup: the event to find, and what narrows the search.
#[derive(Debug, Clone, PartialEq, Eq)]
pub struct LookupRequest {
    /// The event to find.
    pub event_id: EventId,
    /// The organization to search in.
    pub org_id: Option<u64>,
    /// The project to search in.
    pub project_id: Option<u64>,
    /// The first instant to search, unless a day is given.
    pub time_from: Option<Timestamp>,
    /// The first instant not to search any more, unless a day is given.
    pub time_to: Option<Timestamp>,
    /// The one UTC day to search; it takes the place of both instants.
    pub day: Option<Day>,
    /// Where the store is reached.
    pub endpoint: String,
}

/// The endpoint to use, given what the environment configures.
pub open spec fn endpoint_or_default(configured: Option<Seq<char>>) -> Seq<char> {
    match configured {
        Some(endpoint) => endpoint,
        None => DEFAULT_ENDPOINT@,
    }
}

/// The endpoint to use where the command line names none: the configured
/// one, or the local default.
pub fn get_default_dsn(configured: Option<String>) -> (endpoint: String)
    ensures
        endpoint@ == endpoint_or_default(opt_view(configured)),
{
    match configured {
        Some(value) => value,
        None => String::from_str(DEFAULT_ENDPOINT),
    }
}

impl LookupRequest {
    /// The time bounds that apply: the two ends of the day where one is
    /// given, else the two instants as they stand.
    pub open spec fn bounds(&self) -> (Option<Timestamp>, Option<Timestamp>) {
        match self.day {
            Some(day) => (Some(day_start(day.days as int)), Some(day_start(day.days + 1))),
            None => (self.time_from, self.time_to),
        }
    }

    /// Whether a day is given together with an instant that it replaces.
    pub open spec fn shadowed(&self) -> bool {
        self.day is Some && (self.time_from is Some || self.time_to is Some)
    }

    /// The time bounds that apply: lower bound first, then upper bound.
    pub fn time_bounds(&self) -> (bounds: (Option<Timestamp>, Option<Timestamp>))
        ensures
            bounds == self.bounds(),
    {
        match self.day {
            Some(day) => (Some(day.start()), Some(day.end())),
            None => (self.time_from, self.time_to),
        }
    }

    /// Whether a day is given together with an instant that it replaces,
    /// which deserves a word to the user.
    pub fn day_shadows_bounds(&self) -> (shadowed: bool)
        ensures
            shadowed == self.shadowed(),
    {
        self.day.is_some() && (self.time_from.is_some() || self.time_to.is_some())
    }
}

/// With a day given, the bounds are the start of that day and the start of
/// the next, whatever instants the request holds besides.
pub proof fn day_sets_bounds(request: LookupRequest, other: LookupRequest)
    requires
        request.day is Some,
        other.day == request.day,
    ensures
        request.bounds().0 is Some,
        request.bounds().1 is Some,
        starts_day(request.bounds().0->0, request.day->0.days as int),
        starts_day(request.bounds().1->0, request.day->0.days + 1),
        other.bounds() == request.bounds(),
{
}

/// Without a day, the bounds are the two instants of the request.
pub proof fn instants_stand_without_day(request: LookupRequest)
    requires
        request.day is None,
    ensures
        request.bounds() == (request.time_from, request.time_to),
{
}

} // verus!
