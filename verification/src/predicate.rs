//! The filter of a lookup: coarse clauses on indexed columns, which the
//! store applies first, and the precise clause on the event itself.

use crate::error::LookupError;
use crate::ident::{hyphenated, hyphenated_is_plain, is_hex_or_hyphen, EventId};
use crate::request::LookupRequest;
use crate::text::{decimal, decimal_is_sound, decimal_text, join, join_text, opt_view};
use crate::time::{utc_text, Timestamp};
use vstd::prelude::*;

verus! {

/// The pattern under which an instant is written into a query.
pub const TIME_PATTERN: &'static str = "%Y-%m-%d %H:%M:%S";

/// One condition on a row.
#[derive(Debug, Clone, Copy, PartialEq, Eq, Structural)]
pub enum Clause {
    /// The row belongs to this project.
    Project(u64),
    /// The row belongs to this organization.
    Organization(u64),
    /// The row is of this instant or later.
    NotBefore(Timestamp),
    /// The row is of an earlier instant than this.
    Before(Timestamp),
    /// The row is about this event.
    Event(EventId),
}

/// The two clause lists of a query, each in the order in which it is written.
#[derive(Debug, Clone, PartialEq, Eq)]
pub struct Predicate {
    /// What narrows the scan: only indexed columns.
    pub coarse: Vec<Clause>,
    /// What defines the rows that are wanted.
    pub precise: Vec<Clause>,
}

/// No clause, or the one given.
pub open spec fn zero_or_one(clause: Option<Clause>) -> Seq<Clause> {
    match clause {
        Some(c) => seq![c],
        None => seq![],
    }
}

/// The coarse clauses: project, organization, lower bound, upper bound, in
/// this order, each only where its value is present.
pub open spec fn coarse_clauses(
    project_id: Option<u64>,
    org_id: Option<u64>,
    from: Option<Timestamp>,
    to: Option<Timestamp>,
) -> Seq<Clause> {
    zero_or_one(
        match project_id {
            Some(id) => Some(Clause::Project(id)),
            None => None,
        },
    ) + zero_or_one(
        match org_id {
            Some(id) => Some(Clause::Organization(id)),
            None => None,
        },
    ) + zero_or_one(
        match from {
            Some(instant) => Some(Clause::NotBefore(instant)),
            None => None,
        },
    ) + zero_or_one(
        match to {
            Some(instant) => Some(Clause::Before(instant)),
            None => None,
        },
    )
}

/// Whether a character may stand in a written instant: a digit, a sign, a
/// colon or a space.
pub open spec fn is_time_char(c: char) -> bool {
    ('0' <= c && c <= '9') || c == '-' || c == '+' || c == ':' || c == ' '
}

/// Whether a text holds nothing but what may stand in a written instant.
pub open spec fn is_time_text(text: Seq<char>) -> bool {
    forall|i: int| 0 <= i < text.len() ==> is_time_char(#[trigger] text[i])
}

/// A written instant between single quotes; `None` where there is no text
/// or it holds a character that has no place in an instant.
pub open spec fn quoted_time(written: Option<Seq<char>>) -> Option<Seq<char>> {
    match written {
        Some(text) => if is_time_text(text) {
            Some("'"@ + text + "'"@)
        } else {
            None
        },
        None => None,
    }
}

/// An instant as it is written, where it can be written and holds nothing
/// but what may stand in a written instant.
pub open spec fn checked_time(instant: Timestamp) -> Option<Seq<char>> {
    match utc_text(instant.secs, instant.nanos, TIME_PATTERN@) {
        Some(text) => if is_time_text(text) {
            Some(text)
        } else {
            None
        },
        None => None,
    }
}

/// What a clause starts with: the column, the comparison, and the opening
/// quote where the value is quoted.
pub open spec fn clause_lead(clause: Clause) -> Seq<char> {
    match clause {
        Clause::Project(_) => "project_id = "@,
        Clause::Organization(_) => "org_id = "@,
        Clause::NotBefore(_) => "timestamp >= "@ + "'"@,
        Clause::Before(_) => "timestamp < "@ + "'"@,
        Clause::Event(_) => "event_id = '"@,
    }
}

/// The value that a clause compares its column with, as it is written;
/// `None` where it is an instant that cannot be written.
pub open spec fn clause_value(clause: Clause) -> Option<Seq<char>> {
    match clause {
        Clause::Project(id) => Some(decimal(id as nat)),
        Clause::Organization(id) => Some(decimal(id as nat)),
        Clause::NotBefore(instant) => checked_time(instant),
        Clause::Before(instant) => checked_time(instant),
        Clause::Event(id) => Some(hyphenated(id.bits)),
    }
}

/// What a clause ends with: the closing quote where the value is quoted.
pub open spec fn clause_tail(clause: Clause) -> Seq<char> {
    match clause {
        Clause::Project(_) => Seq::empty(),
        Clause::Organization(_) => Seq::empty(),
        Clause::NotBefore(_) => "'"@,
        Clause::Before(_) => "'"@,
        Clause::Event(_) => "'"@,
    }
}

/// The text of a clause; `None` where its instant cannot be written.
pub open spec fn clause_text(clause: Clause) -> Option<Seq<char>> {
    match clause_value(clause) {
        Some(value) => Some(clause_lead(clause) + value + clause_tail(clause)),
        None => None,
    }
}

/// Whether a character is one of those that written values are made of:
/// digits, the letters `a` to `f`, signs, the colon and the space.
pub open spec fn is_plain(c: char) -> bool {
    is_time_char(c) || is_hex_or_hyphen(c)
}

/// Whether every clause of a list can be written.
pub open spec fn all_written(clauses: Seq<Clause>) -> bool {
    forall|i: int| 0 <= i < clauses.len() ==> (#[trigger] clause_text(clauses[i])) is Some
}

/// The texts of the clauses of a list, in order.
pub open spec fn clause_texts(clauses: Seq<Clause>) -> Seq<Seq<char>> {
    Seq::new(clauses.len(), |i: int| clause_text(clauses[i])->0)
}

/// A keyword and the clauses that follow it, joined by `and`; nothing at
/// all where there is no clause.
pub open spec fn clause_group(keyword: Seq<char>, texts: Seq<Seq<char>>) -> Seq<char> {
    if texts.len() == 0 {
        Seq::empty()
    } else {
        keyword + join(texts, " and "@)
    }
}

/// The query for two clause lists: the coarse clauses after `prewhere`, then
/// the precise ones after `where`; `None` where a clause cannot be written.
pub open spec fn query_text(coarse: Seq<Clause>, precise: Seq<Clause>) -> Option<Seq<char>> {
    if all_written(coarse) && all_written(precise) {
        Some(
            "select * from outcomes_raw_local"@ + clause_group(
                " prewhere "@,
                clause_texts(coarse),
            ) + clause_group(" where "@, clause_texts(precise)),
        )
    } else {
        None
    }
}

/// The query of a request, with the organization that was given or found
/// for it; `None` where one of its time bounds cannot be written.
pub open spec fn main_query_text(request: LookupRequest, org_id: Option<u64>) -> Option<
    Seq<char>,
> {
    query_text(
        coarse_clauses(request.project_id, org_id, request.bounds().0, request.bounds().1),
        seq![Clause::Event(request.event_id)],
    )
}

/// Builds the two clause lists of a request, with the organization that was
/// given or found for it.
pub fn build_predicate(request: &LookupRequest, org_id: Option<u64>) -> (predicate: Predicate)
    ensures
        predicate.coarse@ == coarse_clauses(
            request.project_id,
            org_id,
            request.bounds().0,
            request.bounds().1,
        ),
        predicate.precise@ == seq![Clause::Event(request.event_id)],
{
    let (from, to) = request.time_bounds();
    let mut coarse: Vec<Clause> = Vec::new();
    if let Some(id) = request.project_id {
        coarse.push(Clause::Project(id));
    }
    if let Some(id) = org_id {
        coarse.push(Clause::Organization(id));
    }
    if let Some(instant) = from {
        coarse.push(Clause::NotBefore(instant));
    }
    if let Some(instant) = to {
        coarse.push(Clause::Before(instant));
    }
    let mut precise: Vec<Clause> = Vec::new();
    precise.push(Clause::Event(request.event_id));
    assert(coarse@ =~= coarse_clauses(request.project_id, org_id, from, to));
    Predicate { coarse, precise }
}

/// Puts a written instant between quotes, after making sure that it holds
/// nothing that could end the quoted value early.
pub fn time_literal(written: Option<String>) -> (literal: Result<String, LookupError>)
    ensures
        match literal {
            Ok(text) => quoted_time(opt_view(written)) == Some(text@),
            Err(error) => error == LookupError::Usage && quoted_time(opt_view(written)) is None,
        },
{
    match written {
        None => Err(LookupError::Usage),
        Some(text) => {
            let length = text.as_str().unicode_len();
            let mut i: usize = 0;
            while i < length
                invariant
                    written == Some(text),
                    length == text@.len(),
                    i <= length,
                    forall|j: int| 0 <= j < i ==> is_time_char(#[trigger] text@[j]),
                decreases length - i,
            {
                let c = text.as_str().get_char(i);
                let fits = ('0' <= c && c <= '9') || c == '-' || c == '+' || c == ':' || c == ' ';
                if !fits {
                    assert(!is_time_char(text@[i as int]));
                    return Err(LookupError::Usage);
                }
                i += 1;
            }
            let mut literal = String::from_str("'");
            literal.append(text.as_str());
            literal.append("'");
            Ok(literal)
        },
    }
}

/// Writes one clause.
pub fn render_clause(clause: &Clause) -> (written: Result<String, LookupError>)
    ensures
        match written {
            Ok(text) => clause_text(*clause) == Some(text@),
            Err(error) => error == LookupError::Usage && clause_text(*clause) is None,
        },
{
    match clause {
        Clause::Project(id) => {
            let mut text = String::from_str("project_id = ");
            text.append(decimal_text(*id).as_str());
            Ok(text)
        },
        Clause::Organization(id) => {
            let mut text = String::from_str("org_id = ");
            text.append(decimal_text(*id).as_str());
            Ok(text)
        },
        Clause::NotBefore(instant) => {
            match time_literal(instant.format(TIME_PATTERN)) {
                Ok(literal) => {
                    let mut text = String::from_str("timestamp >= ");
                    text.append(literal.as_str());
                    assert(text@ =~= clause_text(*clause)->0);
                    Ok(text)
                },
                Err(error) => Err(error),
            }
        },
        Clause::Before(instant) => {
            match time_literal(instant.format(TIME_PATTERN)) {
                Ok(literal) => {
                    let mut text = String::from_str("timestamp < ");
                    text.append(literal.as_str());
                    assert(text@ =~= clause_text(*clause)->0);
                    Ok(text)
                },
                Err(error) => Err(error),
            }
        },
        Clause::Event(id) => {
            let mut text = String::from_str("event_id = '");
            text.append(id.to_text().as_str());
            text.append("'");
            Ok(text)
        },
    }
}

/// Writes the clauses of a list, in order.
pub fn render_clauses(clauses: &Vec<Clause>) -> (written: Result<Vec<String>, LookupError>)
    ensures
        match written {
            Ok(texts) => all_written(clauses@) && texts.deep_view() == clause_texts(clauses@),
            Err(error) => error == LookupError::Usage && !all_written(clauses@),
        },
{
    let mut texts: Vec<String> = Vec::new();
    let mut i: usize = 0;
    while i < clauses.len()
        invariant
            i <= clauses.len(),
            texts.len() == i,
            forall|j: int| 0 <= j < i ==> clause_text(clauses@[j]) == Some(#[trigger] texts@[j]@),
        decreases clauses.len() - i,
    {
        match render_clause(&clauses[i]) {
            Ok(text) => {
                texts.push(text);
            },
            Err(error) => {
                assert(clause_text(clauses@[i as int]) is None);
                return Err(error);
            },
        }
        i += 1;
    }
    assert forall|j: int| 0 <= j < clauses.len() implies (#[trigger] clause_text(
        clauses@[j],
    )) is Some by {
        assert(clause_text(clauses@[j]) == Some(texts@[j]@));
    }
    assert(texts.deep_view() =~= clause_texts(clauses@));
    Ok(texts)
}

/// Writes the query for a predicate.
pub fn render_query(predicate: &Predicate) -> (written: Result<String, LookupError>)
    ensures
        match written {
            Ok(text) => query_text(predicate.coarse@, predicate.precise@) == Some(text@),
            Err(error) => error == LookupError::Usage && query_text(
                predicate.coarse@,
                predicate.precise@,
            ) is None,
        },
{
    let coarse = match render_clauses(&predicate.coarse) {
        Ok(texts) => texts,
        Err(error) => {
            return Err(error);
        },
    };
    let precise = match render_clauses(&predicate.precise) {
        Ok(texts) => texts,
        Err(error) => {
            return Err(error);
        },
    };
    let mut text = String::from_str("select * from outcomes_raw_local");
    if coarse.len() > 0 {
        text.append(" prewhere ");
        text.append(join_text(&coarse, " and ").as_str());
    }
    if precise.len() > 0 {
        text.append(" where ");
        text.append(join_text(&precise, " and ").as_str());
    }
    assert(text@ =~= query_text(predicate.coarse@, predicate.precise@)->0);
    Ok(text)
}

/// Writes the query of a request, with the organization that was given or
/// found for it. Fails with `Usage` where a time bound cannot be written.
pub fn main_query(request: &LookupRequest, org_id: Option<u64>) -> (written: Result<
    String,
    LookupError,
>)
    ensures
        match written {
            Ok(text) => main_query_text(*request, org_id) == Some(text@),
            Err(error) => error == LookupError::Usage && main_query_text(*request, org_id)
                is None,
        },
{
    let predicate = build_predicate(request, org_id);
    render_query(&predicate)
}

/// No written value can end its own quotes or reach outside its clause:
/// it is made of digits, the letters `a` to `f`, signs, colons and spaces,
/// and so holds no quote of either kind, no backslash and no semicolon.
pub proof fn values_are_plain(clause: Clause)
    ensures
        clause_value(clause) matches Some(value) ==> forall|i: int|
            0 <= i < value.len() ==> is_plain(#[trigger] value[i]),
        forall|c: char|
            is_plain(c) ==> c != '\'' && c != '"' && c != '\\' && c != ';' && c != '`',
{
    match clause {
        Clause::Project(id) => {
            decimal_is_sound(id as nat);
        },
        Clause::Organization(id) => {
            decimal_is_sound(id as nat);
        },
        Clause::Event(id) => {
            hyphenated_is_plain(id.bits);
        },
        _ => {},
    }
}

/// The clause on the event is always there, and is the only precise one;
/// a request that narrows nothing has no coarse clause at all.
pub proof fn event_clause_is_always_there(request: LookupRequest, org_id: Option<u64>)
    ensures
        clause_text(Clause::Event(request.event_id)) is Some,
        all_written(seq![Clause::Event(request.event_id)]),
        request.project_id is None && org_id is None && request.bounds().0 is None
            && request.bounds().1 is None ==> main_query_text(request, org_id) == Some(
            "select * from outcomes_raw_local"@ + " where "@ + ("event_id = '"@ + hyphenated(
                request.event_id.bits,
            ) + "'"@),
        ),
{
    let precise = seq![Clause::Event(request.event_id)];
    assert(clause_texts(precise) =~= seq![clause_text(precise[0])->0]);
    if request.project_id is None && org_id is None && request.bounds().0 is None
        && request.bounds().1 is None {
        let coarse = coarse_clauses(
            request.project_id,
            org_id,
            request.bounds().0,
            request.bounds().1,
        );
        assert(coarse =~= Seq::<Clause>::empty());
        assert(clause_texts(coarse) =~= Seq::<Seq<char>>::empty());
        assert(main_query_text(request, org_id)->0 =~= "select * from outcomes_raw_local"@
            + " where "@ + ("event_id = '"@ + hyphenated(request.event_id.bits) + "'"@));
    }
}

/// Whether the query of a request can be written does not depend on the
/// organization: only the time bounds decide.
pub proof fn organization_never_blocks(request: LookupRequest, a: Option<u64>, b: Option<u64>)
    ensures
        main_query_text(request, a) is Some <==> main_query_text(request, b) is Some,
{
    let with_a = coarse_clauses(request.project_id, a, request.bounds().0, request.bounds().1);
    let with_b = coarse_clauses(request.project_id, b, request.bounds().0, request.bounds().1);
    let times = zero_or_one(
        match request.bounds().0 {
            Some(instant) => Some(Clause::NotBefore(instant)),
            None => None,
        },
    ) + zero_or_one(
        match request.bounds().1 {
            Some(instant) => Some(Clause::Before(instant)),
            None => None,
        },
    );
    assert(with_a.skip(with_a.len() - times.len()) =~= times);
    assert(with_b.skip(with_b.len() - times.len()) =~= times);
    times_decide(with_a, times);
    times_decide(with_b, times);
}

/// A list of clauses that ends in the time clauses, with only clauses on
/// numbers before them, can be written exactly where the time clauses can.
proof fn times_decide(clauses: Seq<Clause>, times: Seq<Clause>)
    requires
        times.len() <= clauses.len(),
        clauses.skip(clauses.len() - times.len()) == times,
        forall|i: int|
            0 <= i < clauses.len() - times.len() ==> (#[trigger] clauses[i] is Project
                || clauses[i] is Organization),
    ensures
        all_written(clauses) <==> all_written(times),
{
    let offset = clauses.len() - times.len();
    if all_written(clauses) {
        assert forall|i: int| 0 <= i < times.len() implies (#[trigger] clause_text(
            times[i],
        )) is Some by {
            assert(times[i] == clauses[i + offset]);
        }
    }
    if all_written(times) {
        assert forall|i: int| 0 <= i < clauses.len() implies (#[trigger] clause_text(
            clauses[i],
        )) is Some by {
            if i >= offset {
                assert(clauses[i] == times[i - offset]);
            }
        }
    }
}

} // verus!
