//! One row of the result, and how it is printed.

use crate::error::LookupError;
use crate::ident::{hyphenated, EventId};
use crate::outcome::{outcome_text, Outcome};
use crate::text::{
    debug_quoted, decimal, decimal_text, labelled, labelled_text, opt_view, placeholder_or,
    quote_text, OptFormat,
};
use crate::time::{zoned_text, ZonedTime};
use vstd::prelude::*;

verus! {

/// One row of the result.
#[derive(Debug, Clone, PartialEq, Eq)]
pub struct OutcomeRecord {
    pub event_id: Option<EventId>,
    pub project_id: u64,
    pub org_id: u64,
    pub key_id: Option<u64>,
    pub timestamp: ZonedTime,
    pub outcome: Outcome,
    pub reason: Option<String>,
}

/// The written form of an optional identifier.
pub open spec fn event_text(event_id: Option<EventId>) -> Option<Seq<char>> {
    match event_id {
        Some(id) => Some(hyphenated(id.bits)),
        None => None,
    }
}

/// The written form of an optional number.
pub open spec fn number_text(number: Option<u64>) -> Option<Seq<char>> {
    match number {
        Some(n) => Some(decimal(n as nat)),
        None => None,
    }
}

/// The written form of an optional reason: quoted, with escapes.
pub open spec fn reason_text(reason: Option<String>) -> Option<Seq<char>> {
    match reason {
        Some(text) => Some(debug_quoted(text@)),
        None => None,
    }
}

/// The seven lines of a row, in their fixed order, given its written
/// timestamp and its written reason. An absent value shows the placeholder.
pub open spec fn row_block(
    record: OutcomeRecord,
    timestamp: Seq<char>,
    reason: Option<Seq<char>>,
) -> Seq<Seq<char>> {
    seq![
        labelled("event_id"@, placeholder_or(event_text(record.event_id))),
        labelled("project_id"@, decimal(record.project_id as nat)),
        labelled("org_id"@, decimal(record.org_id as nat)),
        labelled("key_id"@, placeholder_or(number_text(record.key_id))),
        labelled("timestamp"@, timestamp),
        labelled("outcome"@, outcome_text(record.outcome)),
        labelled("reason"@, placeholder_or(reason)),
    ]
}

/// The lines of a row; `None` where its timestamp cannot be written.
pub open spec fn row_lines(record: OutcomeRecord) -> Option<Seq<Seq<char>>> {
    match zoned_text(record.timestamp.at.secs, record.timestamp.at.nanos, record.timestamp.zone@) {
        Some(timestamp) => Some(row_block(record, timestamp, reason_text(record.reason))),
        None => None,
    }
}

/// Writes the lines of a row around its written timestamp and reason.
pub fn block_lines(record: &OutcomeRecord, timestamp: &str, reason: &OptFormat) -> (lines: Vec<
    String,
>)
    ensures
        lines.deep_view() == row_block(*record, timestamp@, opt_view(reason.0)),
{
    let event_id = OptFormat(
        match record.event_id {
            Some(id) => Some(id.debug_text()),
            None => None,
        },
    );
    let key_id = OptFormat(
        match record.key_id {
            Some(id) => Some(decimal_text(id)),
            None => None,
        },
    );
    let mut lines: Vec<String> = Vec::new();
    lines.push(labelled_text("event_id", event_id.render().as_str()));
    lines.push(labelled_text("project_id", decimal_text(record.project_id).as_str()));
    lines.push(labelled_text("org_id", decimal_text(record.org_id).as_str()));
    lines.push(labelled_text("key_id", key_id.render().as_str()));
    lines.push(labelled_text("timestamp", timestamp));
    lines.push(labelled_text("outcome", record.outcome.name().as_str()));
    lines.push(labelled_text("reason", reason.render().as_str()));
    assert(lines.deep_view() =~= row_block(*record, timestamp@, opt_view(reason.0)));
    lines
}

/// Writes the lines of a row, or fails with `Decode` where the row's
/// timestamp cannot be written. No line is handed out for such a row.
pub fn render_row(record: &OutcomeRecord) -> (printed: Result<Vec<String>, LookupError>)
    ensures
        match printed {
            Ok(lines) => row_lines(*record) == Some(lines.deep_view()),
            Err(error) => error == LookupError::Decode && row_lines(*record) is None,
        },
{
    match record.timestamp.to_text() {
        None => Err(LookupError::Decode),
        Some(timestamp) => {
            let reason = OptFormat(
                match &record.reason {
                    Some(text) => Some(quote_text(text.as_str())),
                    None => None,
                },
            );
            Ok(block_lines(record, timestamp.as_str(), &reason))
        },
    }
}

/// Every absent value of a row shows the same token, the placeholder, on
/// its line: the identifier of the event, the key and the reason alike.
pub proof fn absent_values_show_placeholder(
    record: OutcomeRecord,
    timestamp: Seq<char>,
    reason: Option<Seq<char>>,
)
    ensures
        row_block(record, timestamp, reason).len() == 7,
        record.event_id is None ==> row_block(record, timestamp, reason)[0] == "event_id"@
            + ": "@ + "-"@,
        record.key_id is None ==> row_block(record, timestamp, reason)[3] == "key_id"@ + ": "@
            + "-"@,
        reason is None ==> row_block(record, timestamp, reason)[6] == "reason"@ + ": "@ + "-"@,
{
}

} // verus!
