use vstd::prelude::*;
use vstd::string::*;

use crate::failure::{Failure, BAD_REQUEST};
use crate::query::{build_query, UpstreamQuery};
use crate::text::{before_first_colon, find_first_colon, lemma_first_colon};

verus! {

/// Titles of this many characters or more are refused.
pub const MAX_TITLE_CHARS: usize = 500;

/// One work as returned to the client.
#[derive(Clone, Debug, PartialEq, Eq)]
pub struct SearchResult {
    pub id: String,
    pub display_name: String,
    pub publication_year: i32,
    pub cited_by_count: i32,
}

impl SearchResult {
    /// Builds a record from fields that the upstream answer may lack: a
    /// missing text becomes empty, a missing number zero.
    pub fn from_fields(
        id: Option<String>,
        display_name: Option<String>,
        publication_year: Option<i32>,
        cited_by_count: Option<i32>,
    ) -> (r: SearchResult)
        ensures
            r.id@ == (if id is Some { id->0@ } else { Seq::<char>::empty() }),
            r.display_name@ == (if display_name is Some {
                display_name->0@
            } else {
                Seq::<char>::empty()
            }),
            r.publication_year == (if publication_year is Some { publication_year->0 } else { 0 }),
            r.cited_by_count == (if cited_by_count is Some { cited_by_count->0 } else { 0 }),
    {
        SearchResult {
            id: match id {
                Some(s) => s,
                None => String::new(),
            },
            display_name: match display_name {
                Some(s) => s,
                None => String::new(),
            },
            publication_year: match publication_year {
                Some(y) => y,
                None => 0,
            },
            cited_by_count: match cited_by_count {
                Some(c) => c,
                None => 0,
            },
        }
    }
}

/// What one upstream lookup came to.
#[derive(Debug)]
pub enum UpstreamOutcome {
    /// A success status with a body of the expected shape: the works, in upstream order.
    Results(Vec<SearchResult>),
    /// A response whose status is not a success (see `is_success_status`).
    Status(u16),
    /// No response: connection, timeout or name resolution failure.
    Transport(String),
    /// A success status whose body could not be decoded.
    Decode(String),
}

/// What to do once the lookup on the full title has answered.
#[derive(Debug)]
pub enum FirstStep {
    /// Look up once more, with this query; whatever it answers is final.
    Retry(UpstreamQuery),
    /// The search is over.
    Finish(Result<Vec<SearchResult>, Failure>),
}

/// Why an inbound title is refused, if it is.
pub open spec fn rejection(title: Option<Seq<char>>) -> Option<Failure> {
    match title {
        None => Some(Failure::TitleRequired),
        Some(t) => if t.len() == 0 {
            Some(Failure::TitleRequired)
        } else if t.len() >= MAX_TITLE_CHARS {
            Some(Failure::TitleTooLong)
        } else {
            None
        },
    }
}

pub open spec fn title_view(title: Option<String>) -> Option<Seq<char>> {
    match title {
        None => None,
        Some(t) => Some(t@),
    }
}

/// The final answer that one upstream outcome stands for.
pub open spec fn outcome_result(o: UpstreamOutcome) -> Result<Vec<SearchResult>, Failure> {
    match o {
        UpstreamOutcome::Results(v) => Ok(v),
        UpstreamOutcome::Status(s) => Err(Failure::UpstreamStatus(s)),
        UpstreamOutcome::Transport(d) => Err(Failure::Transport(d)),
        UpstreamOutcome::Decode(d) => Err(Failure::Decode(d)),
    }
}

/// The outcome is a clean success with no works.
pub open spec fn is_empty_success(o: UpstreamOutcome) -> bool {
    o matches UpstreamOutcome::Results(v) && v@.len() == 0
}

/// Whether an upstream status counts as success (2xx).
pub fn is_success_status(status: u16) -> (r: bool)
    ensures
        r == (200 <= status < 300),
{
    200 <= status && status < 300
}

/// Accepts a title that is present, non-empty and under 500 characters.
pub fn validate_title(title: Option<String>) -> (r: Result<String, Failure>)
    ensures
        match rejection(title_view(title)) {
            Some(f) => r == Err::<String, Failure>(f),
            None => r == Ok::<String, Failure>(title->0),
        },
{
    match title {
        None => Err(Failure::TitleRequired),
        Some(t) => {
            if t.as_str().is_empty() {
                Err(Failure::TitleRequired)
            } else if t.as_str().unicode_len() >= MAX_TITLE_CHARS {
                Err(Failure::TitleTooLong)
            } else {
                Ok(t)
            }
        },
    }
}

/// Validates the inbound title and builds the first lookup, on the full title.
pub fn begin_search(title: Option<String>) -> (r: Result<(String, UpstreamQuery), Failure>)
    ensures
        match rejection(title_view(title)) {
            Some(f) => r == Err::<(String, UpstreamQuery), Failure>(f),
            None => r matches Ok((t, q)) && t == title->0 && q.is_for(t@),
        },
{
    let t = validate_title(title)?;
    let q = build_query(t.as_str());
    Ok((t, q))
}

/// Decides on the outcome of the lookup on the full title: an empty success
/// on a title with a `:` leads to one more lookup on the text before the
/// first `:`; anything else is final.
pub fn after_first(title: &str, outcome: UpstreamOutcome) -> (r: FirstStep)
    ensures
        is_empty_success(outcome) && title@.contains(':') ==> (r matches FirstStep::Retry(q)
            && q.is_for(before_first_colon(title@)->0)),
        !(is_empty_success(outcome) && title@.contains(':')) ==> r == FirstStep::Finish(
            outcome_result(outcome),
        ),
{
    if let UpstreamOutcome::Results(v) = &outcome {
        if v.len() == 0 {
            if let Some(i) = find_first_colon(title) {
                let head = title.substring_char(0, i);
                proof {
                    lemma_first_colon(title@);
                    assert(title@.subrange(0, i as int) =~= title@.take(i as int));
                }
                return FirstStep::Retry(build_query(head));
            }
        }
    }
    FirstStep::Finish(settle(outcome))
}

/// The final answer for an outcome that no further lookup follows.
pub fn settle(outcome: UpstreamOutcome) -> (r: Result<Vec<SearchResult>, Failure>)
    ensures
        r == outcome_result(outcome),
{
    match outcome {
        UpstreamOutcome::Results(v) => Ok(v),
        UpstreamOutcome::Status(s) => Err(Failure::UpstreamStatus(s)),
        UpstreamOutcome::Transport(d) => Err(Failure::Transport(d)),
        UpstreamOutcome::Decode(d) => Err(Failure::Decode(d)),
    }
}

/// A missing or empty title is refused with status 400, before any query exists.
pub proof fn law_missing_title_refused(title: Option<Seq<char>>)
    requires
        title is None || title->0.len() == 0,
    ensures
        rejection(title) == Some(Failure::TitleRequired),
        Failure::TitleRequired.status_spec() == BAD_REQUEST,
{
}

/// A title of 500 characters or more is refused with status 400, before any
/// query exists.
pub proof fn law_long_title_refused(title: Seq<char>)
    requires
        title.len() >= MAX_TITLE_CHARS,
    ensures
        rejection(Some(title)) == Some(Failure::TitleTooLong),
        Failure::TitleTooLong.status_spec() == BAD_REQUEST,
{
}

/// An empty success on a title without `:` ends the search with an empty list.
pub proof fn law_empty_without_colon(title: Seq<char>, outcome: UpstreamOutcome)
    requires
        is_empty_success(outcome),
        !title.contains(':'),
    ensures
        outcome_result(outcome) matches Ok(v) && v@.len() == 0,
{
}

/// A non-success upstream status leads to no further lookup, and the
/// failure carries that same status back.
pub proof fn law_upstream_status_mirrored(status: u16)
    ensures
        !is_empty_success(UpstreamOutcome::Status(status)),
        outcome_result(UpstreamOutcome::Status(status)) matches Err(f) && f.status_spec()
            == status,
{
}

/// The works of a successful answer come back as they are, all of them, in
/// upstream order.
pub proof fn law_results_kept(works: Vec<SearchResult>)
    ensures
        outcome_result(UpstreamOutcome::Results(works)) matches Ok(v) && v@ == works@,
{
}

} // verus!
