use vstd::prelude::*;
use crate::output::{row_insert, FieldView, Row};
use crate::text::push_str;

verus! {

/// The log group of a Lambda function.
pub open spec fn log_group_name_spec(function_name: Seq<char>) -> Seq<char> {
    "/aws/lambda/"@ + function_name
}

/// The log group of a Lambda function: "/aws/lambda/" and its name.
pub fn log_group_name(function_name: &str) -> (r: String)
    ensures
        r@ == log_group_name_spec(function_name@),
{
    let mut r = "/aws/lambda/".to_string();
    push_str(&mut r, function_name);
    r
}

/// What to do after asking for a query's results.
#[derive(Debug)]
pub enum QueryPoll {
    /// The query is complete: the results are in.
    Complete,
    /// The query ended without results (failed, cancelled or timed out on
    /// the service's side).
    Ended,
    /// Still running, and the time to wait is up.
    TimedOut,
    /// Still running: ask again after the poll interval.
    Wait,
}

/// The status of a query, or "Unknown" when the service gives none.
pub open spec fn status_text(status: Option<Seq<char>>) -> Seq<char> {
    match status {
        Some(s) => s,
        None => "Unknown"@,
    }
}

/// What a status means: "Complete" is done, "Failed", "Cancelled" and
/// "Timeout" end the query, anything else waits (until the deadline).
pub open spec fn poll_spec(status: Seq<char>, past_deadline: bool) -> QueryPoll {
    if status == "Complete"@ {
        QueryPoll::Complete
    } else if status == "Failed"@ || status == "Cancelled"@ || status == "Timeout"@ {
        QueryPoll::Ended
    } else if past_deadline {
        QueryPoll::TimedOut
    } else {
        QueryPoll::Wait
    }
}

/// The status of a poll and what it means (see `poll_spec`).
pub fn poll_query(status: Option<String>, past_deadline: bool) -> (r: (String, QueryPoll))
    ensures
        r.0@ == status_text(match status {
            Some(s) => Some(s@),
            None => None,
        }),
        r.1 == poll_spec(r.0@, past_deadline),
{
    proof {
        reveal_strlit("Unknown");
    }
    let status = match status {
        Some(s) => s,
        None => "Unknown".to_string(),
    };
    let poll = if crate::cui::same_text(status.as_str(), "Complete") {
        QueryPoll::Complete
    } else if crate::cui::same_text(status.as_str(), "Failed") || crate::cui::same_text(status.as_str(), "Cancelled")
        || crate::cui::same_text(status.as_str(), "Timeout") {
        QueryPoll::Ended
    } else if past_deadline {
        QueryPoll::TimedOut
    } else {
        QueryPoll::Wait
    };
    (status, poll)
}

/// A result field: its name, if it has one, and its value, if any.
pub type ResultField = (Option<String>, Option<String>);

/// The row of a result: each named field in order, with its value (empty
/// when absent); a later field of the same name takes the place of the
/// earlier one.
pub open spec fn row_of(fields: Seq<(Option<Seq<char>>, Option<Seq<char>>)>) -> Seq<FieldView>
    decreases fields.len(),
{
    if fields.len() == 0 {
        Seq::empty()
    } else {
        let rest = row_of(fields.drop_last());
        match fields.last().0 {
            Some(name) => row_insert(
                rest,
                name,
                match fields.last().1 {
                    Some(v) => v,
                    None => Seq::empty(),
                },
            ),
            None => rest,
        }
    }
}

/// The values of result fields.
pub open spec fn fields_values(fields: Seq<ResultField>) -> Seq<(Option<Seq<char>>, Option<Seq<char>>)> {
    fields.map_values(|f: ResultField| (
        match f.0 {
            Some(n) => Some(n@),
            None => None,
        },
        match f.1 {
            Some(v) => Some(v@),
            None => None,
        },
    ))
}

/// A row made of result fields (see `row_of`).
pub fn collect_row(fields: Vec<ResultField>) -> (r: Row)
    ensures
        r@ == row_of(fields_values(fields@)),
{
    let ghost fv = fields_values(fields@);
    let n = fields.len();
    let mut fields = fields;
    let mut row = Row::new();
    let mut k: usize = 0;
    while fields.len() > 0
        invariant
            k + fields@.len() == n,
            fv.len() == n,
            fields_values(fields@) == fv.skip(k as int),
            row@ == row_of(fv.take(k as int)),
        decreases fields.len(),
    {
        assert(fv.take(k + 1).drop_last() =~= fv.take(k as int));
        assert(fv.skip(k as int)[0] == fv[k as int]);
        let ghost before = fields@;
        let (name, value) = fields.remove(0);
        assert(fields@ =~= before.drop_first());
        assert(fields_values(fields@) =~= fields_values(before).drop_first());
        assert(fields_values(fields@) =~= fv.skip(k + 1));
        match name {
            Some(nm) => {
                let v = match value {
                    Some(v) => v,
                    None => String::new(),
                };
                row.insert(nm, v);
            },
            None => {},
        }
        k = k + 1;
    }
    assert(fv.take(n as int) =~= fv);
    row
}

/// The rows of a query's results (none when the service returns none).
pub fn collect_rows(results: Option<Vec<Vec<ResultField>>>) -> (r: Vec<Row>)
    ensures
        match results {
            Some(rs) => r@.len() == rs@.len() && forall|i: int|
                0 <= i < rs@.len() ==> (#[trigger] r@[i])@ == row_of(fields_values(rs@[i]@)),
            None => r@.len() == 0,
        },
{
    let results = match results {
        Some(rs) => rs,
        None => return Vec::new(),
    };
    let ghost rs = results@;
    let n = results.len();
    let mut results = results;
    let mut rows: Vec<Row> = Vec::new();
    let mut k: usize = 0;
    while results.len() > 0
        invariant
            k + results@.len() == rs.len(),
            n == rs.len(),
            results@ == rs.skip(k as int),
            rows@.len() == k,
            forall|j: int| 0 <= j < k ==> (#[trigger] rows@[j])@ == row_of(fields_values(rs[j]@)),
        decreases results.len(),
    {
        assert(rs.skip(k as int)[0] == rs[k as int]);
        let fields = results.remove(0);
        assert(results@ =~= rs.skip(k + 1));
        rows.push(collect_row(fields));
        k = k + 1;
    }
    rows
}

} // verus!
