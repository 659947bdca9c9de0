use vstd::prelude::*;
use crate::output::{
    chars_view, fields_view, keys_unique, lookup, rows_view, FieldView, QueryOutput, Row,
};
use crate::text::{
    chars_lt, chars_of, decimal, decimal_string, lemma_seq_lt_irreflexive, lemma_seq_lt_total,
    lemma_seq_lt_transitive, seq_lt, sorted_strict, string_of,
};
use crate::timestamps::{
    format_offset_date, naive_utc_seconds, within_chrono_range, offset_date, parse_naive_utc_seconds,
    parse_rfc3339_seconds, rfc3339_seconds,
};

verus! {

/// Days are counted in Japan Standard Time.
pub const JST_OFFSET_SECONDS: i32 = 9 * 60 * 60;

/// Why the rows of a log query could not be summarised.
pub enum ActivityError {
    /// A row has no `@timestamp` column.
    MissingTimestamp,
    /// A timestamp is neither RFC 3339 nor `%Y-%m-%d %H:%M:%S%.f`.
    InvalidTimestamp(String),
    /// The date of a timestamp cannot be represented.
    DateOutOfRange(i64),
}

/// `ActivityError` with its text as a character sequence.
pub enum ActivityErrorView {
    MissingTimestamp,
    InvalidTimestamp(Seq<char>),
    DateOutOfRange(i64),
}

impl View for ActivityError {
    type V = ActivityErrorView;

    open spec fn view(&self) -> ActivityErrorView {
        match self {
            ActivityError::MissingTimestamp => ActivityErrorView::MissingTimestamp,
            ActivityError::InvalidTimestamp(t) => ActivityErrorView::InvalidTimestamp(t@),
            ActivityError::DateOutOfRange(s) => ActivityErrorView::DateOutOfRange(*s),
        }
    }
}

/// The instant of a CloudWatch timestamp: RFC 3339, or else a UTC
/// date-and-time as CloudWatch Logs Insights writes it.
pub open spec fn cloudwatch_seconds(text: Seq<char>) -> Option<i64> {
    match rfc3339_seconds(text) {
        Some(s) => Some(s),
        None => naive_utc_seconds(text),
    }
}

/// The day (JST) on which a log row was written.
pub open spec fn row_day(row: Seq<FieldView>) -> Result<Seq<char>, ActivityErrorView> {
    match lookup(row, "@timestamp"@) {
        None => Err(ActivityErrorView::MissingTimestamp),
        Some(ts) => match cloudwatch_seconds(ts) {
            None => Err(ActivityErrorView::InvalidTimestamp(ts)),
            Some(s) => match offset_date(s, JST_OFFSET_SECONDS) {
                None => Err(ActivityErrorView::DateOutOfRange(s)),
                Some(d) => Ok(d),
            },
        },
    }
}

/// What is counted for one day.
pub struct DayTally {
    /// The distinct IP hashes seen that day.
    pub ips: Set<Seq<char>>,
    /// Shared rooms answered (matches made).
    pub shared: nat,
    /// Players who joined a reserved room.
    pub reserved: nat,
}

/// A day on which nothing was seen yet.
pub open spec fn empty_tally() -> DayTally {
    DayTally { ips: Set::empty(), shared: 0, reserved: 0 }
}

/// Whether the row logs a match in a shared room.
pub open spec fn is_shared_match(row: Seq<FieldView>) -> bool {
    lookup(row, "cw_room_type"@) == Some("Shared"@) && lookup(row, "cw_action"@) == Some("Answered"@)
}

/// Whether the row logs a player joining a reserved room.
pub open spec fn is_reserved_match(row: Seq<FieldView>) -> bool {
    lookup(row, "cw_room_type"@) == Some("Reserved"@) && lookup(row, "cw_action"@) == Some("Join"@)
}

/// The tally of a day after one more row of it.
pub open spec fn tally_row(t: DayTally, row: Seq<FieldView>) -> DayTally {
    DayTally {
        ips: match lookup(row, "cw_ip_hash"@) {
            Some(h) => if h.len() > 0 { t.ips.insert(h) } else { t.ips },
            None => t.ips,
        },
        shared: if is_shared_match(row) { t.shared + 1 } else { t.shared },
        reserved: if is_reserved_match(row) { t.reserved + 1 } else { t.reserved },
    }
}

/// The tally of each day of the rows; the error of the first row whose day
/// cannot be told.
pub open spec fn tally_rows(rows: Seq<Seq<FieldView>>) -> Result<Map<Seq<char>, DayTally>, ActivityErrorView>
    decreases rows.len(),
{
    if rows.len() == 0 {
        Ok(Map::empty())
    } else {
        match tally_rows(rows.drop_last()) {
            Err(e) => Err(e),
            Ok(m) => match row_day(rows.last()) {
                Err(e) => Err(e),
                Ok(d) => {
                    let t = if m.contains_key(d) { m[d] } else { empty_tally() };
                    Ok(m.insert(d, tally_row(t, rows.last())))
                },
            },
        }
    }
}

/// The output row of one day.
pub open spec fn summary_row(day: Seq<char>, t: DayTally) -> Seq<FieldView> {
    seq![
        ("day"@, day),
        ("unique_ip_hashes"@, decimal(t.ips.len())),
        ("shared_matches"@, decimal(t.shared)),
        ("reserved_matches"@, decimal(t.reserved)),
    ]
}

/// `rows` lists the days of `m` in increasing order, one summary row each.
pub open spec fn is_summary_of(m: Map<Seq<char>, DayTally>, rows: Seq<Seq<FieldView>>) -> bool {
    exists|days: Seq<Seq<char>>|
        {
            &&& sorted_strict(days)
            &&& days.to_set() == m.dom()
            &&& rows.len() == days.len()
            &&& forall|i: int| 0 <= i < days.len() ==> #[trigger] rows[i] == summary_row(days[i], m[days[i]])
        }
}

/// The instant of a CloudWatch timestamp, in seconds since the UNIX epoch.
pub fn parse_cloudwatch_timestamp(value: &str) -> (r: Option<i64>)
    ensures
        r == cloudwatch_seconds(value@),
        r matches Some(s) ==> within_chrono_range(s),
{
    match parse_rfc3339_seconds(value) {
        Some(s) => Some(s),
        None => parse_naive_utc_seconds(value),
    }
}

/// The day (JST) on which a log row was written.
fn day_of_row(row: &Row) -> (r: Result<Vec<char>, ActivityError>)
    ensures
        match r {
            Ok(d) => row_day(row@) == Ok::<Seq<char>, ActivityErrorView>(d@),
            Err(e) => row_day(row@) == Err::<Seq<char>, ActivityErrorView>(e@),
        },
        !(r matches Err(ActivityError::DateOutOfRange(_))),
{
    let timestamp = match row.get("@timestamp") {
        Some(t) => t,
        None => return Err(ActivityError::MissingTimestamp),
    };
    let seconds = match parse_cloudwatch_timestamp(timestamp.as_str()) {
        Some(s) => s,
        None => return Err(ActivityError::InvalidTimestamp(timestamp)),
    };
    match format_offset_date(seconds, JST_OFFSET_SECONDS) {
        Some(d) => Ok(chars_of(d.as_str())),
        None => Err(ActivityError::DateOutOfRange(seconds)),
    }
}

/// Whether the row holds exactly `text` under `key`.
fn has_value(row: &Row, key: &str, text: &str) -> (r: bool)
    ensures
        r == (lookup(row@, key@) == Some(text@)),
{
    match row.get(key) {
        Some(v) => v == text.to_owned(),
        None => false,
    }
}

/// What has been counted so far for one day.
struct DayAcc {
    day: Vec<char>,
    ips: Vec<Vec<char>>,
    shared: u64,
    reserved: u64,
}

spec fn tally_of(a: DayAcc) -> DayTally {
    DayTally { ips: chars_view(a.ips@).to_set(), shared: a.shared as nat, reserved: a.reserved as nat }
}

spec fn days_of(accs: Seq<DayAcc>) -> Seq<Seq<char>> {
    accs.map_values(|a: DayAcc| a.day@)
}

/// The counters of `accs` stand for `m`, and stay below `bound`.
spec fn accs_inv(accs: Seq<DayAcc>, m: Map<Seq<char>, DayTally>, bound: nat) -> bool {
    &&& sorted_strict(days_of(accs))
    &&& days_of(accs).to_set() == m.dom()
    &&& forall|i: int| 0 <= i < accs.len() ==> m[#[trigger] accs[i].day@] == tally_of(accs[i])
    &&& forall|i: int| 0 <= i < accs.len() ==> sorted_strict(chars_view((#[trigger] accs[i]).ips@))
    &&& forall|i: int| 0 <= i < accs.len() ==> (#[trigger] accs[i]).shared <= bound && accs[i].reserved <= bound
}

/// Counts one more row of the day.
fn count_row(a: DayAcc, row: &Row, Ghost(bound): Ghost<nat>) -> (r: DayAcc)
    requires
        sorted_strict(chars_view(a.ips@)),
        a.shared <= bound,
        a.reserved <= bound,
        bound < u64::MAX,
    ensures
        r.day@ == a.day@,
        sorted_strict(chars_view(r.ips@)),
        r.shared <= bound + 1,
        r.reserved <= bound + 1,
        tally_of(r) == tally_row(tally_of(a), row@),
{
    let ghost a0 = a;
    let mut a = a;
    match row.get("cw_ip_hash") {
        Some(h) => {
            if !h.as_str().is_empty() {
                crate::output::insert_sorted(&mut a.ips, chars_of(h.as_str()));
            }
        },
        None => {},
    }
    if has_value(row, "cw_room_type", "Shared") && has_value(row, "cw_action", "Answered") {
        a.shared = a.shared + 1;
    }
    if has_value(row, "cw_room_type", "Reserved") && has_value(row, "cw_action", "Join") {
        a.reserved = a.reserved + 1;
    }
    assert(tally_of(a).ips =~= tally_row(tally_of(a0), row@).ips);
    a
}

/// Once a row fails, every longer run of rows fails the same way.
proof fn lemma_tally_error_persists(rows: Seq<Seq<FieldView>>, j: int, k: int)
    requires
        0 <= j <= k <= rows.len(),
        tally_rows(rows.take(j)) is Err,
    ensures
        tally_rows(rows.take(k)) == tally_rows(rows.take(j)),
    decreases k - j,
{
    if k > j {
        lemma_tally_error_persists(rows, j, k - 1);
        assert(rows.take(k).drop_last() =~= rows.take(k - 1));
    }
}

/// Adds one row of day `d` to the counters.
fn add_row(accs: &mut Vec<DayAcc>, d: Vec<char>, row: &Row, Ghost(m): Ghost<Map<Seq<char>, DayTally>>, Ghost(bound): Ghost<nat>)
    requires
        accs_inv(old(accs)@, m, bound),
        bound < u64::MAX,
    ensures
        accs_inv(
            final(accs)@,
            m.insert(d@, tally_row(if m.contains_key(d@) { m[d@] } else { empty_tally() }, row@)),
            bound + 1,
        ),
{
    let ghost a0 = accs@;
    let ghost v0 = days_of(a0);
    let ghost t = if m.contains_key(d@) { m[d@] } else { empty_tally() };
    let ghost m1 = m.insert(d@, tally_row(t, row@));
    let mut p: usize = 0;
    while p < accs.len() && chars_lt(&accs[p].day, &d)
        invariant
            p <= accs.len(),
            accs@ == a0,
            v0 == days_of(a0),
            sorted_strict(v0),
            forall|q: int| 0 <= q < p ==> seq_lt(#[trigger] v0[q], d@),
        decreases accs.len() - p,
    {
        assert(v0[p as int] == accs@[p as int].day@);
        p = p + 1;
    }
    let found = p < accs.len() && crate::output::chars_eq(&accs[p].day, &d);
    if found {
        assert(v0[p as int] == d@);
        assert(m.dom().contains(d@)) by { assert(v0.to_set().contains(d@)); }
        let old_acc = accs.remove(p);
        let new_acc = count_row(old_acc, row, Ghost(bound));
        accs.insert(p, new_acc);
        assert(days_of(accs@) =~= v0);
        assert forall|i: int| 0 <= i < accs@.len() implies m1[#[trigger] accs@[i].day@] == tally_of(accs@[i]) by {
            if i != p {
                assert(accs@[i] == a0[i]);
                assert(v0[i] != v0[p as int]) by {
                    if i < p { assert(seq_lt(v0[i], v0[p as int])); } else { assert(seq_lt(v0[p as int], v0[i])); }
                    lemma_seq_lt_irreflexive(v0[i]);
                }
            }
        }
        assert(m1.dom() =~= m.dom());
        assert forall|i: int| 0 <= i < accs@.len() implies (#[trigger] accs@[i]).shared <= bound + 1
            && accs@[i].reserved <= bound + 1 by {
            if i != p { assert(accs@[i] == a0[i]); }
        }
        assert forall|i: int| 0 <= i < accs@.len() implies sorted_strict(chars_view((#[trigger] accs@[i]).ips@)) by {
            if i != p { assert(accs@[i] == a0[i]); }
        }
    } else {
        proof {
            if p < accs.len() {
                lemma_seq_lt_total(v0[p as int], d@);
            }
            assert(!m.dom().contains(d@)) by {
                if v0.to_set().contains(d@) {
                    let q = choose|q: int| 0 <= q < v0.len() && v0[q] == d@;
                    if q < p {
                        lemma_seq_lt_irreflexive(d@);
                    } else if q > p {
                        lemma_seq_lt_transitive(d@, v0[p as int], v0[q]);
                        lemma_seq_lt_irreflexive(d@);
                    }
                }
            }
        }
        let fresh = DayAcc { day: d, ips: Vec::new(), shared: 0, reserved: 0 };
        assert(tally_of(fresh).ips =~= empty_tally().ips);
        let new_acc = count_row(fresh, row, Ghost(bound));
        accs.insert(p, new_acc);
        let ghost v1 = days_of(accs@);
        assert(v1 =~= v0.insert(p as int, d@));
        assert forall|i: int, j: int| 0 <= i < j < v1.len() implies seq_lt(#[trigger] v1[i], #[trigger] v1[j]) by {
            if j == p {
            } else if i == p {
                assert(v1[j] == v0[j - 1]);
                if j - 1 > p {
                    lemma_seq_lt_transitive(d@, v0[p as int], v0[j - 1]);
                }
            } else if i < p && j > p {
                assert(v1[j] == v0[j - 1]);
            } else if j < p {
            } else {
                assert(v1[j] == v0[j - 1]);
                assert(v1[i] == v0[i - 1]);
            }
        }
        assert(v1.to_set() =~= m1.dom()) by {
            assert forall|k: Seq<char>| v1.to_set().contains(k) implies m1.dom().contains(k) by {
                let i = choose|i: int| 0 <= i < v1.len() && v1[i] == k;
                if i < p {
                    assert(v0[i] == k);
                    assert(v0.to_set().contains(k));
                } else if i > p {
                    assert(v0[i - 1] == k);
                    assert(v0.to_set().contains(k));
                }
            }
            assert forall|k: Seq<char>| m1.dom().contains(k) implies v1.to_set().contains(k) by {
                if k == d@ {
                    assert(v1[p as int] == k);
                } else {
                    assert(v0.to_set().contains(k));
                    let i = choose|i: int| 0 <= i < v0.len() && v0[i] == k;
                    if i < p {
                        assert(v1[i] == k);
                    } else {
                        assert(v1[i + 1] == k);
                    }
                }
            }
        }
        assert forall|i: int| 0 <= i < accs@.len() implies m1[#[trigger] accs@[i].day@] == tally_of(accs@[i]) by {
            if i < p {
                assert(accs@[i] == a0[i]);
                assert(v0[i] != d@) by { lemma_seq_lt_irreflexive(d@); }
            } else if i > p {
                assert(accs@[i] == a0[i - 1]);
                assert(v0[i - 1] != d@) by {
                    if i - 1 > p {
                        lemma_seq_lt_transitive(d@, v0[p as int], v0[i - 1]);
                    }
                    lemma_seq_lt_irreflexive(d@);
                }
            }
        }
        assert forall|i: int| 0 <= i < accs@.len() implies (#[trigger] accs@[i]).shared <= bound + 1
            && accs@[i].reserved <= bound + 1 by {
            if i < p { assert(accs@[i] == a0[i]); } else if i > p { assert(accs@[i] == a0[i - 1]); }
        }
        assert forall|i: int| 0 <= i < accs@.len() implies sorted_strict(chars_view((#[trigger] accs@[i]).ips@)) by {
            if i < p { assert(accs@[i] == a0[i]); } else if i > p { assert(accs@[i] == a0[i - 1]); }
        }
    }
}

/// The output row of one day.
fn summary_output_row(a: &DayAcc) -> (r: Row)
    requires
        sorted_strict(chars_view(a.ips@)),
    ensures
        r@ == summary_row(a.day@, tally_of(*a)),
{
    proof {
        let ips = chars_view(a.ips@);
        assert(ips.no_duplicates()) by {
            assert forall|i: int, j: int| 0 <= i < ips.len() && 0 <= j < ips.len() && i != j implies ips[i] != ips[j] by {
                if i < j { assert(seq_lt(ips[i], ips[j])); } else { assert(seq_lt(ips[j], ips[i])); }
                lemma_seq_lt_irreflexive(ips[i]);
            }
        }
        ips.unique_seq_to_set();
    }
    let n = a.ips.len() as u64;
    let fields = vec![
        ("day".to_owned(), string_of(&a.day)),
        ("unique_ip_hashes".to_owned(), decimal_string(n)),
        ("shared_matches".to_owned(), decimal_string(a.shared)),
        ("reserved_matches".to_owned(), decimal_string(a.reserved)),
    ];
    proof {
        reveal_strlit("day");
        reveal_strlit("unique_ip_hashes");
        reveal_strlit("shared_matches");
        reveal_strlit("reserved_matches");
        assert(fields_view(fields@) =~= summary_row(a.day@, tally_of(*a)));
        assert(keys_unique(fields_view(fields@))) by {
            assert("day"@.len() == 3);
            assert("unique_ip_hashes"@.len() == 16);
            assert("shared_matches"@.len() == 14);
            assert("reserved_matches"@.len() == 16);
            assert("day"@[0] != "unique_ip_hashes"@[0]);
            assert("day"@[0] != "shared_matches"@[0]);
            assert("day"@[0] != "reserved_matches"@[0]);
            assert("unique_ip_hashes"@[0] != "shared_matches"@[0]);
            assert("unique_ip_hashes"@[0] != "reserved_matches"@[0]);
            assert("shared_matches"@[0] != "reserved_matches"@[0]);
        }
    }
    Row::from_unique_fields(fields)
}

/// Counts, per day (JST), the distinct IP hashes, the matches made in shared
/// rooms and the players who joined reserved rooms; one row per day, in date
/// order. Fails on the first row without a readable `@timestamp`; a
/// timestamp that reads always has its day.
pub fn summarize_room_activity(output: QueryOutput) -> (r: Result<QueryOutput, ActivityError>)
    ensures
        match r {
            Ok(out) => {
                &&& tally_rows(rows_view(output.rows@)) is Ok
                &&& out.query_id@ == output.query_id@
                &&& out.status@ == output.status@
                &&& is_summary_of(tally_rows(rows_view(output.rows@))->Ok_0, rows_view(out.rows@))
            },
            Err(e) => tally_rows(rows_view(output.rows@)) == Err::<Map<Seq<char>, DayTally>, ActivityErrorView>(e@),
        },
        !(r matches Err(ActivityError::DateOutOfRange(_))),
{
    let ghost rv = rows_view(output.rows@);
    let mut accs: Vec<DayAcc> = Vec::new();
    let ghost mut m: Map<Seq<char>, DayTally> = Map::empty();
    let mut k: usize = 0;
    assert(rv.take(0) =~= Seq::<Seq<FieldView>>::empty());
    assert(days_of(accs@).to_set() =~= m.dom());
    while k < output.rows.len()
        invariant
            k <= output.rows.len(),
            rv == rows_view(output.rows@),
            tally_rows(rv.take(k as int)) == Ok::<Map<Seq<char>, DayTally>, ActivityErrorView>(m),
            accs_inv(accs@, m, k as nat),
            output.rows.len() <= usize::MAX,
        decreases output.rows.len() - k,
    {
        let row = &output.rows[k];
        assert(rv[k as int] == row@);
        assert(rv.take(k + 1).drop_last() =~= rv.take(k as int));
        assert(rv.take(k + 1).last() == row@);
        let d = match day_of_row(row) {
            Ok(d) => d,
            Err(e) => {
                proof {
                    lemma_tally_error_persists(rv, k + 1, rv.len() as int);
                    assert(rv.take(rv.len() as int) =~= rv);
                }
                return Err(e);
            },
        };
        add_row(&mut accs, d, row, Ghost(m), Ghost(k as nat));
        proof {
            m = m.insert(d@, tally_row(if m.contains_key(d@) { m[d@] } else { empty_tally() }, row@));
        }
        k = k + 1;
    }
    assert(rv.take(k as int) =~= rv);
    let mut rows: Vec<Row> = Vec::new();
    let mut i: usize = 0;
    while i < accs.len()
        invariant
            i <= accs.len(),
            accs_inv(accs@, m, k as nat),
            rows@.len() == i,
            forall|q: int| 0 <= q < i ==> (#[trigger] rows@[q])@ == summary_row(accs@[q].day@, m[accs@[q].day@]),
        decreases accs.len() - i,
    {
        let row = summary_output_row(&accs[i]);
        rows.push(row);
        i = i + 1;
    }
    let out = QueryOutput { query_id: output.query_id, status: output.status, rows };
    proof {
        let days = days_of(accs@);
        assert forall|q: int| 0 <= q < days.len() implies #[trigger] rows_view(out.rows@)[q] == summary_row(days[q], m[days[q]]) by {
            assert(days[q] == accs@[q].day@);
        }
    }
    Ok(out)
}

} // verus!
