use vstd::prelude::*;
use crate::text::{
    push_char, push_repeat, push_str, repeat_char,
    chars_lt, chars_of, lemma_seq_lt_total, lemma_seq_lt_transitive, seq_lt, sorted_strict, string_of,
};

verus! {

/// A column name and its value.
pub type FieldView = (Seq<char>, Seq<char>);

/// The fields of a row, as character sequences.
pub open spec fn fields_view(f: Seq<(String, String)>) -> Seq<FieldView> {
    f.map_values(|p: (String, String)| (p.0@, p.1@))
}

/// No column name occurs twice.
pub open spec fn keys_unique(r: Seq<FieldView>) -> bool {
    forall|i: int, j: int| 0 <= i < j < r.len() ==> (#[trigger] r[i]).0 != (#[trigger] r[j]).0
}

/// The value stored under `key`, if any.
pub open spec fn lookup(r: Seq<FieldView>, key: Seq<char>) -> Option<Seq<char>>
    decreases r.len(),
{
    if r.len() == 0 {
        None
    } else if r[0].0 == key {
        Some(r[0].1)
    } else {
        lookup(r.drop_first(), key)
    }
}

/// The value stored under `key`, or the empty string.
pub open spec fn value_or_empty(r: Seq<FieldView>, key: Seq<char>) -> Seq<char> {
    match lookup(r, key) {
        Some(v) => v,
        None => Seq::empty(),
    }
}

/// Where `key` is in the fields, if it is.
pub open spec fn key_index(r: Seq<FieldView>, key: Seq<char>) -> Option<int>
    decreases r.len(),
{
    if r.len() == 0 {
        None
    } else {
        match key_index(r.drop_last(), key) {
            Some(i) => Some(i),
            None => if r.last().0 == key { Some(r.len() - 1) } else { None },
        }
    }
}

/// The fields with `key` set to `value`: in place when the key is there,
/// at the end otherwise.
pub open spec fn row_insert(r: Seq<FieldView>, key: Seq<char>, value: Seq<char>) -> Seq<FieldView> {
    match key_index(r, key) {
        Some(i) => r.update(i, (key, value)),
        None => r.push((key, value)),
    }
}

/// The first field with the key is where `key_index` points.
proof fn lemma_key_index_at(r: Seq<FieldView>, key: Seq<char>, i: int)
    requires
        0 <= i < r.len(),
        r[i].0 == key,
        forall|j: int| 0 <= j < i ==> (#[trigger] r[j]).0 != key,
    ensures
        key_index(r, key) == Some(i),
    decreases r.len(),
{
    if i < r.len() - 1 {
        lemma_key_index_at(r.drop_last(), key, i);
    } else {
        lemma_key_index_none(r.drop_last(), key);
    }
}

/// Without the key, there is no index for it.
proof fn lemma_key_index_none(r: Seq<FieldView>, key: Seq<char>)
    requires
        forall|j: int| 0 <= j < r.len() ==> (#[trigger] r[j]).0 != key,
    ensures
        key_index(r, key) is None,
    decreases r.len(),
{
    if r.len() > 0 {
        lemma_key_index_none(r.drop_last(), key);
    }
}

/// One row of a query result: a map from column names to values.
pub struct Row {
    fields: Vec<(String, String)>,
}

impl View for Row {
    type V = Seq<FieldView>;

    closed spec fn view(&self) -> Seq<FieldView> {
        fields_view(self.fields@)
    }
}

impl Row {
    #[verifier::type_invariant]
    spec fn inv(self) -> bool {
        keys_unique(self@)
    }

    /// A row without fields.
    pub fn new() -> (r: Row)
        ensures
            r@ == Seq::<FieldView>::empty(),
    {
        let r = Row { fields: Vec::new() };
        assert(r@ =~= Seq::<FieldView>::empty());
        r
    }

    /// A row made of the given fields; `None` when a column name repeats.
    pub fn from_fields(fields: Vec<(String, String)>) -> (r: Option<Row>)
        ensures
            r is Some <==> keys_unique(fields_view(fields@)),
            r matches Some(row) ==> row@ == fields_view(fields@),
    {
        let n = fields.len();
        let mut i: usize = 0;
        while i < n
            invariant
                n == fields.len(),
                i <= n,
                forall|a: int, b: int|
                    0 <= a < b < n && a < i ==> (#[trigger] fields_view(fields@)[a]).0
                        != (#[trigger] fields_view(fields@)[b]).0,
            decreases n - i,
        {
            let mut j: usize = i + 1;
            while j < n
                invariant
                    n == fields.len(),
                    i < n,
                    i + 1 <= j <= n,
                    forall|a: int, b: int|
                        0 <= a < b < n && a < i ==> (#[trigger] fields_view(fields@)[a]).0
                            != (#[trigger] fields_view(fields@)[b]).0,
                    forall|b: int|
                        i < b < j ==> fields_view(fields@)[i as int].0 != (
                        #[trigger] fields_view(fields@)[b]).0,
                decreases n - j,
            {
                if fields[i].0 == fields[j].0 {
                    assert(fields_view(fields@)[i as int].0 == fields_view(fields@)[j as int].0);
                    return None;
                }
                j = j + 1;
            }
            i = i + 1;
        }
        Some(Row { fields })
    }

    /// A row made of fields whose column names are known to differ.
    pub fn from_unique_fields(fields: Vec<(String, String)>) -> (r: Row)
        requires
            keys_unique(fields_view(fields@)),
        ensures
            r@ == fields_view(fields@),
    {
        Row { fields }
    }

    /// The value stored under `key`, if any.
    pub fn get(&self, key: &str) -> (r: Option<String>)
        ensures
            r matches Some(v) ==> lookup(self@, key@) == Some(v@),
            r is None ==> lookup(self@, key@) is None,
    {
        let k = key.to_owned();
        let mut i: usize = 0;
        assert(self@.skip(0) =~= self@);
        while i < self.fields.len()
            invariant
                i <= self.fields.len(),
                k@ == key@,
                lookup(self@, key@) == lookup(self@.skip(i as int), key@),
            decreases self.fields.len() - i,
        {
            assert(self@.skip(i as int)[0] == self@[i as int]);
            if self.fields[i].0 == k {
                return Some(self.fields[i].1.clone());
            }
            assert(self@.skip(i as int).drop_first() =~= self@.skip(i + 1));
            i = i + 1;
        }
        None
    }

    /// Sets the value under `key`: the field of that name takes the value,
    /// or a new field is added at the end.
    pub fn insert(&mut self, key: String, value: String)
        ensures
            final(self)@ == row_insert(old(self)@, key@, value@),
    {
        proof {
            use_type_invariant(&*self);
        }
        let mut i: usize = 0;
        while i < self.fields.len()
            invariant
                i <= self.fields@.len(),
                self@ == old(self)@,
                keys_unique(self@),
                forall|j: int| 0 <= j < i ==> (#[trigger] self@[j]).0 != key@,
            decreases self.fields.len() - i,
        {
            if self.fields[i].0 == key {
                proof {
                    lemma_key_index_at(self@, key@, i as int);
                    assert forall|a: int, b: int|
                        0 <= a < b < self@.len() implies (#[trigger] self@.update(i as int, (key@, value@))[a]).0
                            != (#[trigger] self@.update(i as int, (key@, value@))[b]).0 by {
                        assert(self@[a].0 != self@[b].0);
                    }
                }
                let mut fields: Vec<(String, String)> = Vec::new();
                std::mem::swap(&mut fields, &mut self.fields);
                fields.set(i, (key, value));
                proof {
                    assert(fields_view(fields@) =~= old(self)@.update(i as int, (key@, value@)));
                }
                self.fields = fields;
                return;
            }
            i = i + 1;
        }
        proof {
            lemma_key_index_none(self@, key@);
            assert forall|a: int, b: int|
                0 <= a < b < self@.len() + 1 implies (#[trigger] self@.push((key@, value@))[a]).0
                    != (#[trigger] self@.push((key@, value@))[b]).0 by {
                if b < self@.len() {
                    assert(self@[a].0 != self@[b].0);
                }
            }
        }
        let mut fields: Vec<(String, String)> = Vec::new();
        std::mem::swap(&mut fields, &mut self.fields);
        fields.push((key, value));
        proof {
            assert(fields_view(fields@) =~= old(self)@.push((key@, value@)));
        }
        self.fields = fields;
    }

    /// The value stored under `key`, or the empty string.
    pub fn get_or_empty(&self, key: &str) -> (r: String)
        ensures
            r@ == value_or_empty(self@, key@),
    {
        match self.get(key) {
            Some(v) => v,
            None => String::new(),
        }
    }
}

/// The rows, each as its sequence of fields.
pub open spec fn rows_view(rows: Seq<Row>) -> Seq<Seq<FieldView>> {
    rows.map_values(|r: Row| r@)
}

/// Every column name that occurs in some row.
pub open spec fn key_set(rows: Seq<Seq<FieldView>>) -> Set<Seq<char>> {
    Set::new(
        |k: Seq<char>|
            exists|i: int, j: int|
                0 <= i < rows.len() && 0 <= j < rows[i].len() && (#[trigger] rows[i][j]).0 == k,
    )
}

/// The columns that come first, in this order, when they occur.
pub open spec fn preferred_columns() -> Seq<Seq<char>> {
    seq![
        "day"@,
        "unique_ip_hashes"@,
        "shared_matches"@,
        "reserved_matches"@,
        "room_type"@,
        "action"@,
        "cw_room_type"@,
        "cw_action"@,
        "events"@,
        "@timestamp"@,
        "@message"@,
    ]
}

/// The preferred columns that occur in `rows`, in preferred order.
pub open spec fn present_preferred(rows: Seq<Seq<FieldView>>) -> Seq<Seq<char>> {
    preferred_columns().filter(occurs_in(rows))
}

/// Whether a column name occurs in `rows`.
pub open spec fn occurs_in(rows: Seq<Seq<FieldView>>) -> spec_fn(Seq<char>) -> bool {
    |c: Seq<char>| key_set(rows).contains(c)
}

/// The column order of a rendered result: the preferred columns that occur,
/// then every other column name in sorted order, each once.
pub open spec fn is_column_order(rows: Seq<Seq<FieldView>>, cols: Seq<Seq<char>>) -> bool {
    let p = present_preferred(rows);
    &&& p.len() <= cols.len()
    &&& cols.take(p.len() as int) == p
    &&& sorted_strict(cols.skip(p.len() as int))
    &&& cols.skip(p.len() as int).to_set() == key_set(rows).difference(preferred_columns().to_set())
}

/// The column order of `rows` (there is exactly one, see
/// `lemma_column_order_unique`).
pub open spec fn columns_of(rows: Seq<Seq<FieldView>>) -> Seq<Seq<char>> {
    choose|cols: Seq<Seq<char>>| is_column_order(rows, cols)
}

/// The column order of a set of rows is unique.
pub proof fn lemma_column_order_unique(rows: Seq<Seq<FieldView>>, cols: Seq<Seq<char>>)
    requires
        is_column_order(rows, cols),
    ensures
        cols == columns_of(rows),
{
    let other = columns_of(rows);
    let n = present_preferred(rows).len() as int;
    assert(is_column_order(rows, other));
    crate::text::lemma_sorted_unique(cols.skip(n), other.skip(n));
    assert(cols =~= cols.take(n) + cols.skip(n));
    assert(other =~= other.take(n) + other.skip(n));
}

/// The character sequences of a list of character vectors.
pub open spec fn chars_view(s: Seq<Vec<char>>) -> Seq<Seq<char>> {
    s.map_values(|v: Vec<char>| v@)
}

/// The character sequences of the strings after the first `n`.
spec fn rest_view(cols: Seq<String>, n: nat) -> Seq<Seq<char>> {
    strings_view(cols).skip(n as int)
}

/// The character sequences of a list of strings.
pub open spec fn strings_view(s: Seq<String>) -> Seq<Seq<char>> {
    s.map_values(|v: String| v@)
}

/// Whether two character vectors are equal.
pub(crate) fn chars_eq(a: &Vec<char>, b: &Vec<char>) -> (r: bool)
    ensures
        r == (a@ == b@),
{
    proof {
        lemma_seq_lt_total(a@, b@);
        crate::text::lemma_seq_lt_irreflexive(a@);
    }
    !chars_lt(a, b) && !chars_lt(b, a)
}

/// Inserts `x` into the strictly increasing list `s`, unless it is there.
pub(crate) fn insert_sorted(s: &mut Vec<Vec<char>>, x: Vec<char>)
    requires
        sorted_strict(chars_view(old(s)@)),
    ensures
        sorted_strict(chars_view(final(s)@)),
        chars_view(final(s)@).to_set() == chars_view(old(s)@).to_set().insert(x@),
{
    let ghost v0 = chars_view(s@);
    let mut p: usize = 0;
    while p < s.len() && chars_lt(&s[p], &x)
        invariant
            p <= s.len(),
            s@ == old(s)@,
            v0 == chars_view(s@),
            sorted_strict(v0),
            forall|q: int| 0 <= q < p ==> seq_lt(#[trigger] v0[q], x@),
        decreases s.len() - p,
    {
        p = p + 1;
    }
    if p < s.len() && chars_eq(&s[p], &x) {
        assert(v0.to_set().insert(x@) =~= v0.to_set()) by {
            assert(v0[p as int] == x@);
        }
        return;
    }
    proof {
        if p < s.len() {
            lemma_seq_lt_total(v0[p as int], x@);
        }
    }
    s.insert(p, x);
    let ghost v1 = chars_view(s@);
    assert(v1 =~= v0.insert(p as int, x@));
    assert forall|i: int, j: int| 0 <= i < j < v1.len() implies seq_lt(
        #[trigger] v1[i],
        #[trigger] v1[j],
    ) by {
        if j == p {
        } else if i == p {
            assert(v1[j] == v0[j - 1]);
            if j - 1 > p {
                lemma_seq_lt_transitive(x@, v0[p as int], v0[j - 1]);
            }
        } else if i < p && j > p {
            assert(v1[j] == v0[j - 1]);
            assert(v1[i] == v0[i]);
        } else if j < p {
        } else {
            assert(v1[j] == v0[j - 1]);
            assert(v1[i] == v0[i - 1]);
        }
    }
    assert(v1.to_set() =~= v0.to_set().insert(x@)) by {
        assert forall|k: Seq<char>| v1.to_set().contains(k) implies v0.to_set().insert(x@).contains(k) by {
            let i = choose|i: int| 0 <= i < v1.len() && v1[i] == k;
            if i < p {
                assert(v0[i] == k);
            } else if i > p {
                assert(v0[i - 1] == k);
            }
        }
        assert forall|k: Seq<char>| v0.to_set().insert(x@).contains(k) implies v1.to_set().contains(k) by {
            if k == x@ {
                assert(v1[p as int] == k);
            } else {
                let i = choose|i: int| 0 <= i < v0.len() && v0[i] == k;
                if i < p {
                    assert(v1[i] == k);
                } else {
                    assert(v1[i + 1] == k);
                }
            }
        }
    }
}

/// Every column name that occurs in the first `i` rows, or among the first
/// `j` fields of row `i`.
spec fn keys_before(rows: Seq<Seq<FieldView>>, i: int, j: int) -> Set<Seq<char>> {
    Set::new(
        |k: Seq<char>|
            exists|a: int, b: int|
                0 <= a <= i && a < rows.len() && 0 <= b < rows[a].len() && (a < i || b < j)
                    && (#[trigger] rows[a][b]).0 == k,
    )
}

/// The column names of `rows`, sorted, each once.
fn sorted_keys(rows: &Vec<Row>) -> (ks: Vec<Vec<char>>)
    ensures
        sorted_strict(chars_view(ks@)),
        chars_view(ks@).to_set() == key_set(rows_view(rows@)),
{
    let ghost rv = rows_view(rows@);
    let mut ks: Vec<Vec<char>> = Vec::new();
    let mut i: usize = 0;
    assert(chars_view(ks@).to_set() =~= keys_before(rv, 0, 0));
    while i < rows.len()
        invariant
            i <= rows.len(),
            rv == rows_view(rows@),
            sorted_strict(chars_view(ks@)),
            chars_view(ks@).to_set() == keys_before(rv, i as int, 0),
        decreases rows.len() - i,
    {
        let row = &rows[i];
        let mut j: usize = 0;
        while j < row.fields.len()
            invariant
                i < rows.len(),
                row == rows@[i as int],
                rv == rows_view(rows@),
                j <= row.fields.len(),
                sorted_strict(chars_view(ks@)),
                chars_view(ks@).to_set() == keys_before(rv, i as int, j as int),
            decreases row.fields.len() - j,
        {
            let k = chars_of(row.fields[j].0.as_str());
            assert(rv[i as int][j as int].0 == k@);
            insert_sorted(&mut ks, k);
            assert(keys_before(rv, i as int, j + 1) =~= keys_before(rv, i as int, j as int).insert(
                k@,
            ));
            j = j + 1;
        }
        assert(keys_before(rv, i + 1, 0) =~= keys_before(rv, i as int, j as int));
        i = i + 1;
    }
    assert(keys_before(rv, i as int, 0) =~= key_set(rv));
    ks
}

/// The column names that come first when present.
fn preferred_column_names() -> (names: Vec<&'static str>)
    ensures
        names@.map_values(|n: &str| n@) == preferred_columns(),
{
    let names = vec![
        "day",
        "unique_ip_hashes",
        "shared_matches",
        "reserved_matches",
        "room_type",
        "action",
        "cw_room_type",
        "cw_action",
        "events",
        "@timestamp",
        "@message",
    ];
    assert(names@.map_values(|n: &str| n@) =~= preferred_columns());
    names
}

/// Whether `c` is one of `names`.
fn contains_chars(names: &Vec<Vec<char>>, c: &Vec<char>) -> (r: bool)
    ensures
        r == chars_view(names@).contains(c@),
{
    let mut i: usize = 0;
    while i < names.len()
        invariant
            i <= names.len(),
            forall|q: int| 0 <= q < i ==> chars_view(names@)[q] != c@,
        decreases names.len() - i,
    {
        if chars_eq(&names[i], c) {
            assert(chars_view(names@)[i as int] == c@);
            return true;
        }
        i = i + 1;
    }
    false
}

/// Appends, in order, the names of `ks` that are not among `pc`.
fn append_other_columns(cols: &mut Vec<String>, ks: &Vec<Vec<char>>, name_chars: &Vec<Vec<char>>)
    requires
        sorted_strict(chars_view(ks@)),
    ensures
        strings_view(final(cols)@).take(old(cols)@.len() as int) == strings_view(old(cols)@),
        old(cols)@.len() <= final(cols)@.len(),
        sorted_strict(rest_view(final(cols)@, old(cols)@.len())),
        forall|k: Seq<char>|
            rest_view(final(cols)@, old(cols)@.len()).contains(k) <==> (chars_view(ks@).contains(k) && !chars_view(name_chars@).contains(k)),
{
    let ghost n = cols@.len();
    let ghost p = strings_view(cols@);
    let ghost pc = chars_view(name_chars@);
    let ghost kv = chars_view(ks@);
    let mut j: usize = 0;
    assert(rest_view(cols@, n) =~= Seq::<Seq<char>>::empty());
    while j < ks.len()
        invariant
            j <= ks.len(),
            kv == chars_view(ks@),
            sorted_strict(kv),
            chars_view(name_chars@) == pc,
            n <= cols@.len(),
            strings_view(cols@).take(n as int) == p,
            sorted_strict(rest_view(cols@, n)),
            forall|a: int, q: int|
                0 <= a < rest_view(cols@, n).len() && j <= q < kv.len() ==> seq_lt(
                    #[trigger] rest_view(cols@, n)[a],
                    #[trigger] kv[q],
                ),
            forall|k: Seq<char>|
                rest_view(cols@, n).contains(k) <==> (exists|q: int|
                    0 <= q < j && (#[trigger] kv[q]) == k && !pc.contains(k)),
        decreases ks.len() - j,
    {
        let ghost c0 = cols@;
        let preferred = contains_chars(&name_chars, &ks[j]);
        if !preferred {
            cols.push(string_of(&ks[j]));
            assert(rest_view(cols@, n) =~= rest_view(c0, n).push(kv[j as int]));
            assert(strings_view(cols@).take(n as int) =~= p);
            assert forall|a: int, b: int| 0 <= a < b < rest_view(cols@, n).len() implies seq_lt(
                #[trigger] rest_view(cols@, n)[a],
                #[trigger] rest_view(cols@, n)[b],
            ) by {
                if b == rest_view(cols@, n).len() - 1 {
                    assert(rest_view(c0, n)[a] == rest_view(cols@, n)[a]);
                    assert(seq_lt(rest_view(c0, n)[a], kv[j as int]));
                } else {
                    assert(rest_view(cols@, n)[a] == rest_view(c0, n)[a]);
                    assert(rest_view(cols@, n)[b] == rest_view(c0, n)[b]);
                }
            }
            assert forall|a: int, q: int|
                0 <= a < rest_view(cols@, n).len() && j + 1 <= q < kv.len() implies seq_lt(
                #[trigger] rest_view(cols@, n)[a],
                #[trigger] kv[q],
            ) by {
                if a == rest_view(cols@, n).len() - 1 {
                    assert(seq_lt(kv[j as int], kv[q]));
                } else {
                    assert(rest_view(cols@, n)[a] == rest_view(c0, n)[a]);
                    assert(seq_lt(rest_view(c0, n)[a], kv[q]));
                }
            }
            assert forall|k: Seq<char>| rest_view(cols@, n).contains(k) <==> (exists|q: int|
                0 <= q < j + 1 && (#[trigger] kv[q]) == k && !pc.contains(k)) by {
                if rest_view(cols@, n).contains(k) {
                    let a = choose|a: int| 0 <= a < rest_view(cols@, n).len() && rest_view(cols@, n)[a] == k;
                    if a == rest_view(cols@, n).len() - 1 {
                        assert(kv[j as int] == k);
                    } else {
                        assert(rest_view(c0, n)[a] == k);
                        assert(rest_view(c0, n).contains(k));
                    }
                }
                if exists|q: int| 0 <= q < j + 1 && (#[trigger] kv[q]) == k && !pc.contains(k) {
                    let q = choose|q: int| 0 <= q < j + 1 && (#[trigger] kv[q]) == k && !pc.contains(k);
                    if q == j {
                        assert(rest_view(cols@, n)[rest_view(cols@, n).len() - 1] == k);
                    } else {
                        assert(rest_view(c0, n).contains(k));
                        let a = choose|a: int| 0 <= a < rest_view(c0, n).len() && rest_view(c0, n)[a] == k;
                        assert(rest_view(cols@, n)[a] == k);
                    }
                }
            }
        } else {
            assert forall|k: Seq<char>| rest_view(cols@, n).contains(k) <==> (exists|q: int|
                0 <= q < j + 1 && (#[trigger] kv[q]) == k && !pc.contains(k)) by {
                if exists|q: int| 0 <= q < j + 1 && (#[trigger] kv[q]) == k && !pc.contains(k) {
                    let q = choose|q: int| 0 <= q < j + 1 && (#[trigger] kv[q]) == k && !pc.contains(k);
                    if q == j {
                        assert(pc.contains(kv[j as int]));
                    }
                }
            }
        }
        j = j + 1;
    }
    proof {
        assert(strings_view(cols@).take(n as int) =~= p);
        assert forall|k: Seq<char>| rest_view(cols@, n).contains(k) <==> (kv.contains(k) && !pc.contains(k)) by {
            if kv.contains(k) && !pc.contains(k) {
                let q = choose|q: int| 0 <= q < kv.len() && kv[q] == k;
                assert(exists|q: int| 0 <= q < j && (#[trigger] kv[q]) == k && !pc.contains(k));
            }
        }
    }
}

/// The columns of a query result, in the order in which they are rendered.
pub fn columns(rows: &Vec<Row>) -> (cols: Vec<String>)
    ensures
        is_column_order(rows_view(rows@), strings_view(cols@)),
        strings_view(cols@) == columns_of(rows_view(rows@)),
{
    let ghost rv = rows_view(rows@);
    let ks = sorted_keys(rows);
    let names = preferred_column_names();
    let ghost pc = preferred_columns();
    let mut name_chars: Vec<Vec<char>> = Vec::new();
    let mut cols: Vec<String> = Vec::new();
    let mut i: usize = 0;
    assert(pc.take(0).filter(occurs_in(rv)) =~= Seq::<Seq<char>>::empty()) by {
        reveal(Seq::filter);
    }
    while i < names.len()
        invariant
            i <= names.len(),
            names@.map_values(|n: &str| n@) == pc,
            pc == preferred_columns(),
            chars_view(name_chars@) == pc.take(i as int),
            chars_view(ks@).to_set() == key_set(rv),
            strings_view(cols@) == pc.take(i as int).filter(occurs_in(rv)),
        decreases names.len() - i,
    {
        let c = chars_of(names[i]);
        assert(c@ == pc[i as int]);
        let present = contains_chars(&ks, &c);
        assert(present == occurs_in(rv)(pc[i as int])) by {
            if present {
                let q = choose|q: int| 0 <= q < chars_view(ks@).len() && chars_view(ks@)[q] == c@;
                assert(chars_view(ks@).to_set().contains(c@));
            } else {
                assert(!chars_view(ks@).to_set().contains(c@));
            }
        }
        assert(pc.take(i + 1).drop_last() =~= pc.take(i as int));
        assert(pc.take(i + 1).last() == pc[i as int]);
        let ghost t = pc.take(i + 1);
        let ghost before = strings_view(cols@);
        assert(t.filter(occurs_in(rv)) == (if occurs_in(rv)(t.last()) {
            t.drop_last().filter(occurs_in(rv)).push(t.last())
        } else {
            t.drop_last().filter(occurs_in(rv))
        })) by {
            reveal(Seq::filter);
        }
        if present {
            let name = names[i].to_owned();
            assert(name@ == pc[i as int]);
            cols.push(name);
            assert(strings_view(cols@) =~= before.push(name@));
        }
        assert(strings_view(cols@) =~= pc.take(i + 1).filter(occurs_in(rv)));
        name_chars.push(c);
        assert(chars_view(name_chars@) =~= pc.take(i + 1));
        i = i + 1;
    }
    assert(pc.take(i as int) =~= pc);
    let ghost p = strings_view(cols@);
    assert(p == present_preferred(rv));
    let ghost n = p.len();
    append_other_columns(&mut cols, &ks, &name_chars);
    let ghost kv = chars_view(ks@);
    let ghost rest = rest_view(cols@, n);
    assert(strings_view(cols@).take(n as int) == p);
    proof {
        assert(rest.to_set() =~= key_set(rv).difference(pc.to_set())) by {
            assert forall|k: Seq<char>| rest.to_set().contains(k) implies key_set(rv).difference(
                pc.to_set(),
            ).contains(k) by {
                assert(rest.contains(k));
                assert(kv.contains(k));
                assert(kv.to_set().contains(k));
            }
            assert forall|k: Seq<char>| key_set(rv).difference(pc.to_set()).contains(k) implies rest.to_set().contains(k) by {
                assert(kv.to_set().contains(k));
                let q = choose|q: int| 0 <= q < kv.len() && kv[q] == k;
                assert(!pc.contains(k));
                assert(rest.contains(k));
            }
        }
        lemma_column_order_unique(rv, strings_view(cols@));
    }
    cols
}

/// Whether a CSV value has to be quoted.
pub open spec fn needs_quotes(v: Seq<char>) -> bool {
    v.contains(',') || v.contains('"') || v.contains('\n') || v.contains('\r')
}

/// `v` with every double quote doubled.
pub open spec fn double_quotes(v: Seq<char>) -> Seq<char>
    decreases v.len(),
{
    if v.len() == 0 {
        Seq::empty()
    } else if v.last() == '"' {
        double_quotes(v.drop_last()) + seq!['"', '"']
    } else {
        double_quotes(v.drop_last()).push(v.last())
    }
}

/// A value as it stands in a CSV file.
pub open spec fn csv_value(v: Seq<char>) -> Seq<char> {
    if needs_quotes(v) {
        seq!['"'] + double_quotes(v) + seq!['"']
    } else {
        v
    }
}

/// A quoted CSV value read back, left to right: a doubled double quote
/// stands for one double quote.
pub open spec fn undouble_quotes(s: Seq<char>) -> Seq<char>
    decreases s.len(),
{
    if s.len() == 0 {
        Seq::empty()
    } else if s.len() >= 2 && s[0] == '"' && s[1] == '"' {
        seq!['"'] + undouble_quotes(s.skip(2))
    } else {
        seq![s[0]] + undouble_quotes(s.skip(1))
    }
}

/// How a CSV reader takes a field: between double quotes, with doubled
/// quotes undoubled; otherwise as it stands.
pub open spec fn csv_field_read(t: Seq<char>) -> Seq<char> {
    if t.len() >= 2 && t[0] == '"' && t.last() == '"' {
        undouble_quotes(t.subrange(1, t.len() - 1))
    } else {
        t
    }
}

/// Doubling quotes works character by character from the front too.
proof fn lemma_double_quotes_front(c: char, w: Seq<char>)
    ensures
        double_quotes(seq![c] + w) == (if c == '"' { seq!['"', '"'] } else { seq![c] }) + double_quotes(w),
    decreases w.len(),
{
    let s = seq![c] + w;
    if w.len() == 0 {
        assert(s.drop_last() =~= Seq::<char>::empty());
        assert(double_quotes(s.drop_last()) == Seq::<char>::empty());
        assert(double_quotes(w) == Seq::<char>::empty());
    } else {
        assert(s.drop_last() =~= seq![c] + w.drop_last());
        assert(s.last() == w.last());
        lemma_double_quotes_front(c, w.drop_last());
        let p = if c == '"' { seq!['"', '"'] } else { seq![c] };
        if w.last() == '"' {
            assert(double_quotes(s) =~= p + double_quotes(w));
        } else {
            assert(double_quotes(s) =~= p + double_quotes(w));
        }
    }
}

/// Reading back what doubling wrote gives the value.
proof fn lemma_undouble_double(v: Seq<char>)
    ensures
        undouble_quotes(double_quotes(v)) == v,
    decreases v.len(),
{
    if v.len() > 0 {
        let c = v[0];
        let w = v.skip(1);
        assert(v =~= seq![c] + w);
        lemma_double_quotes_front(c, w);
        lemma_undouble_double(w);
        let d = double_quotes(v);
        if c == '"' {
            assert(d.skip(2) =~= double_quotes(w));
            assert(undouble_quotes(d) =~= seq!['"'] + w);
        } else {
            assert(d.skip(1) =~= double_quotes(w));
            assert(d[0] == c);
            assert(undouble_quotes(d) =~= seq![c] + w);
        }
    }
}

/// Law: a CSV reader gets every value back from what is written for it.
pub proof fn law_csv_value_round_trip(v: Seq<char>)
    ensures
        csv_field_read(csv_value(v)) == v,
{
    if needs_quotes(v) {
        let t = csv_value(v);
        lemma_undouble_double(v);
        assert(t.subrange(1, t.len() - 1) =~= double_quotes(v));
    } else {
        if v.len() >= 2 && v[0] == '"' {
            assert(v.contains('"'));
        }
    }
}

/// The values of one CSV line, separated by commas.
pub open spec fn csv_fields(values: Seq<Seq<char>>) -> Seq<char>
    decreases values.len(),
{
    if values.len() == 0 {
        Seq::empty()
    } else if values.len() == 1 {
        csv_value(values[0])
    } else {
        csv_fields(values.drop_last()) + seq![','] + csv_value(values.last())
    }
}

/// One CSV line, with its line break.
pub open spec fn csv_line(values: Seq<Seq<char>>) -> Seq<char> {
    csv_fields(values).push('\n')
}

/// The values of `row` under the given columns, empty where it has none.
pub open spec fn row_values(row: Seq<FieldView>, cols: Seq<Seq<char>>) -> Seq<Seq<char>> {
    cols.map_values(|c: Seq<char>| value_or_empty(row, c))
}

/// The CSV lines of the rows, one after the other.
pub open spec fn csv_body(rows: Seq<Seq<FieldView>>, cols: Seq<Seq<char>>) -> Seq<char>
    decreases rows.len(),
{
    if rows.len() == 0 {
        Seq::empty()
    } else {
        csv_body(rows.drop_last(), cols) + csv_line(row_values(rows.last(), cols))
    }
}

/// A whole CSV document: a header line of column names, then one line per row.
pub open spec fn csv_document(rows: Seq<Seq<FieldView>>, cols: Seq<Seq<char>>) -> Seq<char> {
    csv_line(cols) + csv_body(rows, cols)
}

/// Whether `v` holds one of the characters that force quoting.
fn contains_special(v: &Vec<char>) -> (r: bool)
    ensures
        r == needs_quotes(v@),
{
    let mut i: usize = 0;
    while i < v.len()
        invariant
            i <= v.len(),
            forall|q: int|
                0 <= q < i ==> v@[q] != ',' && v@[q] != '"' && v@[q] != '\n' && v@[q] != '\r',
        decreases v.len() - i,
    {
        let c = v[i];
        if c == ',' || c == '"' || c == '\n' || c == '\r' {
            assert(v@[i as int] == c);
            return true;
        }
        i = i + 1;
    }
    false
}

/// Appends one value, quoted when it holds a comma, a quote or a line break.
pub fn push_csv_value(output: &mut String, value: &str)
    ensures
        final(output)@ == old(output)@ + csv_value(value@),
{
    let chars = chars_of(value);
    if contains_special(&chars) {
        let ghost start = output@;
        push_char(output, '"');
        let mut i: usize = 0;
        while i < chars.len()
            invariant
                i <= chars.len(),
                output@ == start.push('"') + double_quotes(chars@.take(i as int)),
            decreases chars.len() - i,
        {
            assert(chars@.take(i + 1).drop_last() =~= chars@.take(i as int));
            if chars[i] == '"' {
                push_char(output, '"');
                push_char(output, '"');
            } else {
                push_char(output, chars[i]);
            }
            assert(output@ =~= start.push('"') + double_quotes(chars@.take(i + 1)));
            i = i + 1;
        }
        assert(chars@.take(i as int) =~= chars@);
        push_char(output, '"');
        assert(output@ =~= start + csv_value(value@));
    } else {
        push_str(output, value);
    }
}

/// Appends one CSV line.
pub fn push_csv_row(output: &mut String, values: &Vec<String>)
    ensures
        final(output)@ == old(output)@ + csv_line(strings_view(values@)),
{
    let ghost start = output@;
    let ghost vv = strings_view(values@);
    let mut i: usize = 0;
    while i < values.len()
        invariant
            i <= values.len(),
            vv == strings_view(values@),
            output@ == start + csv_fields(vv.take(i as int)),
        decreases values.len() - i,
    {
        assert(vv.take(i + 1).drop_last() =~= vv.take(i as int));
        if i > 0 {
            push_char(output, ',');
        }
        push_csv_value(output, values[i].as_str());
        proof {
            if i == 0 {
                assert(vv.take(1) =~= seq![vv[0]]);
            }
        }
        assert(output@ =~= start + csv_fields(vv.take(i + 1)));
        i = i + 1;
    }
    assert(vv.take(i as int) =~= vv);
    push_char(output, '\n');
}

/// The values of `row` under the given columns.
fn values_of(row: &Row, cols: &Vec<String>) -> (vals: Vec<String>)
    ensures
        strings_view(vals@) == row_values(row@, strings_view(cols@)),
{
    let mut vals: Vec<String> = Vec::new();
    let mut i: usize = 0;
    while i < cols.len()
        invariant
            i <= cols.len(),
            strings_view(vals@) == row_values(row@, strings_view(cols@)).take(i as int),
        decreases cols.len() - i,
    {
        let v = row.get_or_empty(cols[i].as_str());
        assert(strings_view(cols@)[i as int] == cols@[i as int]@);
        assert(row_values(row@, strings_view(cols@))[i as int] == v@);
        let ghost old_vals = strings_view(vals@);
        vals.push(v);
        assert(strings_view(vals@) =~= old_vals.push(v@));
        assert(strings_view(vals@) =~= row_values(row@, strings_view(cols@)).take(i + 1));
        i = i + 1;
    }
    assert(row_values(row@, strings_view(cols@)).take(i as int) =~= row_values(row@, strings_view(cols@)));
    vals
}

/// The rows as CSV, with a header line of column names.
pub fn render_csv(rows: &Vec<Row>) -> (out: String)
    ensures
        is_column_order(rows_view(rows@), columns_of(rows_view(rows@))),
        out@ == csv_document(rows_view(rows@), columns_of(rows_view(rows@))),
{
    let cols = columns(rows);
    let ghost cv = strings_view(cols@);
    let ghost rv = rows_view(rows@);
    let mut result = String::new();
    push_csv_row(&mut result, &cols);
    let mut i: usize = 0;
    while i < rows.len()
        invariant
            i <= rows.len(),
            rv == rows_view(rows@),
            cv == strings_view(cols@),
            result@ == csv_line(cv) + csv_body(rv.take(i as int), cv),
        decreases rows.len() - i,
    {
        let vals = values_of(&rows[i], &cols);
        assert(rv[i as int] == rows@[i as int]@);
        let ghost before = result@;
        push_csv_row(&mut result, &vals);
        assert(result@ == before + csv_line(row_values(rv[i as int], cv)));
        assert(rv.take(i + 1).drop_last() =~= rv.take(i as int));
        assert(rv.take(i + 1).last() == rows@[i as int]@);
        assert(result@ =~= csv_line(cv) + csv_body(rv.take(i + 1), cv));
        i = i + 1;
    }
    assert(rv.take(i as int) =~= rv);
    result
}

/// The result of a log query.
pub struct QueryOutput {
    pub query_id: String,
    pub status: String,
    pub rows: Vec<Row>,
}

/// The length of a string in bytes (UTF-8), as `str::len` reports it; the
/// table pads by it.
pub open spec fn byte_len(s: Seq<char>) -> nat {
    (vstd::utf8::encode_utf8(s).len() as usize) as nat
}

/// The longest value (in bytes) that the rows hold under column `c`.
pub open spec fn max_value_len(rows: Seq<Seq<FieldView>>, c: Seq<char>) -> nat
    decreases rows.len(),
{
    if rows.len() == 0 {
        0
    } else {
        let m = max_value_len(rows.drop_last(), c);
        let l = byte_len(value_or_empty(rows.last(), c));
        if m < l { l } else { m }
    }
}

/// The width of a table column: its name or its longest value.
pub open spec fn col_width(rows: Seq<Seq<FieldView>>, c: Seq<char>) -> nat {
    let m = max_value_len(rows, c);
    if byte_len(c) < m { m } else { byte_len(c) }
}

/// Each value is padded with spaces to its column's width, and columns are
/// separated by two spaces.
pub open spec fn table_cells(values: Seq<Seq<char>>, widths: Seq<usize>) -> Seq<char>
    decreases values.len(),
{
    if values.len() == 0 {
        Seq::empty()
    } else {
        let i = values.len() - 1;
        let sep = if i > 0 { seq![' ', ' '] } else { Seq::<char>::empty() };
        table_cells(values.drop_last(), widths) + sep + values[i] + repeat_char(
            ' ',
            (widths[i] - byte_len(values[i])) as nat,
        )
    }
}

/// One table line, with its line break.
pub open spec fn table_line(values: Seq<Seq<char>>, widths: Seq<usize>) -> Seq<char> {
    table_cells(values, widths).push('\n')
}

/// A run of dashes under each column, separated by two spaces.
pub open spec fn separator_cells(widths: Seq<usize>) -> Seq<char>
    decreases widths.len(),
{
    if widths.len() == 0 {
        Seq::empty()
    } else {
        let i = widths.len() - 1;
        let sep = if i > 0 { seq![' ', ' '] } else { Seq::<char>::empty() };
        separator_cells(widths.drop_last()) + sep + repeat_char('-', widths[i] as nat)
    }
}

/// The lines of the rows, one after the other.
pub open spec fn table_body(rows: Seq<Seq<FieldView>>, cols: Seq<Seq<char>>, widths: Seq<usize>) -> Seq<char>
    decreases rows.len(),
{
    if rows.len() == 0 {
        Seq::empty()
    } else {
        table_body(rows.drop_last(), cols, widths) + table_line(row_values(rows.last(), cols), widths)
    }
}

/// The widths of the columns.
pub open spec fn widths_ok(rows: Seq<Seq<FieldView>>, cols: Seq<Seq<char>>, widths: Seq<usize>) -> bool {
    &&& widths.len() == cols.len()
    &&& forall|k: int| 0 <= k < cols.len() ==> widths[k] == col_width(rows, #[trigger] cols[k])
}

/// The text of a table: a header line, a line of dashes, then one line per row.
pub open spec fn table_document(rows: Seq<Seq<FieldView>>, cols: Seq<Seq<char>>, widths: Seq<usize>) -> Seq<char> {
    table_line(cols, widths) + separator_cells(widths).push('\n') + table_body(rows, cols, widths)
}

/// The text shown for a result without rows.
pub open spec fn empty_table_text(status: Seq<char>, query_id: Seq<char>) -> Seq<char> {
    "status: "@ + status + "\nquery_id: "@ + query_id + "\nrows: 0\n"@
}

/// Values no wider than their columns.
pub open spec fn fits(values: Seq<Seq<char>>, widths: Seq<usize>) -> bool {
    &&& values.len() <= widths.len()
    &&& forall|i: int| 0 <= i < values.len() ==> byte_len(#[trigger] values[i]) <= widths[i]
}

/// Appends one table line.
pub fn push_table_row(output: &mut String, values: &Vec<String>, widths: &Vec<usize>)
    requires
        fits(strings_view(values@), widths@),
    ensures
        final(output)@ == old(output)@ + table_line(strings_view(values@), widths@),
{
    let ghost start = output@;
    let ghost vv = strings_view(values@);
    let mut i: usize = 0;
    while i < values.len()
        invariant
            i <= values.len(),
            vv == strings_view(values@),
            fits(vv, widths@),
            output@ == start + table_cells(vv.take(i as int), widths@),
        decreases values.len() - i,
    {
        assert(vv.take(i + 1).drop_last() =~= vv.take(i as int));
        assert(vv[i as int] == values@[i as int]@);
        if i > 0 {
            push_str(output, "  ");
            proof { reveal_strlit("  "); }
        }
        push_str(output, values[i].as_str());
        let len = values[i].as_str().len();
        assert(len == byte_len(vv[i as int]));
        push_repeat(output, ' ', widths[i] - len);
        assert(output@ =~= start + table_cells(vv.take(i + 1), widths@));
        i = i + 1;
    }
    assert(vv.take(i as int) =~= vv);
    push_char(output, '\n');
}

/// Appends the line of dashes under the header.
pub fn push_table_separator(output: &mut String, widths: &Vec<usize>)
    ensures
        final(output)@ == old(output)@ + separator_cells(widths@).push('\n'),
{
    let ghost start = output@;
    let mut i: usize = 0;
    while i < widths.len()
        invariant
            i <= widths.len(),
            output@ == start + separator_cells(widths@.take(i as int)),
        decreases widths.len() - i,
    {
        assert(widths@.take(i + 1).drop_last() =~= widths@.take(i as int));
        if i > 0 {
            push_str(output, "  ");
            proof { reveal_strlit("  "); }
        }
        push_repeat(output, '-', widths[i]);
        assert(output@ =~= start + separator_cells(widths@.take(i + 1)));
        i = i + 1;
    }
    assert(widths@.take(i as int) =~= widths@);
    push_char(output, '\n');
}

/// A value never exceeds the longest value of its column.
proof fn lemma_max_value_len(rows: Seq<Seq<FieldView>>, c: Seq<char>, i: int)
    requires
        0 <= i < rows.len(),
    ensures
        byte_len(value_or_empty(rows[i], c)) <= max_value_len(rows, c),
    decreases rows.len(),
{
    if i < rows.len() - 1 {
        lemma_max_value_len(rows.drop_last(), c, i);
        assert(rows.drop_last()[i] == rows[i]);
    }
}

/// The width of each column.
fn column_widths(rows: &Vec<Row>, cols: &Vec<String>) -> (widths: Vec<usize>)
    ensures
        widths_ok(rows_view(rows@), strings_view(cols@), widths@),
{
    let ghost rv = rows_view(rows@);
    let ghost cv = strings_view(cols@);
    let mut widths: Vec<usize> = Vec::new();
    let mut k: usize = 0;
    while k < cols.len()
        invariant
            k <= cols.len(),
            rv == rows_view(rows@),
            cv == strings_view(cols@),
            widths@.len() == k,
            forall|q: int| 0 <= q < k ==> widths@[q] == col_width(rv, #[trigger] cv[q]),
        decreases cols.len() - k,
    {
        assert(cv[k as int] == cols@[k as int]@);
        let mut m: usize = 0;
        let mut i: usize = 0;
        while i < rows.len()
            invariant
                i <= rows.len(),
                k < cols.len(),
                rv == rows_view(rows@),
                cv == strings_view(cols@),
                m == max_value_len(rv.take(i as int), cv[k as int]),
            decreases rows.len() - i,
        {
            let v = rows[i].get_or_empty(cols[k].as_str());
            assert(rv[i as int] == rows@[i as int]@);
            assert(rv.take(i + 1).drop_last() =~= rv.take(i as int));
            let l = v.as_str().len();
            assert(rv.take(i + 1).last() == rv[i as int]);
            assert(l == byte_len(value_or_empty(rv[i as int], cv[k as int])));
            if m < l {
                m = l;
            }
            i = i + 1;
        }
        assert(rv.take(i as int) =~= rv);
        let l = cols[k].as_str().len();
        assert(l == byte_len(cv[k as int]));
        let w = if l < m { m } else { l };
        assert(w == col_width(rv, cv[k as int]));
        let ghost old_widths = widths@;
        widths.push(w);
        assert forall|q: int| 0 <= q < k + 1 implies widths@[q] == col_width(rv, #[trigger] cv[q]) by {
            if q < k {
                assert(widths@[q] == old_widths[q]);
            }
        }
        k = k + 1;
    }
    widths
}

/// The query result as a text table; a short summary when it has no rows.
pub fn render_table(output: &QueryOutput) -> (text: String)
    ensures
        output.rows@.len() == 0 ==> text@ == empty_table_text(output.status@, output.query_id@),
        output.rows@.len() > 0 ==> exists|widths: Seq<usize>|
            widths_ok(rows_view(output.rows@), columns_of(rows_view(output.rows@)), widths)
                && text@ == table_document(
                rows_view(output.rows@),
                columns_of(rows_view(output.rows@)),
                widths,
            ),
{
    if output.rows.len() == 0 {
        let mut text = String::new();
        push_str(&mut text, "status: ");
        push_str(&mut text, output.status.as_str());
        push_str(&mut text, "\nquery_id: ");
        push_str(&mut text, output.query_id.as_str());
        push_str(&mut text, "\nrows: 0\n");
        return text;
    }
    let rows = &output.rows;
    let ghost rv = rows_view(rows@);
    let cols = columns(rows);
    let ghost cv = strings_view(cols@);
    let widths = column_widths(rows, &cols);
    let mut result = String::new();
    assert(fits(cv, widths@)) by {
        assert forall|i: int| 0 <= i < cv.len() implies byte_len(#[trigger] cv[i]) <= widths@[i] by {
            assert(widths@[i] == col_width(rv, cv[i]));
        }
    }
    push_table_row(&mut result, &cols, &widths);
    push_table_separator(&mut result, &widths);
    let mut i: usize = 0;
    while i < rows.len()
        invariant
            i <= rows.len(),
            rv == rows_view(rows@),
            cv == strings_view(cols@),
            widths_ok(rv, cv, widths@),
            result@ == table_line(cv, widths@) + separator_cells(widths@).push('\n') + table_body(
                rv.take(i as int),
                cv,
                widths@,
            ),
        decreases rows.len() - i,
    {
        let vals = values_of(&rows[i], &cols);
        assert(rv[i as int] == rows@[i as int]@);
        assert(fits(strings_view(vals@), widths@)) by {
            assert forall|q: int| 0 <= q < strings_view(vals@).len() implies byte_len(
                #[trigger] strings_view(vals@)[q],
            ) <= widths@[q] by {
                assert(strings_view(vals@)[q] == value_or_empty(rv[i as int], cv[q]));
                lemma_max_value_len(rv, cv[q], i as int);
                assert(widths@[q] == col_width(rv, cv[q]));
            }
        }
        let ghost before = result@;
        push_table_row(&mut result, &vals, &widths);
        assert(rv.take(i + 1).drop_last() =~= rv.take(i as int));
        assert(rv.take(i + 1).last() == rv[i as int]);
        assert(result@ =~= table_line(cv, widths@) + separator_cells(widths@).push('\n') + table_body(
            rv.take(i + 1),
            cv,
            widths@,
        ));
        i = i + 1;
    }
    assert(rv.take(i as int) =~= rv);
    result
}

} // verus!
