use vstd::prelude::*;

use crate::model::{
    all_positions, all_present, apply_spec, dedup_rows, dedup_table, insert_row, pick, position,
    positions, project_table, seen_before, sort_rows, QueryModel, Row, Table, Text,
};

verus! {

/// Keys of `rows` over the positions `idx`.
pub open spec fn keys(rows: Seq<Row>, idx: Seq<int>) -> Seq<Row> {
    rows.map_values(|r: Row| pick(r, idx))
}

/// Keys of a relation's rows over the columns `subset`.
pub open spec fn keys_over(t: Table, subset: Seq<Text>) -> Seq<Row> {
    keys(t.rows, positions(t.names, subset))
}

/// The items of a sequence with one more item pushed.
proof fn lemma_push_to_set<A>(s: Seq<A>, x: A)
    ensures
        s.push(x).to_set() =~= s.to_set().insert(x),
{
    assert forall|a: A| s.push(x).contains(a) <==> (s.contains(a) || a == x) by {
        if s.push(x).contains(a) {
            let i = choose|i: int| 0 <= i < s.push(x).len() && s.push(x)[i] == a;
            if i < s.len() {
                assert(s[i] == a);
            }
        }
        if s.contains(a) {
            let i = choose|i: int| 0 <= i < s.len() && s[i] == a;
            assert(s.push(x)[i] == a);
        }
        if a == x {
            assert(s.push(x)[s.len() as int] == x);
        }
    }
    assert forall|a: A| #[trigger] s.push(x).to_set().contains(a) <==> s.to_set().insert(x).contains(
        a,
    ) by {
        assert(s.push(x).contains(a) <==> (s.contains(a) || a == x));
    }
}

/// Deduplication keeps exactly one row per key: the kept keys are pairwise
/// distinct and are the keys of the input.
proof fn lemma_dedup_keys(rows: Seq<Row>, idx: Seq<int>)
    ensures
        keys(dedup_rows(rows, idx), idx).no_duplicates(),
        keys(dedup_rows(rows, idx), idx).to_set() =~= keys(rows, idx).to_set(),
    decreases rows.len(),
{
    if rows.len() > 0 {
        let pre = rows.drop_last();
        let last = rows.last();
        let k = pick(last, idx);
        lemma_dedup_keys(pre, idx);
        let d0 = dedup_rows(pre, idx);
        assert(keys(rows, idx) =~= keys(pre, idx).push(k));
        lemma_push_to_set(keys(pre, idx), k);
        assert(keys(rows, idx).to_set() =~= keys(pre, idx).to_set().insert(k));
        if seen_before(rows, idx, rows.len() - 1) {
            let j = choose|j: int|
                0 <= j < rows.len() - 1 && #[trigger] pick(rows[j], idx) == pick(
                    rows[rows.len() - 1],
                    idx,
                );
            assert(keys(pre, idx)[j] == k);
            assert(keys(pre, idx).to_set().contains(k));
        } else {
            assert(keys(dedup_rows(rows, idx), idx) =~= keys(d0, idx).push(k));
            lemma_push_to_set(keys(d0, idx), k);
            assert(!keys(pre, idx).contains(k)) by {
                if keys(pre, idx).contains(k) {
                    let j = choose|j: int| 0 <= j < pre.len() && keys(pre, idx)[j] == k;
                    assert(pick(rows[j], idx) == pick(rows[rows.len() - 1], idx));
                }
            }
            assert(!keys(d0, idx).to_set().contains(k));
            assert(!keys(d0, idx).contains(k));
        }
    }
}

/// Rows whose keys are already pairwise distinct lose nothing to deduplication.
proof fn lemma_dedup_distinct_identity(rows: Seq<Row>, idx: Seq<int>)
    requires
        keys(rows, idx).no_duplicates(),
    ensures
        dedup_rows(rows, idx) == rows,
    decreases rows.len(),
{
    if rows.len() > 0 {
        let pre = rows.drop_last();
        assert forall|i: int, j: int|
            0 <= i < keys(pre, idx).len() && 0 <= j < keys(pre, idx).len() && i != j implies keys(
                pre,
                idx,
            )[i] != keys(pre, idx)[j] by {
            assert(keys(pre, idx)[i] == keys(rows, idx)[i]);
            assert(keys(pre, idx)[j] == keys(rows, idx)[j]);
        }
        lemma_dedup_distinct_identity(pre, idx);
        assert(!seen_before(rows, idx, rows.len() - 1)) by {
            if seen_before(rows, idx, rows.len() - 1) {
                let j = choose|j: int|
                    0 <= j < rows.len() - 1 && #[trigger] pick(rows[j], idx) == pick(
                        rows[rows.len() - 1],
                        idx,
                    );
                assert(keys(rows, idx)[j] == keys(rows, idx)[rows.len() - 1]);
            }
        }
        assert(pre.push(rows.last()) =~= rows);
    }
}

/// With no columns named, a query keeps every column of the source, in order.
pub proof fn lemma_all_columns_kept(t: Table, q: QueryModel)
    requires
        q.columns.len() == 0,
    ensures
        apply_spec(t, q) matches Some(r) ==> r.names == t.names,
{
}

/// With columns named, the result has exactly those columns, in that order,
/// whether or not the query deduplicates and over whichever columns: columns
/// used only to deduplicate or to sort never reach the output.
pub proof fn lemma_projection_is_final(t: Table, q: QueryModel)
    requires
        q.columns.len() > 0,
    ensures
        apply_spec(t, q) matches Some(r) ==> r.names == q.columns,
{
}

/// Whole-row deduplication is idempotent: a stable query that deduplicates
/// over all columns yields the same rows, in the same order, from its source
/// and from that source with its duplicate rows already dropped.
pub proof fn lemma_stable_distinct_idempotent(t: Table, q: QueryModel)
    requires
        q.unique == Some((Seq::<Text>::empty(), true)),
    ensures
        dedup_table(t, Seq::empty()) matches Some(d) && apply_spec(d, q) == apply_spec(t, q),
{
    let idx = all_positions(t.names.len());
    lemma_dedup_keys(t.rows, idx);
    lemma_dedup_distinct_identity(dedup_rows(t.rows, idx), idx);
}

/// Deduplication over a non-empty set of columns keeps one row per distinct
/// key: the kept rows' keys are pairwise distinct, and there are as many kept
/// rows as distinct keys in the source.
pub proof fn lemma_distinct_on_subset(t: Table, subset: Seq<Text>)
    requires
        subset.len() > 0,
        all_present(t.names, subset),
    ensures
        dedup_table(t, subset) matches Some(d) && keys_over(d, subset).no_duplicates()
            && d.rows.len() == keys_over(t, subset).to_set().len(),
{
    let idx = positions(t.names, subset);
    lemma_dedup_keys(t.rows, idx);
    let d = dedup_rows(t.rows, idx);
    keys(d, idx).unique_seq_to_set();
}

/// The first column called `n` is called `n`.
proof fn lemma_position(names: Seq<Text>, n: Text)
    requires
        names.contains(n),
    ensures
        0 <= position(names, n) < names.len(),
        names[position(names, n)] == n,
    decreases names.len(),
{
    if names[0] != n {
        let j = choose|j: int| 0 <= j < names.len() && names[j] == n;
        assert(names.drop_first()[j - 1] == n);
        lemma_position(names.drop_first(), n);
    }
}

/// Inserting a row whose key is new keeps keys distinct, and adds only that row.
proof fn lemma_insert_keys(
    lt: spec_fn(Text, Text) -> bool,
    k: Seq<(int, bool)>,
    s: Seq<Row>,
    x: Row,
    idx: Seq<int>,
)
    requires
        keys(s, idx).no_duplicates(),
        !keys(s, idx).contains(pick(x, idx)),
    ensures
        insert_row(lt, k, s, x).len() == s.len() + 1,
        forall|y: Row| #[trigger] insert_row(lt, k, s, x).contains(y) ==> y == x || s.contains(y),
        keys(insert_row(lt, k, s, x), idx).no_duplicates(),
    decreases s.len(),
{
    let r = insert_row(lt, k, s, x);
    if s.len() == 0 {
        assert forall|y: Row| r.contains(y) implies y == x by {
            let i = choose|i: int| 0 <= i < r.len() && r[i] == y;
        }
    } else if crate::model::row_lt(lt, k, x, s[0]) {
        assert forall|y: Row| #[trigger] r.contains(y) implies y == x || s.contains(y) by {
            let i = choose|i: int| 0 <= i < r.len() && r[i] == y;
            if i > 0 {
                assert(s[i - 1] == y);
            }
        }
        assert forall|i: int, j: int|
            0 <= i < keys(r, idx).len() && 0 <= j < keys(r, idx).len() && i != j implies keys(
                r,
                idx,
            )[i] != keys(r, idx)[j] by {
            if i == 0 {
                assert(keys(s, idx)[j - 1] == keys(r, idx)[j]);
            } else if j == 0 {
                assert(keys(s, idx)[i - 1] == keys(r, idx)[i]);
            } else {
                assert(keys(s, idx)[i - 1] == keys(r, idx)[i]);
                assert(keys(s, idx)[j - 1] == keys(r, idx)[j]);
            }
        }
    } else {
        let rest = s.drop_first();
        assert forall|i: int, j: int|
            0 <= i < keys(rest, idx).len() && 0 <= j < keys(rest, idx).len() && i != j implies keys(
                rest,
                idx,
            )[i] != keys(rest, idx)[j] by {
            assert(keys(rest, idx)[i] == keys(s, idx)[i + 1]);
            assert(keys(rest, idx)[j] == keys(s, idx)[j + 1]);
        }
        assert(!keys(rest, idx).contains(pick(x, idx))) by {
            if keys(rest, idx).contains(pick(x, idx)) {
                let j = choose|j: int| 0 <= j < keys(rest, idx).len() && keys(rest, idx)[j] == pick(x, idx);
                assert(keys(s, idx)[j + 1] == pick(x, idx));
            }
        }
        lemma_insert_keys(lt, k, rest, x, idx);
        let ins = insert_row(lt, k, rest, x);
        assert(r == seq![s[0]] + ins);
        assert forall|y: Row| #[trigger] r.contains(y) implies y == x || s.contains(y) by {
            let i = choose|i: int| 0 <= i < r.len() && r[i] == y;
            if i == 0 {
                assert(s[0] == y);
            } else {
                assert(ins[i - 1] == y);
                assert(ins.contains(y));
                if y != x {
                    let j = choose|j: int| 0 <= j < rest.len() && rest[j] == y;
                    assert(s[j + 1] == y);
                }
            }
        }
        assert forall|j: int| 0 <= j < ins.len() implies pick(#[trigger] ins[j], idx) != pick(s[0], idx) by {
            assert(ins.contains(ins[j]));
            if ins[j] == x {
                assert(keys(s, idx)[0] == pick(s[0], idx));
            } else {
                let m = choose|m: int| 0 <= m < rest.len() && rest[m] == ins[j];
                assert(keys(s, idx)[m + 1] == pick(ins[j], idx));
                assert(keys(s, idx)[0] == pick(s[0], idx));
            }
        }
        assert forall|i: int, j: int|
            0 <= i < keys(r, idx).len() && 0 <= j < keys(r, idx).len() && i != j implies keys(
                r,
                idx,
            )[i] != keys(r, idx)[j] by {
            if i == 0 {
                assert(keys(r, idx)[j] == pick(ins[j - 1], idx));
            } else if j == 0 {
                assert(keys(r, idx)[i] == pick(ins[i - 1], idx));
            } else {
                assert(keys(ins, idx)[i - 1] == keys(r, idx)[i]);
                assert(keys(ins, idx)[j - 1] == keys(r, idx)[j]);
            }
        }
    }
}

/// Sorting keeps the rows, and keeps their keys distinct.
proof fn lemma_sort_keys(
    lt: spec_fn(Text, Text) -> bool,
    k: Seq<(int, bool)>,
    rows: Seq<Row>,
    idx: Seq<int>,
)
    requires
        keys(rows, idx).no_duplicates(),
    ensures
        sort_rows(lt, k, rows).len() == rows.len(),
        forall|y: Row| #[trigger] sort_rows(lt, k, rows).contains(y) ==> rows.contains(y),
        keys(sort_rows(lt, k, rows), idx).no_duplicates(),
    decreases rows.len(),
{
    if rows.len() > 0 {
        let pre = rows.drop_last();
        let last = rows.last();
        assert forall|i: int, j: int|
            0 <= i < keys(pre, idx).len() && 0 <= j < keys(pre, idx).len() && i != j implies keys(
                pre,
                idx,
            )[i] != keys(pre, idx)[j] by {
            assert(keys(pre, idx)[i] == keys(rows, idx)[i]);
            assert(keys(pre, idx)[j] == keys(rows, idx)[j]);
        }
        lemma_sort_keys(lt, k, pre, idx);
        let sp = sort_rows(lt, k, pre);
        assert(!keys(sp, idx).contains(pick(last, idx))) by {
            if keys(sp, idx).contains(pick(last, idx)) {
                let j = choose|j: int| 0 <= j < keys(sp, idx).len() && keys(sp, idx)[j] == pick(last, idx);
                assert(sp.contains(sp[j]));
                let m = choose|m: int| 0 <= m < pre.len() && pre[m] == sp[j];
                assert(keys(rows, idx)[m] == keys(rows, idx)[rows.len() - 1]);
            }
        }
        lemma_insert_keys(lt, k, sp, last, idx);
        assert forall|y: Row| #[trigger] sort_rows(lt, k, rows).contains(y) implies rows.contains(y) by {
            if y == last {
                assert(rows[rows.len() - 1] == y);
            } else {
                assert(insert_row(lt, k, sp, last).contains(y));
                assert(sp.contains(y));
                let m = choose|m: int| 0 <= m < pre.len() && pre[m] == y;
                assert(rows[m] == y);
            }
        }
    }
}

/// Projecting on columns that include `subset` keeps each row's key over `subset`.
proof fn lemma_project_keys(d: Table, cols: Seq<Text>, subset: Seq<Text>)
    requires
        cols.len() > 0,
        all_present(d.names, cols),
        all_present(cols, subset),
    ensures
        project_table(d, cols) matches Some(p) && keys_over(p, subset) == keys_over(d, subset),
{
    let idx = positions(d.names, cols);
    let p = project_table(d, cols)->Some_0;
    assert forall|r: int| 0 <= r < d.rows.len() implies #[trigger] keys_over(p, subset)[r]
        == keys_over(d, subset)[r] by {
        assert forall|m: int| 0 <= m < subset.len() implies pick(
            pick(d.rows[r], idx),
            positions(cols, subset),
        )[m] == pick(d.rows[r], positions(d.names, subset))[m] by {
            assert(cols.contains(subset[m]));
            lemma_position(cols, subset[m]);
            let c = position(cols, subset[m]);
            assert(d.names.contains(cols[c]));
        }
        assert(pick(pick(d.rows[r], idx), positions(cols, subset)) =~= pick(
            d.rows[r],
            positions(d.names, subset),
        ));
    }
    assert(keys_over(p, subset) =~= keys_over(d, subset));
}

/// A query that deduplicates over a non-empty set of columns `subset`, and
/// keeps those columns (or all columns), yields one row per distinct key:
/// the output rows' keys over `subset` are pairwise distinct, and there are as
/// many output rows as distinct keys over `subset` in the source, whatever
/// the sort.
pub proof fn lemma_query_one_row_per_key(t: Table, q: QueryModel, subset: Seq<Text>, stable: bool)
    requires
        q.unique == Some((subset, stable)),
        subset.len() > 0,
        all_present(t.names, subset),
        q.columns.len() == 0 || all_present(q.columns, subset),
    ensures
        apply_spec(t, q) matches Some(r) ==> keys_over(r, subset).no_duplicates() && r.rows.len()
            == keys_over(t, subset).to_set().len(),
{
    lemma_distinct_on_subset(t, subset);
    let d = dedup_table(t, subset)->Some_0;
    if let Some(p) = project_table(d, q.columns) {
        if q.columns.len() > 0 {
            lemma_project_keys(d, q.columns, subset);
        }
        assert(keys_over(p, subset).no_duplicates());
        assert(p.rows.len() == d.rows.len());
        if q.sort_by.len() > 0 && all_present(p.names, crate::model::sort_columns(q.sort_by)) {
            lemma_sort_keys(
                p.cell_lt,
                crate::model::sort_positions(p.names, q.sort_by),
                p.rows,
                positions(p.names, subset),
            );
        }
    }
}

} // verus!
