use vstd::prelude::*;

verus! {

/// A column name, or the text of a cell.
pub type Text = Seq<char>;

/// A row: one cell per column.
pub type Row = Seq<Text>;

/// A relation as a query sees it: its column names in order, its rows, and
/// the strict order that its engine sorts cell values by (values are typed
/// in the engine, so this order is not fixed here).
pub struct Table {
    pub names: Seq<Text>,
    pub rows: Seq<Row>,
    pub cell_lt: spec_fn(Text, Text) -> bool,
}

/// One sort key: a column and whether it sorts descending.
pub type SortKey = (Text, bool);

/// A query over a relation: projection (empty = all columns), sort keys in
/// precedence order, and an optional deduplication `(subset, stable)` whose
/// empty subset means "all columns".
pub struct QueryModel {
    pub columns: Seq<Text>,
    pub sort_by: Seq<SortKey>,
    pub unique: Option<(Seq<Text>, bool)>,
}

/// Every row has one cell per column.
pub open spec fn table_wf(t: Table) -> bool {
    forall|i: int| 0 <= i < t.rows.len() ==> #[trigger] t.rows[i].len() == t.names.len()
}

/// Position of the first column called `n`, or -1.
pub open spec fn position(names: Seq<Text>, n: Text) -> int
    decreases names.len(),
{
    if names.len() == 0 {
        -1
    } else if names[0] == n {
        0
    } else {
        let p = position(names.drop_first(), n);
        if p < 0 {
            -1
        } else {
            p + 1
        }
    }
}

/// Every name of `cols` is a column of `names`.
pub open spec fn all_present(names: Seq<Text>, cols: Seq<Text>) -> bool {
    forall|i: int| 0 <= i < cols.len() ==> names.contains(#[trigger] cols[i])
}

/// Positions of `cols` among `names`.
pub open spec fn positions(names: Seq<Text>, cols: Seq<Text>) -> Seq<int> {
    cols.map_values(|c: Text| position(names, c))
}

/// The cells of `row` at `idx`, in that order.
pub open spec fn pick(row: Row, idx: Seq<int>) -> Row {
    idx.map_values(|i: int| row[i])
}

/// Rows of `rows`, keeping of each key over `idx` the first row that has it,
/// in input order.
pub open spec fn dedup_rows(rows: Seq<Row>, idx: Seq<int>) -> Seq<Row>
    decreases rows.len(),
{
    if rows.len() == 0 {
        rows
    } else {
        let prev = dedup_rows(rows.drop_last(), idx);
        if seen_before(rows, idx, rows.len() - 1) {
            prev
        } else {
            prev.push(rows.last())
        }
    }
}

/// Some row before `i` has the same key over `idx` as row `i`.
pub open spec fn seen_before(rows: Seq<Row>, idx: Seq<int>, i: int) -> bool {
    exists|j: int| 0 <= j < i && #[trigger] pick(rows[j], idx) == pick(rows[i], idx)
}

/// Positions of all columns.
pub open spec fn all_positions(n: nat) -> Seq<int> {
    Seq::new(n, |i: int| i)
}

/// Deduplication over `subset` (all columns when empty), keeping the first
/// row of each key; `None` when a name of `subset` is not a column.
pub open spec fn dedup_table(t: Table, subset: Seq<Text>) -> Option<Table> {
    if subset.len() == 0 {
        Some(Table { rows: dedup_rows(t.rows, all_positions(t.names.len())), ..t })
    } else if all_present(t.names, subset) {
        Some(Table { rows: dedup_rows(t.rows, positions(t.names, subset)), ..t })
    } else {
        None
    }
}

/// Projection on `cols` in that order (all columns when empty); `None` when
/// a name of `cols` is not a column.
pub open spec fn project_table(t: Table, cols: Seq<Text>) -> Option<Table> {
    if cols.len() == 0 {
        Some(t)
    } else if all_present(t.names, cols) {
        let idx = positions(t.names, cols);
        Some(Table { names: cols, rows: t.rows.map_values(|r: Row| pick(r, idx)), ..t })
    } else {
        None
    }
}

/// Row `a` sorts strictly before row `b` under the keys `(position, descending)`
/// and the cell order `lt`: the first key on which they differ decides.
pub open spec fn row_lt(
    lt: spec_fn(Text, Text) -> bool,
    keys: Seq<(int, bool)>,
    a: Row,
    b: Row,
) -> bool
    decreases keys.len(),
{
    if keys.len() == 0 {
        false
    } else {
        let (i, desc) = keys[0];
        if a[i] != b[i] {
            if desc {
                lt(b[i], a[i])
            } else {
                lt(a[i], b[i])
            }
        } else {
            row_lt(lt, keys.drop_first(), a, b)
        }
    }
}

/// Inserts `x` into `s` before the first row that `x` sorts strictly before.
pub open spec fn insert_row(
    lt: spec_fn(Text, Text) -> bool,
    keys: Seq<(int, bool)>,
    s: Seq<Row>,
    x: Row,
) -> Seq<Row>
    decreases s.len(),
{
    if s.len() == 0 {
        seq![x]
    } else if row_lt(lt, keys, x, s[0]) {
        seq![x] + s
    } else {
        seq![s[0]] + insert_row(lt, keys, s.drop_first(), x)
    }
}

/// Stable sort of `rows` under `keys`: rows with equal keys keep their input order.
pub open spec fn sort_rows(
    lt: spec_fn(Text, Text) -> bool,
    keys: Seq<(int, bool)>,
    rows: Seq<Row>,
) -> Seq<Row>
    decreases rows.len(),
{
    if rows.len() == 0 {
        rows
    } else {
        insert_row(lt, keys, sort_rows(lt, keys, rows.drop_last()), rows.last())
    }
}

/// Key positions of sort keys among `names`.
pub open spec fn sort_positions(names: Seq<Text>, specs: Seq<SortKey>) -> Seq<(int, bool)> {
    specs.map_values(|k: SortKey| (position(names, k.0), k.1))
}

/// Names of the sort keys' columns.
pub open spec fn sort_columns(specs: Seq<SortKey>) -> Seq<Text> {
    specs.map_values(|k: SortKey| k.0)
}

/// Stable multi-key sort (no reordering when `specs` is empty); `None` when a
/// sort column is not a column.
pub open spec fn sort_table(t: Table, specs: Seq<SortKey>) -> Option<Table> {
    if specs.len() == 0 {
        Some(t)
    } else if all_present(t.names, sort_columns(specs)) {
        Some(Table { rows: sort_rows(t.cell_lt, sort_positions(t.names, specs), t.rows), ..t })
    } else {
        None
    }
}

/// Projection, then sort.
pub open spec fn select_sort(t: Table, cols: Seq<Text>, specs: Seq<SortKey>) -> Option<Table> {
    match project_table(t, cols) {
        Some(p) => sort_table(p, specs),
        None => None,
    }
}

/// Deduplication over `subset`, then projection, then sort.
pub open spec fn dedup_select_sort(
    t: Table,
    subset: Seq<Text>,
    cols: Seq<Text>,
    specs: Seq<SortKey>,
) -> Option<Table> {
    match dedup_table(t, subset) {
        Some(d) => select_sort(d, cols, specs),
        None => None,
    }
}

/// What a query yields on a relation: deduplicate first when asked (over the
/// whole relation), then project, then sort; `None` is an execution error
/// (a column that does not exist).
pub open spec fn apply_spec(t: Table, q: QueryModel) -> Option<Table> {
    match q.unique {
        None => select_sort(t, q.columns, q.sort_by),
        Some((subset, _stable)) => dedup_select_sort(t, subset, q.columns, q.sort_by),
    }
}

} // verus!
