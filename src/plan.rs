use vstd::prelude::*;

use crate::format_kind::FileFormat;
use crate::model::{
    QueryModel, apply_spec, dedup_select_sort, dedup_table, project_table, select_sort, sort_table, Table,
};
use crate::query::{sort_keys, texts, Int96Timestamp, Query, SortBy};

verus! {

/// One operation of a lazy plan, in the vocabulary shared by the engines.
pub enum Step {
    /// Keep these columns, in this order.
    Select(Vec<String>),
    /// Stable sort by these keys, in precedence order.
    Sort(Vec<SortBy>),
    /// Deduplicate over `subset` (all columns when empty); `stable` asks
    /// for the first row of each key, in input order.
    Unique { subset: Vec<String>, stable: bool },
    /// Deduplicate over `on` (all columns when empty), then keep `select`
    /// (all columns when empty), then sort by `sort`, as one operation;
    /// `stable` asks for the first row of each key, in input order.
    DistinctOn { on: Vec<String>, select: Vec<String>, sort: Vec<SortBy>, stable: bool },
}

/// What one step makes of a relation; `None` is an execution error.
///
/// Deduplication keeps the first row of each key: an engine asked for no
/// particular row may keep any, and this is one of its outcomes.
pub open spec fn eval_step(s: Step, t: Table) -> Option<Table> {
    match s {
        Step::Select(c) => project_table(t, texts(c@)),
        Step::Sort(k) => sort_table(t, sort_keys(k@)),
        Step::Unique { subset, .. } => dedup_table(t, texts(subset@)),
        Step::DistinctOn { on, select, sort, .. } => dedup_select_sort(
            t,
            texts(on@),
            texts(select@),
            sort_keys(sort@),
        ),
    }
}

/// What a sequence of steps makes of a relation, first step first.
pub open spec fn eval_steps(steps: Seq<Step>, t: Table) -> Option<Table>
    decreases steps.len(),
{
    if steps.len() == 0 {
        Some(t)
    } else {
        match eval_steps(steps.drop_last(), t) {
            Some(u) => eval_step(steps.last(), u),
            None => None,
        }
    }
}

/// The deduplications that the steps ask for, in order: for each, whether it
/// asks for the first row of each key in input order.
pub open spec fn dedup_requests(steps: Seq<Step>) -> Seq<bool>
    decreases steps.len(),
{
    if steps.len() == 0 {
        Seq::empty()
    } else {
        let earlier = dedup_requests(steps.drop_last());
        match steps.last() {
            Step::Unique { stable, .. } => earlier.push(stable),
            Step::DistinctOn { stable, .. } => earlier.push(stable),
            _ => earlier,
        }
    }
}

/// The deduplication that a query asks for: one, with its stability, or none.
pub open spec fn requested_dedup(q: QueryModel) -> Seq<bool> {
    match q.unique {
        Some((_, stable)) => seq![stable],
        None => Seq::empty(),
    }
}

/// Running one more step runs it on what the earlier steps made.
pub proof fn lemma_eval_push(steps: Seq<Step>, s: Step, t: Table)
    ensures
        eval_steps(steps.push(s), t) == match eval_steps(steps, t) {
            Some(u) => eval_step(s, u),
            None => None,
        },
{
    assert(steps.push(s).drop_last() =~= steps);
}

/// One more step adds its deduplication request, if it makes one.
pub proof fn lemma_requests_push(steps: Seq<Step>, s: Step)
    ensures
        dedup_requests(steps.push(s)) == match s {
            Step::Unique { stable, .. } => dedup_requests(steps).push(stable),
            Step::DistinctOn { stable, .. } => dedup_requests(steps).push(stable),
            _ => dedup_requests(steps),
        },
{
    assert(steps.push(s).drop_last() =~= steps);
}

/// How a source is opened.
pub struct Scan {
    /// Path(s) to read: a file, a directory, a URI or a glob pattern.
    pub path: String,
    /// Format of the source.
    pub format: FileFormat,
    /// Expand glob patterns in `path`.
    pub glob: bool,
    /// Cache the result for repeated reads of the source in one session.
    pub cache: bool,
    /// The first line of a CSV source names the columns.
    pub has_header: bool,
    /// Use the statistics that parquet files embed.
    pub use_statistics: bool,
    /// Fill columns that some of several files lack.
    pub allow_missing_columns: bool,
}

/// A lazy plan: the source, the steps to run on it, and the time unit for
/// legacy 96-bit parquet timestamps (`None`: the engine's default).
pub struct LazyPlan {
    pub source: Scan,
    pub steps: Vec<Step>,
    pub coerce_int96: Option<Int96Timestamp>,
}

/// Opens `path` as parquet: globs expanded, cached, statistics used, and all
/// files required to hold every column.
pub fn scan_parquet(path: &str) -> (r: Scan)
    ensures
        r.path@ == path@,
        r.format == FileFormat::Parquet,
        r.glob && r.cache && r.use_statistics,
        !r.has_header && !r.allow_missing_columns,
{
    Scan {
        path: path.to_owned(),
        format: FileFormat::Parquet,
        glob: true,
        cache: true,
        has_header: false,
        use_statistics: true,
        allow_missing_columns: false,
    }
}

/// Opens `path` as CSV with a header row: globs expanded and cached.
pub fn scan_csv(path: &str) -> (r: Scan)
    ensures
        r.path@ == path@,
        r.format == FileFormat::Csv,
        r.glob && r.cache && r.has_header,
        !r.use_statistics && !r.allow_missing_columns,
{
    Scan {
        path: path.to_owned(),
        format: FileFormat::Csv,
        glob: true,
        cache: true,
        has_header: true,
        use_statistics: false,
        allow_missing_columns: false,
    }
}

/// The scan that opens `path` in `format`.
pub open spec fn scan_for(s: Scan, path: Seq<char>, format: FileFormat) -> bool {
    &&& s.path@ == path
    &&& s.format == format
    &&& s.glob && s.cache && !s.allow_missing_columns
    &&& s.has_header == (format == FileFormat::Csv)
    &&& s.use_statistics == (format == FileFormat::Parquet)
}

/// Opens `path` in `format`.
pub fn scan(path: &str, format: FileFormat) -> (r: Scan)
    ensures
        scan_for(r, path@, format),
{
    match format {
        FileFormat::Csv => scan_csv(path),
        FileFormat::Parquet => scan_parquet(path),
    }
}

/// The time unit handed to the engine: none for the default.
pub open spec fn coercion_for(u: Int96Timestamp) -> Option<Int96Timestamp> {
    if u == Int96Timestamp::Ns {
        None
    } else {
        Some(u)
    }
}

/// The time unit handed to the engine: none for the default.
pub fn coercion(u: Int96Timestamp) -> (r: Option<Int96Timestamp>)
    ensures
        r == coercion_for(u),
{
    if u.is_default() {
        None
    } else {
        Some(u)
    }
}

/// Steps of a query that deduplicates nothing, or has deduplicated already:
/// appends to `steps` a projection on `select` when it is not empty, then a
/// sort by `sort` when it is not empty.
pub fn apply_select_sort_on_non_distinct_query(
    steps: Vec<Step>,
    select: Vec<String>,
    sort: Vec<SortBy>,
) -> (r: Vec<Step>)
    ensures
        forall|t: Table| #[trigger]
            eval_steps(r@, t) == match eval_steps(steps@, t) {
                Some(u) => select_sort(u, texts(select@), sort_keys(sort@)),
                None => None,
            },
        dedup_requests(r@) == dedup_requests(steps@),
{
    let ghost s0 = steps@;
    let ghost cols = texts(select@);
    let ghost keys = sort_keys(sort@);
    let mut steps = steps;
    if select.len() > 0 {
        steps.push(Step::Select(select));
        proof {
            lemma_requests_push(s0, steps@.last());
            assert(steps@ == s0.push(steps@.last()));
            assert forall|t: Table| #[trigger]
                eval_steps(steps@, t) == match eval_steps(s0, t) {
                    Some(u) => project_table(u, cols),
                    None => None,
                } by {
                lemma_eval_push(s0, steps@.last(), t);
                assert(steps@ == s0.push(steps@.last()));
            }
        }
    } else {
        assert(cols.len() == 0);
    }
    let ghost s1 = steps@;
    if sort.len() > 0 {
        steps.push(Step::Sort(sort));
        proof {
            lemma_requests_push(s1, steps@.last());
            assert(steps@ == s1.push(steps@.last()));
            assert forall|t: Table| #[trigger]
                eval_steps(steps@, t) == match eval_steps(s1, t) {
                    Some(u) => sort_table(u, keys),
                    None => None,
                } by {
                lemma_eval_push(s1, steps@.last(), t);
                assert(steps@ == s1.push(steps@.last()));
            }
        }
    } else {
        assert(keys.len() == 0);
    }
    steps
}

impl Query {
    /// Plans the query on `path` read in `format`: deduplicate first when
    /// asked, over the whole relation, then project, then sort.
    pub fn create_lazy(self, path: &str, format: FileFormat) -> (r: LazyPlan)
        ensures
            scan_for(r.source, path@, format),
            r.coerce_int96 == coercion_for(self.coerce_int96),
            forall|t: Table| #[trigger] eval_steps(r.steps@, t) == apply_spec(t, self@),
            dedup_requests(r.steps@) == requested_dedup(self@),
    {
        let ghost q = self@;
        let Query { column, sort_by, unique, coerce_int96 } = self;
        let mut steps: Vec<Step> = Vec::new();
        match unique {
            Some(u) => {
                let ghost subset = texts(u.columns@);
                steps.push(Step::Unique { subset: u.columns, stable: u.is_stable });
                proof {
                    lemma_requests_push(Seq::empty(), steps@.last());
                    assert(steps@ == Seq::<Step>::empty().push(steps@.last()));
                    assert forall|t: Table| #[trigger]
                        eval_steps(steps@, t) == dedup_table(t, subset) by {
                        lemma_eval_push(Seq::empty(), steps@.last(), t);
                        assert(steps@ == Seq::<Step>::empty().push(steps@.last()));
                    }
                }
            },
            None => {
                assert(dedup_requests(steps@) =~= Seq::<bool>::empty());
            },
        }
        let steps = apply_select_sort_on_non_distinct_query(steps, column, sort_by);
        LazyPlan { source: scan(path, format), steps, coerce_int96: coercion(coerce_int96) }
    }
}

} // verus!
