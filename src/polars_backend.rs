use vstd::prelude::*;

use ::polars::prelude::{
    col, LazyCsvReader, LazyFileListReader, LazyFrame, PlRefPath, PlSmallStr, PolarsError,
    ScanArgsParquet, Selector, SortMultipleOptions, UniqueKeepStrategy,
};

use crate::format_kind::FileFormat;
use crate::model::{apply_spec, Table};
use crate::plan::{
    coercion_for, dedup_requests, eval_steps, requested_dedup, scan_for, LazyPlan, Scan, Step,
};
use crate::model::{SortKey, Text};
use crate::query::{sort_keys, texts, Query, SortBy};

pub use crate::plan::{scan_csv, scan_parquet};

verus! {

#[verifier::external_type_specification]
#[verifier::external_body]
pub struct ExLazyFrame(::polars::prelude::LazyFrame);

#[verifier::external_type_specification]
#[verifier::external_body]
pub struct ExPolarsError(::polars::prelude::PolarsError);

/// Relies on `LazyCsvReader::new` and `LazyFileListReader::finish`: a lazy
/// scan of the CSV source with the scan's glob, cache and header options.
#[verifier::external_body]
fn open_csv(scan: &Scan) -> Result<LazyFrame, PolarsError> {
    LazyCsvReader::new(PlRefPath::new(scan.path.as_str()))
        .with_glob(scan.glob)
        .with_cache(scan.cache)
        .with_has_header(scan.has_header)
        .finish()
}

/// Relies on `LazyFrame::scan_parquet`: a lazy scan of the parquet source
/// with the scan's options.
#[verifier::external_body]
fn open_parquet(scan: &Scan) -> Result<LazyFrame, PolarsError> {
    let args = ScanArgsParquet {
        use_statistics: scan.use_statistics,
        cache: scan.cache,
        glob: scan.glob,
        allow_missing_columns: scan.allow_missing_columns,
        ..Default::default()
    };
    LazyFrame::scan_parquet(PlRefPath::new(scan.path.as_str()), args)
}

/// Relies on `LazyFrame::select`: keeps the named columns, in order.
#[verifier::external_body]
fn select_columns(df: LazyFrame, names: &Vec<String>) -> LazyFrame {
    let exprs: Vec<_> = names.iter().map(|n| col(n.as_str())).collect();
    df.select(exprs)
}

/// Relies on `LazyFrame::sort_by_exprs`: a sort by the keys in precedence
/// order, each in its direction; `maintain_order` keeps the order of equal rows.
#[verifier::external_body]
fn sort_by_keys(df: LazyFrame, keys: &Vec<SortBy>, maintain_order: bool) -> LazyFrame {
    let exprs: Vec<_> = keys.iter().map(|k| col(k.column.as_str())).collect();
    let options = SortMultipleOptions {
        descending: keys.iter().map(|k| k.desc).collect(),
        maintain_order,
        ..Default::default()
    };
    df.sort_by_exprs(exprs, options)
}

/// Relies on `LazyFrame::unique_stable`: keeps the first row of each key
/// over the named columns (all columns for `None`), in input order.
#[verifier::external_body]
fn unique_first(df: LazyFrame, subset: Option<&Vec<String>>) -> LazyFrame {
    let subset = subset.map(
        |names| Selector::ByName {
            names: names.iter().map(|n| PlSmallStr::from(n.as_str())).collect(),
            strict: true,
        },
    );
    df.unique_stable(subset, UniqueKeepStrategy::First)
}

/// Relies on `LazyFrame::unique`: keeps any one row of each key over the
/// named columns (all columns for `None`), in any order.
#[verifier::external_body]
fn unique_any(df: LazyFrame, subset: Option<&Vec<String>>) -> LazyFrame {
    let subset = subset.map(
        |names| Selector::ByName {
            names: names.iter().map(|n| PlSmallStr::from(n.as_str())).collect(),
            strict: true,
        },
    );
    df.unique(subset, UniqueKeepStrategy::Any)
}

/// Opens a source as a lazy frame.
pub fn open(scan: &Scan) -> Result<LazyFrame, PolarsError> {
    match scan.format {
        FileFormat::Csv => open_csv(scan),
        FileFormat::Parquet => open_parquet(scan),
    }
}

/// One call of the in-process engine's lazy API.
pub enum PolarsCall {
    /// `select` of these columns, in order.
    Select(Vec<String>),
    /// `sort_by_exprs` by these keys; `maintain_order` keeps equal rows in order.
    Sort { keys: Vec<SortBy>, maintain_order: bool },
    /// `unique_stable` keeping the first row of each key over these columns
    /// (all columns for `None`), in input order.
    UniqueFirst(Option<Vec<String>>),
    /// `unique` keeping any row of each key over these columns (all columns
    /// for `None`), in any order.
    UniqueAny(Option<Vec<String>>),
}

/// A call of the in-process engine, over texts.
pub enum CallModel {
    Select(Seq<Text>),
    Sort(Seq<SortKey>, bool),
    UniqueFirst(Option<Seq<Text>>),
    UniqueAny(Option<Seq<Text>>),
}

/// Texts of an optional list of column names.
pub open spec fn opt_texts(o: Option<Vec<String>>) -> Option<Seq<Text>> {
    match o {
        Some(v) => Some(texts(v@)),
        None => None,
    }
}

/// What a call is, over texts.
pub open spec fn call_view(c: PolarsCall) -> CallModel {
    match c {
        PolarsCall::Select(names) => CallModel::Select(texts(names@)),
        PolarsCall::Sort { keys, maintain_order } => CallModel::Sort(sort_keys(keys@), maintain_order),
        PolarsCall::UniqueFirst(o) => CallModel::UniqueFirst(opt_texts(o)),
        PolarsCall::UniqueAny(o) => CallModel::UniqueAny(opt_texts(o)),
    }
}

/// The deduplication call for `subset` (all columns when empty): keep-first
/// in input order when `stable`, keep-any otherwise.
pub open spec fn unique_call(subset: Seq<Text>, stable: bool) -> CallModel {
    let on = if subset.len() == 0 {
        None
    } else {
        Some(subset)
    };
    if stable {
        CallModel::UniqueFirst(on)
    } else {
        CallModel::UniqueAny(on)
    }
}

/// The calls that one step becomes. A sort is always one that keeps equal
/// rows in order; a fused distinct is a deduplication, then a projection
/// when columns are named, then a sort when keys are given.
pub open spec fn step_calls(s: Step) -> Seq<CallModel> {
    match s {
        Step::Select(c) => seq![CallModel::Select(texts(c@))],
        Step::Sort(k) => seq![CallModel::Sort(sort_keys(k@), true)],
        Step::Unique { subset, stable } => seq![unique_call(texts(subset@), stable)],
        Step::DistinctOn { on, select, sort, stable } => seq![unique_call(texts(on@), stable)] + (
        if select@.len() > 0 {
            seq![CallModel::Select(texts(select@))]
        } else {
            Seq::empty()
        }) + (if sort@.len() > 0 {
            seq![CallModel::Sort(sort_keys(sort@), true)]
        } else {
            Seq::empty()
        }),
    }
}

/// The calls that a sequence of steps becomes, step by step in order.
pub open spec fn calls_of(steps: Seq<Step>) -> Seq<CallModel>
    decreases steps.len(),
{
    if steps.len() == 0 {
        Seq::empty()
    } else {
        calls_of(steps.drop_last()) + step_calls(steps.last())
    }
}

fn clone_names(v: &Vec<String>) -> (r: Vec<String>)
    ensures
        texts(r@) == texts(v@),
{
    let mut r: Vec<String> = Vec::new();
    let mut i: usize = 0;
    while i < v.len()
        invariant
            i <= v@.len(),
            r@.len() == i,
            forall|j: int| 0 <= j < i ==> (#[trigger] r@[j])@ == v@[j]@,
        decreases v.len() - i,
    {
        r.push(v[i].clone());
        i = i + 1;
    }
    assert(texts(r@) =~= texts(v@));
    r
}

fn clone_keys(v: &Vec<SortBy>) -> (r: Vec<SortBy>)
    ensures
        sort_keys(r@) == sort_keys(v@),
{
    let mut r: Vec<SortBy> = Vec::new();
    let mut i: usize = 0;
    while i < v.len()
        invariant
            i <= v@.len(),
            r@.len() == i,
            forall|j: int|
                0 <= j < i ==> (#[trigger] r@[j]).column@ == v@[j].column@ && r@[j].desc
                    == v@[j].desc,
        decreases v.len() - i,
    {
        r.push(SortBy { column: v[i].column.clone(), desc: v[i].desc });
        i = i + 1;
    }
    assert(sort_keys(r@) =~= sort_keys(v@));
    r
}

fn unique_call_for(subset: &Vec<String>, stable: bool) -> (r: PolarsCall)
    ensures
        call_view(r) == unique_call(texts(subset@), stable),
{
    let on = if subset.len() == 0 {
        None
    } else {
        Some(clone_names(subset))
    };
    if stable {
        PolarsCall::UniqueFirst(on)
    } else {
        PolarsCall::UniqueAny(on)
    }
}

fn calls_of_step(step: &Step) -> (r: Vec<PolarsCall>)
    ensures
        r@.map_values(|c: PolarsCall| call_view(c)) == step_calls(*step),
{
    let mut r: Vec<PolarsCall> = Vec::new();
    match step {
        Step::Select(names) => r.push(PolarsCall::Select(clone_names(names))),
        Step::Sort(keys) => r.push(PolarsCall::Sort { keys: clone_keys(keys), maintain_order: true }),
        Step::Unique { subset, stable } => r.push(unique_call_for(subset, *stable)),
        Step::DistinctOn { on, select, sort, stable } => {
            r.push(unique_call_for(on, *stable));
            if select.len() > 0 {
                r.push(PolarsCall::Select(clone_names(select)));
            }
            if sort.len() > 0 {
                r.push(PolarsCall::Sort { keys: clone_keys(sort), maintain_order: true });
            }
        },
    }
    assert(r@.map_values(|c: PolarsCall| call_view(c)) =~= step_calls(*step));
    r
}

/// The engine calls that the steps become, in order.
pub fn calls_for(steps: &Vec<Step>) -> (r: Vec<PolarsCall>)
    ensures
        r@.map_values(|c: PolarsCall| call_view(c)) == calls_of(steps@),
{
    let mut r: Vec<PolarsCall> = Vec::new();
    let mut i: usize = 0;
    proof {
        assert(steps@.take(0) =~= Seq::<Step>::empty());
        assert(r@.map_values(|c: PolarsCall| call_view(c)) =~= Seq::<CallModel>::empty());
    }
    while i < steps.len()
        invariant
            i <= steps@.len(),
            r@.map_values(|c: PolarsCall| call_view(c)) == calls_of(steps@.take(i as int)),
        decreases steps.len() - i,
    {
        let ghost before = r@;
        let mut more = calls_of_step(&steps[i]);
        let ghost added = more@;
        r.append(&mut more);
        proof {
            assert(steps@.take(i + 1).drop_last() =~= steps@.take(i as int));
            assert(steps@.take(i + 1).last() == steps@[i as int]);
            assert(r@ == before + added);
            assert(r@.map_values(|c: PolarsCall| call_view(c)) =~= before.map_values(
                |c: PolarsCall| call_view(c),
            ) + added.map_values(|c: PolarsCall| call_view(c)));
        }
        i = i + 1;
    }
    assert(steps@.take(i as int) =~= steps@);
    r
}

/// Runs one call through the engine.
fn apply_call(df: LazyFrame, call: &PolarsCall) -> LazyFrame {
    match call {
        PolarsCall::Select(names) => select_columns(df, names),
        PolarsCall::Sort { keys, maintain_order } => sort_by_keys(df, keys, *maintain_order),
        PolarsCall::UniqueFirst(Some(names)) => unique_first(df, Some(names)),
        PolarsCall::UniqueFirst(None) => unique_first(df, None),
        PolarsCall::UniqueAny(Some(names)) => unique_any(df, Some(names)),
        PolarsCall::UniqueAny(None) => unique_any(df, None),
    }
}

/// Runs the calls on a lazy frame, one for one, first call first.
pub fn apply_calls(df: LazyFrame, calls: &Vec<PolarsCall>) -> LazyFrame {
    let mut df = df;
    let mut i: usize = 0;
    while i < calls.len()
        invariant
            i <= calls@.len(),
        decreases calls.len() - i,
    {
        df = apply_call(df, &calls[i]);
        i = i + 1;
    }
    df
}

/// Runs the steps on a lazy frame: the calls of [calls_for], in order.
pub fn apply_steps(df: LazyFrame, steps: &Vec<Step>) -> LazyFrame {
    apply_calls(df, &calls_for(steps))
}

/// Opens the plan's source and runs its steps on it.
pub fn create_lazy_frame(plan: &LazyPlan) -> Result<LazyFrame, PolarsError> {
    match open(&plan.source) {
        Ok(df) => Ok(apply_steps(df, &plan.steps)),
        Err(e) => Err(e),
    }
}

impl Query {
    /// Plans the query for the in-process engine, which runs the algorithm
    /// unfused: deduplication (over the whole relation), projection, sort.
    pub fn create_lazy_polars(self, path: &str, format: FileFormat) -> (r: LazyPlan)
        ensures
            scan_for(r.source, path@, format),
            r.coerce_int96 == coercion_for(self.coerce_int96),
            forall|t: Table| #[trigger] eval_steps(r.steps@, t) == apply_spec(t, self@),
            dedup_requests(r.steps@) == requested_dedup(self@),
    {
        self.create_lazy(path, format)
    }
}

} // verus!
