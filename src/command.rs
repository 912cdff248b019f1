use vstd::prelude::*;

use crate::cli::{query_of, Backend, CommonArgs, Concat};
use crate::format_kind::{resolve_spec, FileFormat};
use crate::model::{apply_spec, Table};
use crate::plan::{coercion_for, dedup_requests, eval_steps, requested_dedup, scan_for, LazyPlan};
use crate::query::{texts, Query};

verus! {

/// A configuration that cannot run.
#[derive(Clone, Copy, Debug, PartialEq, Eq, Structural)]
pub enum ConfigError {
    /// The source's format is neither given nor inferable from its path.
    SourceFormat,
    /// The output's format is neither given nor inferable from its path.
    OutputFormat,
}

impl ConfigError {
    /// One-line description for the user.
    pub fn message(&self) -> (r: &'static str)
        ensures
            r@ == match self {
                ConfigError::SourceFormat => "Unable to infer file format. Please specify --format"@,
                ConfigError::OutputFormat => "Unable to infer output format. Please specify --format"@,
            },
    {
        match self {
            ConfigError::SourceFormat => "Unable to infer file format. Please specify --format",
            ConfigError::OutputFormat => "Unable to infer output format. Please specify --format",
        }
    }
}

/// A plan that reads `path` in `format` and yields what query `q` yields.
pub open spec fn plans_query(p: LazyPlan, path: Seq<char>, format: FileFormat, q: Query) -> bool {
    &&& scan_for(p.source, path, format)
    &&& p.coerce_int96 == coercion_for(q.coerce_int96)
    &&& forall|t: Table| #[trigger] eval_steps(p.steps@, t) == apply_spec(t, q@)
    &&& dedup_requests(p.steps@) == requested_dedup(q@)
}

/// Plans `q` on the chosen backend.
pub fn plan_on(backend: Backend, q: Query, path: &str, format: FileFormat) -> (r: LazyPlan)
    ensures
        plans_query(r, path@, format, q),
{
    match backend {
        Backend::Polars => q.create_lazy_polars(path, format),
        Backend::Datafusion => q.create_lazy_datafusion(path, format),
    }
}

/// What the `query` command runs: a plan, and the most rows in a batch.
pub struct QueryRun {
    /// Backend to run on.
    pub backend: Backend,
    /// The plan.
    pub plan: LazyPlan,
    /// Most rows in one batch.
    pub chunk_by: usize,
}

/// Plans the `query` command. Fails when the source's format is neither
/// given nor inferable from its path.
pub fn plan_query(args: CommonArgs, query: crate::cli::Query) -> (r: Result<QueryRun, ConfigError>)
    ensures
        resolve_spec(args.format, query.path@) is None ==> r == Err::<QueryRun, ConfigError>(
            ConfigError::SourceFormat,
        ),
        resolve_spec(args.format, query.path@) matches Some(f) ==> r is Ok && r->Ok_0.backend
            == args.backend && r->Ok_0.chunk_by == query.chunk_by && r->Ok_0.plan.coerce_int96
            == coercion_for(args.coerce_int96) && scan_for(r->Ok_0.plan.source, query.path@, f)
            && forall|t: Table| #[trigger]
            eval_steps(r->Ok_0.plan.steps@, t) == apply_spec(t, query_of(args)),
        r matches Ok(run) ==> dedup_requests(run.plan.steps@) == requested_dedup(query_of(args)),
{
    let format = match args.format.select_or_infer(query.path.as_str()) {
        Some(f) => f,
        None => return Err(ConfigError::SourceFormat),
    };
    let backend = args.backend;
    let q = args.into_query();
    let plan = plan_on(backend, q, query.path.as_str(), format);
    Ok(QueryRun { backend, plan, chunk_by: query.chunk_by })
}

/// Compression of written parquet files.
#[derive(Clone, Copy, Debug, PartialEq, Eq, Structural)]
pub enum ParquetCompression {
    /// Snappy.
    Snappy,
}

/// Output split by key: one sub-path per distinct combination of key values.
pub struct PartitionSpec {
    /// Key columns, in order: one directory level each.
    pub keys: Vec<String>,
    /// Also write the key columns inside each file.
    pub include_key_in_output: bool,
}

/// How the `concat` command writes.
pub struct SinkPlan {
    /// Path of the output: a file, or the root of the partitions.
    pub target: String,
    /// Format of the output.
    pub format: FileFormat,
    /// Partitioning, if any; `None` writes one file.
    pub partition: Option<PartitionSpec>,
    /// CSV output starts with a header row.
    pub include_header: bool,
    /// Compression of parquet output.
    pub compression: ParquetCompression,
    /// Embed statistics and writer metadata in parquet output.
    pub statistics: bool,
    /// Flush written data to disk before returning.
    pub sync_data: bool,
    /// Create missing directories of the target.
    pub mkdir: bool,
}

/// What the `concat` command runs: a plan, and how to write what it yields.
pub struct ConcatRun {
    /// Backend to run on.
    pub backend: Backend,
    /// The plan.
    pub plan: LazyPlan,
    /// Where and how to write.
    pub sink: SinkPlan,
}

/// Writes to `output` in `format`: one file, or one per key when keys are
/// given, with the key columns inside the files when `include_key`.
pub open spec fn sinks_to(
    s: SinkPlan,
    output: Seq<char>,
    format: FileFormat,
    keys: Seq<String>,
    include_key: bool,
) -> bool {
    &&& s.target@ == output
    &&& s.format == format
    &&& (keys.len() == 0 <==> s.partition is None)
    &&& (s.partition matches Some(p) ==> texts(p.keys@) == texts(keys) && p.include_key_in_output
        == include_key)
    &&& s.include_header
    &&& s.compression == ParquetCompression::Snappy
    &&& !s.statistics
    &&& s.sync_data
    &&& s.mkdir
}

/// Plans the `concat` command. The source's format comes from the shared
/// arguments, the output's from the command's own; each is inferred from its
/// path when not given, and fails when it cannot be.
pub fn plan_concat(args: CommonArgs, concat: Concat) -> (r: Result<ConcatRun, ConfigError>)
    ensures
        resolve_spec(args.format, concat.path@) is None ==> r == Err::<ConcatRun, ConfigError>(
            ConfigError::SourceFormat,
        ),
        resolve_spec(args.format, concat.path@) is Some && resolve_spec(
            concat.format,
            concat.output@,
        ) is None ==> r == Err::<ConcatRun, ConfigError>(ConfigError::OutputFormat),
        resolve_spec(args.format, concat.path@) matches Some(f) ==> resolve_spec(
            concat.format,
            concat.output@,
        ) matches Some(g) ==> r is Ok && r->Ok_0.backend == args.backend && sinks_to(
            r->Ok_0.sink,
            concat.output@,
            g,
            concat.partition_by@,
            concat.include_key,
        ) && r->Ok_0.plan.coerce_int96 == coercion_for(args.coerce_int96) && scan_for(
            r->Ok_0.plan.source,
            concat.path@,
            f,
        ) && forall|t: Table| #[trigger]
            eval_steps(r->Ok_0.plan.steps@, t) == apply_spec(t, query_of(args)),
        r matches Ok(run) ==> dedup_requests(run.plan.steps@) == requested_dedup(query_of(args)),
{
    let format = match args.format.select_or_infer(concat.path.as_str()) {
        Some(f) => f,
        None => return Err(ConfigError::SourceFormat),
    };
    let sink_format = match concat.format.select_or_infer(concat.output.as_str()) {
        Some(f) => f,
        None => return Err(ConfigError::OutputFormat),
    };
    let backend = args.backend;
    let q = args.into_query();
    let plan = plan_on(backend, q, concat.path.as_str(), format);
    let Concat { partition_by, include_key, format: _, path: _, output } = concat;
    let partition = if partition_by.len() == 0 {
        None
    } else {
        Some(PartitionSpec { keys: partition_by, include_key_in_output: include_key })
    };
    let sink = SinkPlan {
        target: output,
        format: sink_format,
        partition,
        include_header: true,
        compression: ParquetCompression::Snappy,
        statistics: false,
        sync_data: true,
        mkdir: true,
    };
    Ok(ConcatRun { backend, plan, sink })
}

} // verus!
