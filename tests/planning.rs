use mishka::cli::{Backend, Cli, Command, CommonArgs, Concat, Query as QueryArgs};
use mishka::command::{plan_concat, plan_query, ConfigError, ParquetCompression};
use mishka::format::{row_line, DataFrame, Schema, State, Tally};
use mishka::plan::Step;
use mishka::polars_backend::{calls_for, PolarsCall};
use mishka::cli::parse_format;
use mishka::{scan_csv, scan_parquet, ExpectFormat, FileFormat, Int96Timestamp, Query, SortBy, Unique};

fn strings(v: &[&str]) -> Vec<String> {
    v.iter().map(|s| s.to_string()).collect()
}

fn common(select: &[&str], sort: &[&str], unique_by: &[&str], unique: bool, backend: Backend) -> CommonArgs {
    CommonArgs {
        backend,
        select: strings(select),
        sort: strings(sort),
        sort_desc: false,
        unique,
        unique_by: strings(unique_by),
        stable: true,
        format: ExpectFormat::Infer,
        coerce_int96: Int96Timestamp::new(),
    }
}

#[test]
fn infer_parquet_csv_and_undetermined() {
    assert_eq!(ExpectFormat::Infer.select_or_infer("data.parquet"), Some(FileFormat::Parquet));
    assert_eq!(ExpectFormat::Infer.select_or_infer("data.csv"), Some(FileFormat::Csv));
    assert_eq!(ExpectFormat::Infer.select_or_infer("data.bin"), None);
}

#[test]
fn explicit_format_wins_over_path() {
    assert_eq!(ExpectFormat::Csv.select_or_infer("data.parquet"), Some(FileFormat::Csv));
    assert_eq!(ExpectFormat::Parquet.select_or_infer("data.bin"), Some(FileFormat::Parquet));
}

#[test]
fn infer_edge_paths() {
    assert_eq!(ExpectFormat::Infer.select_or_infer(""), None);
    assert_eq!(ExpectFormat::Infer.select_or_infer("s3://bucket/dir/*.parquet"), Some(FileFormat::Parquet));
    assert_eq!(ExpectFormat::Infer.select_or_infer(".csv"), Some(FileFormat::Csv));
    assert_eq!(ExpectFormat::Infer.select_or_infer("csv"), None);
}

#[test]
fn backend_names() {
    assert_eq!(Backend::parse("Polars"), Ok(Backend::Polars));
    assert_eq!(Backend::parse("DATAFUSION"), Ok(Backend::Datafusion));
    assert!(Backend::parse("spark").is_err());
    assert!(Backend::Polars.is_polars());
    assert!(!Backend::Polars.is_datafusion());
    assert!(Backend::Datafusion.is_datafusion());
    assert!(!Backend::Datafusion.is_polars());
}

#[test]
fn int96_units() {
    assert_eq!(Int96Timestamp::parse("NS"), Ok(Int96Timestamp::Ns));
    assert_eq!(Int96Timestamp::parse("microsecond"), Ok(Int96Timestamp::Us));
    assert_eq!(Int96Timestamp::parse("Ms"), Ok(Int96Timestamp::Ms));
    assert_eq!(Int96Timestamp::parse("second"), Ok(Int96Timestamp::S));
    assert!(Int96Timestamp::parse("minute").is_err());
    assert!(Int96Timestamp::new().is_default());
    assert!(!Int96Timestamp::Ms.is_default());
    assert_eq!(Int96Timestamp::Us.as_unit_name(), "us");
    assert_eq!(Int96Timestamp::S.as_long_name(), "second");
}

#[test]
fn split_parts_turns_unique_on_with_columns() {
    let cli = Cli {
        backend: Backend::Polars,
        select: strings(&["a"]),
        sort: vec![],
        sort_desc: false,
        unique: false,
        unique_by: strings(&["a"]),
        stable: false,
        format: ExpectFormat::Infer,
        coerce_int96: Int96Timestamp::Ns,
        command: Command::Query(QueryArgs { chunk_by: 1000, path: "x.csv".to_string() }),
    };
    let (common, command) = cli.split_parts();
    assert!(common.unique);
    assert_eq!(common.unique_by, strings(&["a"]));
    assert!(matches!(command, Command::Query(q) if q.chunk_by == 1000));
}

#[test]
fn into_query_applies_direction_to_every_key() {
    let mut args = common(&["a", "b"], &["b", "a"], &[], false, Backend::Polars);
    args.sort_desc = true;
    let q = args.into_query();
    assert_eq!(q.column, strings(&["a", "b"]));
    assert_eq!(q.sort_by.len(), 2);
    assert_eq!(q.sort_by[0].column, "b");
    assert!(q.sort_by[0].desc && q.sort_by[1].desc);
    assert!(q.unique.is_none());
}

fn subset_query(subset: &[&str]) -> Query {
    Query {
        column: strings(&["a"]),
        sort_by: vec![SortBy { column: "a".to_string(), desc: false }],
        unique: Some(Unique { columns: strings(subset), is_stable: true }),
        coerce_int96: Int96Timestamp::Ms,
    }
}

#[test]
fn polars_plan_deduplicates_before_projection() {
    let plan = subset_query(&["a", "b"]).create_lazy_polars("in.csv", FileFormat::Csv);
    assert_eq!(plan.steps.len(), 3);
    assert!(matches!(&plan.steps[0], Step::Unique { subset, stable: true } if *subset == strings(&["a", "b"])));
    assert!(matches!(&plan.steps[1], Step::Select(c) if *c == strings(&["a"])));
    assert!(matches!(&plan.steps[2], Step::Sort(k) if k.len() == 1));
    assert_eq!(plan.coerce_int96, Some(Int96Timestamp::Ms));
    assert!(plan.source.has_header && plan.source.glob && plan.source.cache);
}

#[test]
fn datafusion_plan_fuses_whole_row_distinct() {
    let plan = subset_query(&[]).create_lazy_datafusion("in.parquet", FileFormat::Parquet);
    assert_eq!(plan.steps.len(), 1);
    assert!(matches!(&plan.steps[0], Step::DistinctOn { on, select, sort, stable: true } if on.is_empty() && *select == strings(&["a"]) && sort.len() == 1));
    assert_eq!(plan.source.format, FileFormat::Parquet);
}

#[test]
fn datafusion_plan_subset_distinct_then_select_sort() {
    let plan = subset_query(&["b"]).create_lazy_datafusion("in.csv", FileFormat::Csv);
    assert_eq!(plan.steps.len(), 3);
    assert!(matches!(&plan.steps[0], Step::DistinctOn { on, select, sort, stable: true } if *on == strings(&["b"]) && select.is_empty() && sort.is_empty()));
    assert!(matches!(&plan.steps[1], Step::Select(_)));
    assert!(matches!(&plan.steps[2], Step::Sort(_)));
}

#[test]
fn plain_query_plan_without_columns_is_empty() {
    let q = Query { column: vec![], sort_by: vec![], unique: None, coerce_int96: Int96Timestamp::Ns };
    let plan = q.create_lazy("in.csv", FileFormat::Csv);
    assert!(plan.steps.is_empty());
    assert_eq!(plan.coerce_int96, None);
}

#[test]
fn scans_set_their_options() {
    let p = scan_parquet("a/*.parquet");
    assert!(p.use_statistics && p.cache && p.glob && !p.allow_missing_columns && !p.has_header);
    assert_eq!(p.path, "a/*.parquet");
    let c = scan_csv("a.csv");
    assert!(c.has_header && !c.use_statistics);
    assert_eq!(c.format, FileFormat::Csv);
}

#[test]
fn query_command_fails_on_unknown_format() {
    let r = plan_query(common(&[], &[], &[], false, Backend::Polars), QueryArgs { chunk_by: 10, path: "data.bin".to_string() });
    assert!(matches!(r, Err(ConfigError::SourceFormat)));
    assert_eq!(ConfigError::SourceFormat.message(), "Unable to infer file format. Please specify --format");
}

#[test]
fn query_command_plans_on_chosen_backend() {
    let r = plan_query(common(&[], &[], &[], true, Backend::Datafusion), QueryArgs { chunk_by: 10, path: "data.csv".to_string() });
    let run = r.ok().unwrap();
    assert_eq!(run.backend, Backend::Datafusion);
    assert_eq!(run.chunk_by, 10);
    assert!(matches!(&run.plan.steps[0], Step::DistinctOn { .. }));
}

#[test]
fn concat_command_resolves_both_formats() {
    let concat = Concat { partition_by: strings(&["region"]), include_key: true, format: ExpectFormat::Infer, path: "in.csv".to_string(), output: "out.parquet".to_string() };
    let run = plan_concat(common(&[], &[], &[], false, Backend::Polars), concat).ok().unwrap();
    assert_eq!(run.plan.source.format, FileFormat::Csv);
    assert_eq!(run.sink.format, FileFormat::Parquet);
    assert_eq!(run.sink.compression, ParquetCompression::Snappy);
    assert!(run.sink.include_header && !run.sink.statistics && run.sink.sync_data && run.sink.mkdir);
    let p = run.sink.partition.unwrap();
    assert_eq!(p.keys, strings(&["region"]));
    assert!(p.include_key_in_output);
}

#[test]
fn concat_command_errors() {
    let bad_out = Concat { partition_by: vec![], include_key: true, format: ExpectFormat::Infer, path: "in.csv".to_string(), output: "out.txt".to_string() };
    assert!(matches!(plan_concat(common(&[], &[], &[], false, Backend::Polars), bad_out), Err(ConfigError::OutputFormat)));
    let bad_in = Concat { partition_by: vec![], include_key: true, format: ExpectFormat::Infer, path: "in.txt".to_string(), output: "out.txt".to_string() };
    assert!(matches!(plan_concat(common(&[], &[], &[], false, Backend::Polars), bad_in), Err(ConfigError::SourceFormat)));
    let single = Concat { partition_by: vec![], include_key: true, format: ExpectFormat::Csv, path: "in.csv".to_string(), output: "out".to_string() };
    let run = plan_concat(common(&[], &[], &[], false, Backend::Polars), single).ok().unwrap();
    assert!(run.sink.partition.is_none());
    assert_eq!(run.sink.format, FileFormat::Csv);
}

#[test]
fn batches_five_zero_seven() {
    let mut tally = Tally::new();
    let headers: usize = [5usize, 0, 7].iter().map(|n| tally.record(*n) as usize).sum();
    assert_eq!(headers, 1);
    assert_eq!(tally.row_count, 12);
}

#[test]
fn batches_in_another_order_count_the_same() {
    let mut tally = Tally::new();
    assert!(tally.record(7));
    assert!(!tally.record(0));
    assert!(!tally.record(5));
    assert_eq!(tally.row_count, 12);
}

#[test]
fn tally_saturates() {
    let mut tally = Tally::new();
    tally.add_rows(usize::MAX);
    tally.add_rows(3);
    assert_eq!(tally.row_count, usize::MAX);
    assert!(tally.claim_header());
    assert!(!tally.claim_header());
}

#[test]
fn atomic_state_claims_header_once() {
    let state = State::new();
    let mut headers = 0;
    for n in [5usize, 0, 7] {
        if state.claim_header() {
            headers += 1;
        }
        state.add_rows(n);
    }
    assert_eq!(headers, 1);
    assert_eq!(state.row_count(), 12);
}

#[test]
fn schema_and_rows_render_as_csv_lines() {
    let schema = Schema { names: strings(&["a", "b", "c"]) };
    assert_eq!(schema.line(), "a,b,c");
    assert_eq!(Schema { names: vec![] }.line(), "");
    let row = vec![Some("1".to_string()), None, Some("x".to_string())];
    assert_eq!(row_line(&row), "1,,x");
    let df = DataFrame { rows: vec![row, vec![Some("2".to_string()), Some("y".to_string()), None]] };
    assert_eq!(df.height(), 2);
    assert_eq!(df.text(), "1,,x\n2,y,\n");
}

#[test]
fn stable_unique_by_a_plans_one_first_row_dedup() {
    let mut args = common(&[], &[], &["a"], false, Backend::Polars);
    args.stable = true;
    let cli = Cli {
        backend: args.backend,
        select: args.select,
        sort: args.sort,
        sort_desc: false,
        unique: false,
        unique_by: args.unique_by,
        stable: true,
        format: ExpectFormat::Infer,
        coerce_int96: Int96Timestamp::Ns,
        command: Command::Query(QueryArgs { chunk_by: 1000, path: "in.csv".to_string() }),
    };
    let (common_args, command) = cli.split_parts();
    let query = match command {
        Command::Query(q) => q,
        Command::Concat(_) => panic!("query expected"),
    };
    let run = plan_query(common_args, query).ok().unwrap();
    assert_eq!(run.plan.steps.len(), 1);
    assert!(matches!(&run.plan.steps[0], Step::Unique { subset, stable: true } if *subset == strings(&["a"])));
    assert_eq!(run.plan.source.format, FileFormat::Csv);
}

#[test]
fn partition_by_region_plans_one_key() {
    let concat = Concat {
        partition_by: strings(&["region"]),
        include_key: false,
        format: ExpectFormat::Csv,
        path: "rows.parquet".to_string(),
        output: "out".to_string(),
    };
    let run = plan_concat(common(&[], &[], &[], false, Backend::Datafusion), concat).ok().unwrap();
    assert_eq!(run.backend, Backend::Datafusion);
    assert_eq!(run.plan.source.format, FileFormat::Parquet);
    assert_eq!(run.sink.target, "out");
    let p = run.sink.partition.unwrap();
    assert_eq!(p.keys, strings(&["region"]));
    assert!(!p.include_key_in_output);
}

#[test]
fn parse_errors_name_the_allowed_values() {
    assert_eq!(Int96Timestamp::parse("minute"), Err("Allowed values: ns, us, ms, s"));
    assert_eq!(Backend::parse("spark"), Err("Allowed values: polars, datafusion"));
    assert_eq!(parse_format("xml"), Err("Allowed values: infer, csv, parquet"));
    assert_eq!(parse_format("INFER"), Ok(ExpectFormat::Infer));
}

#[test]
fn stable_dedup_becomes_keep_first_call() {
    let plan = subset_query(&["a", "b"]).create_lazy_polars("in.csv", FileFormat::Csv);
    let calls = calls_for(&plan.steps);
    assert_eq!(calls.len(), 3);
    assert!(matches!(&calls[0], PolarsCall::UniqueFirst(Some(c)) if *c == strings(&["a", "b"])));
    assert!(matches!(&calls[1], PolarsCall::Select(c) if *c == strings(&["a"])));
    assert!(matches!(&calls[2], PolarsCall::Sort { keys, maintain_order: true } if keys.len() == 1));
}

#[test]
fn unstable_whole_row_dedup_becomes_keep_any_call() {
    let mut q = subset_query(&[]);
    q.unique = Some(Unique { columns: vec![], is_stable: false });
    let plan = q.create_lazy_datafusion("in.csv", FileFormat::Csv);
    assert!(matches!(&plan.steps[0], Step::DistinctOn { stable: false, .. }));
    let calls = calls_for(&plan.steps);
    assert_eq!(calls.len(), 3);
    assert!(matches!(&calls[0], PolarsCall::UniqueAny(None)));
    assert!(matches!(&calls[1], PolarsCall::Select(_)));
    assert!(matches!(&calls[2], PolarsCall::Sort { maintain_order: true, .. }));
}
