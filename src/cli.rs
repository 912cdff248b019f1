use vstd::prelude::*;

use crate::format_kind::ExpectFormat;
use crate::model::{QueryModel, SortKey, Text};
use crate::query::{sort_keys, texts, Int96Timestamp, SortBy, Unique};
use crate::text::{eq_ascii_nocase, eq_ignore_ascii_case};

verus! {

/// Execution engine to run a query on.
#[derive(Clone, Copy, Debug, PartialEq, Eq, Structural)]
pub enum Backend {
    /// The synchronous, in-process engine.
    Polars,
    /// The asynchronous, multi-partition engine.
    Datafusion,
}

/// Name by which a backend is chosen.
pub open spec fn backend_name(b: Backend) -> Seq<char> {
    match b {
        Backend::Polars => seq!['p', 'o', 'l', 'a', 'r', 's'],
        Backend::Datafusion => seq!['d', 'a', 't', 'a', 'f', 'u', 's', 'i', 'o', 'n'],
    }
}

/// Backend that `text` names, in any ASCII case.
pub open spec fn parse_backend_spec(text: Seq<char>) -> Option<Backend> {
    if eq_ascii_nocase(text, backend_name(Backend::Polars)) {
        Some(Backend::Polars)
    } else if eq_ascii_nocase(text, backend_name(Backend::Datafusion)) {
        Some(Backend::Datafusion)
    } else {
        None
    }
}

impl Backend {
    /// Whether the in-process engine is chosen.
    pub fn is_polars(&self) -> (r: bool)
        ensures
            r == (*self == Backend::Polars),
    {
        match self {
            Backend::Polars => true,
            Backend::Datafusion => false,
        }
    }

    /// Whether the multi-partition engine is chosen.
    pub fn is_datafusion(&self) -> (r: bool)
        ensures
            r == (*self == Backend::Datafusion),
    {
        match self {
            Backend::Polars => false,
            Backend::Datafusion => true,
        }
    }

    /// Parses a backend name (`polars` or `datafusion`), in any ASCII case.
    pub fn parse(text: &str) -> (r: Result<Self, &'static str>)
        ensures
            r is Ok <==> parse_backend_spec(text@) is Some,
            r is Ok ==> Some(r->Ok_0) == parse_backend_spec(text@),
            r is Err ==> r->Err_0@ == "Allowed values: polars, datafusion"@,
    {
        proof {
            reveal_strlit("polars");
            reveal_strlit("datafusion");
        }
        if eq_ignore_ascii_case(text, "polars") {
            Ok(Backend::Polars)
        } else if eq_ignore_ascii_case(text, "datafusion") {
            Ok(Backend::Datafusion)
        } else {
            Err("Allowed values: polars, datafusion")
        }
    }
}

impl core::str::FromStr for Backend {
    type Err = &'static str;

    fn from_str(text: &str) -> Result<Self, Self::Err> {
        Backend::parse(text)
    }
}

/// Format that `text` names, in any ASCII case.
pub open spec fn parse_format_spec(text: Seq<char>) -> Option<ExpectFormat> {
    if eq_ascii_nocase(text, seq!['i', 'n', 'f', 'e', 'r']) {
        Some(ExpectFormat::Infer)
    } else if eq_ascii_nocase(text, seq!['c', 's', 'v']) {
        Some(ExpectFormat::Csv)
    } else if eq_ascii_nocase(text, seq!['p', 'a', 'r', 'q', 'u', 'e', 't']) {
        Some(ExpectFormat::Parquet)
    } else {
        None
    }
}

/// Parses a format name (`infer`, `csv` or `parquet`), in any ASCII case.
pub fn parse_format(text: &str) -> (r: Result<ExpectFormat, &'static str>)
    ensures
        r is Ok <==> parse_format_spec(text@) is Some,
        r is Ok ==> Some(r->Ok_0) == parse_format_spec(text@),
        r is Err ==> r->Err_0@ == "Allowed values: infer, csv, parquet"@,
{
    proof {
        reveal_strlit("infer");
        reveal_strlit("csv");
        reveal_strlit("parquet");
    }
    if eq_ignore_ascii_case(text, "infer") {
        Ok(ExpectFormat::Infer)
    } else if eq_ignore_ascii_case(text, "csv") {
        Ok(ExpectFormat::Csv)
    } else if eq_ignore_ascii_case(text, "parquet") {
        Ok(ExpectFormat::Parquet)
    } else {
        Err("Allowed values: infer, csv, parquet")
    }
}

impl core::str::FromStr for ExpectFormat {
    type Err = &'static str;

    fn from_str(text: &str) -> Result<Self, Self::Err> {
        parse_format(text)
    }
}

/// Arguments of the `query` command.
pub struct Query {
    /// Most rows in one batch.
    pub chunk_by: usize,
    /// Path(s) to a file or a directory (a URI or a glob pattern too).
    pub path: String,
}

/// Arguments of the `concat` command.
pub struct Concat {
    /// Columns to partition the output by, in order.
    pub partition_by: Vec<String>,
    /// Also write the partition columns inside each file; otherwise they
    /// are only encoded in the partition paths.
    pub include_key: bool,
    /// Format of the output; inferred from its path by default.
    pub format: ExpectFormat,
    /// Path(s) to a file or a directory (a URI or a glob pattern too).
    pub path: String,
    /// Path of the output (a URI too).
    pub output: String,
}

/// The command to run.
pub enum Command {
    /// Print the rows of a query.
    Query(Query),
    /// Write the rows of a query to a file, or to one per partition.
    Concat(Concat),
}

/// Arguments that every command shares.
pub struct CommonArgs {
    /// Backend to use.
    pub backend: Backend,
    /// Columns to select.
    pub select: Vec<String>,
    /// Columns to sort by, in order.
    pub sort: Vec<String>,
    /// Sort in descending order.
    pub sort_desc: bool,
    /// Select unique rows.
    pub unique: bool,
    /// Columns that make a row unique.
    pub unique_by: Vec<String>,
    /// Keep the first row of each key, in input order.
    pub stable: bool,
    /// Format of the source; inferred from its path by default.
    pub format: ExpectFormat,
    /// Time unit for legacy 96-bit parquet timestamps.
    pub coerce_int96: Int96Timestamp,
}

/// Sort keys on `cols`, each with the same direction.
pub open spec fn uniform_keys(cols: Seq<Text>, desc: bool) -> Seq<SortKey> {
    cols.map_values(|c: Text| (c, desc))
}

/// The query that common arguments describe.
pub open spec fn query_of(a: CommonArgs) -> QueryModel {
    QueryModel {
        columns: texts(a.select@),
        sort_by: uniform_keys(texts(a.sort@), a.sort_desc),
        unique: if a.unique {
            Some((texts(a.unique_by@), a.stable))
        } else {
            None
        },
    }
}

impl CommonArgs {
    /// Builds the query: select these columns, sort by each sort column in
    /// the one direction asked for, and deduplicate when asked.
    pub fn into_query(self) -> (r: crate::query::Query)
        ensures
            r@ == query_of(self),
            r.coerce_int96 == self.coerce_int96,
    {
        let CommonArgs {
            backend: _,
            select,
            sort,
            sort_desc,
            unique,
            unique_by,
            stable,
            format: _,
            coerce_int96,
        } = self;
        let mut sort_by: Vec<SortBy> = Vec::new();
        let mut i: usize = 0;
        while i < sort.len()
            invariant
                i <= sort@.len(),
                sort_by@.len() == i,
                forall|j: int|
                    0 <= j < i ==> (#[trigger] sort_by@[j]).column@ == sort@[j]@
                        && sort_by@[j].desc == sort_desc,
            decreases sort.len() - i,
        {
            sort_by.push(SortBy { column: sort[i].clone(), desc: sort_desc });
            i = i + 1;
        }
        assert(sort_keys(sort_by@) =~= uniform_keys(texts(sort@), sort_desc));
        let unique = if unique {
            Some(Unique { columns: unique_by, is_stable: stable })
        } else {
            None
        };
        crate::query::Query { column: select, sort_by, unique, coerce_int96 }
    }
}

/// The whole command line.
pub struct Cli {
    /// Backend to use.
    pub backend: Backend,
    /// Columns to select.
    pub select: Vec<String>,
    /// Columns to sort by, in order.
    pub sort: Vec<String>,
    /// Sort in descending order.
    pub sort_desc: bool,
    /// Select unique rows.
    pub unique: bool,
    /// Columns that make a row unique.
    pub unique_by: Vec<String>,
    /// Keep the first row of each key, in input order.
    pub stable: bool,
    /// Format of the source; inferred from its path by default.
    pub format: ExpectFormat,
    /// Time unit for legacy 96-bit parquet timestamps.
    pub coerce_int96: Int96Timestamp,
    /// Command to run.
    pub command: Command,
}

impl Cli {
    /// Splits the command line into the shared arguments and the command.
    ///
    /// Naming columns to deduplicate by asks for deduplication.
    pub fn split_parts(self) -> (r: (CommonArgs, Command))
        ensures
            r.0.backend == self.backend,
            r.0.select == self.select,
            r.0.sort == self.sort,
            r.0.sort_desc == self.sort_desc,
            r.0.unique == (self.unique || self.unique_by@.len() > 0),
            r.0.unique_by == self.unique_by,
            r.0.stable == self.stable,
            r.0.format == self.format,
            r.0.coerce_int96 == self.coerce_int96,
            r.1 == self.command,
    {
        let Cli {
            backend,
            select,
            sort,
            sort_desc,
            unique,
            unique_by,
            stable,
            format,
            coerce_int96,
            command,
        } = self;
        let unique = unique || !unique_by.is_empty();
        let common = CommonArgs {
            backend,
            select,
            sort,
            sort_desc,
            unique,
            unique_by,
            stable,
            format,
            coerce_int96,
        };
        (common, command)
    }
}

} // verus!
