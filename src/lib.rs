//! Declarative table queries (projection, sort order, deduplication) planned
//! for interchangeable execution engines, with streaming batch accounting.

pub mod cli;
pub mod command;
pub mod datafusion_backend;
pub mod format;
pub mod format_kind;
pub mod laws;
pub mod model;
pub mod plan;
pub mod polars_backend;
pub mod query;
pub mod storage;
pub mod text;

pub use format_kind::{ExpectFormat, FileFormat};
pub use query::{Int96Timestamp, Query, SortBy, Unique};
pub use plan::{scan_csv, scan_parquet};
