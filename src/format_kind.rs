use vstd::prelude::*;

verus! {

/// File format of a source or a destination.
#[derive(Clone, Copy, Debug, PartialEq, Eq, Structural)]
pub enum FileFormat {
    /// Comma separated values, with a header row.
    Csv,
    /// Parquet, compressed or not.
    Parquet,
}

/// Format asked for on the command line: explicit, or inferred from the path.
#[derive(Clone, Copy, Debug, PartialEq, Eq, Structural)]
pub enum ExpectFormat {
    /// Infer from the path's ending.
    Infer,
    /// Comma separated values.
    Csv,
    /// Parquet.
    Parquet,
}

/// `s` ends with `suffix`.
pub open spec fn ends_with(s: Seq<char>, suffix: Seq<char>) -> bool {
    suffix.len() <= s.len() && s.subrange(s.len() - suffix.len(), s.len() as int) == suffix
}

/// Characters of the suffix that marks a parquet path.
pub open spec fn parquet_suffix() -> Seq<char> {
    seq!['p', 'a', 'r', 'q', 'u', 'e', 't']
}

/// Characters of the suffix that marks a CSV path.
pub open spec fn csv_suffix() -> Seq<char> {
    seq!['.', 'c', 's', 'v']
}

/// Format that a path's ending names, if any.
pub open spec fn infer_spec(path: Seq<char>) -> Option<FileFormat> {
    if ends_with(path, parquet_suffix()) {
        Some(FileFormat::Parquet)
    } else if ends_with(path, csv_suffix()) {
        Some(FileFormat::Csv)
    } else {
        None
    }
}

/// Resolution of an expected format against a path.
pub open spec fn resolve_spec(expect: ExpectFormat, path: Seq<char>) -> Option<FileFormat> {
    match expect {
        ExpectFormat::Infer => infer_spec(path),
        ExpectFormat::Csv => Some(FileFormat::Csv),
        ExpectFormat::Parquet => Some(FileFormat::Parquet),
    }
}

/// Tests whether the characters of `path` end with `suffix`.
fn path_ends_with(path: &str, suffix: &Vec<char>) -> (r: bool)
    ensures
        r == ends_with(path@, suffix@),
{
    let n = path.unicode_len();
    let m = suffix.len();
    if m > n {
        return false;
    }
    let start = n - m;
    let mut i: usize = 0;
    while i < m
        invariant
            n == path@.len(),
            m == suffix@.len(),
            start == n - m,
            i <= m,
            forall|j: int| 0 <= j < i ==> path@[start + j] == suffix@[j],
        decreases m - i,
    {
        if path.get_char(start + i) != suffix[i] {
            assert(path@.subrange(start as int, n as int)[i as int] != suffix@[i as int]);
            return false;
        }
        i = i + 1;
    }
    assert(path@.subrange(start as int, n as int) =~= suffix@);
    true
}

impl ExpectFormat {
    /// Returns the explicit format, or the one that `path`'s ending names.
    ///
    /// A path ending in `parquet` is Parquet, one ending in `.csv` is CSV;
    /// any other path leaves an inferred format undetermined (`None`).
    pub fn select_or_infer(&self, path: &str) -> (r: Option<FileFormat>)
        ensures
            r == resolve_spec(*self, path@),
    {
        match self {
            ExpectFormat::Csv => Some(FileFormat::Csv),
            ExpectFormat::Parquet => Some(FileFormat::Parquet),
            ExpectFormat::Infer => {
                let parquet = vec!['p', 'a', 'r', 'q', 'u', 'e', 't'];
                let csv = vec!['.', 'c', 's', 'v'];
                assert(parquet@ == parquet_suffix());
                assert(csv@ == csv_suffix());
                if path_ends_with(path, &parquet) {
                    Some(FileFormat::Parquet)
                } else if path_ends_with(path, &csv) {
                    Some(FileFormat::Csv)
                } else {
                    None
                }
            },
        }
    }
}

} // verus!
