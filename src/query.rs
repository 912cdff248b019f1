use vstd::prelude::*;

use crate::model::{QueryModel, SortKey, Text};
use crate::text::{eq_ascii_nocase, eq_ignore_ascii_case};

verus! {

/// Texts of a sequence of strings.
pub open spec fn texts(v: Seq<String>) -> Seq<Text> {
    v.map_values(|s: String| s@)
}

/// Sort by one column.
pub struct SortBy {
    /// Column to sort by.
    pub column: String,
    /// Sort in descending order.
    pub desc: bool,
}

/// Sort keys of a sequence of [SortBy].
pub open spec fn sort_keys(v: Seq<SortBy>) -> Seq<SortKey> {
    v.map_values(|s: SortBy| (s.column@, s.desc))
}

/// Deduplication request.
pub struct Unique {
    /// Columns whose values make a row unique; empty means all columns.
    pub columns: Vec<String>,
    /// Keep the first row of each key and the input order of the survivors.
    pub is_stable: bool,
}

/// Time unit under which legacy 96-bit parquet timestamps are read.
#[derive(Clone, Copy, Debug, PartialEq, Eq, Structural)]
pub enum Int96Timestamp {
    /// Nanoseconds (the default).
    Ns,
    /// Microseconds.
    Us,
    /// Milliseconds.
    Ms,
    /// Seconds.
    S,
}

/// Short unit name of a time unit.
pub open spec fn unit_name(u: Int96Timestamp) -> Seq<char> {
    match u {
        Int96Timestamp::Ns => seq!['n', 's'],
        Int96Timestamp::Us => seq!['u', 's'],
        Int96Timestamp::Ms => seq!['m', 's'],
        Int96Timestamp::S => seq!['s'],
    }
}

/// Long unit name of a time unit.
pub open spec fn unit_long_name(u: Int96Timestamp) -> Seq<char> {
    match u {
        Int96Timestamp::Ns => seq!['n', 'a', 'n', 'o', 's', 'e', 'c', 'o', 'n', 'd'],
        Int96Timestamp::Us => seq!['m', 'i', 'c', 'r', 'o', 's', 'e', 'c', 'o', 'n', 'd'],
        Int96Timestamp::Ms => seq!['m', 'i', 'l', 'l', 'i', 's', 'e', 'c', 'o', 'n', 'd'],
        Int96Timestamp::S => seq!['s', 'e', 'c', 'o', 'n', 'd'],
    }
}

/// `text` names `u`, by its short or long name, in any ASCII case.
pub open spec fn names_unit(text: Seq<char>, u: Int96Timestamp) -> bool {
    eq_ascii_nocase(text, unit_name(u)) || eq_ascii_nocase(text, unit_long_name(u))
}

/// Unit that `text` names, trying nanoseconds, microseconds, milliseconds
/// and seconds in turn.
pub open spec fn parse_unit_spec(text: Seq<char>) -> Option<Int96Timestamp> {
    if names_unit(text, Int96Timestamp::Ns) {
        Some(Int96Timestamp::Ns)
    } else if names_unit(text, Int96Timestamp::Us) {
        Some(Int96Timestamp::Us)
    } else if names_unit(text, Int96Timestamp::Ms) {
        Some(Int96Timestamp::Ms)
    } else if names_unit(text, Int96Timestamp::S) {
        Some(Int96Timestamp::S)
    } else {
        None
    }
}

impl Int96Timestamp {
    /// The default unit, nanoseconds.
    pub fn new() -> (r: Self)
        ensures
            r == Int96Timestamp::Ns,
    {
        Int96Timestamp::Ns
    }

    /// Whether this is the default unit.
    pub fn is_default(&self) -> (r: bool)
        ensures
            r == (*self == Int96Timestamp::Ns),
    {
        match self {
            Int96Timestamp::Ns => true,
            _ => false,
        }
    }

    /// Short unit name: `ns`, `us`, `ms` or `s`.
    pub fn as_unit_name(&self) -> (r: &'static str)
        ensures
            r@ == unit_name(*self),
    {
        match self {
            Int96Timestamp::Ns => {
                proof {
                    reveal_strlit("ns");
                }
                "ns"
            },
            Int96Timestamp::Us => {
                proof {
                    reveal_strlit("us");
                }
                "us"
            },
            Int96Timestamp::Ms => {
                proof {
                    reveal_strlit("ms");
                }
                "ms"
            },
            Int96Timestamp::S => {
                proof {
                    reveal_strlit("s");
                }
                "s"
            },
        }
    }

    /// Long unit name: `nanosecond`, `microsecond`, `millisecond` or `second`.
    pub fn as_long_name(&self) -> (r: &'static str)
        ensures
            r@ == unit_long_name(*self),
    {
        match self {
            Int96Timestamp::Ns => {
                proof {
                    reveal_strlit("nanosecond");
                }
                "nanosecond"
            },
            Int96Timestamp::Us => {
                proof {
                    reveal_strlit("microsecond");
                }
                "microsecond"
            },
            Int96Timestamp::Ms => {
                proof {
                    reveal_strlit("millisecond");
                }
                "millisecond"
            },
            Int96Timestamp::S => {
                proof {
                    reveal_strlit("second");
                }
                "second"
            },
        }
    }

    /// Whether `text` names this unit, by short or long name, in any ASCII case.
    pub fn is_named_by(&self, text: &str) -> (r: bool)
        ensures
            r == names_unit(text@, *self),
    {
        eq_ignore_ascii_case(text, self.as_unit_name()) || eq_ignore_ascii_case(
            text,
            self.as_long_name(),
        )
    }

    /// Parses a unit name (`ns`, `us`, `ms`, `s`, or the long names), in any ASCII case.
    pub fn parse(text: &str) -> (r: Result<Self, &'static str>)
        ensures
            r is Ok <==> parse_unit_spec(text@) is Some,
            r is Ok ==> Some(r->Ok_0) == parse_unit_spec(text@),
            r is Err ==> r->Err_0@ == "Allowed values: ns, us, ms, s"@,
    {
        if Int96Timestamp::Ns.is_named_by(text) {
            Ok(Int96Timestamp::Ns)
        } else if Int96Timestamp::Us.is_named_by(text) {
            Ok(Int96Timestamp::Us)
        } else if Int96Timestamp::Ms.is_named_by(text) {
            Ok(Int96Timestamp::Ms)
        } else if Int96Timestamp::S.is_named_by(text) {
            Ok(Int96Timestamp::S)
        } else {
            Err("Allowed values: ns, us, ms, s")
        }
    }
}

impl core::str::FromStr for Int96Timestamp {
    type Err = &'static str;

    fn from_str(text: &str) -> Result<Self, Self::Err> {
        Int96Timestamp::parse(text)
    }
}

/// A declarative query: projection, sort order and deduplication.
pub struct Query {
    /// Columns to keep, in order; empty keeps all columns.
    pub column: Vec<String>,
    /// Sort keys, in precedence order.
    pub sort_by: Vec<SortBy>,
    /// Deduplication, if requested.
    pub unique: Option<Unique>,
    /// Time unit for legacy 96-bit parquet timestamps.
    pub coerce_int96: Int96Timestamp,
}

impl View for Query {
    type V = QueryModel;

    open spec fn view(&self) -> QueryModel {
        QueryModel {
            columns: texts(self.column@),
            sort_by: sort_keys(self.sort_by@),
            unique: match self.unique {
                Some(u) => Some((texts(u.columns@), u.is_stable)),
                None => None,
            },
        }
    }
}

} // verus!
