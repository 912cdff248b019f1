use vstd::prelude::*;

use core::sync::atomic::{AtomicBool, AtomicUsize, Ordering};

use crate::query::texts;
use crate::text::join;

verus! {

/// The separator between fields of a line.
pub open spec fn comma() -> Seq<char> {
    seq![',']
}

/// Joining one more part adds a separator and the part.
proof fn lemma_join_take(parts: Seq<Seq<char>>, sep: Seq<char>, i: int)
    requires
        1 <= i < parts.len(),
    ensures
        join(parts.take(i + 1), sep) == join(parts.take(i), sep) + sep + parts[i],
{
    assert(parts.take(i + 1).drop_last() =~= parts.take(i));
}

/// Joins `parts` with commas.
fn join_commas(parts: &Vec<&str>) -> (r: String)
    ensures
        r@ == join(parts@.map_values(|p: &str| p@), comma()),
{
    let ghost all = parts@.map_values(|p: &str| p@);
    let mut line = String::new();
    let mut i: usize = 0;
    proof {
        reveal_strlit(",");
        assert(all.take(0) =~= Seq::<Seq<char>>::empty());
    }
    while i < parts.len()
        invariant
            i <= parts@.len(),
            all == parts@.map_values(|p: &str| p@),
            line@ == join(all.take(i as int), comma()),
        decreases parts.len() - i,
    {
        proof {
            reveal_strlit(",");
        }
        if i > 0 {
            line.append(",");
            proof {
                lemma_join_take(all, comma(), i as int);
            }
        } else {
            assert(all.take(1).drop_last() =~= Seq::<Seq<char>>::empty());
            assert(line@ =~= Seq::<char>::empty());
            assert(all.take(1).len() == 1);
        }
        assert(all[i as int] == parts@[i as int]@);
        line.append(parts[i]);
        proof {
            if i == 0 {
                assert(join(all.take(1), comma()) == all.take(1)[0]);
                assert(line@ =~= all[0]);
            }
        }
        i = i + 1;
    }
    assert(all.take(i as int) =~= all);
    line
}

/// Column names of a relation, as printed before its rows.
pub struct Schema {
    /// Column names, in order.
    pub names: Vec<String>,
}

impl Schema {
    /// The header line: column names joined with commas.
    pub fn line(&self) -> (r: String)
        ensures
            r@ == join(texts(self.names@), comma()),
    {
        let mut parts: Vec<&str> = Vec::new();
        let mut i: usize = 0;
        while i < self.names.len()
            invariant
                i <= self.names@.len(),
                parts@.len() == i,
                forall|j: int| 0 <= j < i ==> (#[trigger] parts@[j])@ == self.names@[j]@,
            decreases self.names.len() - i,
        {
            parts.push(self.names[i].as_str());
            i = i + 1;
        }
        assert(parts@.map_values(|p: &str| p@) =~= texts(self.names@));
        join_commas(&parts)
    }
}

/// Text of a cell; a cell that could not be rendered is empty.
pub open spec fn cell_texts(cells: Seq<Option<String>>) -> Seq<Seq<char>> {
    cells.map_values(
        |c: Option<String>|
            match c {
                Some(s) => s@,
                None => Seq::empty(),
            },
    )
}

/// One printed line per row, each ending in a newline.
pub open spec fn rows_text(rows: Seq<Vec<Option<String>>>) -> Seq<char>
    decreases rows.len(),
{
    if rows.len() == 0 {
        Seq::empty()
    } else {
        rows_text(rows.drop_last()) + join(cell_texts(rows.last()@), comma()) + seq!['\n']
    }
}

/// Rows of a batch, each cell already rendered (or `None` where rendering failed).
pub struct DataFrame {
    /// Rows, each with one cell per column.
    pub rows: Vec<Vec<Option<String>>>,
}

/// One row as a line: cells joined with commas, an unrendered cell empty.
pub fn row_line(cells: &Vec<Option<String>>) -> (r: String)
    ensures
        r@ == join(cell_texts(cells@), comma()),
{
    let mut parts: Vec<&str> = Vec::new();
    let mut i: usize = 0;
    proof {
        reveal_strlit("");
    }
    while i < cells.len()
        invariant
            i <= cells@.len(),
            parts@.len() == i,
            forall|j: int| 0 <= j < i ==> (#[trigger] parts@[j])@ == cell_texts(cells@)[j],
        decreases cells.len() - i,
    {
        proof {
            reveal_strlit("");
        }
        match &cells[i] {
            Some(s) => parts.push(s.as_str()),
            None => parts.push(""),
        }
        assert(parts@[i as int]@ == cell_texts(cells@)[i as int]);
        i = i + 1;
    }
    assert(parts@.map_values(|p: &str| p@) =~= cell_texts(cells@));
    join_commas(&parts)
}

impl DataFrame {
    /// Number of rows.
    pub fn height(&self) -> (r: usize)
        ensures
            r == self.rows@.len(),
    {
        self.rows.len()
    }

    /// The rows as text: one comma-joined line per row, each ending in a newline.
    pub fn text(&self) -> (r: String)
        ensures
            r@ == rows_text(self.rows@),
    {
        let mut out = String::new();
        let mut i: usize = 0;
        proof {
            reveal_strlit("\n");
            assert(self.rows@.take(0) =~= Seq::<Vec<Option<String>>>::empty());
        }
        while i < self.rows.len()
            invariant
                i <= self.rows@.len(),
                out@ == rows_text(self.rows@.take(i as int)),
            decreases self.rows.len() - i,
        {
            proof {
                reveal_strlit("\n");
            }
            let line = row_line(&self.rows[i]);
            out.append(line.as_str());
            out.append("\n");
            assert(self.rows@.take(i + 1).drop_last() =~= self.rows@.take(i as int));
            assert(self.rows@.take(i + 1).last() == self.rows@[i as int]);
            i = i + 1;
        }
        assert(self.rows@.take(i as int) =~= self.rows@);
        out
    }
}

/// Largest count a run can hold.
pub open spec fn saturate(n: int) -> int {
    if n > usize::MAX {
        usize::MAX as int
    } else {
        n
    }
}

/// What one run has printed and counted so far.
pub struct Tally {
    /// The header line has gone out.
    pub header_done: bool,
    /// Rows counted, saturating at the largest `usize`.
    pub row_count: usize,
}

impl Tally {
    /// A run that has printed and counted nothing.
    pub fn new() -> (r: Self)
        ensures
            !r.header_done,
            r.row_count == 0,
    {
        Tally { header_done: false, row_count: 0 }
    }

    /// Claims the header: true for the first claim of the run only.
    pub fn claim_header(&mut self) -> (r: bool)
        ensures
            r == !old(self).header_done,
            final(self).header_done,
            final(self).row_count == old(self).row_count,
    {
        let first = !self.header_done;
        self.header_done = true;
        first
    }

    /// Counts `rows` more rows.
    pub fn add_rows(&mut self, rows: usize)
        ensures
            final(self).header_done == old(self).header_done,
            final(self).row_count == saturate(old(self).row_count + rows),
    {
        self.row_count = self.row_count.saturating_add(rows);
    }

    /// Takes one batch of `rows` rows: claims the header, then counts the
    /// rows. Returns whether this batch prints the header.
    pub fn record(&mut self, rows: usize) -> (r: bool)
        ensures
            r == !old(self).header_done,
            final(self).header_done,
            final(self).row_count == saturate(old(self).row_count + rows),
    {
        let first = self.claim_header();
        self.add_rows(rows);
        first
    }
}

/// Sum of batch sizes.
pub open spec fn total(sizes: Seq<usize>) -> int
    decreases sizes.len(),
{
    if sizes.len() == 0 {
        0
    } else {
        total(sizes.drop_last()) + sizes.last()
    }
}

/// A fresh [Tally] after [Tally::record] of each batch in turn: whether the
/// header is done, the count, and how many batches printed the header.
pub open spec fn replay(sizes: Seq<usize>) -> (bool, int, nat)
    decreases sizes.len(),
{
    if sizes.len() == 0 {
        (false, 0, 0)
    } else {
        let (done, count, headers) = replay(sizes.drop_last());
        (true, saturate(count + sizes.last()), if done {
            headers
        } else {
            headers + 1
        })
    }
}

/// Whatever the sizes of the batches and the order in which they arrive
/// (each interleaving of concurrent deliveries is one such order), exactly
/// one batch prints the header when there is any batch, and the count is the
/// sum of the batch sizes (saturating at the largest `usize`).
pub proof fn lemma_header_once_count_exact(sizes: Seq<usize>)
    ensures
        replay(sizes).0 == (sizes.len() > 0),
        replay(sizes).2 == (if sizes.len() > 0 {
            1nat
        } else {
            0nat
        }),
        replay(sizes).1 == saturate(total(sizes)),
    decreases sizes.len(),
{
    if sizes.len() > 0 {
        lemma_header_once_count_exact(sizes.drop_last());
        lemma_total_nonneg(sizes.drop_last());
    }
}

proof fn lemma_total_nonneg(sizes: Seq<usize>)
    ensures
        total(sizes) >= 0,
    decreases sizes.len(),
{
    if sizes.len() > 0 {
        lemma_total_nonneg(sizes.drop_last());
    }
}

/// State of a run whose batches may come from several threads at once.
///
/// Each method is one atomic operation: `claim_header` is a compare-and-swap
/// of the header flag and `add_rows` a fetch-and-add of the counter. So a
/// concurrent run whose total number of rows fits in a `usize` has the effect
/// of [Tally::record] on the batches in some order; beyond that the counter
/// wraps around where [Tally] saturates.
pub struct State {
    header_done: AtomicBool,
    row_count: AtomicUsize,
}

impl State {
    /// A run that has printed and counted nothing.
    pub fn new() -> Self {
        State { header_done: AtomicBool::new(false), row_count: AtomicUsize::new(0) }
    }

    /// Rows counted so far.
    pub fn row_count(&self) -> usize {
        self.row_count.load(Ordering::Acquire)
    }

    /// Claims the header: true for exactly one caller of the run.
    pub fn claim_header(&self) -> bool {
        self.header_done.compare_exchange(false, true, Ordering::AcqRel, Ordering::Relaxed).is_ok()
    }

    /// Counts `rows` more rows.
    pub fn add_rows(&self, rows: usize) {
        self.row_count.fetch_add(rows, Ordering::AcqRel);
    }
}

} // verus!
