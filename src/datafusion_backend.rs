use vstd::prelude::*;

use crate::format_kind::FileFormat;
use crate::model::{apply_spec, dedup_select_sort, dedup_table, select_sort, Table};
use crate::plan::{
    apply_select_sort_on_non_distinct_query, coercion, coercion_for, dedup_requests, eval_steps,
    lemma_eval_push, lemma_requests_push, requested_dedup, scan, scan_for, LazyPlan, Step,
};
use crate::query::{sort_keys, texts, Query, SortBy};

verus! {

impl Query {
    /// Plans the query for the streaming, multi-partition engine.
    ///
    /// Deduplication over all columns is one fused operation that also
    /// projects and sorts; deduplication over a subset runs over the whole
    /// relation before projection and sort. Either way the plan yields what
    /// the unfused algorithm yields.
    pub fn create_lazy_datafusion(self, path: &str, format: FileFormat) -> (r: LazyPlan)
        ensures
            scan_for(r.source, path@, format),
            r.coerce_int96 == coercion_for(self.coerce_int96),
            forall|t: Table| #[trigger] eval_steps(r.steps@, t) == apply_spec(t, self@),
            dedup_requests(r.steps@) == requested_dedup(self@),
    {
        let ghost q = self@;
        let Query { column, sort_by, unique, coerce_int96 } = self;
        let ghost cols = texts(column@);
        let ghost keys = sort_keys(sort_by@);
        let mut steps: Vec<Step> = Vec::new();
        let steps = match unique {
            Some(u) => {
                let ghost subset = texts(u.columns@);
                if u.columns.len() == 0 {
                    steps.push(
                        Step::DistinctOn {
                            on: u.columns,
                            select: column,
                            sort: sort_by,
                            stable: u.is_stable,
                        },
                    );
                    proof {
                        lemma_requests_push(Seq::empty(), steps@.last());
                        assert(steps@ == Seq::<Step>::empty().push(steps@.last()));
                        assert forall|t: Table| #[trigger]
                            eval_steps(steps@, t) == dedup_select_sort(t, subset, cols, keys) by {
                            lemma_eval_push(Seq::empty(), steps@.last(), t);
                            assert(steps@ == Seq::<Step>::empty().push(steps@.last()));
                        }
                    }
                    steps
                } else {
                    let no_columns: Vec<String> = Vec::new();
                    let no_keys: Vec<SortBy> = Vec::new();
                    steps.push(
                        Step::DistinctOn {
                            on: u.columns,
                            select: no_columns,
                            sort: no_keys,
                            stable: u.is_stable,
                        },
                    );
                    proof {
                        lemma_requests_push(Seq::empty(), steps@.last());
                        assert(steps@ == Seq::<Step>::empty().push(steps@.last()));
                        assert forall|t: Table| #[trigger]
                            eval_steps(steps@, t) == dedup_table(t, subset) by {
                            lemma_eval_push(Seq::empty(), steps@.last(), t);
                            assert(steps@ == Seq::<Step>::empty().push(steps@.last()));
                            assert(texts(Seq::<String>::empty()).len() == 0);
                            assert(sort_keys(Seq::<SortBy>::empty()).len() == 0);
                            match dedup_table(t, subset) {
                                Some(d) => {
                                    assert(select_sort(d, texts(Seq::<String>::empty()), sort_keys(Seq::<SortBy>::empty())) == Some(d));
                                },
                                None => {},
                            }
                        }
                    }
                    apply_select_sort_on_non_distinct_query(steps, column, sort_by)
                }
            },
            None => {
                assert(dedup_requests(steps@) =~= Seq::<bool>::empty());
                apply_select_sort_on_non_distinct_query(steps, column, sort_by)
            },
        };
        LazyPlan { source: scan(path, format), steps, coerce_int96: coercion(coerce_int96) }
    }
}

} // verus!
