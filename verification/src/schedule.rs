//! The merge step of the concurrent per-location scheduler: the outcomes
//! of the independent location runs, each a row set or a failure, folded
//! into one flat collection. Launching the runs is the caller's; this
//! module fixes what the merged result is, and that one location's
//! failure never costs another location its rows.

use vstd::prelude::*;

use crate::models::{CsvRow, FetchError};

verus! {

/// The rows one location outcome contributes: its rows on success,
/// nothing on failure.
pub open spec fn outcome_rows(res: Result<Vec<CsvRow>, FetchError>) -> Seq<CsvRow> {
    match res {
        Ok(rows) => rows@,
        Err(_) => Seq::empty(),
    }
}

/// The merged rows of a sequence of location outcomes: the successful
/// outcomes' rows concatenated in outcome order.
pub open spec fn merged_rows(results: Seq<Result<Vec<CsvRow>, FetchError>>) -> Seq<CsvRow>
    decreases results.len(),
{
    if results.len() == 0 {
        Seq::empty()
    } else {
        outcome_rows(results[0]) + merged_rows(results.drop_first())
    }
}

/// Merges the per-location outcomes: every successful location's rows, in
/// outcome order, with within-location row order kept; failed locations
/// contribute nothing and abort nothing.
pub fn merge_results(results: Vec<Result<Vec<CsvRow>, FetchError>>) -> (r: Vec<CsvRow>)
    ensures
        r@ == merged_rows(results@),
{
    let ghost orig = results@;
    let mut results = results;
    let mut out: Vec<CsvRow> = Vec::new();
    while results.len() > 0
        invariant
            merged_rows(orig) == out@ + merged_rows(results@),
        decreases results@.len(),
    {
        let ghost pre = results@;
        let first = results.remove(0);
        proof {
            assert(results@ =~= pre.drop_first());
            assert(first == pre[0]);
        }
        match first {
            Ok(mut rows) => {
                out.append(&mut rows);
                proof {
                    assert(out@ + merged_rows(results@) =~= merged_rows(orig));
                }
            },
            Err(_) => {
                proof {
                    assert(out@ + merged_rows(results@) =~= merged_rows(orig));
                }
            },
        }
    }
    proof {
        assert(merged_rows(results@) =~= Seq::<CsvRow>::empty());
        assert(out@ =~= out@ + Seq::<CsvRow>::empty());
    }
    out
}

/// One location's rows survive the merge in one contiguous stretch,
/// whatever the other locations' outcomes — a transport failure at one
/// location never keeps another location's rows out of the merged result.
pub proof fn lemma_failure_isolated(results: Seq<Result<Vec<CsvRow>, FetchError>>, i: int)
    requires
        0 <= i < results.len(),
        results[i] is Ok,
    ensures
        exists|off: int|
            0 <= off && off + outcome_rows(results[i]).len() <= merged_rows(results).len()
                && #[trigger] merged_rows(results).subrange(
                off,
                off + outcome_rows(results[i]).len(),
            ) == outcome_rows(results[i]),
    decreases i,
{
    let rows = outcome_rows(results[i]);
    if i == 0 {
        assert(merged_rows(results) == rows + merged_rows(results.drop_first()));
        assert(merged_rows(results).subrange(0, rows.len() as int) =~= rows);
        assert(0 + rows.len() <= merged_rows(results).len());
    } else {
        let rest = results.drop_first();
        assert(rest[i - 1] == results[i]);
        lemma_failure_isolated(rest, i - 1);
        let off0 = choose|off: int|
            0 <= off && off + outcome_rows(rest[i - 1]).len() <= merged_rows(rest).len()
                && #[trigger] merged_rows(rest).subrange(
                off,
                off + outcome_rows(rest[i - 1]).len(),
            ) == outcome_rows(rest[i - 1]);
        let head = outcome_rows(results[0]);
        assert(merged_rows(results) == head + merged_rows(rest));
        let off = off0 + head.len();
        assert(merged_rows(results).subrange(off, off + rows.len() as int) =~= merged_rows(
            rest,
        ).subrange(off0, off0 + rows.len() as int));
        assert(merged_rows(results).subrange(off, off + rows.len() as int) == rows);
    }
}

} // verus!
