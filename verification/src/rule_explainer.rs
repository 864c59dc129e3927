//! Ancestry reconstruction: which iterations supplied the queue entry a
//! given selection consumed.
//!
//! The engine's work queue is consumed from the front and extended at the
//! back, so an entry consumed some number of slots from the front must have
//! been inserted by whichever earlier iteration's insertions first cover
//! the remaining skip budget. Walking the iteration list backward with that
//! budget yields the causal chain, newest first.

use crate::saturation_state::Iteration;
use crate::saturation_state::IterationView;
use vstd::prelude::*;

verus! {

/// The skip budget after recording an iteration as an ancestor: the queue
/// depth before that iteration's own additions (its snapshot depth less
/// what it added, never below zero).
pub open spec fn reset_skip(it: IterationView) -> int {
    if it.progress.in_queue >= it.new_queue_entries.len() {
        it.progress.in_queue - it.new_queue_entries.len()
    } else {
        0
    }
}

/// The backward walk from iteration `i`: an iteration whose additions
/// exceed the skip budget (or the first one considered) is an ancestor and
/// resets the budget; any other spends its additions from the budget.
pub open spec fn ancestry_rec(iters: Seq<Iteration>, i: int, skip: int, have_any: bool) -> Seq<
    IterationView,
>
    decreases i + 1,
{
    if i < 0 || i >= iters.len() {
        Seq::<IterationView>::empty()
    } else {
        let it = iters[i]@;
        let added = it.new_queue_entries.len() as int;
        if skip < added || !have_any {
            seq![it] + ancestry_rec(iters, i - 1, reset_skip(it), true)
        } else {
            ancestry_rec(iters, i - 1, skip - added, have_any)
        }
    }
}

/// The causal chain of the last iteration's selection, newest first.
pub open spec fn ancestry_of(iters: Seq<Iteration>) -> Seq<IterationView> {
    ancestry_rec(iters, iters.len() - 1, 0, false)
}

/// Every iteration view the backward walk collects comes from the input
/// list, so each carries its fact number where it selected a hypothesis.
pub proof fn lemma_ancestry_rec_wf(iters: Seq<Iteration>, i: int, skip: int, have_any: bool)
    requires
        crate::saturation_state::iterations_wf(iters),
    ensures
        crate::saturation_state::iteration_views_wf(ancestry_rec(iters, i, skip, have_any)),
    decreases i + 1,
{
    let r = ancestry_rec(iters, i, skip, have_any);
    if 0 <= i < iters.len() {
        let it = iters[i]@;
        let added = it.new_queue_entries.len() as int;
        if skip < added || !have_any {
            lemma_ancestry_rec_wf(iters, i - 1, reset_skip(it), true);
            let rest = ancestry_rec(iters, i - 1, reset_skip(it), true);
            assert(r == seq![it] + rest);
            assert(crate::saturation_state::iteration_wf(iters[i]));
            assert forall|k: int|
                0 <= k < r.len() implies #[trigger] crate::saturation_state::iteration_view_wf(
                r[k],
            ) by {
                if k > 0 {
                    assert(crate::saturation_state::iteration_view_wf(rest[k - 1]));
                }
            }
        } else {
            lemma_ancestry_rec_wf(iters, i - 1, skip - added, have_any);
            assert(r == ancestry_rec(iters, i - 1, skip - added, have_any));
        }
    } else {
        assert(r == Seq::<IterationView>::empty());
    }
}

pub struct QueryExplainer {}

impl QueryExplainer {
    /// Walks the completed iterations backward and collects the chain of
    /// iterations whose queue insertions led to the entry the final
    /// iteration consumed; empty when no iteration has completed.
    pub fn get_ancestry(iterations: &[Iteration]) -> (r: Vec<Iteration>)
        ensures
            r@.map_values(|it: Iteration| it@) == ancestry_of(iterations@),
    {
        let mut ancestry: Vec<Iteration> = Vec::new();
        let mut skip: usize = 0;
        let mut i: usize = iterations.len();
        proof {
            assert(ancestry@.map_values(|it: Iteration| it@) =~= Seq::<IterationView>::empty());
        }
        while i > 0
            invariant
                i <= iterations@.len(),
                ancestry@.map_values(|it: Iteration| it@) + ancestry_rec(
                    iterations@,
                    i as int - 1,
                    skip as int,
                    ancestry@.len() > 0,
                ) == ancestry_of(iterations@),
            decreases i,
        {
            let iteration = &iterations[i - 1];
            let added = iteration.new_queue_entries.len();
            let ghost pre = ancestry@;
            let ghost skip0 = skip as int;
            let ghost have0 = ancestry@.len() > 0;
            let ghost itv = iterations@[i as int - 1]@;
            if skip < added || ancestry.len() == 0 {
                ancestry.push(iteration.clone());
                skip = if iteration.progress.in_queue >= added {
                    iteration.progress.in_queue - added
                } else {
                    0
                };
                proof {
                    pre.lemma_push_map_commute(|it: Iteration| it@, ancestry@.last());
                    assert(ancestry@.map_values(|it: Iteration| it@) =~= pre.map_values(
                        |it: Iteration| it@,
                    ).push(itv));
                    assert(ancestry_rec(iterations@, i as int - 1, skip0, have0) == seq![itv]
                        + ancestry_rec(iterations@, i as int - 2, reset_skip(itv), true));
                    assert(reset_skip(itv) == skip as int);
                    assert(pre.map_values(|it: Iteration| it@).push(itv) + ancestry_rec(
                        iterations@,
                        i as int - 2,
                        skip as int,
                        true,
                    ) =~= pre.map_values(|it: Iteration| it@) + (seq![itv] + ancestry_rec(
                        iterations@,
                        i as int - 2,
                        skip as int,
                        true,
                    )));
                }
            } else {
                skip -= added;
                proof {
                    assert(ancestry_rec(iterations@, i as int - 1, skip0, have0) == ancestry_rec(
                        iterations@,
                        i as int - 2,
                        skip as int,
                        have0,
                    ));
                }
            }
            i -= 1;
        }
        proof {
            assert(ancestry@.map_values(|it: Iteration| it@) + ancestry_rec(
                iterations@,
                -1,
                skip as int,
                ancestry@.len() > 0,
            ) =~= ancestry@.map_values(|it: Iteration| it@));
        }
        ancestry
    }
}

} // verus!
