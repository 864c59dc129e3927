//! The iteration tracker: turns decoded log events into completed
//! iterations.
//!
//! Events arrive as plain setter calls that record pending state. When the
//! caller sees that a log turn is over it asks for the iteration to be
//! completed: the pending pieces become an immutable [`Iteration`], the work
//! queue snapshot is diffed against the previous one, and the run-length
//! compressed history of selected hypothesis facts is extended.

use crate::iteration_summary::IterationSummary;
use crate::iteration_summary::SummaryView;
use crate::render::decimal_chars;
use crate::render::push_decimal;
use vstd::prelude::*;

verus! {

/// The per-iteration counters the engine reports once per turn.
#[derive(Clone, Copy)]
pub struct SaturationProgress {
    pub iteration: usize,
    pub with_conclusion_selected: usize,
    pub with_hypothesis_selected: usize,
    pub in_queue: usize,
}

/// The rendering of a progress snapshot:
/// `<iteration> (<conclusions>c, <hypotheses>h, <queued>q)`.
pub open spec fn progress_line(p: SaturationProgress) -> Seq<char> {
    decimal_chars(p.iteration as nat) + " ("@ + decimal_chars(p.with_conclusion_selected as nat)
        + "c, "@ + decimal_chars(p.with_hypothesis_selected as nat) + "h, "@ + decimal_chars(
        p.in_queue as nat,
    ) + "q)"@
}

impl SaturationProgress {
    /// Renders the snapshot for the per-iteration summary line.
    pub fn describe(&self) -> (r: String)
        ensures
            r@ == progress_line(*self),
    {
        let mut s = String::new();
        push_decimal(&mut s, self.iteration);
        s.push_str(" (");
        push_decimal(&mut s, self.with_conclusion_selected);
        s.push_str("c, ");
        push_decimal(&mut s, self.with_hypothesis_selected);
        s.push_str("h, ");
        push_decimal(&mut s, self.in_queue);
        s.push_str("q)");
        proof {
            assert(s@ =~= progress_line(*self));
        }
        s
    }
}

/// A fact the engine selected, with its fact number where the log gives one
/// (hypothesis selections carry a number, conclusion selections do not).
pub struct SelectedFact {
    pub fact: String,
    pub fact_number: Option<usize>,
}

#[verifier::ext_equal]
pub ghost struct SelectedFactView {
    pub fact: Seq<char>,
    pub fact_number: Option<usize>,
}

impl View for SelectedFact {
    type V = SelectedFactView;

    open spec fn view(&self) -> SelectedFactView {
        SelectedFactView { fact: self.fact@, fact_number: self.fact_number }
    }
}

pub open spec fn selection_view(o: Option<SelectedFact>) -> Option<SelectedFactView> {
    match o {
        Some(sf) => Some(sf@),
        None => None,
    }
}

impl Clone for SelectedFact {
    fn clone(&self) -> (res: Self)
        ensures
            res == *self,
    {
        SelectedFact { fact: self.fact.clone(), fact_number: self.fact_number }
    }
}

fn clone_selection(o: &Option<SelectedFact>) -> (res: Option<SelectedFact>)
    ensures
        res == *o,
{
    match o {
        Some(sf) => Some(sf.clone()),
        None => None,
    }
}

/// One completed selection step of the engine, immutable once created.
pub struct Iteration {
    pub progress: SaturationProgress,
    pub query: String,
    pub hypothesis_fact_selected: Option<SelectedFact>,
    pub conclusion_fact_selected: Option<SelectedFact>,
    pub new_queue_entries: Vec<String>,
}

#[verifier::ext_equal]
pub ghost struct IterationView {
    pub progress: SaturationProgress,
    pub query: Seq<char>,
    pub hypothesis_fact_selected: Option<SelectedFactView>,
    pub conclusion_fact_selected: Option<SelectedFactView>,
    pub new_queue_entries: Seq<Seq<char>>,
}

impl View for Iteration {
    type V = IterationView;

    open spec fn view(&self) -> IterationView {
        IterationView {
            progress: self.progress,
            query: self.query@,
            hypothesis_fact_selected: selection_view(self.hypothesis_fact_selected),
            conclusion_fact_selected: selection_view(self.conclusion_fact_selected),
            new_queue_entries: self.new_queue_entries@.map_values(|s: String| s@),
        }
    }
}

/// A hypothesis selection recorded in an iteration always carries its fact
/// number; the tracker never stores one without it.
pub open spec fn iteration_view_wf(iv: IterationView) -> bool {
    iv.hypothesis_fact_selected matches Some(sf) ==> sf.fact_number is Some
}

pub open spec fn iteration_wf(it: Iteration) -> bool {
    iteration_view_wf(it@)
}

pub open spec fn iterations_wf(its: Seq<Iteration>) -> bool {
    forall|i: int| 0 <= i < its.len() ==> #[trigger] iteration_wf(its[i])
}

pub open spec fn iteration_views_wf(views: Seq<IterationView>) -> bool {
    forall|i: int| 0 <= i < views.len() ==> #[trigger] iteration_view_wf(views[i])
}

fn clone_string_vec(v: &Vec<String>) -> (res: Vec<String>)
    ensures
        res@ == v@,
{
    let mut out: Vec<String> = Vec::new();
    let mut i: usize = 0;
    while i < v.len()
        invariant
            i <= v@.len(),
            out@ =~= v@.subrange(0, i as int),
        decreases v@.len() - i,
    {
        out.push(v[i].clone());
        i += 1;
    }
    proof {
        assert(out@ =~= v@);
    }
    out
}

impl Clone for Iteration {
    fn clone(&self) -> (res: Self)
        ensures
            res@ == self@,
    {
        let res = Iteration {
            progress: self.progress,
            query: self.query.clone(),
            hypothesis_fact_selected: clone_selection(&self.hypothesis_fact_selected),
            conclusion_fact_selected: clone_selection(&self.conclusion_fact_selected),
            new_queue_entries: clone_string_vec(&self.new_queue_entries),
        };
        proof {
            assert(res@ =~= self@);
        }
        res
    }
}

/// The cursor the queue diff ends on after scanning the first `i` entries of
/// the previous queue snapshot: a previous entry that matches the current
/// snapshot at the cursor advances it, anything else is skipped.
pub open spec fn diff_threshold(prev: Seq<String>, cur: Seq<String>, i: int) -> int
    decreases i,
{
    if i <= 0 {
        0
    } else {
        let t = diff_threshold(prev, cur, i - 1);
        if t < cur.len() && prev[i - 1]@ == cur[t]@ {
            t + 1
        } else {
            t
        }
    }
}

/// Where the new entries start in the current queue snapshot.
pub open spec fn new_entries_threshold(prev: Seq<String>, cur: Seq<String>) -> int {
    diff_threshold(prev, cur, prev.len() as int)
}

/// Diffs two consecutive work-queue snapshots under the engine's queue
/// discipline (append at the tail, remove from the front): the entries of
/// the current snapshot past the matched prefix cursor are the new ones.
pub fn get_new_queue_entries(previous_queue: &Vec<String>, current_queue: &Vec<String>) -> (r: Vec<
    String,
>)
    ensures
        r@ == current_queue@.skip(new_entries_threshold(previous_queue@, current_queue@)),
{
    let mut current_queue_threshold: usize = 0;
    let mut i: usize = 0;
    while i < previous_queue.len()
        invariant
            i <= previous_queue@.len(),
            current_queue_threshold == diff_threshold(previous_queue@, current_queue@, i as int),
            current_queue_threshold <= current_queue@.len(),
        decreases previous_queue@.len() - i,
    {
        if current_queue_threshold < current_queue.len() && previous_queue[i]
            == current_queue[current_queue_threshold] {
            current_queue_threshold += 1;
        }
        i += 1;
    }
    let mut r: Vec<String> = Vec::new();
    let mut j: usize = current_queue_threshold;
    while j < current_queue.len()
        invariant
            current_queue_threshold <= j <= current_queue@.len(),
            r@ =~= current_queue@.subrange(current_queue_threshold as int, j as int),
        decreases current_queue@.len() - j,
    {
        r.push(current_queue[j].clone());
        j += 1;
    }
    proof {
        assert(r@ =~= current_queue@.skip(
            new_entries_threshold(previous_queue@, current_queue@),
        ));
    }
    r
}

/// The spec-level mirror of [`SaturationState`], one field per field.
pub ghost struct StateView {
    pub progress: Option<SaturationProgress>,
    pub query: Option<String>,
    pub hypothesis_fact_selected: Option<SelectedFact>,
    pub conclusion_fact_selected: Option<SelectedFact>,
    pub queue_entries: Seq<String>,
    pub last_iteration_queue_entries: Seq<String>,
    pub iterations: Seq<Iteration>,
    pub hypothesis_selected_fact_history: Seq<(String, u32)>,
}

/// Accumulates decoded events until a turn completes, and owns the list of
/// completed iterations and the compressed history of selected facts.
pub struct SaturationState {
    progress: Option<SaturationProgress>,
    query: Option<String>,
    hypothesis_fact_selected: Option<SelectedFact>,
    conclusion_fact_selected: Option<SelectedFact>,
    queue_entries: Vec<String>,
    last_iteration_queue_entries: Vec<String>,
    pub iterations: Vec<Iteration>,
    pub hypothesis_selected_fact_history: Vec<(String, u32)>,
}

impl View for SaturationState {
    type V = StateView;

    closed spec fn view(&self) -> StateView {
        StateView {
            progress: self.progress,
            query: self.query,
            hypothesis_fact_selected: self.hypothesis_fact_selected,
            conclusion_fact_selected: self.conclusion_fact_selected,
            queue_entries: self.queue_entries@,
            last_iteration_queue_entries: self.last_iteration_queue_entries@,
            iterations: self.iterations@,
            hypothesis_selected_fact_history: self.hypothesis_selected_fact_history@,
        }
    }
}

/// The tracker's well-formedness: history counts are positive, recorded
/// hypothesis selections carry fact numbers, and when the latest iteration
/// selected a hypothesis fact, the last history entry names that fact.
pub open spec fn state_wf(v: StateView) -> bool {
    &&& forall|i: int|
        0 <= i < v.hypothesis_selected_fact_history.len() ==> (
        #[trigger] v.hypothesis_selected_fact_history[i]).1 >= 1
    &&& (v.iterations.len() > 0 && v.iterations.last().hypothesis_fact_selected is Some
        ==> v.hypothesis_selected_fact_history.len() > 0
        && v.hypothesis_selected_fact_history.last().0@
        == v.iterations.last().hypothesis_fact_selected.unwrap().fact@)
    &&& (v.hypothesis_fact_selected matches Some(sf) ==> sf.fact_number is Some)
    &&& iterations_wf(v.iterations)
}

impl SaturationState {
    pub open spec fn wf(self) -> bool {
        state_wf(self@)
    }

    /// Whether any piece of a log turn has been recorded since the last
    /// completed iteration.
    pub fn has_pending_turn(&self) -> (r: bool)
        ensures
            r == turn_pending(self@),
    {
        self.progress.is_some() || self.query.is_some() || self.hypothesis_fact_selected.is_some()
            || self.conclusion_fact_selected.is_some() || self.queue_entries.len() > 0
    }

    /// The completed iterations, oldest first.
    pub fn borrow_iterations(&self) -> (r: &Vec<Iteration>)
        ensures
            r@ == self@.iterations,
    {
        &self.iterations
    }

    /// The run-length compressed history of selected hypothesis facts.
    pub fn borrow_fact_history(&self) -> (r: &Vec<(String, u32)>)
        ensures
            r@ == self@.hypothesis_selected_fact_history,
    {
        &self.hypothesis_selected_fact_history
    }

    pub fn new() -> (r: Self)
        ensures
            r@ == (StateView {
                progress: None,
                query: None,
                hypothesis_fact_selected: None,
                conclusion_fact_selected: None,
                queue_entries: Seq::<String>::empty(),
                last_iteration_queue_entries: Seq::<String>::empty(),
                iterations: Seq::<Iteration>::empty(),
                hypothesis_selected_fact_history: Seq::<(String, u32)>::empty(),
            }),
            r.wf(),
    {
        SaturationState {
            progress: None,
            query: None,
            conclusion_fact_selected: None,
            hypothesis_fact_selected: None,
            queue_entries: Vec::new(),
            last_iteration_queue_entries: Vec::new(),
            iterations: Vec::new(),
            hypothesis_selected_fact_history: Vec::new(),
        }
    }

    pub fn set_query(&mut self, query: String)
        ensures
            final(self)@ == (StateView { query: Some(query), ..old(self)@ }),
    {
        self.query = Some(query);
    }

    /// Queue listing lines arrive in order, so the entry number itself is
    /// not needed to place the rule in the snapshot.
    pub fn set_queue_entry(&mut self, _entry_number: usize, rule: String)
        ensures
            final(self)@ == (StateView {
                queue_entries: old(self)@.queue_entries.push(rule),
                ..old(self)@
            }),
    {
        self.queue_entries.push(rule);
    }

    pub fn set_hypothesis_fact_selected(&mut self, fact: String, fact_number: usize)
        ensures
            final(self)@ == (StateView {
                hypothesis_fact_selected: Some(
                    SelectedFact { fact, fact_number: Some(fact_number) },
                ),
                ..old(self)@
            }),
    {
        self.hypothesis_fact_selected = Some(SelectedFact { fact, fact_number: Some(fact_number) });
    }

    pub fn set_conclusion_fact_selected(&mut self, fact: String)
        ensures
            final(self)@ == (StateView {
                conclusion_fact_selected: Some(SelectedFact { fact, fact_number: None }),
                ..old(self)@
            }),
    {
        self.conclusion_fact_selected = Some(SelectedFact { fact, fact_number: None });
    }

    pub fn set_saturation_progress(
        &mut self,
        iteration: usize,
        with_conclusion_selected: usize,
        with_hypothesis_selected: usize,
        in_queue: usize,
    )
        ensures
            final(self)@ == (StateView {
                progress: Some(
                    SaturationProgress {
                        iteration,
                        with_conclusion_selected,
                        with_hypothesis_selected,
                        in_queue,
                    },
                ),
                ..old(self)@
            }),
    {
        self.progress = Some(
            SaturationProgress {
                iteration,
                with_conclusion_selected,
                with_hypothesis_selected,
                in_queue,
            },
        );
    }

    /// Builds the pending pieces into an [`Iteration`], diffs the queue
    /// snapshots, extends the fact history and clears the pending state.
    /// Returns nothing, and changes nothing, while progress or query is
    /// still unset: the stream is malformed and the caller may retry.
    pub fn complete_iteration(&mut self) -> (r: Option<IterationSummary>)
        requires
            old(self).wf(),
        ensures
            final(self).wf(),
            old(self)@.progress is None || old(self)@.query is None ==> r is None && final(self)@
                == old(self)@,
            old(self)@.progress is Some && old(self)@.query is Some ==> r is Some
                && completes_turn(old(self)@, final(self)@) && r.unwrap()@
                == completed_summary_view(old(self)@, final(self)@.iterations.last()@),
    {
        if self.progress.is_none() || self.query.is_none() {
            return None;
        }
        let progress = self.progress.unwrap();
        let query = self.query.as_ref().unwrap().clone();
        let new_queue_entries = get_new_queue_entries(
            &self.last_iteration_queue_entries,
            &self.queue_entries,
        );
        self.last_iteration_queue_entries = Vec::new();
        core::mem::swap(&mut self.last_iteration_queue_entries, &mut self.queue_entries);

        let iteration = Iteration {
            progress,
            query,
            new_queue_entries,
            hypothesis_fact_selected: clone_selection(&self.hypothesis_fact_selected),
            conclusion_fact_selected: clone_selection(&self.conclusion_fact_selected),
        };

        // Keep the compressed history of selected hypothesis facts: a rerun
        // of the previous iteration's fact bumps the last count, any other
        // hypothesis selection starts a fresh entry.
        let same_as_previous = if self.iterations.len() > 0 {
            let previous = &self.iterations[self.iterations.len() - 1];
            match (&previous.hypothesis_fact_selected, &iteration.hypothesis_fact_selected) {
                (Some(pf), Some(cf)) => pf.fact == cf.fact,
                _ => false,
            }
        } else {
            false
        };
        if same_as_previous {
            let (fact, count) = self.hypothesis_selected_fact_history.pop().unwrap();
            let new_count = if count < u32::MAX {
                count + 1
            } else {
                count
            };
            self.hypothesis_selected_fact_history.push((fact, new_count));
            proof {
                assert(self.hypothesis_selected_fact_history@
                    =~= old(self)@.hypothesis_selected_fact_history.update(
                    old(self)@.hypothesis_selected_fact_history.len() - 1,
                    (
                        old(self)@.hypothesis_selected_fact_history.last().0,
                        bumped(old(self)@.hypothesis_selected_fact_history.last().1),
                    ),
                ));
            }
        } else if let Some(hypothesis_fact_selected) = &iteration.hypothesis_fact_selected {
            self.hypothesis_selected_fact_history.push(
                (hypothesis_fact_selected.fact.clone(), 1),
            );
        }

        let previous_iteration: Option<&Iteration> = if self.iterations.len() > 0 {
            Some(&self.iterations[self.iterations.len() - 1])
        } else {
            None
        };
        let selected_fact = Self::print_selected_fact(&iteration, &previous_iteration);
        let summary = IterationSummary::new(
            selected_fact,
            iteration.query.clone(),
            clone_string_vec(&iteration.new_queue_entries),
            progress.describe(),
        );

        self.progress = None;
        self.query = None;
        self.hypothesis_fact_selected = None;
        self.conclusion_fact_selected = None;
        self.iterations.push(iteration);

        proof {
            let v0 = old(self)@;
            let v1 = self@;
            let it = v1.iterations.last();
            assert(v1.iterations.subrange(0, v0.iterations.len() as int) =~= v0.iterations);
            assert(summary@ =~= completed_summary_view(v0, it@));
            assert(v1.progress is None && v1.query is None);
            assert(v1.hypothesis_fact_selected is None && v1.conclusion_fact_selected is None);
            assert(v1.queue_entries == Seq::<String>::empty());
            assert(v1.last_iteration_queue_entries == v0.queue_entries);
            assert(v1.iterations.len() == v0.iterations.len() + 1);
            assert(it.progress == v0.progress.unwrap());
            assert(it.query == v0.query.unwrap());
            assert(it.hypothesis_fact_selected == v0.hypothesis_fact_selected);
            assert(it.conclusion_fact_selected == v0.conclusion_fact_selected);
            assert(it.new_queue_entries@ == v0.queue_entries.skip(
                new_entries_threshold(v0.last_iteration_queue_entries, v0.queue_entries),
            ));
            assert(v0.hypothesis_fact_selected is None ==> v1.hypothesis_selected_fact_history
                == v0.hypothesis_selected_fact_history);
            assert(merges_with_previous(v0) ==> v1.hypothesis_selected_fact_history
                == v0.hypothesis_selected_fact_history.update(
                v0.hypothesis_selected_fact_history.len() - 1,
                (
                    v0.hypothesis_selected_fact_history.last().0,
                    bumped(v0.hypothesis_selected_fact_history.last().1),
                ),
            ));
            assert(v0.hypothesis_fact_selected is Some && !merges_with_previous(v0) ==> {
                &&& v1.hypothesis_selected_fact_history.len()
                    == v0.hypothesis_selected_fact_history.len() + 1
                &&& v1.hypothesis_selected_fact_history.drop_last()
                    == v0.hypothesis_selected_fact_history
                &&& v1.hypothesis_selected_fact_history.last().0@
                    == v0.hypothesis_fact_selected.unwrap().fact@
                &&& v1.hypothesis_selected_fact_history.last().1 == 1u32
            });
            assert(completes_turn(v0, v1));
        }
        Some(summary)
    }

    /// Describes the selection of a completed iteration, marking a repeat
    /// of the previous iteration's selection with `(again)`.
    pub fn print_selected_fact(iteration: &Iteration, previous_iteration: &Option<&Iteration>) -> (r:
        String)
        ensures
            r@ == selected_fact_line(iteration@, previous_view(*previous_iteration)),
    {
        let mut fact_source: &str = "";
        let mut fact: String = String::new();
        let mut same_as_before = false;

        if let Some(selected_fact) = &iteration.hypothesis_fact_selected {
            fact_source = "hypothesis";
            fact = selected_fact.fact.clone();
            if let Some(previous) = previous_iteration {
                if let Some(previous_selected_fact) = &previous.hypothesis_fact_selected {
                    same_as_before = previous_selected_fact.fact == selected_fact.fact;
                }
            }
        } else if let Some(selected_fact) = &iteration.conclusion_fact_selected {
            fact_source = "conclusion";
            fact = selected_fact.fact.clone();
            if let Some(previous) = previous_iteration {
                if let Some(previous_selected_fact) = &previous.conclusion_fact_selected {
                    same_as_before = previous_selected_fact.fact == selected_fact.fact;
                }
            }
        }

        let mut line = String::new();
        line.push_str(fact_source);
        line.push_str(" ");
        line.push_str(fact.as_str());
        if same_as_before {
            line.push_str(" (again)");
        }
        proof {
            reveal_strlit("");
            assert(line@ =~= selected_fact_line(iteration@, previous_view(*previous_iteration)));
        }
        line
    }
}

/// No two adjacent entries of a compressed fact history name the same fact.
pub open spec fn adjacent_facts_differ(h: Seq<(String, u32)>) -> bool {
    forall|i: int| 0 <= i < h.len() - 1 ==> (#[trigger] h[i]).0@ != h[i + 1].0@
}

/// Merging into the last entry keeps the history free of adjacent equal
/// facts: the recorded facts do not change. Together with
/// [`lemma_appended_history_adjacent_facts_differ`] this covers both ways
/// `complete_iteration` extends the history.
pub proof fn lemma_merged_history_adjacent_facts_differ(h: Seq<(String, u32)>, count: u32)
    requires
        adjacent_facts_differ(h),
        h.len() > 0,
    ensures
        adjacent_facts_differ(h.update(h.len() - 1, (h.last().0, count))),
{
    let r = h.update(h.len() - 1, (h.last().0, count));
    assert forall|i: int| 0 <= i < r.len() - 1 implies (#[trigger] r[i]).0@ != r[i + 1].0@ by {
        assert(h[i].0@ != h[i + 1].0@);
    }
}

/// Appending a fresh entry keeps the history free of adjacent equal facts
/// whenever the appended fact differs from the last recorded one. A history
/// where the same fact returns after a conclusion-only iteration does not
/// meet that condition, and there the tracker does record two adjacent
/// entries with the same fact.
pub proof fn lemma_appended_history_adjacent_facts_differ(
    h: Seq<(String, u32)>,
    fact: String,
    count: u32,
)
    requires
        adjacent_facts_differ(h),
        h.len() > 0 ==> h.last().0@ != fact@,
    ensures
        adjacent_facts_differ(h.push((fact, count))),
{
    let r = h.push((fact, count));
    assert forall|i: int| 0 <= i < r.len() - 1 implies (#[trigger] r[i]).0@ != r[i + 1].0@ by {
        if i < h.len() - 1 {
            assert(h[i].0@ != h[i + 1].0@);
        }
    }
}

/// How completing a turn takes the tracker from `v0` to `v1`: the pending
/// pieces become one appended iteration, whose new queue entries are the
/// diff of the two snapshots; the fact history is merged, extended or left
/// alone; and the pending state is cleared with the queue snapshot rotated.
pub open spec fn completes_turn(v0: StateView, v1: StateView) -> bool {
    let it = v1.iterations.last();
    &&& v1.progress is None
    &&& v1.query is None
    &&& v1.hypothesis_fact_selected is None
    &&& v1.conclusion_fact_selected is None
    &&& v1.queue_entries == Seq::<String>::empty()
    &&& v1.last_iteration_queue_entries == v0.queue_entries
    &&& v1.iterations.len() == v0.iterations.len() + 1
    &&& v1.iterations.subrange(0, v0.iterations.len() as int) == v0.iterations
    &&& it.progress == v0.progress.unwrap()
    &&& it.query == v0.query.unwrap()
    &&& it.hypothesis_fact_selected == v0.hypothesis_fact_selected
    &&& it.conclusion_fact_selected == v0.conclusion_fact_selected
    &&& it.new_queue_entries@ == v0.queue_entries.skip(
        new_entries_threshold(v0.last_iteration_queue_entries, v0.queue_entries),
    )
    &&& (v0.hypothesis_fact_selected is None ==> v1.hypothesis_selected_fact_history
        == v0.hypothesis_selected_fact_history)
    &&& (merges_with_previous(v0) ==> v1.hypothesis_selected_fact_history
        == v0.hypothesis_selected_fact_history.update(
        v0.hypothesis_selected_fact_history.len() - 1,
        (
            v0.hypothesis_selected_fact_history.last().0,
            bumped(v0.hypothesis_selected_fact_history.last().1),
        ),
    ))
    &&& (v0.hypothesis_fact_selected is Some && !merges_with_previous(v0) ==> {
        &&& v1.hypothesis_selected_fact_history.len()
            == v0.hypothesis_selected_fact_history.len() + 1
        &&& v1.hypothesis_selected_fact_history.drop_last()
            == v0.hypothesis_selected_fact_history
        &&& v1.hypothesis_selected_fact_history.last().0@
            == v0.hypothesis_fact_selected.unwrap().fact@
        &&& v1.hypothesis_selected_fact_history.last().1 == 1u32
    })
}

/// Whether any piece of a log turn has been recorded since the last
/// completed iteration.
pub open spec fn turn_pending(v: StateView) -> bool {
    ||| v.progress is Some
    ||| v.query is Some
    ||| v.hypothesis_fact_selected is Some
    ||| v.conclusion_fact_selected is Some
    ||| v.queue_entries.len() > 0
}

/// Completing an iteration merges into the last history entry exactly when
/// the previous iteration also selected the now-pending hypothesis fact.
pub open spec fn merges_with_previous(v: StateView) -> bool {
    &&& v.hypothesis_fact_selected is Some
    &&& v.iterations.len() > 0
    &&& v.iterations.last().hypothesis_fact_selected is Some
    &&& v.iterations.last().hypothesis_fact_selected.unwrap().fact@
        == v.hypothesis_fact_selected.unwrap().fact@
}

/// A history count grows by one until it saturates at the type's maximum.
pub open spec fn bumped(count: u32) -> u32 {
    if count < u32::MAX {
        (count + 1) as u32
    } else {
        count
    }
}

pub open spec fn previous_view(p: Option<&Iteration>) -> Option<IterationView> {
    match p {
        Some(it) => Some(it@),
        None => None,
    }
}

/// The selection line of a completed iteration: the source and the fact,
/// with ` (again)` appended when the previous iteration selected the same
/// fact from the same source.
pub open spec fn selected_fact_line(it: IterationView, prev: Option<IterationView>) -> Seq<char> {
    let source = if it.hypothesis_fact_selected is Some {
        "hypothesis"@
    } else if it.conclusion_fact_selected is Some {
        "conclusion"@
    } else {
        ""@
    };
    let fact = if it.hypothesis_fact_selected is Some {
        it.hypothesis_fact_selected.unwrap().fact
    } else if it.conclusion_fact_selected is Some {
        it.conclusion_fact_selected.unwrap().fact
    } else {
        ""@
    };
    let same = if it.hypothesis_fact_selected is Some {
        prev is Some && prev.unwrap().hypothesis_fact_selected is Some
            && prev.unwrap().hypothesis_fact_selected.unwrap().fact
            == it.hypothesis_fact_selected.unwrap().fact
    } else if it.conclusion_fact_selected is Some {
        prev is Some && prev.unwrap().conclusion_fact_selected is Some
            && prev.unwrap().conclusion_fact_selected.unwrap().fact
            == it.conclusion_fact_selected.unwrap().fact
    } else {
        false
    };
    source + " "@ + fact + (if same {
        " (again)"@
    } else {
        ""@
    })
}

/// What the summary of a freshly completed iteration holds, before any
/// detector has attached findings.
pub open spec fn completed_summary_view(v0: StateView, it: IterationView) -> SummaryView {
    SummaryView {
        selected_fact: selected_fact_line(
            it,
            if v0.iterations.len() > 0 {
                Some(v0.iterations.last()@)
            } else {
                None
            },
        ),
        query: it.query,
        new_queue_entries: it.new_queue_entries,
        ancestry: None,
        info: Seq::<(Seq<char>, Seq<char>)>::empty(),
        warning: Seq::<(Seq<char>, Seq<char>)>::empty(),
        error: Seq::<(Seq<char>, Seq<char>)>::empty(),
        progress: progress_line(v0.progress.unwrap()),
    }
}

} // verus!
