//! Run-length accumulation of the raw stream of selected facts.
//!
//! Each selected fact either extends the current run (same fact as the last
//! call) or closes it: the finished run moves into `fact_history` as a
//! `(fact, count)` entry, so no two adjacent entries ever name the same
//! fact. A per-fact occurrence tally is kept alongside.

use crate::printer::Printer;
use crate::render::decimal_chars;
use crate::render::push_decimal;
use crate::saturation_state::bumped;
use crate::Cli;
use vstd::pervasive::VecAdditionalExecFns;
use vstd::prelude::*;

verus! {

/// The spec-level mirror of [`History`], one field per field.
#[verifier::ext_equal]
pub ghost struct HistoryView {
    pub last_fact: Option<String>,
    pub last_fact_count: u32,
    pub fact_occurrence: Seq<(String, u32)>,
    pub fact_history: Seq<(String, u32)>,
    pub print_selected_facts: bool,
}

/// Finished runs have positive counts and no two adjacent entries name the
/// same fact; the open run is not in the history yet and differs from the
/// last finished entry; occurrence keys are unique.
pub open spec fn history_wf(v: HistoryView) -> bool {
    &&& (v.last_fact is None ==> v.fact_history.len() == 0 && v.last_fact_count == 0)
    &&& (v.last_fact is Some ==> v.last_fact_count >= 1)
    &&& forall|i: int|
        0 <= i < v.fact_history.len() ==> (#[trigger] v.fact_history[i]).1 >= 1
    &&& crate::saturation_state::adjacent_facts_differ(v.fact_history)
    &&& (v.last_fact is Some && v.fact_history.len() > 0 ==> v.fact_history.last().0@
        != v.last_fact.unwrap()@)
    &&& occurrence_wf(v.fact_occurrence)
}

/// How registering `fact` changes the occurrence tally, scanning from
/// position `i`: the first entry naming the fact has its count bumped, and
/// a fact with no entry gets a fresh one at the end.
pub open spec fn bump_occurrence_from(occ: Seq<(String, u32)>, i: int, fact: String) -> Seq<
    (String, u32),
>
    decreases occ.len() - i,
{
    if i < 0 || i >= occ.len() {
        occ.push((fact, 1u32))
    } else if occ[i].0@ == fact@ {
        occ.update(i, (occ[i].0, bumped(occ[i].1)))
    } else {
        bump_occurrence_from(occ, i + 1, fact)
    }
}

pub open spec fn bump_occurrence(occ: Seq<(String, u32)>, fact: String) -> Seq<(String, u32)> {
    bump_occurrence_from(occ, 0, fact)
}

/// Occurrence tallies name each fact once and hold positive counts.
pub open spec fn occurrence_wf(occ: Seq<(String, u32)>) -> bool {
    &&& forall|a: int, b: int|
        0 <= a < b < occ.len() ==> (#[trigger] occ[a]).0@ != (#[trigger] occ[b]).0@
    &&& forall|a: int| 0 <= a < occ.len() ==> (#[trigger] occ[a]).1 >= 1
}

/// Bumping a fact's tally keeps the occurrence list well formed.
proof fn lemma_bump_occurrence_wf(occ: Seq<(String, u32)>, i: int, fact: String)
    requires
        0 <= i <= occ.len(),
        occurrence_wf(occ),
        forall|k: int| 0 <= k < i ==> (#[trigger] occ[k]).0@ != fact@,
    ensures
        occurrence_wf(bump_occurrence_from(occ, i, fact)),
    decreases occ.len() - i,
{
    if i >= occ.len() {
        let r = occ.push((fact, 1u32));
        assert(bump_occurrence_from(occ, i, fact) == r);
        assert forall|a: int, b: int| 0 <= a < b < r.len() implies (#[trigger] r[a]).0@ != (
        #[trigger] r[b]).0@ by {
            if b == occ.len() {
                assert(occ[a].0@ != fact@);
            } else {
                assert(occ[a].0@ != occ[b].0@);
            }
        }
        assert forall|a: int| 0 <= a < r.len() implies (#[trigger] r[a]).1 >= 1 by {
            if a < occ.len() {
                assert(occ[a].1 >= 1);
            }
        }
    } else if occ[i].0@ == fact@ {
        let r = occ.update(i, (occ[i].0, bumped(occ[i].1)));
        assert(bump_occurrence_from(occ, i, fact) == r);
        assert forall|a: int, b: int| 0 <= a < b < r.len() implies (#[trigger] r[a]).0@ != (
        #[trigger] r[b]).0@ by {
            assert(occ[a].0@ != occ[b].0@);
        }
        assert forall|a: int| 0 <= a < r.len() implies (#[trigger] r[a]).1 >= 1 by {
            assert(occ[a].1 >= 1);
        }
    } else {
        lemma_bump_occurrence_wf(occ, i + 1, fact);
        assert(bump_occurrence_from(occ, i, fact) == bump_occurrence_from(occ, i + 1, fact));
    }
}

/// The line announcing a selected fact, with the run length once the fact
/// repeats.
pub open spec fn selected_line(fact: Seq<char>, count: u32) -> Seq<char> {
    if count > 1 {
        "Selected ("@ + decimal_chars(count as nat) + "x): "@ + fact
    } else {
        "Selected: "@ + fact
    }
}

/// Tracks the stream of selected facts: the open run, the finished
/// run-length entries, and how often each fact was ever selected.
pub struct History {
    last_fact: Option<String>,
    last_fact_count: u32,
    pub fact_occurrence: Vec<(String, u32)>,
    pub fact_history: Vec<(String, u32)>,
    print_selected_facts: bool,
}

impl View for History {
    type V = HistoryView;

    closed spec fn view(&self) -> HistoryView {
        HistoryView {
            last_fact: self.last_fact,
            last_fact_count: self.last_fact_count,
            fact_occurrence: self.fact_occurrence@,
            fact_history: self.fact_history@,
            print_selected_facts: self.print_selected_facts,
        }
    }
}

/// Sets up an empty history; facts are echoed to the sink when either of
/// the all-flags or the selected-facts flag asks for it.
pub fn initialize_history(cli: &Cli) -> (r: History)
    ensures
        r@ == (HistoryView {
            last_fact: None,
            last_fact_count: 0,
            fact_occurrence: Seq::<(String, u32)>::empty(),
            fact_history: Seq::<(String, u32)>::empty(),
            print_selected_facts: cli.all || cli.print_all || cli.print_selected_facts,
        }),
        r.wf(),
{
    let all = cli.all || cli.print_all;
    History {
        last_fact: None,
        last_fact_count: 0,
        fact_occurrence: Vec::new(),
        fact_history: Vec::new(),
        print_selected_facts: all || cli.print_selected_facts,
    }
}

fn bump_occurrence_vec(occ: &mut Vec<(String, u32)>, fact: &String)
    ensures
        final(occ)@ == bump_occurrence(old(occ)@, *fact),
{
    let ghost occ0 = occ@;
    let mut i: usize = 0;
    while i < occ.len()
        invariant
            i <= occ@.len(),
            occ@ == occ0,
            occ0 == old(occ)@,
            forall|k: int| 0 <= k < i ==> (#[trigger] occ@[k]).0@ != fact@,
            bump_occurrence_from(occ0, 0, *fact) == bump_occurrence_from(occ0, i as int, *fact),
        decreases occ@.len() - i,
    {
        if occ[i].0 == *fact {
            let count = occ[i].1;
            let new_count = if count < u32::MAX {
                count + 1
            } else {
                count
            };
            let name = occ[i].0.clone();
            proof {
                assert(bump_occurrence_from(occ0, i as int, *fact) == occ0.update(
                    i as int,
                    (occ0[i as int].0, bumped(occ0[i as int].1)),
                ));
                assert((name, new_count) == (occ0[i as int].0, bumped(occ0[i as int].1)));
            }
            occ.set(i, (name, new_count));
            return ;
        }
        i += 1;
    }
    occ.push((fact.clone(), 1));
}

impl History {
    pub open spec fn wf(self) -> bool {
        history_wf(self@)
    }

    /// Registers one selected fact: tallies its occurrence, extends or
    /// closes the current run, and echoes the selection when asked to.
    /// The very first fact only opens a run and prints nothing.
    pub fn register_selected_fact(&mut self, fact: String, printer: &mut Printer)
        requires
            old(self).wf(),
        ensures
            final(self).wf(),
            final(self)@.fact_occurrence == bump_occurrence(old(self)@.fact_occurrence, fact),
            final(self)@.print_selected_facts == old(self)@.print_selected_facts,
            old(self)@.last_fact is None ==> {
                &&& final(self)@.last_fact == Some(fact)
                &&& final(self)@.last_fact_count == 1u32
                &&& final(self)@.fact_history == old(self)@.fact_history
                &&& final(printer).output() == old(printer).output()
            },
            (old(self)@.last_fact matches Some(lf) && lf@ == fact@) ==> {
                &&& final(self)@.last_fact == old(self)@.last_fact
                &&& final(self)@.last_fact_count == bumped(old(self)@.last_fact_count)
                &&& final(self)@.fact_history == old(self)@.fact_history
                &&& final(printer).output() == old(printer).output() + (if old(
                    self,
                )@.print_selected_facts {
                    seq![selected_line(fact@, bumped(old(self)@.last_fact_count))]
                } else {
                    Seq::<Seq<char>>::empty()
                })
            },
            (old(self)@.last_fact matches Some(lf) && lf@ != fact@) ==> {
                &&& final(self)@.last_fact == Some(fact)
                &&& final(self)@.last_fact_count == 1u32
                &&& final(self)@.fact_history == old(self)@.fact_history.push(
                    (old(self)@.last_fact.unwrap(), old(self)@.last_fact_count),
                )
                &&& final(printer).output() == old(printer).output() + (if old(
                    self,
                )@.print_selected_facts {
                    seq![
                        selected_line(old(self)@.last_fact.unwrap()@, old(self)@.last_fact_count),
                        selected_line(fact@, 1u32),
                    ]
                } else {
                    Seq::<Seq<char>>::empty()
                })
            },
    {
        proof {
            lemma_bump_occurrence_wf(self@.fact_occurrence, 0, fact);
        }
        bump_occurrence_vec(&mut self.fact_occurrence, &fact);

        if self.last_fact.is_none() {
            self.last_fact = Some(fact);
            self.last_fact_count = 1;
            return ;
        }

        let same = *self.last_fact.as_ref().unwrap() == fact;
        if !same {
            // The run of the previous fact is over: move it into the
            // history and echo it one last time with its final count.
            let last = self.last_fact.as_ref().unwrap().clone();
            self.print_fact(printer, last.as_str(), self.last_fact_count);
            self.fact_history.push((last, self.last_fact_count));
            self.last_fact_count = 0;
            self.last_fact = Some(fact.clone());
        }

        self.last_fact_count = if self.last_fact_count < u32::MAX {
            self.last_fact_count + 1
        } else {
            self.last_fact_count
        };
        self.print_fact(printer, fact.as_str(), self.last_fact_count);
        proof {
            let v0 = old(self)@;
            let v1 = self@;
            if v0.last_fact is Some && v0.last_fact.unwrap()@ != fact@ {
                assert(v1.fact_history == v0.fact_history.push(
                    (v0.last_fact.unwrap(), v0.last_fact_count),
                ));
                assert forall|i: int|
                    0 <= i < v1.fact_history.len() - 1 implies (
                #[trigger] v1.fact_history[i]).0@ != v1.fact_history[i + 1].0@ by {
                    if i < v0.fact_history.len() - 1 {
                        assert(v0.fact_history[i].0@ != v0.fact_history[i + 1].0@);
                    } else {
                        assert(v0.fact_history.last().0@ != v0.last_fact.unwrap()@);
                    }
                }
            }
        }
    }

    fn print_fact(&self, printer: &mut Printer, fact: &str, count: u32)
        ensures
            final(printer).output() == old(printer).output() + (if self@.print_selected_facts {
                seq![selected_line(fact@, count)]
            } else {
                Seq::<Seq<char>>::empty()
            }),
    {
        if !self.print_selected_facts {
            proof {
                assert(final(printer).output() =~= old(printer).output() + Seq::<
                    Seq<char>,
                >::empty());
            }
            return ;
        }
        let mut line = String::new();
        if count > 1 {
            line.push_str("Selected (");
            push_decimal(&mut line, count as usize);
            line.push_str("x): ");
            line.push_str(fact);
        } else {
            line.push_str("Selected: ");
            line.push_str(fact);
        }
        proof {
            assert(line@ =~= selected_line(fact@, count));
        }
        printer.print(&line);
        proof {
            assert(printer.output() =~= old(printer).output() + seq![selected_line(fact@, count)]);
        }
    }
}

} // verus!
