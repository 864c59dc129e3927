//! A live monitor for the progress log of a rule-saturation prover.
//!
//! The library keeps a model of the prover's run: which fact each completed
//! iteration selected (run-length compressed), what each iteration put into
//! the work queue, and how deep the queue was. Over that model it detects
//! repeating selection behaviour (cycles), flags facts that match suspicious
//! structural patterns, and reconstructs on demand the causal ancestry of a
//! queue entry. Diagnostics are rendered into plain text lines collected by
//! a [`printer::Printer`]; reading the raw log and writing to the terminal
//! are left to the caller.

pub mod cycles;
pub mod fact_checker;
pub mod history;
pub mod iteration_summary;
pub mod printer;
pub mod render;
pub mod rule_explainer;
pub mod saturation_state;

use crate::cycles::CycleDetector;
use crate::fact_checker::FactChecker;
use crate::printer::internal_error_line;
use crate::printer::Printer;
use crate::rule_explainer::lemma_ancestry_rec_wf;
use crate::rule_explainer::QueryExplainer;
use crate::saturation_state::turn_pending;
use crate::saturation_state::SaturationState;
use vstd::prelude::*;

verus! {

/// Which diagnostics the monitor computes and which parts of each completed
/// iteration it prints. Produced by whatever parses the command line; the
/// library only reads the booleans.
#[derive(Clone, Copy)]
pub struct Cli {
    pub all: bool,
    pub detect_all: bool,
    pub detect_high_counters: bool,
    pub detect_cycles: bool,
    pub print_all: bool,
    pub print_query: bool,
    pub print_new_queue_entries: bool,
    pub print_selected_facts: bool,
    pub explain_query: Option<usize>,
}

/// Closes the current log turn: completes the pending iteration, runs the
/// detectors the flags ask for, reconstructs ancestry for the iteration
/// index under investigation, and prints the resulting summary. A
/// partially formed turn whose progress or query never arrived changes
/// nothing and reports itself as an internal diagnostic; a flush with no
/// turn pending at all does nothing.
pub fn flush_iteration(
    cli: &Cli,
    saturation_state: &mut SaturationState,
    fact_checker: &FactChecker,
    cycle_detector: &mut CycleDetector,
    printer: &mut Printer,
)
    requires
        old(saturation_state).wf(),
    ensures
        final(saturation_state).wf(),
        (old(saturation_state)@.progress is None || old(saturation_state)@.query is None) ==> {
            &&& final(saturation_state)@ == old(saturation_state)@
            &&& final(cycle_detector)@ == old(cycle_detector)@
            &&& final(printer).output() == (if turn_pending(old(saturation_state)@) {
                old(printer).output().push(
                    internal_error_line("premature iteration completion"@),
                )
            } else {
                old(printer).output()
            })
        },
        (old(saturation_state)@.progress is Some && old(saturation_state)@.query is Some) ==> {
            &&& crate::saturation_state::completes_turn(
                old(saturation_state)@,
                final(saturation_state)@,
            )
            &&& final(printer).output().len() > old(printer).output().len()
            &&& final(printer).output().subrange(0, old(printer).output().len() as int) == old(
                printer,
            ).output()
        },
{
    let turn_was_pending = saturation_state.has_pending_turn();
    let iteration_summary = saturation_state.complete_iteration();
    if iteration_summary.is_none() {
        if turn_was_pending {
            printer.print_internal_error("premature iteration completion");
        }
        return ;
    }
    let mut iteration_summary = iteration_summary.unwrap();

    if cli.detect_all || cli.detect_cycles {
        cycle_detector.check_cycles(
            saturation_state.borrow_fact_history().as_slice(),
            &mut iteration_summary,
        );
    }

    if let Some(history) = saturation_state.borrow_fact_history().last() {
        fact_checker.check(history.0.as_str(), &mut iteration_summary);
    }

    if let Some(explain_query) = cli.explain_query {
        if saturation_state.borrow_iterations().len() == explain_query {
            let ancestry = QueryExplainer::get_ancestry(
                saturation_state.borrow_iterations().as_slice(),
            );
            proof {
                lemma_ancestry_rec_wf(
                    saturation_state@.iterations,
                    saturation_state@.iterations.len() - 1,
                    0,
                    false,
                );
            }
            iteration_summary.add_ancestry(ancestry);
        }
    }

    iteration_summary.print(cli, printer);
    proof {
        assert(final(printer).output().subrange(0, old(printer).output().len() as int)
            =~= old(printer).output());
    }
}

} // verus!
