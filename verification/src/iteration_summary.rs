//! The per-iteration diagnostic record.
//!
//! When an iteration completes, the tracker builds an [`IterationSummary`]
//! holding the selected fact, the consumed query, the fresh queue entries
//! and the rendered progress counters. Detectors then attach severity-tagged
//! findings, and `print` renders the whole record into the diagnostic sink.

use crate::printer::error_line;
use crate::printer::info_line;
use crate::printer::warning_line;
use crate::printer::Printer;
use crate::render::decimal_chars;
use crate::render::push_decimal;
use crate::saturation_state::iteration_view_wf;
use crate::saturation_state::Iteration;
use crate::saturation_state::IterationView;
use crate::Cli;
use vstd::prelude::*;

verus! {

/// The spec-level mirror of [`IterationSummary`], one field per field.
#[verifier::ext_equal]
pub ghost struct SummaryView {
    pub selected_fact: Seq<char>,
    pub query: Seq<char>,
    pub new_queue_entries: Seq<Seq<char>>,
    pub ancestry: Option<Seq<IterationView>>,
    pub info: Seq<(Seq<char>, Seq<char>)>,
    pub warning: Seq<(Seq<char>, Seq<char>)>,
    pub error: Seq<(Seq<char>, Seq<char>)>,
    pub progress: Seq<char>,
}

/// Every iteration recorded in the attached ancestry carries its fact
/// number where it selected a hypothesis.
pub open spec fn summary_wf(v: SummaryView) -> bool {
    v.ancestry is Some ==> forall|i: int|
        0 <= i < v.ancestry.unwrap().len() ==> #[trigger] iteration_view_wf(v.ancestry.unwrap()[i])
}

/// One ancestry line: iteration number, what it selected, its query.
pub open spec fn ancestor_line(iv: IterationView) -> Seq<char> {
    let description = if iv.conclusion_fact_selected is Some {
        "conclusion selected\t"@
    } else if iv.hypothesis_fact_selected is Some {
        "hypothesis fact "@ + decimal_chars(
            iv.hypothesis_fact_selected.unwrap().fact_number.unwrap() as nat,
        ) + " selected"@
    } else {
        Seq::<char>::empty()
    };
    decimal_chars(iv.progress.iteration as nat) + "\t"@ + description + "\t"@ + iv.query
}

/// The ancestry block, newest ancestor printed last (the stored order is
/// newest first, the rendering walks it backward).
pub open spec fn ancestry_lines(anc: Seq<IterationView>) -> Seq<Seq<char>> {
    Seq::new(anc.len(), |i: int| "- "@ + ancestor_line(anc[anc.len() - 1 - i]))
}

/// The optional description block of a summary: ancestry, query and new
/// queue entries, by what the flags ask for.
pub open spec fn description_lines(v: SummaryView, cli: Cli) -> Seq<Seq<char>> {
    let all = cli.all || cli.print_all;
    (match v.ancestry {
        Some(anc) => seq!["Ancestors:"@] + ancestry_lines(anc),
        None => Seq::<Seq<char>>::empty(),
    }) + (if all || cli.print_query {
        seq!["Query: "@ + v.query]
    } else {
        Seq::<Seq<char>>::empty()
    }) + (if all || cli.print_new_queue_entries {
        Seq::new(v.new_queue_entries.len(), |i: int| "New in queue: "@ + v.new_queue_entries[i])
    } else {
        Seq::<Seq<char>>::empty()
    })
}

/// Everything `print` emits for a summary: a single progress line when
/// there is nothing to report, otherwise a separated block with the
/// selection, the description and the severity-tagged findings.
pub open spec fn summary_lines(v: SummaryView, cli: Cli) -> Seq<Seq<char>> {
    let description = description_lines(v, cli);
    if description.len() + v.info.len() + v.warning.len() + v.error.len() == 0 {
        seq![v.progress + "\tSelected: "@ + v.selected_fact]
    } else {
        seq![Seq::<char>::empty(), "Selected: "@ + v.selected_fact] + description
            + v.info.map_values(|p: (Seq<char>, Seq<char>)| info_line(p.0, p.1))
            + v.warning.map_values(|p: (Seq<char>, Seq<char>)| warning_line(p.0, p.1))
            + v.error.map_values(|p: (Seq<char>, Seq<char>)| error_line(p.0, p.1)) + seq![
            "Total: "@ + v.progress,
            Seq::<char>::empty(),
        ]
    }
}

/// Collects what one completed iteration should report: the selection, the
/// queue changes, and any findings the detectors attach.
pub struct IterationSummary {
    selected_fact: String,
    query: String,
    new_queue_entries: Vec<String>,
    ancestry: Option<Vec<Iteration>>,
    info: Vec<(String, String)>,
    warning: Vec<(String, String)>,
    error: Vec<(String, String)>,
    progress: String,
}

impl View for IterationSummary {
    type V = SummaryView;

    closed spec fn view(&self) -> SummaryView {
        SummaryView {
            selected_fact: self.selected_fact@,
            query: self.query@,
            new_queue_entries: self.new_queue_entries@.map_values(|s: String| s@),
            ancestry: match self.ancestry {
                Some(anc) => Some(anc@.map_values(|it: Iteration| it@)),
                None => None,
            },
            info: self.info@.map_values(|p: (String, String)| p@),
            warning: self.warning@.map_values(|p: (String, String)| p@),
            error: self.error@.map_values(|p: (String, String)| p@),
            progress: self.progress@,
        }
    }
}

impl IterationSummary {
    pub fn new(
        selected_fact: String,
        query: String,
        new_queue_entries: Vec<String>,
        progress: String,
    ) -> (r: Self)
        ensures
            r@ == (SummaryView {
                selected_fact: selected_fact@,
                query: query@,
                new_queue_entries: new_queue_entries@.map_values(|s: String| s@),
                ancestry: None,
                info: Seq::<(Seq<char>, Seq<char>)>::empty(),
                warning: Seq::<(Seq<char>, Seq<char>)>::empty(),
                error: Seq::<(Seq<char>, Seq<char>)>::empty(),
                progress: progress@,
            }),
            summary_wf(r@),
    {
        let r = IterationSummary {
            selected_fact,
            query,
            new_queue_entries,
            ancestry: None,
            info: Vec::new(),
            warning: Vec::new(),
            error: Vec::new(),
            progress,
        };
        proof {
            assert(r@ =~= (SummaryView {
                selected_fact: r.selected_fact@,
                query: r.query@,
                new_queue_entries: r.new_queue_entries@.map_values(|s: String| s@),
                ancestry: None,
                info: Seq::<(Seq<char>, Seq<char>)>::empty(),
                warning: Seq::<(Seq<char>, Seq<char>)>::empty(),
                error: Seq::<(Seq<char>, Seq<char>)>::empty(),
                progress: r.progress@,
            }));
        }
        r
    }

    pub(crate) fn add_ancestry(&mut self, ancestry: Vec<Iteration>)
        ensures
            final(self)@ == (SummaryView {
                ancestry: Some(ancestry@.map_values(|it: Iteration| it@)),
                ..old(self)@
            }),
    {
        self.ancestry = Some(ancestry);
        proof {
            assert(self@ =~= (SummaryView {
                ancestry: self@.ancestry,
                ..old(self)@
            }));
        }
    }

    pub fn add_info(&mut self, header: String, line: String)
        ensures
            final(self)@ == (SummaryView {
                info: old(self)@.info.push((header@, line@)),
                ..old(self)@
            }),
    {
        self.info.push((header, line));
        proof {
            assert(self@ =~= (SummaryView { info: self@.info, ..old(self)@ }));
            assert(self@.info =~= old(self)@.info.push((self.info@.last().0@, self.info@.last().1@)));
        }
    }

    pub fn add_warning(&mut self, header: String, line: String)
        ensures
            final(self)@ == (SummaryView {
                warning: old(self)@.warning.push((header@, line@)),
                ..old(self)@
            }),
    {
        self.warning.push((header, line));
        proof {
            assert(self@ =~= (SummaryView { warning: self@.warning, ..old(self)@ }));
            assert(self@.warning =~= old(self)@.warning.push(
                (self.warning@.last().0@, self.warning@.last().1@),
            ));
        }
    }

    pub fn add_error(&mut self, header: String, line: String)
        ensures
            final(self)@ == (SummaryView {
                error: old(self)@.error.push((header@, line@)),
                ..old(self)@
            }),
    {
        self.error.push((header, line));
        proof {
            assert(self@ =~= (SummaryView { error: self@.error, ..old(self)@ }));
            assert(self@.error =~= old(self)@.error.push(
                (self.error@.last().0@, self.error@.last().1@),
            ));
        }
    }

    /// Emits the summary into the sink: one plain line when nothing was
    /// found and nothing extra was asked for, otherwise the full block.
    pub fn print(&self, cli: &Cli, printer: &mut Printer)
        requires
            summary_wf(self@),
        ensures
            final(printer).output() == old(printer).output() + summary_lines(self@, *cli),
    {
        let description = self.describe_iteration(cli);
        let ghost base = printer.output();
        if description.len() == 0 && self.info.len() == 0 && self.warning.len() == 0
            && self.error.len() == 0 {
            let mut line = self.progress.clone();
            line.push_str("\tSelected: ");
            line.push_str(self.selected_fact.as_str());
            printer.print(&line);
            proof {
                assert(printer.output() =~= base + summary_lines(self@, *cli));
            }
            return ;
        }
        printer.print_group_separator();
        let mut selected = String::new();
        selected.push_str("Selected: ");
        selected.push_str(self.selected_fact.as_str());
        printer.print(&selected);
        let ghost header_part = seq![Seq::<char>::empty(), "Selected: "@ + self@.selected_fact];
        proof {
            assert(printer.output() =~= base + header_part);
        }
        let mut i: usize = 0;
        while i < description.len()
            invariant
                i <= description@.len(),
                printer.output() =~= base + header_part + description@.map_values(
                    |s: String| s@,
                ).take(i as int),
            decreases description@.len() - i,
        {
            printer.print(&description[i]);
            i += 1;
        }
        let ghost dpart = header_part + description@.map_values(|s: String| s@);
        proof {
            assert(printer.output() =~= base + dpart);
        }
        let ghost infos = self@.info.map_values(|p: (Seq<char>, Seq<char>)| info_line(p.0, p.1));
        let mut i: usize = 0;
        while i < self.info.len()
            invariant
                i <= self@.info.len(),
                infos == self@.info.map_values(|p: (Seq<char>, Seq<char>)| info_line(p.0, p.1)),
                printer.output() =~= base + dpart + infos.take(i as int),
            decreases self@.info.len() - i,
        {
            printer.print_info(&self.info[i].0, &self.info[i].1);
            i += 1;
        }
        let ghost ipart = dpart + infos;
        proof {
            assert(printer.output() =~= base + ipart);
        }
        let ghost warnings = self@.warning.map_values(
            |p: (Seq<char>, Seq<char>)| warning_line(p.0, p.1),
        );
        let mut i: usize = 0;
        while i < self.warning.len()
            invariant
                i <= self@.warning.len(),
                warnings == self@.warning.map_values(
                    |p: (Seq<char>, Seq<char>)| warning_line(p.0, p.1),
                ),
                printer.output() =~= base + ipart + warnings.take(i as int),
            decreases self@.warning.len() - i,
        {
            printer.print_warning(&self.warning[i].0, &self.warning[i].1);
            i += 1;
        }
        let ghost wpart = ipart + warnings;
        proof {
            assert(printer.output() =~= base + wpart);
        }
        let ghost errors = self@.error.map_values(|p: (Seq<char>, Seq<char>)| error_line(p.0, p.1));
        let mut i: usize = 0;
        while i < self.error.len()
            invariant
                i <= self@.error.len(),
                errors == self@.error.map_values(|p: (Seq<char>, Seq<char>)| error_line(p.0, p.1)),
                printer.output() =~= base + wpart + errors.take(i as int),
            decreases self@.error.len() - i,
        {
            printer.print_error(&self.error[i].0, &self.error[i].1);
            i += 1;
        }
        let mut total = String::new();
        total.push_str("Total: ");
        total.push_str(self.progress.as_str());
        printer.print(&total);
        printer.print_group_separator();
        proof {
            assert(printer.output() =~= base + summary_lines(self@, *cli));
        }
    }

    /// The description block of this summary, as finished lines.
    fn describe_iteration(&self, cli: &Cli) -> (description: Vec<String>)
        requires
            summary_wf(self@),
        ensures
            description@.map_values(|s: String| s@) == description_lines(self@, *cli),
    {
        let all = cli.all || cli.print_all;
        let mut description: Vec<String> = Vec::new();
        if let Some(ancestry) = &self.ancestry {
            description.push("Ancestors:".to_owned());
            let ghost anc = self@.ancestry.unwrap();
            proof {
                assert(description@.map_values(|s: String| s@) =~= seq!["Ancestors:"@]
                    + ancestry_lines(anc).take(0));
            }
            let mut k: usize = 0;
            while k < ancestry.len()
                invariant
                    k <= ancestry@.len(),
                    anc == ancestry@.map_values(|it: Iteration| it@),
                    summary_wf(self@),
                    self@.ancestry == Some(anc),
                    description@.map_values(|s: String| s@) =~= seq!["Ancestors:"@]
                        + ancestry_lines(anc).take(k as int),
                decreases ancestry@.len() - k,
            {
                let ancestor = &ancestry[ancestry.len() - 1 - k];
                proof {
                    let idx = ancestry@.len() - 1 - k as int;
                    assert(self@.ancestry.unwrap() == anc);
                    assert(iteration_view_wf(self@.ancestry.unwrap()[idx]));
                    assert(ancestor@ == anc[idx]);
                }
                let iteration_description = Self::describe_selected_iteration(ancestor);
                let mut line = String::new();
                line.push_str("- ");
                line.push_str(iteration_description.as_str());
                proof {
                    assert(line@ =~= ancestry_lines(anc)[k as int]);
                }
                let ghost pre = description@;
                description.push(line);
                proof {
                    pre.lemma_push_map_commute(|s: String| s@, line);
                    assert((seq!["Ancestors:"@] + ancestry_lines(anc).take(k as int)).push(line@)
                        =~= seq!["Ancestors:"@] + ancestry_lines(anc).take(k as int + 1));
                    assert(description@.map_values(|s: String| s@) =~= seq!["Ancestors:"@]
                        + ancestry_lines(anc).take(k as int + 1));
                }
                k += 1;
            }
            proof {
                assert(description@.map_values(|s: String| s@) =~= seq!["Ancestors:"@]
                    + ancestry_lines(anc));
            }
        }
        let ghost anc_part = description@.map_values(|s: String| s@);
        if all || cli.print_query {
            let mut line = String::new();
            line.push_str("Query: ");
            line.push_str(self.query.as_str());
            proof {
                assert(line@ =~= "Query: "@ + self@.query);
            }
            description.push(line);
            proof {
                assert(description@.map_values(|s: String| s@) =~= anc_part + seq![
                    "Query: "@ + self@.query,
                ]);
            }
        }
        let ghost query_part = description@.map_values(|s: String| s@);
        if all || cli.print_new_queue_entries {
            let mut k: usize = 0;
            while k < self.new_queue_entries.len()
                invariant
                    k <= self@.new_queue_entries.len(),
                    description@.map_values(|s: String| s@) =~= query_part + Seq::new(
                        k as nat,
                        |i: int| "New in queue: "@ + self@.new_queue_entries[i],
                    ),
                decreases self@.new_queue_entries.len() - k,
            {
                let mut line = String::new();
                line.push_str("New in queue: ");
                line.push_str(self.new_queue_entries[k].as_str());
                proof {
                    assert(line@ =~= "New in queue: "@ + self@.new_queue_entries[k as int]);
                }
                let ghost pre = description@;
                description.push(line);
                proof {
                    pre.lemma_push_map_commute(|s: String| s@, line);
                    assert(description@.map_values(|s: String| s@) =~= query_part + Seq::new(
                        k as nat + 1,
                        |i: int| "New in queue: "@ + self@.new_queue_entries[i],
                    ));
                }
                k += 1;
            }
            proof {
                assert(Seq::new(
                    self@.new_queue_entries.len(),
                    |i: int| "New in queue: "@ + self@.new_queue_entries[i],
                ) =~= Seq::new(
                    self.new_queue_entries@.len() as nat,
                    |i: int| "New in queue: "@ + self@.new_queue_entries[i],
                ));
            }
        }
        proof {
            assert(description@.map_values(|s: String| s@) =~= description_lines(self@, *cli));
        }
        description
    }

    /// One line naming an ancestor iteration: its number, what it selected,
    /// and the query it consumed.
    fn describe_selected_iteration(iteration: &Iteration) -> (r: String)
        requires
            iteration_view_wf(iteration@),
        ensures
            r@ == ancestor_line(iteration@),
    {
        let mut description = String::new();
        if let Some(hypothesis_fact_selected) = &iteration.hypothesis_fact_selected {
            description.push_str("hypothesis fact ");
            push_decimal(&mut description, hypothesis_fact_selected.fact_number.unwrap());
            description.push_str(" selected");
        }
        if iteration.conclusion_fact_selected.is_some() {
            let mut conclusion = String::new();
            conclusion.push_str("conclusion selected\t");
            description = conclusion;
        }
        let mut line = String::new();
        push_decimal(&mut line, iteration.progress.iteration);
        line.push_str("\t");
        line.push_str(description.as_str());
        line.push_str("\t");
        line.push_str(iteration.query.as_str());
        proof {
            assert(line@ =~= ancestor_line(iteration@));
        }
        line
    }
}

} // verus!
