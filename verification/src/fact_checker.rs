//! Matching selected facts against known-bad structural patterns.
//!
//! The patterns are fixed regular expressions; a fact that matches one gets
//! a warning attached to the iteration's summary, headed by the pattern
//! group's name. Matching itself is the regex engine's business; the
//! library states only that the outcome is a function of the pattern and
//! the text.

use crate::iteration_summary::IterationSummary;
use crate::iteration_summary::SummaryView;
use crate::Cli;
use vstd::prelude::*;

verus! {

/// Whether `pattern` is a valid regular expression.
pub uninterp spec fn regex_compiles(pattern: Seq<char>) -> bool;

/// Whether the regular expression `pattern` matches somewhere in `text`.
pub uninterp spec fn regex_match(pattern: Seq<char>, text: Seq<char>) -> bool;

/// Relies on `regex::Regex::new` and `regex::Regex::is_match`: compiling
/// succeeds or fails by the pattern alone, and matching is a function of
/// the pattern and the text. The two calls share one wrapper because a
/// compiled `Regex` value is opaque here: holding one would sever the
/// stated connection between the pattern and the match outcome.
#[verifier::external_body]
fn pattern_matches(pattern: &str, text: &str) -> (r: Option<bool>)
    ensures
        r is Some <==> regex_compiles(pattern@),
        r matches Some(b) ==> b == regex_match(pattern@, text@),
{
    match regex::Regex::new(pattern) {
        Ok(re) => Some(re.is_match(text)),
        Err(_) => None,
    }
}

/// The configured pattern groups: one group of counter patterns, present
/// when high-counter detection is switched on.
pub open spec fn target_groups(cli: Cli) -> Seq<(Seq<char>, Seq<Seq<char>>)> {
    if cli.all || cli.detect_all || cli.detect_high_counters {
        seq![
            (
                "HighCounter"@,
                seq![
                    "mess2\\(.+,[0-9]{2,},.+\\)"@,
                    "mess2\\(.+,[0-9]{2,}\\)"@,
                    "table2\\(.+[,\\(][0-9]{2,}[,\\(].+\\)"@,
                ],
            ),
        ]
    } else {
        Seq::<(Seq<char>, Seq<Seq<char>>)>::empty()
    }
}

pub open spec fn targets_view(s: Seq<(&'static str, Vec<&'static str>)>) -> Seq<
    (Seq<char>, Seq<Seq<char>>),
> {
    s.map_values(
        |g: (&'static str, Vec<&'static str>)| (g.0@, g.1@.map_values(|p: &'static str| p@)),
    )
}

/// Builds the pattern groups the flags ask for.
pub fn compose_targets(cli: &Cli) -> (r: Vec<(&'static str, Vec<&'static str>)>)
    ensures
        targets_view(r@) == target_groups(*cli),
{
    let all = cli.all || cli.detect_all;
    let mut templates_map: Vec<(&'static str, Vec<&'static str>)> = Vec::new();
    if all || cli.detect_high_counters {
        let mut patterns: Vec<&'static str> = Vec::new();
        // a counter of two or more digits in the first channel
        patterns.push("mess2\\(.+,[0-9]{2,},.+\\)");
        // a counter of two or more digits in the second channel
        patterns.push("mess2\\(.+,[0-9]{2,}\\)");
        // a counter of two or more digits in a table
        patterns.push("table2\\(.+[,\\(][0-9]{2,}[,\\(].+\\)");
        templates_map.push(("HighCounter", patterns));
    }
    proof {
        assert(targets_view(templates_map@) =~~= target_groups(*cli));
    }
    templates_map
}

/// The warnings that checking `fact` against `patterns` produces, scanning
/// from position `j`: one warning per valid pattern that matches, headed by
/// the group name.
pub open spec fn pattern_warnings_from(
    header: Seq<char>,
    patterns: Seq<Seq<char>>,
    j: int,
    fact: Seq<char>,
) -> Seq<(Seq<char>, Seq<char>)>
    decreases patterns.len() - j,
{
    if j < 0 || j >= patterns.len() {
        Seq::<(Seq<char>, Seq<char>)>::empty()
    } else {
        (if regex_compiles(patterns[j]) && regex_match(patterns[j], fact) {
            seq![(header + " pattern"@, patterns[j])]
        } else {
            Seq::<(Seq<char>, Seq<char>)>::empty()
        }) + pattern_warnings_from(header, patterns, j + 1, fact)
    }
}

/// The warnings that checking `fact` against the groups from position `i`
/// onward produces.
pub open spec fn check_warnings_from(
    groups: Seq<(Seq<char>, Seq<Seq<char>>)>,
    i: int,
    fact: Seq<char>,
) -> Seq<(Seq<char>, Seq<char>)>
    decreases groups.len() - i,
{
    if i < 0 || i >= groups.len() {
        Seq::<(Seq<char>, Seq<char>)>::empty()
    } else {
        pattern_warnings_from(groups[i].0, groups[i].1, 0, fact) + check_warnings_from(
            groups,
            i + 1,
            fact,
        )
    }
}

pub open spec fn check_warnings(
    groups: Seq<(Seq<char>, Seq<Seq<char>>)>,
    fact: Seq<char>,
) -> Seq<(Seq<char>, Seq<char>)> {
    check_warnings_from(groups, 0, fact)
}

/// Holds the configured pattern groups and warns about facts matching one.
pub struct FactChecker {
    groups: Vec<(&'static str, Vec<&'static str>)>,
}

impl FactChecker {
    /// The pattern groups, as character sequences.
    pub closed spec fn targets(self) -> Seq<(Seq<char>, Seq<Seq<char>>)> {
        targets_view(self.groups@)
    }

    pub fn new(cli: &Cli) -> (r: Self)
        ensures
            r.targets() == target_groups(*cli),
    {
        let templates_map = compose_targets(cli);
        FactChecker { groups: templates_map }
    }

    /// Attaches one warning per configured pattern that matches the fact;
    /// everything else in the summary stays as it was.
    pub fn check(&self, fact: &str, printer: &mut IterationSummary)
        ensures
            final(printer)@ == (SummaryView {
                warning: old(printer)@.warning + check_warnings(self.targets(), fact@),
                ..old(printer)@
            }),
    {
        let ghost goal = old(printer)@.warning + check_warnings(self.targets(), fact@);
        let mut i: usize = 0;
        proof {
            assert(printer@ =~= (SummaryView { warning: printer@.warning, ..old(printer)@ }));
        }
        while i < self.groups.len()
            invariant
                i <= self.groups@.len(),
                goal == old(printer)@.warning + check_warnings(self.targets(), fact@),
                printer@ == (SummaryView { warning: printer@.warning, ..old(printer)@ }),
                printer@.warning + check_warnings_from(self.targets(), i as int, fact@) == goal,
            decreases self.groups@.len() - i,
        {
            let group = &self.groups[i];
            let group_header: &'static str = group.0;
            let ghost headerv = self.targets()[i as int].0;
            let ghost patternsv = self.targets()[i as int].1;
            proof {
                assert(headerv == group_header@ && patternsv == group.1@.map_values(
                    |p: &'static str| p@,
                ));
                assert(check_warnings_from(self.targets(), i as int, fact@)
                    == pattern_warnings_from(headerv, patternsv, 0, fact@) + check_warnings_from(
                    self.targets(),
                    i as int + 1,
                    fact@,
                ));
            }
            let mut j: usize = 0;
            while j < group.1.len()
                invariant
                    j <= group.1@.len(),
                    goal == old(printer)@.warning + check_warnings(self.targets(), fact@),
                    printer@ == (SummaryView { warning: printer@.warning, ..old(printer)@ }),
                    headerv == group_header@,
                    patternsv == group.1@.map_values(|p: &'static str| p@),
                    printer@.warning + pattern_warnings_from(headerv, patternsv, j as int, fact@)
                        + check_warnings_from(self.targets(), i as int + 1, fact@) == goal,
                decreases group.1@.len() - j,
            {
                let pattern: &'static str = group.1[j];
                proof {
                    assert(patternsv[j as int] == pattern@);
                }
                let matched = pattern_matches(pattern, fact);
                let ghost pre = printer@.warning;
                if let Some(true) = matched {
                    let mut header = String::new();
                    header.push_str(group_header);
                    header.push_str(" pattern");
                    proof {
                        assert(header@ =~= headerv + " pattern"@);
                    }
                    printer.add_warning(header, pattern.to_owned());
                    proof {
                        assert(printer@.warning =~= pre + seq![(headerv + " pattern"@, pattern@)]);
                    }
                }
                proof {
                    assert(pattern_warnings_from(headerv, patternsv, j as int, fact@) == (if
                    regex_compiles(patternsv[j as int]) && regex_match(patternsv[j as int], fact@) {
                        seq![(headerv + " pattern"@, patternsv[j as int])]
                    } else {
                        Seq::<(Seq<char>, Seq<char>)>::empty()
                    }) + pattern_warnings_from(headerv, patternsv, j as int + 1, fact@));
                    assert(printer@.warning + pattern_warnings_from(
                        headerv,
                        patternsv,
                        j as int + 1,
                        fact@,
                    ) + check_warnings_from(self.targets(), i as int + 1, fact@) =~= goal);
                }
                j += 1;
            }
            i += 1;
        }
        proof {
            assert(final(printer)@.warning =~= old(printer)@.warning + check_warnings(
                self.targets(),
                fact@,
            ));
            assert(final(printer)@ =~= (SummaryView {
                warning: old(printer)@.warning + check_warnings(self.targets(), fact@),
                ..old(printer)@
            }));
        }
    }
}

} // verus!
