use saturation_monitor::cycles::CycleDetector;
use saturation_monitor::fact_checker::FactChecker;
use saturation_monitor::flush_iteration;
use saturation_monitor::iteration_summary::IterationSummary;
use saturation_monitor::printer::Printer;
use saturation_monitor::rule_explainer::QueryExplainer;
use saturation_monitor::saturation_state::{Iteration, SaturationProgress, SaturationState};
use saturation_monitor::Cli;

fn quiet_cli() -> Cli {
    Cli {
        all: false,
        detect_all: false,
        detect_high_counters: false,
        detect_cycles: false,
        print_all: false,
        print_query: false,
        print_new_queue_entries: false,
        print_selected_facts: false,
        explain_query: None,
    }
}

fn strings(items: &[&str]) -> Vec<String> {
    items.iter().map(|s| s.to_string()).collect()
}

fn iteration(index: usize, in_queue: usize, query: &str, new_entries: &[&str]) -> Iteration {
    Iteration {
        progress: SaturationProgress {
            iteration: index,
            with_conclusion_selected: 0,
            with_hypothesis_selected: 0,
            in_queue,
        },
        query: query.to_string(),
        hypothesis_fact_selected: None,
        conclusion_fact_selected: None,
        new_queue_entries: strings(new_entries),
    }
}

#[test]
fn rule_explainer_test_get_new_queue_entries() {
    let iteration0 = iteration(0, 2, "c", &["a", "b"]);
    let iteration1 = iteration(1, 2, "a", &["d"]);
    let iteration2 = iteration(2, 1, "b", &[]);
    let iteration3 = iteration(3, 2, "d", &["e", "f"]);

    let iterations: Vec<Iteration> = vec![iteration0, iteration1, iteration2, iteration3];
    let ancestry = vec![3, 1, 0];
    assert_eq!(
        QueryExplainer::get_ancestry(&iterations)
            .iter()
            .map(|x| x.progress.iteration)
            .collect::<Vec<usize>>(),
        ancestry
    );
}

#[test]
fn ancestry_of_no_iterations_is_empty() {
    let iterations: Vec<Iteration> = Vec::new();
    assert!(QueryExplainer::get_ancestry(&iterations).is_empty());
}

#[test]
fn suspicious_fact_gets_a_pattern_warning() {
    let mut cli = quiet_cli();
    cli.detect_high_counters = true;
    let checker = FactChecker::new(&cli);

    let mut summary = IterationSummary::new(
        "sel".to_string(),
        "q".to_string(),
        Vec::new(),
        "prog".to_string(),
    );
    checker.check("mess2(chan,42,rest)", &mut summary);
    let mut printer = Printer::new();
    summary.print(&cli, &mut printer);
    assert_eq!(
        printer.lines,
        vec![
            "".to_string(),
            "Selected: sel".to_string(),
            "\x1b[38;5;208mHighCounter pattern\x1b[0m: mess2\\(.+,[0-9]{2,},.+\\)".to_string(),
            "Total: prog".to_string(),
            "".to_string(),
        ]
    );
}

#[test]
fn harmless_facts_and_disabled_detection_warn_about_nothing() {
    let mut cli = quiet_cli();
    cli.detect_high_counters = true;
    let checker = FactChecker::new(&cli);
    let mut summary = IterationSummary::new(
        "sel".to_string(),
        "q".to_string(),
        Vec::new(),
        "prog".to_string(),
    );
    checker.check("mess2(chan,7)", &mut summary);
    let mut printer = Printer::new();
    summary.print(&cli, &mut printer);
    assert_eq!(printer.lines, vec!["prog\tSelected: sel".to_string()]);

    let checker = FactChecker::new(&quiet_cli());
    let mut summary = IterationSummary::new(
        "sel".to_string(),
        "q".to_string(),
        Vec::new(),
        "prog".to_string(),
    );
    checker.check("mess2(chan,42,rest)", &mut summary);
    let mut printer = Printer::new();
    summary.print(&quiet_cli(), &mut printer);
    assert_eq!(printer.lines, vec!["prog\tSelected: sel".to_string()]);
}

#[test]
fn premature_flush_reports_an_internal_diagnostic() {
    let cli = quiet_cli();
    let mut state = SaturationState::new();
    let checker = FactChecker::new(&cli);
    let mut detector = CycleDetector::new();
    let mut printer = Printer::new();

    state.set_query("q".to_string());
    flush_iteration(&cli, &mut state, &checker, &mut detector, &mut printer);
    assert_eq!(
        printer.lines,
        vec!["\x1b[91mBug\x1b[0m: premature iteration completion".to_string()]
    );
    assert!(state.iterations.is_empty());
}

#[test]
fn flushed_turn_prints_its_summary_with_ancestry() {
    let mut cli = quiet_cli();
    cli.explain_query = Some(0);
    let mut state = SaturationState::new();
    let checker = FactChecker::new(&cli);
    let mut detector = CycleDetector::new();
    let mut printer = Printer::new();

    state.set_saturation_progress(1, 2, 3, 4);
    state.set_query("q1".to_string());
    state.set_hypothesis_fact_selected("f".to_string(), 9);
    flush_iteration(&cli, &mut state, &checker, &mut detector, &mut printer);
    assert_eq!(state.iterations.len(), 1);
    // The asked-for index 0 never matches: the freshly completed iteration
    // already counts, so only the plain summary line appears.
    assert_eq!(
        printer.lines,
        vec!["1 (2c, 3h, 4q)\tSelected: hypothesis f".to_string()]
    );

    // A flush that brings the iteration count to the asked-for index
    // explains the selection of the newest iteration.
    let mut printer = Printer::new();
    cli.explain_query = Some(2);
    state.set_saturation_progress(2, 2, 4, 4);
    state.set_query("q2".to_string());
    state.set_conclusion_fact_selected("c".to_string());
    flush_iteration(&cli, &mut state, &checker, &mut detector, &mut printer);
    assert_eq!(
        printer.lines,
        vec![
            "".to_string(),
            "Selected: conclusion c".to_string(),
            "Ancestors:".to_string(),
            "- 2\tconclusion selected\t\tq2".to_string(),
            "Total: 2 (2c, 4h, 4q)".to_string(),
            "".to_string(),
        ]
    );
}

#[test]
fn high_counter_patterns_are_composed_only_when_asked() {
    let mut cli = quiet_cli();
    assert!(saturation_monitor::fact_checker::compose_targets(&cli).is_empty());

    cli.detect_high_counters = true;
    let groups = saturation_monitor::fact_checker::compose_targets(&cli);
    assert_eq!(groups.len(), 1);
    assert_eq!(groups[0].0, "HighCounter");
    assert_eq!(
        groups[0].1,
        vec![
            "mess2\\(.+,[0-9]{2,},.+\\)",
            "mess2\\(.+,[0-9]{2,}\\)",
            "table2\\(.+[,\\(][0-9]{2,}[,\\(].+\\)",
        ]
    );
}
