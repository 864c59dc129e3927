use saturation_monitor::cycles::{find_cycles, Cycle, CycleDetector};
use saturation_monitor::iteration_summary::IterationSummary;
use saturation_monitor::printer::Printer;
use saturation_monitor::Cli;

fn entry(fact: &str, count: u32) -> (String, u32) {
    (fact.to_string(), count)
}

fn quiet_cli() -> Cli {
    Cli {
        all: false,
        detect_all: false,
        detect_high_counters: false,
        detect_cycles: false,
        print_all: false,
        print_query: false,
        print_new_queue_entries: false,
        print_selected_facts: false,
        explain_query: None,
    }
}

fn fresh_summary() -> IterationSummary {
    IterationSummary::new(
        "sel".to_string(),
        "q".to_string(),
        Vec::new(),
        "prog".to_string(),
    )
}

#[test]
fn test_cycles_no_cycle() {
    let history = vec![entry("a", 1), entry("a", 2), entry("b", 1)];
    assert_eq!(find_cycles(&history), None);

    let history = vec![entry("a", 1), entry("b", 1), entry("a", 1)];
    assert_eq!(find_cycles(&history), None);

    let history = vec![entry("a", 1), entry("b", 2), entry("a", 1)];
    assert_eq!(find_cycles(&history), None);
}

#[test]
fn test_cycles_one_cycle() {
    let history = vec![entry("b", 2), entry("a", 1), entry("a", 1)];
    assert_eq!(find_cycles(&history), Some(Cycle { size: 1, repeat: 2 }));

    let history = vec![
        entry("a", 1),
        entry("a", 2),
        entry("a", 1),
        entry("a", 2),
        entry("a", 1),
    ];
    assert_eq!(find_cycles(&history), Some(Cycle { size: 2, repeat: 2 }));
}

#[test]
fn test_find_number_of_cycles_multiple_cycles() {
    let history = vec![
        entry("a", 1),
        entry("a", 2),
        entry("a", 1),
        entry("a", 2),
        entry("a", 1),
        entry("a", 2),
    ];
    assert_eq!(find_cycles(&history), Some(Cycle { size: 2, repeat: 3 }));
}

#[test]
fn short_histories_have_no_cycle() {
    let empty: Vec<(String, u32)> = Vec::new();
    assert_eq!(find_cycles(&empty), None);

    let single = vec![entry("a", 7)];
    assert_eq!(find_cycles(&single), None);
}

#[test]
fn smallest_period_wins_over_larger_ones() {
    // Both size 1 and size 2 verify at the tail; size 1 must be reported.
    let history = vec![entry("a", 1), entry("a", 1), entry("a", 1), entry("a", 1)];
    assert_eq!(find_cycles(&history), Some(Cycle { size: 1, repeat: 4 }));
}

#[test]
fn repeat_count_covers_at_most_the_history() {
    let mut history = vec![entry("b", 1)];
    for _ in 0..5 {
        history.push(entry("a", 3));
    }
    let cycle = find_cycles(&history).unwrap();
    assert_eq!(cycle, Cycle { size: 1, repeat: 5 });
    assert!(cycle.size * cycle.repeat <= history.len());
}

#[test]
fn cycle_covering_twelve_entries_is_reported_as_info() {
    let mut history = Vec::new();
    for _ in 0..12 {
        history.push(entry("a", 1));
    }
    let mut detector = CycleDetector::new();
    let mut summary = fresh_summary();
    detector.check_cycles(&history, &mut summary);

    let mut printer = Printer::new();
    summary.print(&quiet_cli(), &mut printer);
    assert_eq!(
        printer.lines,
        vec![
            "".to_string(),
            "Selected: sel".to_string(),
            "\x1b[93mCycle\x1b[0m: Cycle { size: 1, repeat: 12 }".to_string(),
            "Total: prog".to_string(),
            "".to_string(),
        ]
    );
}

#[test]
fn long_cycles_escalate_to_warning_and_error() {
    let mut history = Vec::new();
    for _ in 0..101 {
        history.push(entry("a", 1));
    }
    let mut detector = CycleDetector::new();
    let mut summary = fresh_summary();
    detector.check_cycles(&history, &mut summary);
    let mut printer = Printer::new();
    summary.print(&quiet_cli(), &mut printer);
    assert_eq!(
        printer.lines[2],
        "\x1b[38;5;208mCycle\x1b[0m: Cycle { size: 1, repeat: 101 }".to_string()
    );

    let mut history = Vec::new();
    for _ in 0..1001 {
        history.push(entry("a", 1));
    }
    let mut detector = CycleDetector::new();
    let mut summary = fresh_summary();
    detector.check_cycles(&history, &mut summary);
    let mut printer = Printer::new();
    summary.print(&quiet_cli(), &mut printer);
    assert_eq!(
        printer.lines[2],
        "\x1b[91mCycle\x1b[0m: Cycle { size: 1, repeat: 1001 }".to_string()
    );
}

#[test]
fn short_cycles_update_state_but_stay_silent() {
    // size 1, repeat 4: covers only 4 entries, below the reporting floor.
    let history = vec![entry("a", 1), entry("a", 1), entry("a", 1), entry("a", 1)];
    let mut detector = CycleDetector::new();
    let mut summary = fresh_summary();
    detector.check_cycles(&history, &mut summary);
    let mut printer = Printer::new();
    summary.print(&quiet_cli(), &mut printer);
    assert_eq!(printer.lines, vec!["prog\tSelected: sel".to_string()]);
}

#[test]
fn reported_cycle_suppresses_new_diagnostics_for_one_period() {
    // A size-2 cycle reported at length 12 holds a suppression window
    // until the history reaches length 14.
    let mut history = Vec::new();
    for _ in 0..6 {
        history.push(entry("a", 1));
        history.push(entry("a", 2));
    }
    let mut detector = CycleDetector::new();
    let mut summary = fresh_summary();
    detector.check_cycles(&history, &mut summary);
    let mut printer = Printer::new();
    summary.print(&quiet_cli(), &mut printer);
    assert_eq!(
        printer.lines[2],
        "\x1b[93mCycle\x1b[0m: Cycle { size: 2, repeat: 6 }".to_string()
    );

    // One more entry: length 13 is still inside the window, nothing new.
    history.push(entry("a", 1));
    let mut summary = fresh_summary();
    detector.check_cycles(&history, &mut summary);
    let mut printer = Printer::new();
    summary.print(&quiet_cli(), &mut printer);
    assert_eq!(printer.lines, vec!["prog\tSelected: sel".to_string()]);

    // Length 14 leaves the window: the grown cycle is reported again.
    history.push(entry("a", 2));
    let mut summary = fresh_summary();
    detector.check_cycles(&history, &mut summary);
    let mut printer = Printer::new();
    summary.print(&quiet_cli(), &mut printer);
    assert_eq!(
        printer.lines[2],
        "\x1b[93mCycle\x1b[0m: Cycle { size: 2, repeat: 7 }".to_string()
    );
}
