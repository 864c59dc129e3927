use saturation_monitor::history::{initialize_history, History};
use saturation_monitor::printer::Printer;
use saturation_monitor::saturation_state::{get_new_queue_entries, SaturationState};
use saturation_monitor::Cli;

fn cli_with(print_selected_facts: bool) -> Cli {
    Cli {
        all: false,
        detect_all: false,
        detect_high_counters: false,
        detect_cycles: false,
        print_all: false,
        print_query: false,
        print_new_queue_entries: false,
        print_selected_facts,
        explain_query: None,
    }
}

fn strings(items: &[&str]) -> Vec<String> {
    items.iter().map(|s| s.to_string()).collect()
}

#[test]
fn saturation_state_test_get_new_queue_entries() {
    let previous_queue = strings(&["a", "b", "c"]);
    let current_queue = strings(&["a", "b", "c", "d"]);
    let new_queue_entries = strings(&["d"]);
    assert_eq!(
        get_new_queue_entries(&previous_queue, &current_queue),
        new_queue_entries
    );

    let current_queue = strings(&["b", "d"]);
    let new_queue_entries = strings(&["d"]);
    assert_eq!(
        get_new_queue_entries(&previous_queue, &current_queue),
        new_queue_entries
    );

    let current_queue = strings(&["d"]);
    let new_queue_entries = strings(&["d"]);
    assert_eq!(
        get_new_queue_entries(&previous_queue, &current_queue),
        new_queue_entries
    );

    let current_queue = vec![];
    let new_queue_entries: Vec<String> = vec![];
    assert_eq!(
        get_new_queue_entries(&previous_queue, &current_queue),
        new_queue_entries
    );

    let previous_queue = vec![];
    let current_queue = strings(&["a"]);
    assert_eq!(
        get_new_queue_entries(&previous_queue, &current_queue),
        current_queue
    );
}

#[test]
fn incomplete_turn_completes_to_nothing_and_keeps_state() {
    let mut state = SaturationState::new();
    state.set_query("q".to_string());
    assert!(state.complete_iteration().is_none());
    // The pending query survives: setting progress afterwards completes.
    state.set_saturation_progress(1, 2, 3, 4);
    assert!(state.complete_iteration().is_some());
    assert_eq!(state.iterations.len(), 1);
}

#[test]
fn completed_iteration_records_queue_diff_and_fact_history() {
    let mut state = SaturationState::new();

    state.set_saturation_progress(1, 0, 1, 2);
    state.set_query("q1".to_string());
    state.set_queue_entry(0, "r1".to_string());
    state.set_queue_entry(1, "r2".to_string());
    state.set_hypothesis_fact_selected("f".to_string(), 10);
    assert!(state.complete_iteration().is_some());
    assert_eq!(state.iterations.len(), 1);
    assert_eq!(state.iterations[0].new_queue_entries, strings(&["r1", "r2"]));
    assert_eq!(state.hypothesis_selected_fact_history, vec![("f".to_string(), 1)]);

    // The same fact again: the last history entry is merged, not appended.
    state.set_saturation_progress(2, 0, 2, 2);
    state.set_query("q2".to_string());
    state.set_queue_entry(0, "r2".to_string());
    state.set_queue_entry(1, "r3".to_string());
    state.set_hypothesis_fact_selected("f".to_string(), 10);
    assert!(state.complete_iteration().is_some());
    assert_eq!(state.iterations[1].new_queue_entries, strings(&["r3"]));
    assert_eq!(state.hypothesis_selected_fact_history, vec![("f".to_string(), 2)]);

    // A conclusion-only iteration leaves the fact history alone.
    state.set_saturation_progress(3, 1, 2, 1);
    state.set_query("q3".to_string());
    state.set_conclusion_fact_selected("c".to_string());
    assert!(state.complete_iteration().is_some());
    assert_eq!(state.hypothesis_selected_fact_history, vec![("f".to_string(), 2)]);

    // A different fact appends a fresh entry with count one.
    state.set_saturation_progress(4, 1, 3, 1);
    state.set_query("q4".to_string());
    state.set_hypothesis_fact_selected("g".to_string(), 11);
    assert!(state.complete_iteration().is_some());
    assert_eq!(
        state.hypothesis_selected_fact_history,
        vec![("f".to_string(), 2), ("g".to_string(), 1)]
    );
}

#[test]
fn repeated_selection_is_described_as_again() {
    let mut state = SaturationState::new();
    let cli = cli_with(false);

    state.set_saturation_progress(1, 2, 3, 4);
    state.set_query("q1".to_string());
    state.set_hypothesis_fact_selected("f".to_string(), 10);
    let summary = state.complete_iteration().unwrap();
    let mut printer = Printer::new();
    summary.print(&cli, &mut printer);
    assert_eq!(
        printer.lines,
        vec!["1 (2c, 3h, 4q)\tSelected: hypothesis f".to_string()]
    );

    state.set_saturation_progress(2, 2, 4, 4);
    state.set_query("q2".to_string());
    state.set_hypothesis_fact_selected("f".to_string(), 10);
    let summary = state.complete_iteration().unwrap();
    let mut printer = Printer::new();
    summary.print(&cli, &mut printer);
    assert_eq!(
        printer.lines,
        vec!["2 (2c, 4h, 4q)\tSelected: hypothesis f (again)".to_string()]
    );
}

#[test]
fn printed_summary_lists_query_and_new_queue_entries_when_asked() {
    let mut state = SaturationState::new();
    let mut cli = cli_with(false);
    cli.print_query = true;
    cli.print_new_queue_entries = true;

    state.set_saturation_progress(1, 0, 0, 2);
    state.set_query("the query".to_string());
    state.set_queue_entry(0, "r1".to_string());
    state.set_queue_entry(1, "r2".to_string());
    state.set_conclusion_fact_selected("c".to_string());
    let summary = state.complete_iteration().unwrap();
    let mut printer = Printer::new();
    summary.print(&cli, &mut printer);
    assert_eq!(
        printer.lines,
        vec![
            "".to_string(),
            "Selected: conclusion c".to_string(),
            "Query: the query".to_string(),
            "New in queue: r1".to_string(),
            "New in queue: r2".to_string(),
            "Total: 1 (0c, 0h, 2q)".to_string(),
            "".to_string(),
        ]
    );
}

#[test]
fn fact_history_merges_runs_and_never_repeats_adjacent_facts() {
    let mut history: History = initialize_history(&cli_with(false));
    let mut printer = Printer::new();

    history.register_selected_fact("f".to_string(), &mut printer);
    history.register_selected_fact("f".to_string(), &mut printer);
    history.register_selected_fact("f".to_string(), &mut printer);
    assert!(history.fact_history.is_empty());

    history.register_selected_fact("g".to_string(), &mut printer);
    assert_eq!(history.fact_history, vec![("f".to_string(), 3)]);

    history.register_selected_fact("f".to_string(), &mut printer);
    history.register_selected_fact("g".to_string(), &mut printer);
    assert_eq!(
        history.fact_history,
        vec![
            ("f".to_string(), 3),
            ("g".to_string(), 1),
            ("f".to_string(), 1),
        ]
    );
    for pair in history.fact_history.windows(2) {
        assert_ne!(pair[0].0, pair[1].0);
    }
    assert_eq!(
        history.fact_occurrence,
        vec![("f".to_string(), 4), ("g".to_string(), 2)]
    );
    assert!(printer.lines.is_empty());
}

#[test]
fn selected_facts_are_echoed_with_their_run_length() {
    let mut history: History = initialize_history(&cli_with(true));
    let mut printer = Printer::new();

    history.register_selected_fact("f".to_string(), &mut printer);
    assert!(printer.lines.is_empty());

    history.register_selected_fact("f".to_string(), &mut printer);
    assert_eq!(printer.lines, vec!["Selected (2x): f".to_string()]);

    history.register_selected_fact("g".to_string(), &mut printer);
    assert_eq!(
        printer.lines,
        vec![
            "Selected (2x): f".to_string(),
            "Selected (2x): f".to_string(),
            "Selected: g".to_string(),
        ]
    );
}

#[test]
fn progress_counters_render_multi_digit_numbers() {
    let mut state = SaturationState::new();
    state.set_saturation_progress(1234, 0, 56, 789);
    state.set_query("q".to_string());
    state.set_hypothesis_fact_selected("f".to_string(), 7);
    let summary = state.complete_iteration().unwrap();
    let mut printer = Printer::new();
    summary.print(&cli_with(false), &mut printer);
    assert_eq!(
        printer.lines,
        vec!["1234 (0c, 56h, 789q)\tSelected: hypothesis f".to_string()]
    );
}

#[test]
fn the_all_flag_also_turns_on_the_selected_fact_echo() {
    let mut cli = cli_with(false);
    cli.all = true;
    let mut history: History = initialize_history(&cli);
    let mut printer = Printer::new();
    history.register_selected_fact("f".to_string(), &mut printer);
    history.register_selected_fact("f".to_string(), &mut printer);
    assert_eq!(printer.lines, vec!["Selected (2x): f".to_string()]);
}
