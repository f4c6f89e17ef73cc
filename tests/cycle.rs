use sheet_watch::cell::{join_texts, render_cell, render_row, row_eq, Cell, Snapshot};
use sheet_watch::diff::changed_rows;
use sheet_watch::error::{CycleError, Failure};
use sheet_watch::ids::{lookup_from_words, parse_lookup};
use sheet_watch::lookup::Lookup;
use sheet_watch::message::{compose_message, compose_with_key};
use sheet_watch::monitor::{Action, Fetch, Monitor};
use sheet_watch::throttle::AlertThrottle;

fn s(t: &str) -> Cell {
    Cell::Str(t.to_string())
}

fn n(t: &str) -> Cell {
    Cell::Number(t.to_string())
}

fn lookup_of(pairs: &[(&str, &str)]) -> Lookup {
    let mut l = Lookup::new();
    for (k, v) in pairs {
        l.insert(k.to_string(), v.to_string());
    }
    l
}

/// Runs one cycle to its end, delivering every notification successfully.
fn run_cycle(m: &mut Monitor, fetch: Fetch, lookup: &Lookup, now: u64) -> (Vec<String>, Action) {
    let mut sent = Vec::new();
    let mut action = m.on_fetch(fetch, lookup, now);
    while let Action::Notify(text) = action {
        sent.push(text);
        action = m.on_delivery(true, lookup);
    }
    (sent, action)
}

#[test]
fn changed_indices_are_exactly_the_differing_rows() {
    let old: Snapshot = vec![vec![s("a"), n("1")], vec![s("b"), n("2")], vec![s("c")], vec![s("d")]];
    let new: Snapshot = vec![vec![s("a"), n("1")], vec![s("b"), n("3")], vec![s("c"), Cell::Null], vec![s("d")], vec![s("e")]];
    assert_eq!(changed_rows(&old, &new), vec![1, 2]);
    assert_eq!(changed_rows(&new, &old), vec![1, 2]);
    assert_eq!(changed_rows(&old, &old), Vec::<usize>::new());
}

#[test]
fn cell_kinds_never_compare_equal_across_variants() {
    assert!(!row_eq(&vec![s("1")], &vec![n("1")]));
    assert!(!row_eq(&vec![Cell::Bool(true)], &vec![s("true")]));
    assert!(!row_eq(&vec![Cell::Null], &vec![]));
    assert!(row_eq(&vec![Cell::Null, Cell::Bool(false)], &vec![Cell::Null, Cell::Bool(false)]));
}

#[test]
fn second_cycle_on_unchanged_source_is_quiet() {
    let lookup = Lookup::new();
    let mut m = Monitor::new(vec![vec![s("a1"), n("5")]]);
    let (sent, end) = run_cycle(&mut m, Fetch::Rows(vec![vec![s("a1"), n("6")]]), &lookup, 10);
    assert_eq!(sent.len(), 1);
    assert_eq!(end, Action::Done);
    let (sent, end) = run_cycle(&mut m, Fetch::Rows(vec![vec![s("a1"), n("6")]]), &lookup, 15);
    assert!(sent.is_empty());
    assert_eq!(end, Action::Done);
}

#[test]
fn appended_rows_are_not_notified() {
    let lookup = Lookup::new();
    let mut m = Monitor::new(vec![vec![s("a1")]]);
    let (sent, end) = run_cycle(&mut m, Fetch::Rows(vec![vec![s("a1")], vec![s("b2")], vec![s("c3")]]), &lookup, 0);
    assert!(sent.is_empty());
    assert_eq!(end, Action::Done);
    assert_eq!(m.snapshot().len(), 3);
    assert!(changed_rows(&vec![vec![s("x")]], &vec![vec![s("x")], vec![s("y")]]).is_empty());
}

#[test]
fn throttle_alerts_once_within_ten_minutes() {
    let mut t = AlertThrottle::new();
    assert!(t.on_source_failure(1000));
    assert!(!t.on_source_failure(1060));
    let mut t = AlertThrottle::new();
    assert!(t.on_source_failure(1000));
    assert!(t.on_source_failure(1660));
    let mut t = AlertThrottle::new();
    assert!(t.on_source_failure(0));
    assert!(!t.on_source_failure(600));
    assert!(t.on_source_failure(601));
}

#[test]
fn source_failures_alert_through_the_monitor() {
    let lookup = Lookup::new();
    let mut m = Monitor::new(vec![vec![s("a1")]]);
    assert_eq!(m.on_fetch(Fetch::SourceFailed, &lookup, 100), Action::Failed(CycleError::Source, true));
    assert_eq!(m.on_fetch(Fetch::SourceFailed, &lookup, 160), Action::Failed(CycleError::Source, false));
    assert_eq!(m.on_fetch(Fetch::SourceFailed, &lookup, 760), Action::Failed(CycleError::Source, true));
    assert_eq!(m.snapshot(), &vec![vec![s("a1")]]);
}

#[test]
fn lookup_prefix_uses_uppercased_first_cell() {
    let lookup = lookup_of(&[("A1", "99")]);
    let m = compose_message(&vec![s("a1"), n("5")], &lookup).unwrap();
    assert!(m.starts_with("<@99> "));
    assert_eq!(m, "<@99> \"a1\", 5");
    let m = compose_message(&vec![s("b2"), n("5")], &lookup).unwrap();
    assert_eq!(m, "\"b2\", 5");
}

#[test]
fn compose_with_key_looks_up_the_given_key() {
    let lookup = lookup_of(&[("A1", "99")]);
    let row = vec![s("zz"), Cell::Bool(true)];
    assert_eq!(compose_with_key(&row, &"A1".to_string(), &lookup), "<@99> \"zz\", true");
    assert_eq!(compose_with_key(&row, &"a1".to_string(), &lookup), "\"zz\", true");
}

#[test]
fn single_changed_row_scenario() {
    let lookup = lookup_of(&[("A1", "42")]);
    let mut m = Monitor::new(vec![vec![s("a1"), n("5")]]);
    let (sent, end) = run_cycle(&mut m, Fetch::Rows(vec![vec![s("a1"), n("6")]]), &lookup, 0);
    assert_eq!(sent, vec!["<@42> \"a1\", 6".to_string()]);
    assert_eq!(end, Action::Done);
    assert_eq!(m.snapshot(), &vec![vec![s("a1"), n("6")]]);
}

#[test]
fn timeout_keeps_snapshot_and_sends_nothing() {
    let lookup = lookup_of(&[("A1", "42")]);
    let mut m = Monitor::new(vec![vec![s("a1"), n("5")]]);
    let (sent, end) = run_cycle(&mut m, Fetch::TimedOut, &lookup, 0);
    assert!(sent.is_empty());
    assert_eq!(end, Action::Failed(CycleError::Timeout, false));
    assert_eq!(m.snapshot(), &vec![vec![s("a1"), n("5")]]);
    assert!(!m.in_cycle());
}

#[test]
fn missing_values_is_other_failure() {
    let lookup = Lookup::new();
    let mut m = Monitor::new(vec![vec![s("a1")]]);
    assert_eq!(m.on_fetch(Fetch::NoValues, &lookup, 0), Action::Failed(CycleError::Other(Failure::MissingValues), false));
    assert_eq!(m.snapshot(), &vec![vec![s("a1")]]);
}

#[test]
fn malformed_row_stops_cycle_after_earlier_rows() {
    let lookup = Lookup::new();
    let old = vec![vec![s("a"), n("1")], vec![s("b"), n("1")], vec![s("c"), n("1")]];
    let new = vec![vec![s("a"), n("2")], vec![n("7"), n("2")], vec![s("c"), n("2")]];
    let mut m = Monitor::new(old);
    let (sent, end) = run_cycle(&mut m, Fetch::Rows(new.clone()), &lookup, 0);
    assert_eq!(sent, vec!["\"a\", 2".to_string()]);
    assert_eq!(end, Action::Failed(CycleError::Other(Failure::MalformedRow), false));
    assert_eq!(m.snapshot(), &new);
    assert!(!m.in_cycle());
}

#[test]
fn empty_changed_row_is_malformed() {
    let lookup = Lookup::new();
    assert_eq!(compose_message(&vec![], &lookup), Err(Failure::MalformedRow));
    assert_eq!(compose_message(&vec![Cell::Null, s("x")], &lookup), Err(Failure::MalformedRow));
}

#[test]
fn failed_delivery_ends_cycle_and_keeps_snapshot() {
    let lookup = Lookup::new();
    let old = vec![vec![s("a"), n("1")], vec![s("b"), n("1")]];
    let mut m = Monitor::new(old.clone());
    let first = m.on_fetch(Fetch::Rows(vec![vec![s("a"), n("2")], vec![s("b"), n("2")]]), &lookup, 0);
    assert_eq!(first, Action::Notify("\"a\", 2".to_string()));
    assert!(m.in_cycle());
    assert_eq!(m.on_delivery(false, &lookup), Action::Failed(CycleError::Other(Failure::NotifyFailure), false));
    assert!(!m.in_cycle());
    assert_eq!(m.snapshot(), &old);
}

#[test]
fn notifications_follow_row_order() {
    let lookup = lookup_of(&[("B", "7")]);
    let mut m = Monitor::new(vec![vec![s("a")], vec![s("b")], vec![s("c")]]);
    let (sent, end) = run_cycle(&mut m, Fetch::Rows(vec![vec![s("a"), n("1")], vec![s("b"), n("2")], vec![s("c"), n("3")]]), &lookup, 0);
    assert_eq!(sent, vec!["\"a\", 1".to_string(), "<@7> \"b\", 2".to_string(), "\"c\", 3".to_string()]);
    assert_eq!(end, Action::Done);
}

#[test]
fn cells_render_in_canonical_form() {
    assert_eq!(render_cell(&s("say \"hi\"")), "\"say \\\"hi\\\"\"");
    assert_eq!(render_cell(&s("a1")), "\"a1\"");
    assert_eq!(render_cell(&n("-2.5")), "-2.5");
    assert_eq!(render_cell(&Cell::Bool(true)), "true");
    assert_eq!(render_cell(&Cell::Bool(false)), "false");
    assert_eq!(render_cell(&Cell::Null), "null");
    assert_eq!(render_row(&vec![]), "");
    assert_eq!(render_row(&vec![s("x"), Cell::Null, n("3")]), "\"x\", null, 3");
}

#[test]
fn lookup_text_takes_first_two_words_per_line() {
    let l = parse_lookup("A1 42\n\nB2\nC3   77  extra\r\nA1 43\n");
    assert_eq!(l.len(), 2);
    assert_eq!(l.get(&"A1".to_string()), Some("43".to_string()));
    assert_eq!(l.get(&"C3".to_string()), Some("77".to_string()));
    assert_eq!(l.get(&"B2".to_string()), None);
    assert_eq!(parse_lookup("").len(), 0);
}

#[test]
fn lookup_insert_replaces_value() {
    let mut l = Lookup::new();
    l.insert("K".to_string(), "1".to_string());
    l.insert("K".to_string(), "2".to_string());
    assert_eq!(l.len(), 1);
    assert_eq!(l.get(&"K".to_string()), Some("2".to_string()));
}

#[test]
fn texts_join_with_comma_and_space() {
    let texts: Vec<String> = vec!["a".to_string(), "b".to_string(), "c".to_string()];
    assert_eq!(join_texts(&texts), "a, b, c");
    assert_eq!(join_texts(&vec!["x".to_string()]), "x");
    assert_eq!(join_texts(&vec![]), "");
}

#[test]
fn lookup_from_words_reads_lines_in_order() {
    let w = |ws: &[&str]| ws.iter().map(|x| x.to_string()).collect::<Vec<String>>();
    let l = lookup_from_words(&vec![w(&["A", "1", "x"]), w(&["B"]), w(&[]), w(&["A", "2"]), w(&["C", "3"])]);
    assert_eq!(l.len(), 2);
    assert_eq!(l.get(&"A".to_string()), Some("2".to_string()));
    assert_eq!(l.get(&"C".to_string()), Some("3".to_string()));
    assert_eq!(l.get(&"B".to_string()), None);
}
