use clipstack::entry::ClipEntry;
use clipstack::monitor::Monitor;
use clipstack::monitor::PlatformError;
use clipstack::query::query;
use clipstack::store::ClipboardStack;

fn reading(text: &str) -> Result<String, PlatformError> {
    Ok(String::from(text))
}

fn failed_reading() -> Result<String, PlatformError> {
    Err(PlatformError { message: String::from("clipboard inaccessible") })
}

fn stack_contents(monitor: &Monitor) -> Vec<String> {
    monitor.stack.iter().into_iter().map(|e| e.content).collect()
}

#[test]
fn tick_records_new_content() {
    let mut monitor = Monitor::new(50, 500, String::new());
    monitor.tick(reading("first"));
    assert_eq!(stack_contents(&monitor), vec!["first"]);
    assert_eq!(monitor.last_seen, "first");
    monitor.tick(reading("second"));
    assert_eq!(stack_contents(&monitor), vec!["second", "first"]);
    assert_eq!(monitor.last_seen, "second");
}

#[test]
fn tick_ignores_unchanged_content() {
    let mut monitor = Monitor::new(50, 500, String::from("same"));
    monitor.tick(reading("same"));
    assert_eq!(monitor.stack.len(), 0);
    assert_eq!(monitor.last_seen, "same");
}

#[test]
fn tick_swallows_read_failures() {
    let mut monitor = Monitor::new(50, 500, String::from("X"));
    monitor.tick(failed_reading());
    assert_eq!(monitor.stack.len(), 0);
    assert_eq!(monitor.last_seen, "X");
}

#[test]
fn empty_reading_never_records() {
    let mut monitor = Monitor::new(50, 500, String::from("X"));
    monitor.tick(reading(""));
    assert_eq!(monitor.stack.len(), 0);
    assert_eq!(monitor.last_seen, "X");
}

#[test]
fn echo_of_copy_back_is_suppressed() {
    let mut monitor = Monitor::new(50, 500, String::from("X"));
    monitor.record_write(String::from("Y"));
    assert_eq!(monitor.last_seen, "Y");
    monitor.tick(reading("Y"));
    assert_eq!(monitor.stack.len(), 0);
    assert_eq!(monitor.last_seen, "Y");
}

#[test]
fn record_write_leaves_history_untouched() {
    let mut monitor = Monitor::new(50, 500, String::new());
    monitor.tick(reading("kept"));
    monitor.record_write(String::from("gone already"));
    assert_eq!(stack_contents(&monitor), vec!["kept"]);
    assert_eq!(monitor.last_seen, "gone already");
}

#[test]
fn disabled_monitor_is_inert() {
    let mut monitor = Monitor::new(50, 500, String::from("X"));
    monitor.set_enabled(false);
    monitor.tick(reading("one"));
    monitor.tick(reading("two"));
    monitor.tick(reading("three"));
    assert_eq!(monitor.stack.len(), 0);
    assert_eq!(monitor.last_seen, "X");
    monitor.set_enabled(true);
    monitor.tick(reading("four"));
    assert_eq!(stack_contents(&monitor), vec!["four"]);
}

fn sample_store() -> ClipboardStack {
    let mut stack = ClipboardStack::new(50);
    stack.push(ClipEntry::new(String::from("HELLO again")));
    stack.push(ClipEntry::new(String::from("goodbye")));
    stack.push(ClipEntry::new(String::from("Hello World")));
    stack
}

#[test]
fn query_filter_is_case_insensitive_and_keeps_ranks() {
    let stack = sample_store();
    let result = query(&stack, "hello");
    assert_eq!(result.len(), 2);
    assert_eq!(result[0].0, 0);
    assert_eq!(result[0].1.content, "Hello World");
    assert_eq!(result[1].0, 2);
    assert_eq!(result[1].1.content, "HELLO again");
}

#[test]
fn query_uppercase_filter_matches_lowercase_content() {
    let stack = sample_store();
    let result = query(&stack, "GOODBYE");
    assert_eq!(result.len(), 1);
    assert_eq!(result[0].0, 1);
    assert_eq!(result[0].1.content, "goodbye");
}

#[test]
fn query_empty_filter_returns_everything_ranked() {
    let stack = sample_store();
    let result = query(&stack, "");
    assert_eq!(result.len(), 3);
    for (rank, pair) in result.iter().enumerate() {
        assert_eq!(pair.0, rank);
    }
    assert_eq!(result[0].1.content, "Hello World");
    assert_eq!(result[1].1.content, "goodbye");
    assert_eq!(result[2].1.content, "HELLO again");
}

#[test]
fn query_without_match_is_empty() {
    let stack = sample_store();
    assert!(query(&stack, "farewell").is_empty());
}

#[test]
fn query_on_empty_store_is_empty() {
    let stack = ClipboardStack::new(50);
    assert!(query(&stack, "").is_empty());
    assert!(query(&stack, "x").is_empty());
}
