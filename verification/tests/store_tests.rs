use clipstack::entry::ClipEntry;
use clipstack::store::ClipboardStack;

fn entry(text: &str) -> ClipEntry {
    ClipEntry::new(String::from(text))
}

fn contents(stack: &ClipboardStack) -> Vec<String> {
    stack.iter().into_iter().map(|e| e.content).collect()
}

#[test]
fn entry_new_keeps_content() {
    let e = entry("hello");
    assert_eq!(e.content, "hello");
}

#[test]
fn push_and_get() {
    let mut stack = ClipboardStack::new(50);
    assert_eq!(stack.len(), 0);
    stack.push(entry("a"));
    assert_eq!(stack.len(), 1);
    assert_eq!(stack.get(0).unwrap().content, "a");
}

#[test]
fn get_out_of_range_is_none() {
    let mut stack = ClipboardStack::new(50);
    assert!(stack.get(0).is_none());
    stack.push(entry("a"));
    assert!(stack.get(1).is_none());
    assert!(stack.get(usize::MAX).is_none());
}

#[test]
fn push_dedup_never_duplicates() {
    let mut stack = ClipboardStack::new(50);
    stack.push(entry("a"));
    stack.push(entry("b"));
    stack.push(entry("a"));
    assert_eq!(stack.len(), 2);
    let texts = contents(&stack);
    for i in 0..texts.len() {
        for j in 0..i {
            assert_ne!(texts[i], texts[j]);
        }
    }
    assert_eq!(texts, vec!["a", "b"]);
}

#[test]
fn repush_moves_to_front_and_keeps_len() {
    let mut stack = ClipboardStack::new(50);
    stack.push(entry("a"));
    stack.push(entry("b"));
    stack.push(entry("c"));
    assert_eq!(stack.len(), 3);
    stack.push(entry("b"));
    assert_eq!(stack.len(), 3);
    assert_eq!(contents(&stack), vec!["b", "c", "a"]);
}

#[test]
fn mru_order_three_then_repush_oldest() {
    let mut stack = ClipboardStack::new(50);
    stack.push(entry("A"));
    stack.push(entry("B"));
    stack.push(entry("C"));
    assert_eq!(contents(&stack), vec!["C", "B", "A"]);
    stack.push(entry("A"));
    assert_eq!(contents(&stack), vec!["A", "C", "B"]);
}

#[test]
fn capacity_is_never_exceeded() {
    let mut stack = ClipboardStack::new(3);
    for text in ["1", "2", "3", "4", "5"] {
        stack.push(entry(text));
        assert!(stack.len() <= 3);
    }
    assert_eq!(stack.len(), 3);
}

#[test]
fn full_push_evicts_exactly_the_back() {
    let mut stack = ClipboardStack::new(3);
    stack.push(entry("a"));
    stack.push(entry("b"));
    stack.push(entry("c"));
    assert_eq!(contents(&stack), vec!["c", "b", "a"]);
    stack.push(entry("d"));
    assert_eq!(contents(&stack), vec!["d", "c", "b"]);
}

#[test]
fn repush_on_full_store_evicts_nothing() {
    let mut stack = ClipboardStack::new(2);
    stack.push(entry("a"));
    stack.push(entry("b"));
    stack.push(entry("a"));
    assert_eq!(contents(&stack), vec!["a", "b"]);
}

#[test]
fn capacity_one_keeps_only_newest() {
    let mut stack = ClipboardStack::new(1);
    stack.push(entry("a"));
    stack.push(entry("b"));
    assert_eq!(contents(&stack), vec!["b"]);
}

#[test]
fn clear_is_idempotent() {
    let mut stack = ClipboardStack::new(50);
    stack.push(entry("a"));
    stack.push(entry("b"));
    stack.clear();
    assert_eq!(stack.len(), 0);
    assert!(stack.iter().is_empty());
    stack.clear();
    assert_eq!(stack.len(), 0);
    assert!(stack.iter().is_empty());
    stack.push(entry("c"));
    assert_eq!(stack.len(), 1);
}

#[test]
fn iter_is_a_snapshot() {
    let mut stack = ClipboardStack::new(50);
    stack.push(entry("a"));
    let snapshot = stack.iter();
    stack.push(entry("b"));
    assert_eq!(snapshot.len(), 1);
    assert_eq!(snapshot[0].content, "a");
    assert_eq!(stack.iter().len(), 2);
}
