use nes_host::nes::messages::{fresh, Messages};

#[test]
fn messages_live_for_three_seconds() {
    assert!(fresh(1000, 1000));
    assert!(fresh(1000, 3999));
    assert!(!fresh(1000, 4000));
    assert!(fresh(1000, 0));
    assert!(fresh(u64::MAX, u64::MAX));
    assert!(!fresh(0, 3000));
}

#[test]
fn old_messages_are_dropped() {
    let mut m = Messages::new();
    m.add_message("one".to_string(), 0);
    m.add_message("two".to_string(), 1000);
    m.add_message("three".to_string(), 2000);
    assert_eq!(m.render_messages(2500), vec!["one", "two", "three"]);
    assert_eq!(m.render_messages(3000), vec!["two", "three"]);
    assert_eq!(m.entries.len(), 2);
    assert_eq!(m.render_messages(4999), vec!["three"]);
    assert!(m.render_messages(5000).is_empty());
    assert!(m.entries.is_empty());
}

#[test]
fn repeats_are_shown_once() {
    let mut m = Messages::new();
    for (text, at) in [("a", 0), ("a", 1), ("b", 2), ("a", 3), ("a", 4), ("a", 5), ("b", 6)] {
        m.add_message(text.to_string(), at);
    }
    assert_eq!(m.render_messages(10), vec!["a", "b", "a", "b"]);
    let kept: Vec<u64> = m.entries.iter().map(|e| e.created_ms).collect();
    assert_eq!(kept, vec![0, 2, 3, 6]);
}

#[test]
fn repeats_are_found_after_old_messages_go() {
    let mut m = Messages::new();
    m.add_message("a".to_string(), 5000);
    m.add_message("b".to_string(), 0);
    m.add_message("a".to_string(), 6000);
    assert_eq!(m.render_messages(7000), vec!["a"]);
    assert_eq!(m.entries[0].created_ms, 5000);
}
