use snaplate::guard::CaptureGuard;
use snaplate::history::HistoryRing;
use snaplate::history::HISTORY_CAPACITY;

#[test]
fn guard_admits_only_the_first_of_a_burst() {
    let mut g = CaptureGuard::new();
    assert!(g.try_acquire());
    assert!(!g.try_acquire());
    assert!(!g.try_acquire());
    g.release();
    assert!(g.try_acquire());
    g.cancel();
    assert!(g.try_acquire());
}

#[test]
fn insert_keeps_most_recent_first() {
    let mut ring = HistoryRing::new();
    assert_eq!(ring.len(), 0);
    assert!(ring.insert(String::from("a.png")).is_none());
    assert!(ring.insert(String::from("b.png")).is_none());
    assert!(ring.insert(String::from("c.png")).is_none());
    assert_eq!(ring.len(), 3);
    assert_eq!(ring.current().map(String::as_str), Some("c.png"));
}

#[test]
fn inserts_beyond_the_bound_evict_the_oldest_in_order() {
    let mut ring = HistoryRing::new();
    let total = 25usize;
    let mut evicted: Vec<String> = Vec::new();
    for i in 0..total {
        if let Some(old) = ring.insert(format!("shot-{}.png", i)) {
            evicted.push(old);
        }
    }
    assert_eq!(ring.len(), HISTORY_CAPACITY);
    assert_eq!(evicted.len(), total - HISTORY_CAPACITY);
    for (k, path) in evicted.iter().enumerate() {
        assert_eq!(path, &format!("shot-{}.png", k));
    }
    // The survivors are the most recent, newest first.
    assert_eq!(ring.current().map(String::as_str), Some("shot-24.png"));
    let mut ring2 = ring;
    ring2.advance_cursor();
    assert_eq!(ring2.current().map(String::as_str), Some("shot-23.png"));
}

#[test]
fn cursor_wraps_and_resets_on_insert() {
    let mut ring = HistoryRing::new();
    ring.insert(String::from("one"));
    ring.insert(String::from("two"));
    assert_eq!(ring.current().map(String::as_str), Some("two"));
    ring.advance_cursor();
    assert_eq!(ring.current().map(String::as_str), Some("one"));
    ring.advance_cursor();
    assert_eq!(ring.current().map(String::as_str), Some("two"));
    ring.advance_cursor();
    ring.insert(String::from("three"));
    assert_eq!(ring.current().map(String::as_str), Some("three"));
}

#[test]
fn viewing_an_empty_history_is_a_no_op() {
    let mut ring = HistoryRing::new();
    assert!(ring.current().is_none());
    ring.advance_cursor();
    assert!(ring.current().is_none());
}

#[test]
fn clear_hands_back_every_path() {
    let mut ring = HistoryRing::new();
    ring.insert(String::from("a"));
    ring.insert(String::from("b"));
    let removed = ring.clear();
    assert_eq!(removed, vec![String::from("b"), String::from("a")]);
    assert_eq!(ring.len(), 0);
    assert!(ring.current().is_none());
}
