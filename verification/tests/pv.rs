use std::cmp::{Ordering, Reverse};
use std::collections::BinaryHeap;
use total_priority::{Prio, PV};

/// A payload with no comparison of its own.
struct Opaque(u32);

/// A pair as an entry of a heap, ordered as the pair is.
struct Entry(PV<Prio, String>);

impl PartialEq for Entry {
    fn eq(&self, other: &Entry) -> bool {
        self.0 == other.0
    }
}

impl Eq for Entry {}

impl PartialOrd for Entry {
    fn partial_cmp(&self, other: &Entry) -> Option<Ordering> {
        Some(self.cmp(other))
    }
}

impl Ord for Entry {
    fn cmp(&self, other: &Entry) -> Ordering {
        self.0.cmp(&other.0)
    }
}

#[test]
fn equality_ignores_the_value() {
    let a = PV { p: 5u32, v: "task-A" };
    let b = PV { p: 5u32, v: "task-B" };
    assert!(a == b);
    assert!(!(a != b));
    assert_eq!(a.partial_cmp(&b), Some(Ordering::Equal));
    assert_eq!(a.cmp(&b), Ordering::Equal);
}

#[test]
fn equal_values_do_not_make_pairs_equal() {
    let a = PV { p: 5u32, v: "task" };
    let b = PV { p: 6u32, v: "task" };
    assert!(a != b);
    assert!(!(a == b));
}

#[test]
fn order_is_reversed() {
    let low = PV { p: 1u32, v: "anything" };
    let high = PV { p: 2u32, v: "whatever" };
    assert!(low > high);
    assert!(high < low);
    assert!(low >= high);
    assert!(!(low < high));
    assert!(!(low <= high));
    assert_eq!(low.partial_cmp(&high), Some(Ordering::Greater));
    assert_eq!(high.partial_cmp(&low), Some(Ordering::Less));
    assert_eq!(low.cmp(&high), Ordering::Greater);
    assert_eq!(high.cmp(&low), Ordering::Less);
}

#[test]
fn order_ignores_the_value() {
    let a = PV { p: 1u32, v: 100u32 };
    let b = PV { p: 2u32, v: 0u32 };
    let c = PV { p: 2u32, v: 100u32 };
    assert!(a > b);
    assert!(a > c);
    assert_eq!(b.cmp(&c), Ordering::Equal);
    assert_eq!(b.partial_cmp(&c), Some(Ordering::Equal));
}

#[test]
fn value_needs_no_comparison() {
    let a = PV { p: 1u8, v: Opaque(1) };
    let b = PV { p: 1u8, v: Opaque(2) };
    let c = PV { p: 9u8, v: Opaque(1) };
    assert!(a == b);
    assert!(a != c);
    assert!(c < a);
    assert_eq!(a.cmp(&c), Ordering::Greater);
    assert_eq!(a.v.0, 1);
    assert_eq!(b.v.0, 2);
}

#[test]
fn partial_order_of_the_priority_is_kept() {
    let one = PV { p: 1.0f64, v: () };
    let two = PV { p: 2.0f64, v: () };
    let nan = PV { p: f64::NAN, v: () };
    assert_eq!(one.partial_cmp(&two), Some(Ordering::Greater));
    assert_eq!(two.partial_cmp(&one), Some(Ordering::Less));
    assert_eq!(one.partial_cmp(&nan), None);
    assert_eq!(nan.partial_cmp(&one), None);
    assert!(nan != nan);
    assert!(!(one < nan) && !(one > nan) && !(one == nan));
}

#[test]
fn pairs_of_keys_are_reversed_too() {
    let low = PV { p: Prio::new(1, b"thread-A"), v: "first" };
    let high = PV { p: Prio::new(2, b"thread-A"), v: "second" };
    let again = PV { p: Prio::new(1, b"thread-A"), v: "third" };
    assert!(low > high);
    assert!(high < low);
    assert!(low == again);
    assert!(low != high);
    assert_eq!(low.cmp(&high), Ordering::Greater);
    assert_eq!(low.cmp(&again), Ordering::Equal);
    assert_eq!(low.partial_cmp(&high), Some(Ordering::Greater));
}

#[test]
fn pairs_of_keys_from_two_threads_are_ordered_by_the_tiebreak() {
    // The digest of "a" is below that of "b".
    let a = PV { p: Prio::new(5, b"a"), v: 0u8 };
    let b = PV { p: Prio::new(5, b"b"), v: 0u8 };
    assert!(a.p < b.p);
    assert!(a > b);
    assert!(a != b);
    assert_eq!(a.cmp(&b), Ordering::Greater);
    assert_eq!(b.cmp(&a), Ordering::Less);
}

#[test]
fn comparison_of_pairs_is_the_same_on_every_call() {
    let a = PV { p: 3u64, v: "task-A" };
    let b = PV { p: 4u64, v: "task-B" };
    for _ in 0..1000 {
        assert!(a > b);
        assert!(a != b);
        assert_eq!(a.partial_cmp(&b), Some(Ordering::Greater));
        assert_eq!(a.cmp(&b), Ordering::Greater);
    }
}

#[test]
fn fields_are_kept_as_given() {
    let pair = PV { p: 7usize, v: String::from("payload") };
    assert_eq!(pair.p, 7);
    assert_eq!(pair.v, "payload");
    let PV { p, v } = pair;
    assert_eq!(p, 7);
    assert_eq!(v, "payload");
}

#[test]
fn smaller_key_leaves_a_min_first_queue_last() {
    let a = Prio::new(5, b"thread-A");
    let b = Prio::new(5, b"thread-B");
    assert!(a != b);
    let a_is_smaller = a < b;
    for _ in 0..1000 {
        assert!(a != b);
        assert_eq!(a < b, a_is_smaller);
        assert_eq!(b < a, !a_is_smaller);
    }

    let mut queue = BinaryHeap::new();
    queue.push(Reverse(Entry(PV { p: a, v: String::from("task-A") })));
    queue.push(Reverse(Entry(PV { p: b, v: String::from("task-B") })));

    let Reverse(Entry(first)) = queue.pop().unwrap();
    let Reverse(Entry(last)) = queue.pop().unwrap();
    assert!(queue.pop().is_none());

    assert!(last.p < first.p);
    let (smaller, greater) = if a_is_smaller { ("task-A", "task-B") } else { ("task-B", "task-A") };
    assert_eq!(last.v, smaller);
    assert_eq!(first.v, greater);
    assert!(last.p == if a_is_smaller { a } else { b });
    assert!(first.p == if a_is_smaller { b } else { a });
}

#[test]
fn greatest_pair_is_the_lowest_priority() {
    let mut queue = BinaryHeap::new();
    for (priority, name) in [(3usize, "c"), (1, "a"), (2, "b")] {
        queue.push(Entry(PV { p: Prio::new(priority, b"thread-A"), v: String::from(name) }));
    }
    let mut order = Vec::new();
    while let Some(Entry(pair)) = queue.pop() {
        order.push(pair.v);
    }
    assert_eq!(order, vec!["a", "b", "c"]);
}

#[test]
fn sorting_by_the_pairs_puts_the_highest_priority_first() {
    let mut pairs = vec![
        PV { p: 2u32, v: "two" },
        PV { p: 3u32, v: "three" },
        PV { p: 1u32, v: "one" },
    ];
    pairs.sort_by(|x, y| x.cmp(y));
    let values: Vec<&str> = pairs.iter().map(|pair| pair.v).collect();
    assert_eq!(values, vec!["three", "two", "one"]);
}
