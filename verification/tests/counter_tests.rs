use rust_server::counter::{index_handler, RequestCounter};

#[test]
fn counter_starts_at_zero() {
    let c = RequestCounter::new();
    assert_eq!(c.count, 0);
}

#[test]
fn batch_of_increments_is_exact() {
    // A linearized batch of root requests: every observed value is unique,
    // the values are 1..=n in order, and the final count is the batch size.
    let n: u64 = 100;
    let mut c = RequestCounter::new();
    let mut seen = Vec::new();
    for i in 1..=n {
        let v = c.increment();
        assert_eq!(v, i);
        assert!(!seen.contains(&v));
        seen.push(v);
    }
    assert_eq!(c.count, n);
}

#[test]
fn index_bodies_count_up() {
    let mut c = RequestCounter::new();
    let first = index_handler(&mut c);
    let second = index_handler(&mut c);
    assert_eq!(first, "Request number: 1");
    assert_eq!(second, "Request number: 2");
    assert_eq!(c.count, 2);
}

#[test]
fn index_body_renders_larger_values() {
    let mut c = RequestCounter { count: 41 };
    let body = index_handler(&mut c);
    assert_eq!(body, "Request number: 42");
    assert_eq!(c.count, 42);
}
