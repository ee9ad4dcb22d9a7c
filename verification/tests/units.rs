//! Unit tests of the parsers, the store, and the queue.

use square_backend::hello_world::HelloWorld;
use square_backend::num::{Decimal, parse_u64, parse_decimal};
use square_backend::queue::{CommandQueue, PopOutcome};
use square_backend::world::{World, Vec2};

fn dec(neg: bool, int_part: u64, frac_part: u64, frac_len: usize) -> Decimal {
    Decimal { neg, int_part, frac_part, frac_len }
}

#[test]
fn parse_u64_basics() {
    assert_eq!(parse_u64("0"), Some(0));
    assert_eq!(parse_u64("123"), Some(123));
    assert_eq!(parse_u64("007"), Some(7));
    assert_eq!(parse_u64(""), None);
    assert_eq!(parse_u64("12a"), None);
    assert_eq!(parse_u64("-1"), None);
    assert_eq!(parse_u64(" 1"), None);
}

#[test]
fn parse_u64_bounds() {
    assert_eq!(parse_u64("18446744073709551615"), Some(u64::MAX));
    assert_eq!(parse_u64("18446744073709551616"), None);
    assert_eq!(parse_u64("99999999999999999999999"), None);
}

#[test]
fn parse_decimal_basics() {
    assert_eq!(parse_decimal("0"), Some(dec(false, 0, 0, 0)));
    assert_eq!(parse_decimal("3.5"), Some(dec(false, 3, 5, 1)));
    assert_eq!(parse_decimal("-2.0"), Some(dec(true, 2, 0, 1)));
    assert_eq!(parse_decimal("2.05"), Some(dec(false, 2, 5, 2)));
    assert_eq!(parse_decimal("10"), Some(dec(false, 10, 0, 0)));
    assert_eq!(parse_decimal("-7"), Some(dec(true, 7, 0, 0)));
}

#[test]
fn parse_decimal_rejects() {
    assert_eq!(parse_decimal(""), None);
    assert_eq!(parse_decimal("-"), None);
    assert_eq!(parse_decimal("."), None);
    assert_eq!(parse_decimal("1."), None);
    assert_eq!(parse_decimal(".5"), None);
    assert_eq!(parse_decimal("1.2.3"), None);
    assert_eq!(parse_decimal("+1"), None);
    assert_eq!(parse_decimal("1e3"), None);
    assert_eq!(parse_decimal("--1"), None);
}

#[test]
fn world_create_and_deferred_commit() {
    let mut w = World::new();
    let e = w.create();
    assert_eq!(e.id, 0);
    assert!(w.exists_entity(0));
    let v = Vec2 { x: dec(false, 1, 0, 0), y: dec(false, 2, 0, 0) };
    w.insert_position_deferred(e, v);
    assert_eq!(w.get_position(0), None);
    w.maintain();
    assert_eq!(w.get_position(0), Some(v));
}

#[test]
fn world_set_velocity_needs_committed_component() {
    let mut w = World::new();
    let e = w.create();
    let v = Vec2 { x: dec(false, 1, 0, 0), y: dec(false, 1, 0, 0) };
    assert!(!w.set_velocity(e.id, v));
    w.insert_velocity_deferred(e, v);
    assert!(!w.set_velocity(e.id, v));
    w.maintain();
    let v2 = Vec2 { x: dec(true, 4, 5, 1), y: dec(false, 0, 0, 0) };
    assert!(w.set_velocity(e.id, v2));
    assert_eq!(w.get_velocity(e.id), Some(v2));
}

#[test]
fn world_destroy_and_reuse_bumps_generation() {
    let mut w = World::new();
    let e0 = w.create();
    let e1 = w.create();
    assert_eq!((e0.id, e1.id), (0, 1));
    assert!(w.destroy(e0));
    assert!(!w.exists_entity(0));
    assert!(!w.destroy(e0));
    let e2 = w.create();
    assert_eq!(e2.id, 0);
    assert!(e2.gen > e0.gen);
    assert!(w.exists_entity(0));
}

#[test]
fn world_stale_deferred_insert_is_dropped() {
    let mut w = World::new();
    let e = w.create();
    let v = Vec2 { x: dec(false, 9, 0, 0), y: dec(false, 9, 0, 0) };
    w.insert_position_deferred(e, v);
    assert!(w.destroy(e));
    let e2 = w.create();
    assert_eq!(e2.id, e.id);
    w.maintain();
    assert_eq!(w.get_position(e2.id), None);
}

#[test]
fn queue_is_fifo_and_tells_empty_from_closed() {
    let mut q = CommandQueue::new();
    match q.try_pop() {
        PopOutcome::Empty => {},
        _ => panic!("an open empty queue must report Empty"),
    }
    q.push(None);
    q.push(Some(Vec::new()));
    match q.try_pop() {
        PopOutcome::Popped(None) => {},
        _ => panic!("the first push must come out first"),
    }
    q.close();
    match q.try_pop() {
        PopOutcome::Popped(Some(fields)) => assert!(fields.is_empty()),
        _ => panic!("a closed queue still drains its entries"),
    }
    match q.try_pop() {
        PopOutcome::Disconnected => {},
        _ => panic!("a drained closed queue must report Disconnected"),
    }
}

#[test]
fn hello_world_line() {
    assert_eq!(HelloWorld.run(), "Hello World!");
}
