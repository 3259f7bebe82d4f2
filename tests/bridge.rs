use std::cell::Cell;

use closure_bridge::payload::{apply_closure, record, register, trampoline};
use closure_bridge::thingy::Thingy;

#[test]
fn stateless_callback_records_its_argument() {
    for n in [0, 1, -1, 7, 42, i32::MIN, i32::MAX] {
        let context = register(record);
        let calls = trampoline(n, context);
        assert_eq!(calls, vec![n]);
    }
}

#[test]
fn stateless_callback_prints_shifted_value() {
    let context = register(|n: i32| format!("Got: {}", n + 4));
    assert_eq!(trampoline(7, context), "Got: 11");
}

#[test]
fn registration_does_not_run_the_closure() {
    let runs = Cell::new(0u32);
    let context = register(|n: i32| {
        runs.set(runs.get() + 1);
        n
    });
    assert_eq!(runs.get(), 0);
    assert_eq!(trampoline(3, context), 3);
    assert_eq!(runs.get(), 1);
}

#[test]
fn each_registration_has_exactly_one_effect() {
    let runs = Cell::new(0u32);
    let count = |n: i32| {
        runs.set(runs.get() + 1);
        n
    };
    for expected in 1..=3u32 {
        let context = register(&count);
        trampoline(10, context);
        assert_eq!(runs.get(), expected);
    }
}

#[test]
fn bound_add_moves_counter_by_argument() {
    for (start, n) in [(0, 5), (10, -3), (-7, 7), (i32::MAX - 1, 1), (i32::MIN + 2, -2)] {
        let mut t = Thingy::new(start);
        let context = t.callback(Thingy::added);
        apply_closure(n, context);
        assert_eq!(t, Thingy { count: start + n });
    }
}

#[test]
fn bound_registrations_on_one_receiver() {
    let mut t = Thingy::new(0);
    let context = t.callback(Thingy::added);
    apply_closure(5, context);
    assert_eq!(t.count, 5);
    let context = t.callback(Thingy::decremented);
    apply_closure(0, context);
    assert_eq!(t.count, 4);
}

#[test]
fn bound_closure_sees_current_state() {
    let mut t = Thingy::new(3);
    let context = t.callback(|r: Thingy, n: i32| Thingy::new(r.count * n));
    apply_closure(4, context);
    assert_eq!(t.count, 12);
}

#[test]
fn independent_payloads_do_not_interfere() {
    let first = register(|n: i32| n + 1);
    let second = register(|n: i32| n * 2);
    assert_eq!(trampoline(10, second), 20);
    assert_eq!(trampoline(10, first), 11);

    let mut a = Thingy::new(1);
    let mut b = Thingy::new(100);
    let on_a = a.callback(Thingy::added);
    let on_b = b.callback(Thingy::decremented);
    apply_closure(9, on_b);
    apply_closure(9, on_a);
    assert_eq!(a.count, 10);
    assert_eq!(b.count, 99);
}

#[test]
fn receiver_operations() {
    let mut t = Thingy::new(2);
    t.add_count(-5);
    assert_eq!(t.count, -3);
    t.decrement_count(1000);
    assert_eq!(t.count, -4);
    assert_eq!(Thingy::new(0).added(6), Thingy::new(6));
    assert_eq!(Thingy::new(0).decremented(6), Thingy::new(-1));
}
