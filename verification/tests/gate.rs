use mvdist::Gate;
use std::cell::Cell;

#[test]
fn with_exclusive_access_returns_what_the_closure_returned() {
    let gate = Gate::new();
    assert_eq!(gate.with_exclusive_access(|| 6 * 7), 42);
    assert_eq!(gate.with_exclusive_access(|| String::from("done")), "done");
}

#[test]
fn with_exclusive_access_runs_the_closure_once() {
    let gate = Gate::new();
    let runs = Cell::new(0);
    gate.with_exclusive_access(|| runs.set(runs.get() + 1));
    assert_eq!(runs.get(), 1);
}

#[test]
fn with_exclusive_access_lets_go_when_the_closure_is_done() {
    let gate = Gate::new();
    let mut total = 0;
    for i in 0..100 {
        total += gate.with_exclusive_access(|| i);
    }
    assert_eq!(total, 4950);
}

#[test]
fn two_gates_do_not_wait_for_each_other() {
    let outer = Gate::new();
    let inner = Gate::new();
    let value = outer.with_exclusive_access(|| inner.with_exclusive_access(|| 5) + 1);
    assert_eq!(value, 6);
}

#[test]
fn the_lock_is_held_while_the_closure_runs_and_no_longer() {
    let gate = Gate::new();
    assert!(!gate.is_held());
    let seen = gate.with_exclusive_access(|| gate.is_held());
    assert!(seen);
    assert!(!gate.is_held());
}

#[test]
fn holding_one_gate_leaves_another_free() {
    let held = Gate::new();
    let free = Gate::new();
    held.with_exclusive_access(|| {
        assert!(held.is_held());
        assert!(!free.is_held());
    });
}
