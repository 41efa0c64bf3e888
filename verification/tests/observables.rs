use nexosim_core::observables::{Observable, ObservableState, ObservableValue, Output};

#[test]
fn new_container_has_default_state_and_no_emission() {
    let out: Output<u64> = Output::new();
    let state: ObservableValue<u64> = ObservableState::new(out);
    assert_eq!(*state.get(), 0);
    assert!(state.emissions().is_empty());
}

#[test]
fn get_does_not_emit() {
    let out: Output<u64> = Output::new();
    let state: ObservableValue<u64> = ObservableState::new(out);
    let _ = state.get();
    let _ = state.get();
    assert!(state.emissions().is_empty());
}

#[test]
fn set_updates_state_and_emits_exactly_once() {
    let out: Output<u64> = Output::new();
    let mut state: ObservableValue<u64> = ObservableState::new(out);
    state.set(5);
    assert_eq!(*state.get(), 5);
    assert_eq!(state.emissions().as_slice(), &[5]);
    state.set(9);
    assert_eq!(*state.get(), 9);
    assert_eq!(state.emissions().as_slice(), &[5, 9]);
}

#[test]
fn modify_increments_counter_emits_new_value_and_returns_result() {
    let out: Output<u64> = Output::new();
    let mut state: ObservableValue<u64> = ObservableState::new(out);
    state.set(3);
    let r = state.modify(|s: u64| (s + 1, s * 10));
    assert_eq!(r, 30);
    assert_eq!(*state.get(), 4);
    assert_eq!(state.emissions().as_slice(), &[3, 4]);
}

#[test]
fn propagate_twice_emits_two_identical_snapshots() {
    let out: Output<u64> = Output::new();
    let mut state: ObservableValue<u64> = ObservableState::new(out);
    state.set(7);
    state.propagate();
    state.propagate();
    assert_eq!(*state.get(), 7);
    assert_eq!(state.emissions().as_slice(), &[7, 7, 7]);
}

#[test]
fn observe_of_cloneable_state_is_identity_copy() {
    let v: u64 = 42;
    let o: u64 = Observable::<u64>::observe(&v);
    assert_eq!(o, 42);
}

struct Parity {
    count: u64,
}

impl Default for Parity {
    fn default() -> Self {
        Parity { count: 0 }
    }
}

impl Observable<bool> for Parity {
    fn observe_spec(&self) -> bool {
        self.count % 2 == 0
    }

    fn observe(&self) -> bool {
        self.count % 2 == 0
    }
}

#[test]
fn custom_observable_emits_projection_not_full_state() {
    let out: Output<bool> = Output::new();
    let mut state: ObservableState<Parity, bool> = ObservableState::new(out);
    state.set(Parity { count: 3 });
    state.set(Parity { count: 4 });
    assert_eq!(state.get().count, 4);
    assert_eq!(state.emissions().as_slice(), &[false, true]);
}
