//! Observable states.
//!
//! This module contains types used to implement states automatically
//! propagated to an output sink on change.

use vstd::pervasive::cloned;
use vstd::prelude::*;

verus! {

/// An output sink bound to an observable state. Every snapshot handed to
/// `send` is delivered to the sink's subscribers in call order; the sink
/// keeps the full sequence of values sent through it, oldest first.
pub struct Output<T> {
    sent: Vec<T>,
}

impl<T> View for Output<T> {
    type V = Seq<T>;

    closed spec fn view(&self) -> Seq<T> {
        self.sent@
    }
}

impl<T> Output<T> {
    /// A fresh sink through which nothing has been sent yet.
    pub fn new() -> (r: Self)
        ensures
            r@ == Seq::<T>::empty(),
    {
        Output { sent: Vec::new() }
    }

    /// Delivers one value; it is appended to the sequence of sent values.
    pub fn send(&mut self, value: T)
        ensures
            final(self)@ == old(self)@.push(value),
    {
        self.sent.push(value);
    }

    /// Every value sent through this sink so far, oldest first.
    pub fn sent(&self) -> (r: &Vec<T>)
        ensures
            r@ == self@,
    {
        &self.sent
    }
}

/// Observability trait: how a state yields the value that is emitted.
///
/// `observe_spec` names the observation; `observe` produces it (possibly as
/// a clone). The default behavior for cloneable state is identity-copy;
/// implementers may observe a projection instead of the full state.
pub trait Observable<T: Clone>: Sized {
    /// The value this state observes to.
    spec fn observe_spec(&self) -> T;

    /// Observe the value.
    fn observe(&self) -> (r: T)
        ensures
            cloned(self.observe_spec(), r),
    ;
}

impl<T: Clone> Observable<T> for T {
    open spec fn observe_spec(&self) -> T {
        *self
    }

    fn observe(&self) -> (r: T) {
        self.clone()
    }
}

/// Observable state.
///
/// This object encapsulates state. Every state change access is propagated
/// to the output: each `set`, `modify` or `propagate` appends exactly one
/// snapshot to the sink, strictly after the mutation (if any) completes.
/// Construction and `get` emit nothing.
///
/// The container provides no internal synchronization; it expects one
/// exclusive owner that serializes its own calls, which Rust's `&mut`
/// receivers enforce.
pub struct ObservableState<S, T> where S: Observable<T> + Default, T: Clone + Send + 'static {
    /// State.
    state: S,
    /// Output used for observation.
    out: Output<T>,
}

/// Observable value.
pub type ObservableValue<T> = ObservableState<T, T>;

impl<S, T> ObservableState<S, T> where S: Observable<T> + Default, T: Clone + Send + 'static {
    /// The current state, as contracts see it.
    pub closed spec fn current(&self) -> S {
        self.state
    }

    /// Every snapshot emitted through the sink so far, oldest first.
    pub closed spec fn emitted(&self) -> Seq<T> {
        self.out@
    }

    /// Relates a container to itself after one emission of the observation
    /// of `observed_state`, with the state left at `state_after`.
    pub open spec fn emitted_once(
        self,
        after: Self,
        observed_state: S,
        state_after: S,
    ) -> bool {
        &&& after.current() == state_after
        &&& after.emitted() == self.emitted().push(after.emitted().last())
        &&& cloned(observed_state.observe_spec(), after.emitted().last())
    }

    /// New default state. No emission on construction.
    pub fn new(out: Output<T>) -> (r: Self)
        ensures
            call_ensures(S::default, (), r.current()),
            r.emitted() == out@,
    {
        ObservableState { state: S::default(), out }
    }

    /// The snapshots emitted so far, oldest first. No side effect.
    pub fn emissions(&self) -> (r: &Vec<T>)
        ensures
            r@ == self.emitted(),
    {
        self.out.sent()
    }

    /// Get state. No side effect.
    pub fn get(&self) -> (r: &S)
        ensures
            *r == self.current(),
    {
        &self.state
    }

    /// Set state: replaces the state with `value`, then emits exactly one
    /// snapshot, the observation of the new state.
    pub fn set(&mut self, value: S)
        ensures
            old(self).emitted_once(*final(self), value, value),
    {
        self.state = value;
        let snapshot = self.state.observe();
        self.out.send(snapshot);
    }

    /// Modify state: replaces the state with the first component of
    /// `f(state)`, emits exactly one snapshot of the post-mutation state,
    /// and returns the second component.
    pub fn modify<F, R>(&mut self, f: F) -> (r: R) where F: FnOnce(S) -> (S, R),
        requires
            call_requires(f, (old(self).current(),)),
        ensures
            call_ensures(f, (old(self).current(),), (final(self).current(), r)),
            old(self).emitted_once(*final(self), final(self).current(), final(self).current()),
    {
        let mut taken = S::default();
        core::mem::swap(&mut taken, &mut self.state);
        let (next, ret) = f(taken);
        self.state = next;
        let snapshot = self.state.observe();
        self.out.send(snapshot);
        ret
    }

    /// Propagate value: emits one snapshot of the current state without
    /// mutating it. Not deduplicated: repeated calls without intervening
    /// mutation emit repeated snapshots of the same observation.
    pub fn propagate(&mut self)
        ensures
            old(self).emitted_once(*final(self), old(self).current(), old(self).current()),
    {
        let snapshot = self.state.observe();
        self.out.send(snapshot);
    }

    /// Two consecutive `propagate` steps with no intervening mutation emit
    /// two snapshots of one and the same observation: nothing is
    /// deduplicated, and the state is left unchanged.
    pub proof fn lemma_propagate_no_dedup(c0: Self, c1: Self, c2: Self)
        requires
            c0.emitted_once(c1, c0.current(), c0.current()),
            c1.emitted_once(c2, c1.current(), c1.current()),
        ensures
            c2.current() == c0.current(),
            c2.emitted() == c0.emitted().push(c1.emitted().last()).push(c2.emitted().last()),
            cloned(c0.current().observe_spec(), c1.emitted().last()),
            cloned(c0.current().observe_spec(), c2.emitted().last()),
    {
    }
}

} // verus!
