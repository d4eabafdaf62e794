//! A generic state container with unidirectional data flow: actions mutate
//! state through pure reducers, and subscribers react to each newly
//! committed state.
//!
//! `dispatch` runs every registered reducer in registration order, each
//! reducer receiving the state produced by the previous one; the result of
//! the last reducer becomes the committed state, and every subscriber is
//! then notified in registration order, after the commit and never before.
//! Dispatches are serialized by exclusive ownership of the store: whoever
//! drives the store (an event loop, a channel-draining task) must hold it
//! exclusively for the duration of a dispatch.

use vstd::prelude::*;

verus! {

/// A pure state transformer `(action, state) -> state`. Applications
/// implement this for their own state and action types: `spec_transition`
/// says which new state is the correct result of one action, and the
/// executable `run` must return such a state, with no side effects on the
/// terminal or other I/O.
pub trait SyncReducer<S, A>: Sized {
    /// The mathematical description of this reducer: `new_state` is what
    /// running `action` on `state` must produce.
    spec fn spec_transition(&self, action: &A, state: &S, new_state: &S) -> bool;

    /// Applies the reducer to one action and the current state.
    fn run(&self, action: &A, state: &S) -> (new_state: S)
        ensures
            self.spec_transition(action, state, &new_state),
    ;
}

/// An observer notified with each newly committed state, after the commit.
/// Implementations typically re-invoke the layout engine and flush the
/// resulting command queue; a failure there must be swallowed by the
/// subscriber itself and never unwind into the store's dispatch.
pub trait SyncSubscriber<S>: Sized {
    fn run(&self, state: &S);
}

/// The chained transition of a whole reducer list: each reducer steps from
/// the state the previous one produced, in order.
pub open spec fn spec_reducers_transition<S, A, R: SyncReducer<S, A>>(
    reducers: Seq<R>,
    action: A,
    state: S,
    new_state: S,
) -> bool
    decreases reducers.len(),
{
    if reducers.len() == 0 {
        new_state == state
    } else {
        exists|mid: S|
            #[trigger] reducers[0].spec_transition(&action, &state, &mid)
                && spec_reducers_transition(reducers.drop_first(), action, mid, new_state)
    }
}

/// Chain extension: a run of `reducers` from `state` to `mid`, followed by
/// one more reducer stepping from `mid` to `new_state`, is a run of the
/// extended list from `state` to `new_state`.
pub proof fn lemma_reducers_transition_snoc<S, A, R: SyncReducer<S, A>>(
    reducers: Seq<R>,
    last: R,
    action: A,
    state: S,
    mid: S,
    new_state: S,
)
    requires
        spec_reducers_transition(reducers, action, state, mid),
        last.spec_transition(&action, &mid, &new_state),
    ensures
        spec_reducers_transition(reducers.push(last), action, state, new_state),
    decreases reducers.len(),
{
    let extended = reducers.push(last);
    if reducers.len() == 0 {
        assert(mid == state);
        assert(extended[0] == last);
        assert(extended.drop_first() =~= Seq::<R>::empty());
        assert(extended[0].spec_transition(&action, &state, &new_state));
        assert(spec_reducers_transition(extended.drop_first(), action, new_state, new_state));
    } else {
        let m1 = choose|m: S|
            #[trigger] reducers[0].spec_transition(&action, &state, &m)
                && spec_reducers_transition(reducers.drop_first(), action, m, mid);
        lemma_reducers_transition_snoc(reducers.drop_first(), last, action, m1, mid, new_state);
        assert(extended[0] == reducers[0]);
        assert(extended.drop_first() =~= reducers.drop_first().push(last));
        assert(extended[0].spec_transition(&action, &state, &m1));
        assert(spec_reducers_transition(extended.drop_first(), action, m1, new_state));
    }
}

/// An owned state value, an ordered list of reducers and an ordered list of
/// subscribers.
pub struct Store<S, R, SUB> {
    pub state: S,
    pub reducers: Vec<R>,
    pub subscribers: Vec<SUB>,
}

impl<S, R, SUB> Store<S, R, SUB> {
    /// A store holding the given initial state, with no reducers and no
    /// subscribers yet.
    pub fn new(initial_state: S) -> (r: Store<S, R, SUB>)
        ensures
            r.state == initial_state,
            r.reducers@ == Seq::<R>::empty(),
            r.subscribers@ == Seq::<SUB>::empty(),
    {
        Store { state: initial_state, reducers: Vec::new(), subscribers: Vec::new() }
    }

    /// The current committed state.
    pub fn get_state(&self) -> (r: &S)
        ensures
            *r == self.state,
    {
        &self.state
    }

    /// Registers one more reducer, after all already registered.
    pub fn add_reducer(&mut self, reducer: R)
        ensures
            final(self).reducers@ == old(self).reducers@.push(reducer),
            final(self).state == old(self).state,
            final(self).subscribers == old(self).subscribers,
    {
        self.reducers.push(reducer);
    }

    /// Registers one more subscriber, after all already registered.
    pub fn add_subscriber(&mut self, subscriber: SUB)
        ensures
            final(self).subscribers@ == old(self).subscribers@.push(subscriber),
            final(self).state == old(self).state,
            final(self).reducers == old(self).reducers,
    {
        self.subscribers.push(subscriber);
    }

    /// Runs every reducer in registration order — each receiving the state
    /// produced by the previous one — commits the final result as the new
    /// state, then notifies every subscriber in registration order with the
    /// committed state.
    pub fn dispatch<A>(&mut self, action: &A) where R: SyncReducer<S, A>, SUB: SyncSubscriber<S>
        ensures
            spec_reducers_transition(
                old(self).reducers@,
                *action,
                old(self).state,
                final(self).state,
            ),
            final(self).reducers == old(self).reducers,
            final(self).subscribers == old(self).subscribers,
    {
        let n = self.reducers.len();
        let mut i: usize = 0;
        while i < n
            invariant
                i <= n,
                n == self.reducers@.len(),
                self.reducers == old(self).reducers,
                self.subscribers == old(self).subscribers,
                spec_reducers_transition(
                    self.reducers@.take(i as int),
                    *action,
                    old(self).state,
                    self.state,
                ),
            decreases n - i,
        {
            let new_state = self.reducers[i].run(action, &self.state);
            proof {
                lemma_reducers_transition_snoc(
                    self.reducers@.take(i as int),
                    self.reducers@[i as int],
                    *action,
                    old(self).state,
                    self.state,
                    new_state,
                );
                assert(self.reducers@.take(i + 1) =~= self.reducers@.take(i as int).push(
                    self.reducers@[i as int],
                ));
            }
            self.state = new_state;
            i += 1;
        }
        proof {
            assert(self.reducers@.take(n as int) =~= self.reducers@);
        }
        let n_subs = self.subscribers.len();
        let mut j: usize = 0;
        while j < n_subs
            invariant
                j <= n_subs,
                n_subs == self.subscribers@.len(),
                self.reducers == old(self).reducers,
                self.subscribers == old(self).subscribers,
                spec_reducers_transition(
                    old(self).reducers@,
                    *action,
                    old(self).state,
                    self.state,
                ),
            decreases n_subs - j,
        {
            self.subscribers[j].run(&self.state);
            j += 1;
        }
    }
}

} // verus!
