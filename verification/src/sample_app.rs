//! The counter application state used to drive the store: a stack of
//! integers mutated by add-to-top, subtract-from-top and clear actions.
//! This is the state/action/reducer triple a store-backed application
//! registers; arithmetic on the stack top wraps around on overflow.

use vstd::prelude::*;

use crate::store::{spec_reducers_transition, SyncReducer};

verus! {

/// An action on the counter stack.
#[derive(Copy, Clone, PartialEq, Eq, Structural, Debug)]
pub enum Action {
    /// Pop the top, add the argument to it, push the sum.
    AddPop(i32),
    /// Pop the top, subtract the argument from it, push the difference.
    SubPop(i32),
    /// Empty the stack.
    Clear,
    Noop,
}

impl Default for Action {
    fn default() -> (r: Action)
        ensures
            r == Action::Noop,
    {
        Action::Noop
    }
}

/// The store-managed state: a stack of integers.
#[derive(Clone, PartialEq, Eq, Debug)]
pub struct State {
    pub stack: Vec<i32>,
}

impl Default for State {
    fn default() -> (r: State)
        ensures
            r.stack@ == Seq::<i32>::empty(),
    {
        State { stack: Vec::new() }
    }
}

/// What one action does to the stack. On an empty stack the arithmetic
/// actions push their argument; otherwise they replace the top with the
/// wrapping sum or difference.
pub open spec fn spec_reduce(action: Action, stack: Seq<i32>) -> Seq<i32> {
    match action {
        Action::AddPop(arg) => if stack.len() == 0 {
            stack.push(arg)
        } else {
            stack.drop_last().push(vstd::wrapping::i32_specs::wrapping_add(stack.last(), arg))
        },
        Action::SubPop(arg) => if stack.len() == 0 {
            stack.push(arg)
        } else {
            stack.drop_last().push(vstd::wrapping::i32_specs::wrapping_sub(stack.last(), arg))
        },
        Action::Clear => Seq::<i32>::empty(),
        Action::Noop => stack,
    }
}

/// Applies one action to the stack in place.
pub fn reduce_mut(stack: &mut Vec<i32>, action: &Action)
    ensures
        final(stack)@ == spec_reduce(*action, old(stack)@),
{
    match action {
        Action::AddPop(arg) => {
            if stack.is_empty() {
                stack.push(*arg);
            } else {
                match stack.pop() {
                    Some(top) => {
                        let sum = top.wrapping_add(*arg);
                        stack.push(sum);
                    },
                    None => {},
                }
            }
        },
        Action::SubPop(arg) => {
            if stack.is_empty() {
                stack.push(*arg);
            } else {
                match stack.pop() {
                    Some(top) => {
                        let sum = top.wrapping_sub(*arg);
                        stack.push(sum);
                    },
                    None => {},
                }
            }
        },
        Action::Clear => {
            stack.clear();
        },
        Action::Noop => {},
    }
}

/// The counter reducer: a pure function of the action and the stack.
#[derive(Copy, Clone, PartialEq, Eq, Structural, Debug)]
pub struct Reducer;

impl Default for Reducer {
    fn default() -> (r: Reducer)
        ensures
            r == Reducer,
    {
        Reducer
    }
}

impl SyncReducer<State, Action> for Reducer {
    open spec fn spec_transition(&self, action: &Action, state: &State, new_state: &State) -> bool {
        new_state.stack@ == spec_reduce(*action, state.stack@)
    }

    fn run(&self, action: &Action, state: &State) -> (new_state: State) {
        let mut stack = clone_stack(&state.stack);
        reduce_mut(&mut stack, action);
        State { stack }
    }
}

/// An exact copy of an integer stack, element by element.
fn clone_stack(stack: &Vec<i32>) -> (r: Vec<i32>)
    ensures
        r@ == stack@,
{
    let mut copied: Vec<i32> = Vec::new();
    let n = stack.len();
    let mut i: usize = 0;
    while i < n
        invariant
            i <= n,
            n == stack@.len(),
            copied@ == stack@.take(i as int),
        decreases n - i,
    {
        copied.push(stack[i]);
        proof {
            assert(stack@.take(i + 1) =~= stack@.take(i as int).push(stack@[i as int]));
        }
        i += 1;
    }
    proof {
        assert(stack@.take(n as int) =~= stack@);
    }
    copied
}

/// Dispatch ordering through two registered counter reducers: the second
/// reducer receives exactly the state the first one produced, so the
/// committed stack is the twice-reduced stack.
pub proof fn lemma_counter_chain(first: Reducer, second: Reducer, action: Action, s0: State, s2: State)
    requires
        spec_reducers_transition(seq![first, second], action, s0, s2),
    ensures
        s2.stack@ == spec_reduce(action, spec_reduce(action, s0.stack@)),
{
    let reducers = seq![first, second];
    let m1 = choose|m: State|
        #[trigger] reducers[0].spec_transition(&action, &s0, &m) && spec_reducers_transition(
            reducers.drop_first(),
            action,
            m,
            s2,
        );
    assert(m1.stack@ == spec_reduce(action, s0.stack@));
    let rest = reducers.drop_first();
    assert(rest =~= seq![second]);
    let m2 = choose|m: State|
        #[trigger] rest[0].spec_transition(&action, &m1, &m) && spec_reducers_transition(
            rest.drop_first(),
            action,
            m,
            s2,
        );
    assert(rest.drop_first() =~= Seq::<Reducer>::empty());
    assert(m2 == s2);
    assert(s2.stack@ == spec_reduce(action, m1.stack@));
}

/// Application state carrying keyboard focus beside the counter stack.
#[derive(Clone, PartialEq, Eq, Debug)]
pub struct AppState {
    pub id_with_focus: String,
    pub stack: Vec<i32>,
}

impl Default for AppState {
    /// The starting state: a single zero on the stack, focus unset.
    fn default() -> (r: AppState)
        ensures
            r.stack@ == seq![0i32],
            r.id_with_focus@ == Seq::<char>::empty(),
    {
        let mut stack: Vec<i32> = Vec::new();
        stack.push(0);
        proof {
            assert(stack@ =~= seq![0i32]);
        }
        AppState { id_with_focus: String::new(), stack }
    }
}

impl AppState {
    /// The id of the box that has keyboard focus.
    pub fn get_focus_id(&self) -> (r: String)
        ensures
            r@ == self.id_with_focus@,
    {
        self.id_with_focus.clone()
    }

    /// Moves keyboard focus to the given box id.
    pub fn set_focus_id(&mut self, arg: String)
        ensures
            final(self).id_with_focus == arg,
            final(self).stack == old(self).stack,
    {
        self.id_with_focus = arg;
    }
}

} // verus!
