//! The stack of application states and the changes that are made to it.

use vstd::prelude::*;

verus! {

/// A state of the application.
#[derive(Clone, Copy, Debug, PartialEq, Eq, Hash, Structural)]
pub enum GameState {
    MainMenu,
    InGame,
    Paused,
    GameOver,
    Exit,
}

/// A change to the stack of states, asked for during a tick and made at its
/// end.
#[derive(Clone, Copy, Debug, PartialEq, Eq, Hash, Structural)]
pub enum StateChange {
    /// Replace the whole stack by one state.
    Replace(GameState),
    /// Put a state on top; the state below is paused, not left.
    Push(GameState),
    /// Remove the top state; the state below becomes active again.
    Pop,
    /// End the process. The stack is not touched.
    Exit,
}

/// A lifecycle hook that a change fires.
#[derive(Clone, Copy, Debug, PartialEq, Eq, Structural)]
pub enum Lifecycle {
    /// The state is left. Fired before the stack changes.
    OnExit(GameState),
    /// A state is pushed on top of this one. Fired before the stack changes.
    OnPause(GameState),
    /// The state becomes the active one. Fired after the stack changed, also
    /// for a state that a `Pop` uncovers.
    OnEnter(GameState),
}

/// What a change did.
#[derive(Clone, Copy, Debug, PartialEq, Eq, Structural)]
pub enum Outcome {
    /// The stack changed, and these two hooks fired round the change.
    Changed { before: Lifecycle, after: Lifecycle },
    /// The process is to end.
    Terminated,
}

/// Why a change was refused.
#[derive(Clone, Copy, Debug, PartialEq, Eq, Structural)]
pub enum StateError {
    /// A `Pop` would have removed the last state.
    StackEmpty,
}

/// A stack accepts every change but a `Pop` of its last state.
pub open spec fn accepts(stack: Seq<GameState>, change: StateChange) -> bool {
    !(change == StateChange::Pop && stack.len() <= 1)
}

/// The stack after a change. A refused change leaves it as it is.
pub open spec fn next_stack(stack: Seq<GameState>, change: StateChange) -> Seq<GameState> {
    match change {
        StateChange::Replace(state) => seq![state],
        StateChange::Push(state) => stack.push(state),
        StateChange::Pop => if stack.len() > 1 {
            stack.drop_last()
        } else {
            stack
        },
        StateChange::Exit => stack,
    }
}

/// What an accepted change does to a stack that is not empty.
pub open spec fn outcome_of(stack: Seq<GameState>, change: StateChange) -> Outcome {
    match change {
        StateChange::Replace(state) => Outcome::Changed {
            before: Lifecycle::OnExit(stack.last()),
            after: Lifecycle::OnEnter(state),
        },
        StateChange::Push(state) => Outcome::Changed {
            before: Lifecycle::OnPause(stack.last()),
            after: Lifecycle::OnEnter(state),
        },
        StateChange::Pop => Outcome::Changed {
            before: Lifecycle::OnExit(stack.last()),
            after: Lifecycle::OnEnter(stack[stack.len() - 2]),
        },
        StateChange::Exit => Outcome::Terminated,
    }
}

/// No change takes the last state off a stack.
pub proof fn lemma_depth_stays_positive(stack: Seq<GameState>, change: StateChange)
    requires
        stack.len() >= 1,
    ensures
        next_stack(stack, change).len() >= 1,
        !accepts(stack, change) ==> next_stack(stack, change) == stack,
        change == StateChange::Pop && stack.len() == 1 ==> !accepts(stack, change),
{
}

/// Every accepted change but `Exit` fires two hooks: one for the state that
/// was active before it, and `OnEnter` for the state that is active after
/// it.
pub proof fn lemma_hooks_name_old_and_new_top(stack: Seq<GameState>, change: StateChange)
    requires
        stack.len() >= 1,
        accepts(stack, change),
        change != StateChange::Exit,
    ensures
        outcome_of(stack, change) == (Outcome::Changed {
            before: if change is Push {
                Lifecycle::OnPause(stack.last())
            } else {
                Lifecycle::OnExit(stack.last())
            },
            after: Lifecycle::OnEnter(next_stack(stack, change).last()),
        }),
{
}

/// `Replace` leaves exactly the one state, whatever the stack held.
pub proof fn lemma_replace_leaves_one_state(stack: Seq<GameState>, state: GameState)
    requires
        stack.len() >= 1,
    ensures
        accepts(stack, StateChange::Replace(state)),
        next_stack(stack, StateChange::Replace(state)) == seq![state],
        outcome_of(stack, StateChange::Replace(state)) == (Outcome::Changed {
            before: Lifecycle::OnExit(stack.last()),
            after: Lifecycle::OnEnter(state),
        }),
{
}

/// After a `Push` a `Pop` gives the old stack back, and enters the state
/// that the `Push` paused.
pub proof fn lemma_pop_undoes_push(stack: Seq<GameState>, state: GameState)
    requires
        stack.len() >= 1,
    ensures
        accepts(next_stack(stack, StateChange::Push(state)), StateChange::Pop),
        next_stack(next_stack(stack, StateChange::Push(state)), StateChange::Pop) == stack,
        outcome_of(next_stack(stack, StateChange::Push(state)), StateChange::Pop) == (
        Outcome::Changed {
            before: Lifecycle::OnExit(state),
            after: Lifecycle::OnEnter(stack.last()),
        }),
{
    assert(stack.push(state).drop_last() =~= stack);
}

/// The stack of states. It always holds at least one state, and the last
/// one is the active state.
#[derive(Debug)]
pub struct StateStack {
    stack: Vec<GameState>,
}

impl View for StateStack {
    type V = Seq<GameState>;

    closed spec fn view(&self) -> Seq<GameState> {
        self.stack@
    }
}

impl StateStack {
    /// The stack is well formed: it holds at least one state.
    pub open spec fn wf(&self) -> bool {
        self@.len() >= 1
    }

    /// A stack that holds `initial` alone.
    pub fn new(initial: GameState) -> (stack: StateStack)
        ensures
            stack.wf(),
            stack@ == seq![initial],
    {
        let mut states: Vec<GameState> = Vec::new();
        states.push(initial);
        StateStack { stack: states }
    }

    /// How many states the stack holds: at least one.
    pub fn depth(&self) -> (depth: usize)
        requires
            self.wf(),
        ensures
            depth == self@.len(),
            depth >= 1,
    {
        self.stack.len()
    }

    /// The active state: the top of the stack.
    pub fn current(&self) -> (state: GameState)
        requires
            self.wf(),
        ensures
            state == self@.last(),
    {
        self.stack[self.stack.len() - 1]
    }

    /// The states from the bottom of the stack to its top.
    pub fn states(&self) -> (states: Vec<GameState>)
        ensures
            states@ == self@,
    {
        let mut states: Vec<GameState> = Vec::new();
        let n = self.stack.len();
        let mut i: usize = 0;
        while i < n
            invariant
                0 <= i <= n,
                n == self.stack@.len(),
                states@ == self.stack@.take(i as int),
            decreases n - i,
        {
            states.push(self.stack[i]);
            assert(self.stack@.take(i + 1) =~= self.stack@.take(i as int).push(self.stack@[i as int]));
            i = i + 1;
        }
        assert(self.stack@.take(n as int) =~= self.stack@);
        states
    }

    /// Whether `state` is anywhere on the stack.
    pub fn contains(&self, state: GameState) -> (found: bool)
        ensures
            found == self@.contains(state),
    {
        let n = self.stack.len();
        let mut i: usize = 0;
        while i < n
            invariant
                0 <= i <= n,
                n == self.stack@.len(),
                forall|k: int| 0 <= k < i ==> self.stack@[k] != state,
            decreases n - i,
        {
            if self.stack[i] == state {
                return true;
            }
            i = i + 1;
        }
        false
    }

    /// Replaces the whole stack by `state`.
    pub fn set(&mut self, state: GameState) -> (outcome: Outcome)
        requires
            old(self).wf(),
        ensures
            final(self).wf(),
            final(self)@ == next_stack(old(self)@, StateChange::Replace(state)),
            outcome == outcome_of(old(self)@, StateChange::Replace(state)),
    {
        let left = self.current();
        let mut states: Vec<GameState> = Vec::new();
        states.push(state);
        self.stack = states;
        Outcome::Changed { before: Lifecycle::OnExit(left), after: Lifecycle::OnEnter(state) }
    }

    /// Puts `state` on top of the stack.
    pub fn push(&mut self, state: GameState) -> (outcome: Outcome)
        requires
            old(self).wf(),
        ensures
            final(self).wf(),
            final(self)@ == next_stack(old(self)@, StateChange::Push(state)),
            outcome == outcome_of(old(self)@, StateChange::Push(state)),
    {
        let paused = self.current();
        self.stack.push(state);
        Outcome::Changed { before: Lifecycle::OnPause(paused), after: Lifecycle::OnEnter(state) }
    }

    /// Removes the top of the stack, unless it is the last state.
    pub fn pop(&mut self) -> (outcome: Result<Outcome, StateError>)
        requires
            old(self).wf(),
        ensures
            final(self).wf(),
            final(self)@ == next_stack(old(self)@, StateChange::Pop),
            match outcome {
                Ok(o) => accepts(old(self)@, StateChange::Pop) && o == outcome_of(
                    old(self)@,
                    StateChange::Pop,
                ),
                Err(e) => !accepts(old(self)@, StateChange::Pop) && e == StateError::StackEmpty
                    && final(self)@ == old(self)@,
            },
    {
        if self.stack.len() <= 1 {
            return Err(StateError::StackEmpty);
        }
        let left = self.current();
        self.stack.pop();
        let resumed = self.current();
        Ok(Outcome::Changed { before: Lifecycle::OnExit(left), after: Lifecycle::OnEnter(resumed) })
    }
}

/// Makes one change to the stack of states and says which hooks fired. A
/// `Pop` of the last state is refused and changes nothing.
pub fn handle_state_change(app_state: &mut StateStack, ev: StateChange) -> (outcome: Result<
    Outcome,
    StateError,
>)
    requires
        old(app_state).wf(),
    ensures
        final(app_state).wf(),
        final(app_state)@ == next_stack(old(app_state)@, ev),
        match outcome {
            Ok(o) => accepts(old(app_state)@, ev) && o == outcome_of(old(app_state)@, ev),
            Err(e) => {
                &&& !accepts(old(app_state)@, ev)
                &&& e == StateError::StackEmpty
                &&& final(app_state)@ == old(app_state)@
            },
        },
{
    let outcome = match ev {
        StateChange::Push(state) => Ok(app_state.push(state)),
        StateChange::Pop => app_state.pop(),
        StateChange::Replace(state) => Ok(app_state.set(state)),
        StateChange::Exit => Ok(Outcome::Terminated),
    };
    outcome
}

} // verus!
