//! A fold over a sequence of tokens: each token, in order, is handed with the
//! current state to a step function, which either goes on with a new state or
//! halts with a final one.
use vstd::prelude::*;

verus! {

/// What a step gives: a state to go on from, or a final state.
#[derive(Clone, Debug, PartialEq)]
pub enum NextState<S> {
    Continue(S),
    Halt(S),
}

impl<S> NextState<S> {
    /// The state that the step gives.
    pub open spec fn state(self) -> S {
        match self {
            NextState::Continue(s) => s,
            NextState::Halt(s) => s,
        }
    }
}

/// A step function of a state machine.
pub trait Handler<S> {
    /// The outcome of a step from state `s` on `token`.
    spec fn spec_step(&self, s: S, token: String) -> NextState<S>;

    /// Takes one step.
    fn step(&self, s: S, token: String) -> (r: NextState<S>)
        ensures
            r == self.spec_step(s, token),
    ;
}

/// A state machine driven by tokens through a step function.
pub struct StateMachine<S, H> {
    handler: H,
    state: Option<S>,
    halted: bool,
}

impl<S, H: Handler<S>> StateMachine<S, H> {
    /// The machine holds a state.
    pub closed spec fn wf(&self) -> bool {
        self.state is Some
    }

    /// The current state.
    pub closed spec fn current(&self) -> S {
        self.state->0
    }

    /// Whether a step has halted the machine.
    pub closed spec fn is_halted(&self) -> bool {
        self.halted
    }

    /// The step function.
    pub closed spec fn handler(&self) -> H {
        self.handler
    }

    /// A machine in state `initial` that steps with `handler`.
    pub fn new(handler: H, initial: S) -> (r: Self)
        ensures
            r.wf(),
            r.current() == initial,
            !r.is_halted(),
            r.handler() == handler,
    {
        StateMachine { handler, state: Some(initial), halted: false }
    }

    /// Feeds one token: a running machine steps to the state that the step
    /// function gives, and halts if it says so; a halted machine stays as it is.
    pub fn process(&mut self, token: String)
        requires
            old(self).wf(),
        ensures
            final(self).wf(),
            final(self).handler() == old(self).handler(),
            old(self).is_halted() ==> final(self).current() == old(self).current()
                && final(self).is_halted(),
            !old(self).is_halted() ==> final(self).current() == old(self).handler().spec_step(
                old(self).current(),
                token,
            ).state(),
            !old(self).is_halted() ==> final(self).is_halted() == (old(self).handler().spec_step(
                old(self).current(),
                token,
            ) is Halt),
    {
        if self.halted {
            return;
        }
        let s = self.state.take().unwrap();
        match self.handler.step(s, token) {
            NextState::Continue(s2) => {
                self.state = Some(s2);
            },
            NextState::Halt(s2) => {
                self.state = Some(s2);
                self.halted = true;
            },
        }
    }

    /// The final state.
    pub fn extract_state(self) -> (r: S)
        requires
            self.wf(),
        ensures
            r == self.current(),
    {
        self.state.unwrap()
    }
}

} // verus!
