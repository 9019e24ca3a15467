//! The flags of the command that comments on an issue.
use vstd::prelude::*;
use crate::fsm::{Handler, NextState, StateMachine};

verus! {

/// The flags that the comment command reads from its arguments.
#[derive(Clone, Debug, PartialEq)]
pub struct Flags {
    pub issue_id_part: Option<String>,
}

/// Every argument is the identifier of the issue, or its end; the last one
/// given counts.
pub fn std_handler(flags: Flags, arg: String) -> (r: NextState<Flags>)
    ensures
        r == NextState::Continue(Flags { issue_id_part: Some(arg) }),
{
    NextState::Continue(Flags { issue_id_part: Some(arg), ..flags })
}

/// The step function of the comment command's flags.
pub struct FlagsHandler;

impl Handler<Flags> for FlagsHandler {
    open spec fn spec_step(&self, s: Flags, token: String) -> NextState<Flags> {
        NextState::Continue(Flags { issue_id_part: Some(token) })
    }

    fn step(&self, s: Flags, token: String) -> (r: NextState<Flags>) {
        std_handler(s, token)
    }
}

/// Folds the arguments of the comment command into its flags.
pub fn read_flags(args: Vec<String>) -> (r: Flags)
    ensures
        args@.len() == 0 ==> r.issue_id_part is None,
        args@.len() > 0 ==> r.issue_id_part == Some(args@.last()),
{
    let mut machine = StateMachine::new(FlagsHandler, Flags { issue_id_part: None });
    let mut i: usize = 0;
    while i < args.len()
        invariant
            machine.wf(),
            !machine.is_halted(),
            i <= args@.len(),
            i == 0 ==> machine.current().issue_id_part is None,
            i > 0 ==> machine.current().issue_id_part == Some(args@[i - 1]),
        decreases args@.len() - i,
    {
        machine.process(args[i].clone());
        i = i + 1;
    }
    machine.extract_state()
}

} // verus!
