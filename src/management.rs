//! Commands that drive the machine from outside: load a program, step it,
//! run it, dump it, quit.
use vstd::prelude::*;

verus! {

#[derive(Clone, Copy, Debug, PartialEq, Eq, Structural)]
pub enum Action {
    Load,
    Step,
    Run,
    Inspect,
    Dump,
    Reg,
    Quit,
}

/// A command and its argument (a file name for `Load`, else empty).
#[derive(Debug)]
pub struct VMAction {
    pub action: Action,
    pub arg: String,
}

/// The commands that the command-line options ask for: load the named file,
/// if any, then run, if asked.
pub fn actions_from_args(load: Option<String>, run: bool) -> (r: Vec<VMAction>)
    ensures
        r@.len() == (if load is Some { 1int } else { 0int }) + (if run { 1int } else { 0int }),
        load is Some ==> r@[0].action == Action::Load && r@[0].arg@ == load.unwrap()@,
        run ==> r@[r@.len() - 1].action == Action::Run && r@[r@.len() - 1].arg@ == Seq::<
            char,
        >::empty(),
{
    let mut actions: Vec<VMAction> = Vec::new();
    if let Some(file) = load {
        actions.push(VMAction { action: Action::Load, arg: file });
    }
    if run {
        actions.push(VMAction { action: Action::Run, arg: String::new() });
    }
    actions
}

} // verus!
