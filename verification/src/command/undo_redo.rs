//! Undo and redo as commands.

use crate::executor::{ExecutionError, Executor, History, Outcome};
use crate::shape::{Scene, Shapes};
use vstd::prelude::*;

verus! {

/// A command to the engine itself. It changes no shape, and it never enters
/// the history.
#[derive(Debug, Copy, Clone, PartialEq, Eq, Structural)]
pub enum Control {
    Redo,
    Undo,
}

impl Control {
    /// How the command is written: `redo` or `undo`.
    pub open spec fn text(self) -> Seq<char> {
        match self {
            Control::Redo => "redo"@,
            Control::Undo => "undo"@,
        }
    }

    /// What the engine does at this command.
    pub open spec fn outcome(self, history: History, scene: Scene) -> Outcome {
        match self {
            Control::Redo => history.redo(scene),
            Control::Undo => history.undo(scene),
        }
    }

    /// The command as the log shows it: [`Control::text`].
    pub fn to_string(&self) -> (text: String)
        ensures
            text@ == self.text(),
    {
        match self {
            Control::Redo => String::from_str("redo"),
            Control::Undo => String::from_str("undo"),
        }
    }

    /// Does nothing: the work of a control command is done by
    /// [`Control::after_execute`].
    pub fn execute(&mut self, shapes: &mut Shapes) -> (result: Result<(), ExecutionError>)
        ensures
            result is Ok,
            *final(self) == *old(self),
            final(shapes)@ == old(shapes)@,
    {
        Ok(())
    }

    /// Has the engine undo or redo. Returns `false` where that succeeds, since
    /// a control command is not to enter the history, and the error of the
    /// engine where it fails.
    pub fn after_execute(&mut self, executor: &mut Executor, shapes: &mut Shapes) -> (result:
        Result<bool, ExecutionError>)
        ensures
            *final(self) == *old(self),
            ({
                let outcome = old(self).outcome(old(executor)@, old(shapes)@);
                &&& final(executor)@ == outcome.history
                &&& final(shapes)@ == outcome.scene
                &&& match outcome.result {
                    Ok(()) => result == Ok::<bool, ExecutionError>(false),
                    Err(error) => result matches Err(e) && e@ == error,
                }
            }),
    {
        let done = match self {
            Control::Redo => executor.redo(shapes),
            Control::Undo => executor.undo(shapes),
        };
        match done {
            Ok(()) => Ok(false),
            Err(error) => Err(error),
        }
    }
}

} // verus!
