//! Drawing a shape.

use crate::command::{done, CommandView};
use crate::executor::{ExecutionError, Executor};
use crate::shape::{Shape, Shapes};
use vstd::prelude::*;

verus! {

/// The command that draws a shape under a name.
#[derive(Debug)]
pub struct DrawShape {
    pub name: String,
    pub shape: Shape,
}

impl View for DrawShape {
    type V = CommandView;

    open spec fn view(&self) -> CommandView {
        CommandView::DrawShape { name: self.name@, shape: self.shape }
    }
}

impl DrawShape {
    /// The command that draws `shape` under `name`.
    pub fn new(name: String, shape: Shape) -> (command: Self)
        ensures
            command@ == (CommandView::DrawShape { name: name@, shape }),
    {
        Self { name, shape }
    }

    /// How the command is written: the name, a space, the shape.
    pub open spec fn text(command: CommandView) -> Seq<char>
        recommends
            command is DrawShape,
    {
        command->DrawShape_name + " "@ + command->shape.description()
    }

    /// The command as the log shows it: [`DrawShape::text`].
    pub fn to_string(&self) -> (text: String)
        ensures
            text@ == Self::text(self@),
    {
        let mut text = self.name.clone();
        text.append(" ");
        self.shape.describe_into(&mut text);
        text
    }

    /// Puts the shape into the scene under its name, in place of whatever had
    /// that name. This never fails.
    pub fn execute(&mut self, shapes: &mut Shapes) -> (result: Result<(), ExecutionError>)
        ensures
            done(
                old(self)@.executed(old(shapes)@),
                old(self)@,
                old(shapes)@,
                final(self)@,
                final(shapes)@,
                result,
            ),
    {
        shapes.insert(self.name.clone(), self.shape);
        Ok(())
    }

    /// Takes whatever the scene holds under the name out of it. This never
    /// fails.
    pub fn undo(&mut self, shapes: &mut Shapes) -> (result: Result<(), ExecutionError>)
        ensures
            done(
                old(self)@.undone(old(shapes)@),
                old(self)@,
                old(shapes)@,
                final(self)@,
                final(shapes)@,
                result,
            ),
    {
        shapes.remove(self.name.as_str());
        Ok(())
    }

    /// What follows a successful execution: nothing changes, and `true` says
    /// that the command is to enter the history.
    pub fn after_execute(&mut self, executor: &mut Executor, shapes: &mut Shapes) -> (result:
        Result<bool, ExecutionError>)
        ensures
            final(self)@ == old(self)@,
            final(executor)@ == old(executor)@,
            final(shapes)@ == old(shapes)@,
            result == Ok::<bool, ExecutionError>(true),
    {
        Ok(true)
    }
}

} // verus!
