//! Moving a shape.

use crate::command::{done, CommandView};
use crate::executor::{ExecutionError, ExecutionErrorView, Executor};
use crate::shape::{opposite_of, DataType, Shapes};
use crate::text::{decimal, push_decimal};
use vstd::prelude::*;

verus! {

/// The command that moves the shape of a given name by a given distance.
#[derive(Debug)]
pub struct MoveBy {
    pub name: String,
    pub dx: DataType,
    pub dy: DataType,
}

impl View for MoveBy {
    type V = CommandView;

    open spec fn view(&self) -> CommandView {
        CommandView::MoveBy { name: self.name@, dx: self.dx, dy: self.dy }
    }
}

impl MoveBy {
    /// The command that moves the shape called `name` by `(dx, dy)`.
    pub fn new(name: String, dx: DataType, dy: DataType) -> (command: Self)
        ensures
            command@ == (CommandView::MoveBy { name: name@, dx, dy }),
    {
        Self { name, dx, dy }
    }

    /// How the command is written: `move`, the name and the two distances.
    pub open spec fn text(command: CommandView) -> Seq<char>
        recommends
            command is MoveBy,
    {
        "move "@ + command->MoveBy_name + " "@ + decimal(command->dx as int) + " "@ + decimal(
            command->dy as int,
        )
    }

    /// The command as the log shows it: [`MoveBy::text`].
    pub fn to_string(&self) -> (text: String)
        ensures
            text@ == Self::text(self@),
    {
        let mut text = String::from_str("move ");
        text.append(self.name.as_str());
        text.append(" ");
        push_decimal(&mut text, self.dx);
        text.append(" ");
        push_decimal(&mut text, self.dy);
        assert(text@ =~= Self::text(self@));
        text
    }

    fn shift(
        name: &String,
        dx: DataType,
        dy: DataType,
        shapes: &mut Shapes,
    ) -> (result: Result<(), ExecutionError>)
        ensures
            match result {
                Ok(()) => old(shapes)@.contains_key(name@) && final(shapes)@ == old(
                    shapes,
                )@.insert(name@, old(shapes)@[name@].moved_by(dx, dy)),
                Err(e) => !old(shapes)@.contains_key(name@) && final(shapes)@ == old(shapes)@
                    && e@ == ExecutionErrorView::NotFound(name@),
            },
    {
        match shapes.get_mut(name.as_str()) {
            Some(shape) => {
                shape.move_by(dx, dy);
                Ok(())
            },
            None => Err(ExecutionError::NotFound(name.clone())),
        }
    }

    /// Moves the shape by `(dx, dy)`. Fails with `NotFound`, and changes
    /// nothing, where the scene has no shape of that name.
    pub fn execute(&mut self, shapes: &mut Shapes) -> (result: Result<(), ExecutionError>)
        ensures
            done(
                old(self)@.executed(old(shapes)@),
                old(self)@,
                old(shapes)@,
                final(self)@,
                final(shapes)@,
                result,
            ),
    {
        Self::shift(&self.name, self.dx, self.dy, shapes)
    }

    /// Moves the shape by the opposite of `(dx, dy)`. Fails with `NotFound`,
    /// and changes nothing, where the scene has no shape of that name.
    pub fn undo(&mut self, shapes: &mut Shapes) -> (result: Result<(), ExecutionError>)
        ensures
            done(
                old(self)@.undone(old(shapes)@),
                old(self)@,
                old(shapes)@,
                final(self)@,
                final(shapes)@,
                result,
            ),
    {
        Self::shift(&self.name, opposite_of(self.dx), opposite_of(self.dy), shapes)
    }

    /// What follows a successful execution: nothing changes, and `true` says
    /// that the command is to enter the history.
    pub fn after_execute(&mut self, executor: &mut Executor, shapes: &mut Shapes) -> (result:
        Result<bool, ExecutionError>)
        ensures
            final(self)@ == old(self)@,
            final(executor)@ == old(executor)@,
            final(shapes)@ == old(shapes)@,
            result == Ok::<bool, ExecutionError>(true),
    {
        Ok(true)
    }
}

} // verus!
