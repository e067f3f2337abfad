//! Deleting a shape.

use crate::command::{done, CommandView};
use crate::executor::{ExecutionError, Executor};
use crate::shape::{Shape, Shapes};
use crate::text::{quoted, quoted_text};
use vstd::prelude::*;

verus! {

/// The command that deletes the shape of a given name. It keeps the shape
/// that it deleted, so that its undo can put that very shape back.
#[derive(Debug)]
pub struct Delete {
    pub name: String,
    pub deleted: Option<Shape>,
}

impl View for Delete {
    type V = CommandView;

    open spec fn view(&self) -> CommandView {
        CommandView::Delete { name: self.name@, deleted: self.deleted }
    }
}

impl Delete {
    /// A command that has deleted nothing yet.
    pub fn new(name: String) -> (command: Self)
        ensures
            command@ == (CommandView::Delete { name: name@, deleted: None }),
    {
        Self { name, deleted: None }
    }

    /// How the command is written: `Delete "name" with deleted None`, or
    /// with `Some(..)` around the shape that it holds.
    pub open spec fn text(command: CommandView) -> Seq<char>
        recommends
            command is Delete,
    {
        "Delete "@ + quoted_text(command->Delete_name) + " with deleted "@ + (
        match command->deleted {
            Some(shape) => "Some("@ + shape.description() + ")"@,
            None => "None"@,
        })
    }

    /// The command as the log shows it: [`Delete::text`].
    pub fn to_string(&self) -> (text: String)
        ensures
            text@ == Self::text(self@),
    {
        let mut text = String::from_str("Delete ");
        let name = quoted(self.name.as_str());
        text.append(name.as_str());
        text.append(" with deleted ");
        match &self.deleted {
            Some(shape) => {
                text.append("Some(");
                shape.describe_into(&mut text);
                text.append(")");
            },
            None => {
                text.append("None");
            },
        }
        assert(text@ =~= Self::text(self@));
        text
    }

    /// Takes the shape out of the scene and keeps it. Fails with `NotFound`,
    /// and changes nothing, where the scene has no shape of that name.
    pub fn execute(&mut self, shapes: &mut Shapes) -> (result: Result<(), ExecutionError>)
        ensures
            done(
                old(self)@.executed(old(shapes)@),
                old(self)@,
                old(shapes)@,
                final(self)@,
                final(shapes)@,
                result,
            ),
    {
        match shapes.remove(self.name.as_str()) {
            Some(shape) => {
                self.deleted = Some(shape);
                Ok(())
            },
            None => {
                assert(shapes@ =~= old(shapes)@);
                Err(ExecutionError::NotFound(self.name.clone()))
            },
        }
    }

    /// Puts the kept shape back under its name, and keeps it no longer.
    /// Fails with `NothingToUndo`, and changes nothing, where no shape is
    /// kept.
    pub fn undo(&mut self, shapes: &mut Shapes) -> (result: Result<(), ExecutionError>)
        ensures
            done(
                old(self)@.undone(old(shapes)@),
                old(self)@,
                old(shapes)@,
                final(self)@,
                final(shapes)@,
                result,
            ),
    {
        match self.deleted {
            Some(shape) => {
                self.deleted = None;
                shapes.insert(self.name.clone(), shape);
                Ok(())
            },
            None => Err(ExecutionError::NothingToUndo),
        }
    }

    /// What follows a successful execution: nothing changes, and `true` says
    /// that the command is to enter the history.
    pub fn after_execute(&mut self, executor: &mut Executor, shapes: &mut Shapes) -> (result:
        Result<bool, ExecutionError>)
        ensures
            final(self)@ == old(self)@,
            final(executor)@ == old(executor)@,
            final(shapes)@ == old(shapes)@,
            result == Ok::<bool, ExecutionError>(true),
    {
        Ok(true)
    }
}

} // verus!
