//! The commands that change a scene, each of which can be taken back.

use crate::executor::{ExecutionError, ExecutionErrorView, Executor};
use crate::shape::{opposite, DataType, Scene, Shape, Shapes};
use vstd::prelude::*;

pub mod delete;
pub mod draw_shape;
pub mod move_by;
pub mod undo_redo;

pub use delete::Delete;
pub use draw_shape::DrawShape;
pub use move_by::MoveBy;
pub use undo_redo::Control;

verus! {

/// A command as contracts see it: its kind and what it holds.
pub enum CommandView {
    /// Draws `shape` under `name`.
    DrawShape { name: Seq<char>, shape: Shape },
    /// Deletes the shape called `name`; `deleted` is the shape that it took
    /// out and that its undo will put back.
    Delete { name: Seq<char>, deleted: Option<Shape> },
    /// Moves the shape called `name` by `(dx, dy)`.
    MoveBy { name: Seq<char>, dx: DataType, dy: DataType },
    /// Asks the engine to undo or to redo.
    Control(Control),
}

/// What a command leaves behind where it succeeds: itself, as it then is, and
/// the scene.
pub type Effect = Result<(CommandView, Scene), ExecutionErrorView>;

impl CommandView {
    /// Whether the command can be taken back: every command but
    /// [`Control`].
    pub open spec fn reversible(self) -> bool {
        !(self is Control)
    }

    /// What executing the command on `scene` does.
    pub open spec fn executed(self, scene: Scene) -> Effect {
        match self {
            CommandView::DrawShape { name, shape } => Ok((self, scene.insert(name, shape))),
            CommandView::Delete { name, deleted } => if scene.contains_key(name) {
                Ok((CommandView::Delete { name, deleted: Some(scene[name]) }, scene.remove(name)))
            } else {
                Err(ExecutionErrorView::NotFound(name))
            },
            CommandView::MoveBy { name, dx, dy } => if scene.contains_key(name) {
                Ok((self, scene.insert(name, scene[name].moved_by(dx, dy))))
            } else {
                Err(ExecutionErrorView::NotFound(name))
            },
            CommandView::Control(_) => Ok((self, scene)),
        }
    }

    /// What undoing the command on `scene` does. A [`Control`] command cannot
    /// be undone.
    pub open spec fn undone(self, scene: Scene) -> Effect
        recommends
            self.reversible(),
    {
        match self {
            CommandView::DrawShape { name, shape } => Ok((self, scene.remove(name))),
            CommandView::Delete { name, deleted } => match deleted {
                Some(shape) => Ok(
                    (CommandView::Delete { name, deleted: None }, scene.insert(name, shape)),
                ),
                None => Err(ExecutionErrorView::NothingToUndo),
            },
            CommandView::MoveBy { name, dx, dy } => if scene.contains_key(name) {
                Ok((self, scene.insert(name, scene[name].moved_by(opposite(dx), opposite(dy)))))
            } else {
                Err(ExecutionErrorView::NotFound(name))
            },
            CommandView::Control(_) => Ok((self, scene)),
        }
    }
}

impl CommandView {
    /// Whether executing the command on `scene` can be taken back exactly:
    /// the command is reversible, it succeeds, and it does not draw over a
    /// shape that the scene already holds under the same name (the undo of a
    /// drawing removes the name, and so would not bring that shape back).
    pub open spec fn restorable(self, scene: Scene) -> bool {
        &&& self.reversible()
        &&& self.executed(scene) is Ok
        &&& self matches CommandView::DrawShape { name, .. } ==> !scene.contains_key(name)
    }

    /// Undo takes back what execute did: where a command is executed as
    /// [`CommandView::restorable`] allows and is then undone, the undo
    /// succeeds and the scene is what it was before. A command that held no
    /// deleted shape before is then also what it was before.
    pub proof fn lemma_undo_restores(self, scene: Scene)
        requires
            self.restorable(scene),
        ensures
            ({
                &&& self.executed(scene) matches Ok((command, changed))
                &&& command.reversible()
                &&& command.undone(changed) matches Ok((restored, back))
                &&& back == scene
                &&& restored.reversible()
                &&& !(self matches CommandView::Delete { deleted: Some(_), .. }) ==> restored
                    == self
            }),
    {
        let (command, changed) = self.executed(scene)->Ok_0;
        let (restored, back) = command.undone(changed)->Ok_0;
        match self {
            CommandView::MoveBy { name, dx, dy } => {
                scene[name].lemma_moved_back(dx, dy);
            },
            _ => {},
        }
        assert(back =~= scene);
    }

    /// Deleting a shape and undoing that puts the very same shape back
    /// under its name, and leaves every other shape as it was.
    pub proof fn lemma_delete_undo(name: Seq<char>, deleted: Option<Shape>, scene: Scene)
        requires
            scene.contains_key(name),
        ensures
            ({
                &&& (CommandView::Delete { name, deleted }).executed(scene) matches Ok(
                    (command, changed),
                )
                &&& !changed.contains_key(name)
                &&& command.undone(changed) matches Ok((_, back))
                &&& back == scene
                &&& back[name] == scene[name]
            }),
    {
        (CommandView::Delete { name, deleted }).lemma_undo_restores(scene);
    }

    /// Moving a shape by `(dx, dy)` and then by `(-dx, -dy)` leaves every
    /// coordinate of the scene as it was. Where the scene has no shape of
    /// that name, both moves fail and change nothing.
    pub proof fn lemma_move_there_and_back(
        name: Seq<char>,
        dx: DataType,
        dy: DataType,
        back_dx: DataType,
        back_dy: DataType,
        scene: Scene,
    )
        requires
            back_dx == -dx,
            back_dy == -dy,
        ensures
            match (CommandView::MoveBy { name, dx, dy }).executed(scene) {
                Ok((_, moved)) => (CommandView::MoveBy {
                    name,
                    dx: back_dx,
                    dy: back_dy,
                }).executed(moved) matches Ok((_, back)) && back == scene,
                Err(_) => !scene.contains_key(name) && (CommandView::MoveBy {
                    name,
                    dx: back_dx,
                    dy: back_dy,
                }).executed(scene) is Err,
            },
    {
        if scene.contains_key(name) {
            scene[name].lemma_moved_back(dx, dy);
            let moved = scene.insert(name, scene[name].moved_by(dx, dy));
            let back = moved.insert(name, moved[name].moved_by(back_dx, back_dy));
            assert(back =~= scene);
        }
    }
}

/// Whether a call did what `effect` says: a call that found the command as
/// `before` and the scene as `scene`, left them as `after` and `left`, and
/// returned `result`. Where the effect is an error, the call returned that
/// error and changed nothing.
pub open spec fn done(
    effect: Effect,
    before: CommandView,
    scene: Scene,
    after: CommandView,
    left: Scene,
    result: Result<(), ExecutionError>,
) -> bool {
    match effect {
        Ok((command, changed)) => result is Ok && after == command && left == changed,
        Err(error) => result matches Err(e) && e@ == error && after == before && left == scene,
    }
}

/// A command: any of the four kinds.
#[derive(Debug)]
pub enum Command {
    DrawShape(DrawShape),
    Delete(Delete),
    MoveBy(MoveBy),
    Control(Control),
}

impl View for Command {
    type V = CommandView;

    open spec fn view(&self) -> CommandView {
        match self {
            Command::DrawShape(command) => command@,
            Command::Delete(command) => command@,
            Command::MoveBy(command) => command@,
            Command::Control(control) => CommandView::Control(*control),
        }
    }
}

impl CommandView {
    /// How the command is written, for the log.
    pub open spec fn text(self) -> Seq<char> {
        match self {
            CommandView::DrawShape { .. } => DrawShape::text(self),
            CommandView::Delete { .. } => Delete::text(self),
            CommandView::MoveBy { .. } => MoveBy::text(self),
            CommandView::Control(control) => control.text(),
        }
    }
}

impl Command {
    /// Executes the command on the scene: see [`CommandView::executed`].
    pub fn execute(&mut self, shapes: &mut Shapes) -> (result: Result<(), ExecutionError>)
        ensures
            done(
                old(self)@.executed(old(shapes)@),
                old(self)@,
                old(shapes)@,
                final(self)@,
                final(shapes)@,
                result,
            ),
    {
        match self {
            Command::DrawShape(command) => command.execute(shapes),
            Command::Delete(command) => command.execute(shapes),
            Command::MoveBy(command) => command.execute(shapes),
            Command::Control(control) => control.execute(shapes),
        }
    }

    /// Takes back what the command did to the scene: see
    /// [`CommandView::undone`]. A [`Control`] command cannot be undone.
    pub fn undo(&mut self, shapes: &mut Shapes) -> (result: Result<(), ExecutionError>)
        requires
            old(self)@.reversible(),
        ensures
            done(
                old(self)@.undone(old(shapes)@),
                old(self)@,
                old(shapes)@,
                final(self)@,
                final(shapes)@,
                result,
            ),
    {
        match self {
            Command::DrawShape(command) => command.undo(shapes),
            Command::Delete(command) => command.undo(shapes),
            Command::MoveBy(command) => command.undo(shapes),
            Command::Control(_) => unreached(),
        }
    }

    /// What follows a successful [`Command::execute`]. A [`Control`] command
    /// has the engine undo or redo, and returns `false`: it is not to enter
    /// the history. Every other command changes nothing and returns `true`:
    /// it is to be recorded.
    pub fn after_execute(&mut self, executor: &mut Executor, shapes: &mut Shapes) -> (result:
        Result<bool, ExecutionError>)
        ensures
            final(self)@ == old(self)@,
            match old(self)@ {
                CommandView::Control(control) => {
                    let outcome = control.outcome(old(executor)@, old(shapes)@);
                    &&& final(executor)@ == outcome.history
                    &&& final(shapes)@ == outcome.scene
                    &&& match outcome.result {
                        Ok(()) => result == Ok::<bool, ExecutionError>(false),
                        Err(error) => result matches Err(e) && e@ == error,
                    }
                },
                _ => final(executor)@ == old(executor)@ && final(shapes)@ == old(shapes)@
                    && result == Ok::<bool, ExecutionError>(true),
            },
    {
        match self {
            Command::DrawShape(command) => command.after_execute(executor, shapes),
            Command::Delete(command) => command.after_execute(executor, shapes),
            Command::MoveBy(command) => command.after_execute(executor, shapes),
            Command::Control(control) => control.after_execute(executor, shapes),
        }
    }

    /// The command as the log shows it.
    pub fn to_string(&self) -> (text: String)
        ensures
            text@ == self@.text(),
    {
        match self {
            Command::DrawShape(command) => command.to_string(),
            Command::Delete(command) => command.to_string(),
            Command::MoveBy(command) => command.to_string(),
            Command::Control(control) => control.to_string(),
        }
    }
}

} // verus!
