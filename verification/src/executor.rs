//! The engine that applies commands to the scene and keeps the history of
//! what was done and what was undone.

use crate::command::{Command, CommandView, Control};
use crate::shape::{Scene, Shapes};
use crate::text::{quoted, quoted_text};
use vstd::prelude::*;

verus! {

/// Why a command, an undo or a redo did nothing.
#[derive(Debug)]
pub enum ExecutionError {
    /// The command names a shape that the scene does not hold.
    NotFound(String),
    /// The command holds nothing that its undo could put back.
    NothingToUndo,
    /// No command is left to undo.
    NoCmdToUndo,
    /// No undone command is left to redo.
    NoCmdToRedo,
}

/// An [`ExecutionError`] with its text as characters.
pub enum ExecutionErrorView {
    NotFound(Seq<char>),
    NothingToUndo,
    NoCmdToUndo,
    NoCmdToRedo,
}

impl View for ExecutionError {
    type V = ExecutionErrorView;

    open spec fn view(&self) -> ExecutionErrorView {
        match self {
            ExecutionError::NotFound(name) => ExecutionErrorView::NotFound(name@),
            ExecutionError::NothingToUndo => ExecutionErrorView::NothingToUndo,
            ExecutionError::NoCmdToUndo => ExecutionErrorView::NoCmdToUndo,
            ExecutionError::NoCmdToRedo => ExecutionErrorView::NoCmdToRedo,
        }
    }
}

impl ExecutionErrorView {
    /// The message of the error.
    pub open spec fn message(self) -> Seq<char> {
        match self {
            ExecutionErrorView::NotFound(name) => "Shape "@ + quoted_text(name)
                + " is not found."@,
            ExecutionErrorView::NothingToUndo => "No shape was deleted."@,
            ExecutionErrorView::NoCmdToUndo => "No command to undo."@,
            ExecutionErrorView::NoCmdToRedo => "No command to redo."@,
        }
    }
}

impl ExecutionError {
    /// The message of the error, as it is logged.
    pub fn to_string(&self) -> (message: String)
        ensures
            message@ == self@.message(),
    {
        match self {
            ExecutionError::NotFound(name) => {
                let mut message = String::from_str("Shape ");
                let name_text = quoted(name.as_str());
                message.append(name_text.as_str());
                message.append(" is not found.");
                message
            },
            ExecutionError::NothingToUndo => String::from_str("No shape was deleted."),
            ExecutionError::NoCmdToUndo => String::from_str("No command to undo."),
            ExecutionError::NoCmdToRedo => String::from_str("No command to redo."),
        }
    }
}

/// The history of an engine: the commands that were executed and not
/// undone, the oldest first, and the commands that were undone and not
/// redone, the one undone last at the end.
pub struct History {
    pub executed: Seq<CommandView>,
    pub undone: Seq<CommandView>,
}

/// What an operation of the engine leaves behind: the history, the scene,
/// and what it returned.
pub struct Outcome {
    pub history: History,
    pub scene: Scene,
    pub result: Result<(), ExecutionErrorView>,
}

impl History {
    /// Whether every command in the history can be taken back. The history
    /// of an engine is always so: a [`Control`] command never enters it.
    pub open spec fn reversible(self) -> bool {
        &&& forall|i: int| 0 <= i < self.executed.len() ==> (#[trigger] self.executed[i]).reversible()
        &&& forall|i: int| 0 <= i < self.undone.len() ==> (#[trigger] self.undone[i]).reversible()
    }

    /// What undoing does: the command executed last is taken from the
    /// history and undone; it joins the undone commands if that succeeds,
    /// and is lost if it fails. With no command to undo nothing changes.
    pub open spec fn undo(self, scene: Scene) -> Outcome {
        if self.executed.len() == 0 {
            Outcome { history: self, scene, result: Err(ExecutionErrorView::NoCmdToUndo) }
        } else {
            match self.executed.last().undone(scene) {
                Ok((command, changed)) => Outcome {
                    history: History {
                        executed: self.executed.drop_last(),
                        undone: self.undone.push(command),
                    },
                    scene: changed,
                    result: Ok(()),
                },
                Err(error) => Outcome {
                    history: History { executed: self.executed.drop_last(), undone: self.undone },
                    scene,
                    result: Err(error),
                },
            }
        }
    }

    /// What redoing does: the command undone last is taken from the undone
    /// commands and executed again; it joins the executed commands if that
    /// succeeds, and is lost if it fails. With no command to redo nothing
    /// changes.
    pub open spec fn redo(self, scene: Scene) -> Outcome {
        if self.undone.len() == 0 {
            Outcome { history: self, scene, result: Err(ExecutionErrorView::NoCmdToRedo) }
        } else {
            match self.undone.last().executed(scene) {
                Ok((command, changed)) => Outcome {
                    history: History {
                        executed: self.executed.push(command),
                        undone: self.undone.drop_last(),
                    },
                    scene: changed,
                    result: Ok(()),
                },
                Err(error) => Outcome {
                    history: History { executed: self.executed, undone: self.undone.drop_last() },
                    scene,
                    result: Err(error),
                },
            }
        }
    }

    /// What executing `command` does. A [`Control`] command undoes or
    /// redoes, and does not enter the history. Any other command is executed
    /// on the scene; if that succeeds it joins the executed commands and the
    /// undone commands are forgotten, and if it fails nothing changes.
    pub open spec fn execute(self, command: CommandView, scene: Scene) -> Outcome {
        match command {
            CommandView::Control(Control::Undo) => self.undo(scene),
            CommandView::Control(Control::Redo) => self.redo(scene),
            _ => match command.executed(scene) {
                Ok((command, changed)) => Outcome {
                    history: History {
                        executed: self.executed.push(command),
                        undone: Seq::empty(),
                    },
                    scene: changed,
                    result: Ok(()),
                },
                Err(error) => Outcome { history: self, scene, result: Err(error) },
            },
        }
    }
}

impl History {
    /// What executing `commands` one after the other does. Every command is
    /// tried, whatever became of those before it; the result is the first
    /// failure, if there was one.
    pub open spec fn execute_all(self, commands: Seq<CommandView>, scene: Scene) -> Outcome
        decreases commands.len(),
    {
        if commands.len() == 0 {
            Outcome { history: self, scene, result: Ok(()) }
        } else {
            let first = self.execute(commands[0], scene);
            let rest = first.history.execute_all(commands.skip(1), first.scene);
            Outcome {
                history: rest.history,
                scene: rest.scene,
                result: if first.result is Err {
                    first.result
                } else {
                    rest.result
                },
            }
        }
    }

    /// What undoing `times` times does. Every undo is tried; the result is
    /// the first failure, if there was one.
    pub open spec fn undo_times(self, times: nat, scene: Scene) -> Outcome
        decreases times,
    {
        if times == 0 {
            Outcome { history: self, scene, result: Ok(()) }
        } else {
            let first = self.undo(scene);
            let rest = first.history.undo_times((times - 1) as nat, first.scene);
            Outcome {
                history: rest.history,
                scene: rest.scene,
                result: if first.result is Err {
                    first.result
                } else {
                    rest.result
                },
            }
        }
    }

    /// Whether each of `commands`, executed in turn from this history and
    /// `scene`, can be taken back exactly: see [`CommandView::restorable`].
    pub open spec fn restorable(self, commands: Seq<CommandView>, scene: Scene) -> bool
        decreases commands.len(),
    {
        commands.len() > 0 ==> {
            let first = self.execute(commands[0], scene);
            &&& commands[0].restorable(scene)
            &&& first.history.restorable(commands.skip(1), first.scene)
        }
    }

    /// Executing commands and then one more is executing them all: the
    /// history and the scene are the same either way.
    pub proof fn lemma_execute_one_more(
        self,
        commands: Seq<CommandView>,
        command: CommandView,
        scene: Scene,
    )
        ensures
            ({
                let before = self.execute_all(commands, scene);
                let last = before.history.execute(command, before.scene);
                let all = self.execute_all(commands.push(command), scene);
                &&& all.history == last.history
                &&& all.scene == last.scene
                &&& all.result is Ok <==> before.result is Ok && last.result is Ok
            }),
        decreases commands.len(),
    {
        reveal_with_fuel(History::execute_all, 2);
        let more = commands.push(command);
        if commands.len() > 0 {
            let first = self.execute(commands[0], scene);
            first.history.lemma_execute_one_more(commands.skip(1), command, first.scene);
            assert(more.skip(1) =~= commands.skip(1).push(command));
        } else {
            assert(more.skip(1) =~= Seq::<CommandView>::empty());
        }
    }

    proof fn lemma_undo_once_more(self, times: nat, scene: Scene)
        ensures
            ({
                let before = self.undo_times(times, scene);
                let last = before.history.undo(before.scene);
                let all = self.undo_times(times + 1, scene);
                &&& all.history == last.history
                &&& all.scene == last.scene
                &&& all.result is Ok <==> before.result is Ok && last.result is Ok
            }),
        decreases times,
    {
        reveal_with_fuel(History::undo_times, 2);
        if times > 0 {
            let first = self.undo(scene);
            first.history.lemma_undo_once_more((times - 1) as nat, first.scene);
            assert(times - 1 + 1 == times);
        }
    }

    /// Executing commands and then undoing as many leads back: where each of
    /// the commands can be taken back exactly, the undos all find a command,
    /// the scene is what it was before the first command, and so are the
    /// executed commands of the history. The first command leaves nothing
    /// undone, and the undone commands are then as many as the commands
    /// were.
    pub proof fn lemma_round_trip(self, commands: Seq<CommandView>, scene: Scene)
        requires
            self.reversible(),
            self.restorable(commands, scene),
        ensures
            ({
                let there = self.execute_all(commands, scene);
                let back = there.history.undo_times(commands.len(), there.scene);
                &&& there.result is Ok
                &&& there.history.reversible()
                &&& there.history.executed.len() == self.executed.len() + commands.len()
                &&& back.result is Ok
                &&& back.scene == scene
                &&& back.history.executed == self.executed
                &&& back.history.reversible()
                &&& commands.len() > 0 ==> there.history.undone.len() == 0
                    && back.history.undone.len() == commands.len()
                &&& commands.len() == 0 ==> there.history == self && back.history == self
            }),
        decreases commands.len(),
    {
        if commands.len() > 0 {
            let command = commands[0];
            command.lemma_undo_restores(scene);
            let first = self.execute(command, scene);
            let kept = command.executed(scene)->Ok_0.0;
            assert(first.history.executed == self.executed.push(kept));
            assert(first.history.reversible());
            let rest = commands.skip(1);
            first.history.lemma_round_trip(rest, first.scene);
            let there = first.history.execute_all(rest, first.scene);
            let nearly = there.history.undo_times(rest.len(), there.scene);
            there.history.lemma_undo_once_more(rest.len(), there.scene);
            let back = nearly.history.undo(nearly.scene);
            assert(nearly.history.executed.last() == kept);
            assert(nearly.history.executed.drop_last() =~= self.executed);
            assert(back.history.reversible()) by {
                let restored = kept.undone(first.scene)->Ok_0.0;
                assert(back.history.undone == nearly.history.undone.push(restored));
            }
        }
    }

    /// Whether each of `commands`, executed in turn from `scene`, is
    /// reversible and succeeds.
    pub open spec fn executable(commands: Seq<CommandView>, scene: Scene) -> bool
        decreases commands.len(),
    {
        commands.len() > 0 ==> {
            &&& commands[0].reversible()
            &&& commands[0].executed(scene) matches Ok((_, changed))
            &&& Self::executable(commands.skip(1), changed)
        }
    }

    /// The names that `scene` holds and that executing `commands` and then
    /// undoing them all takes out of it. The undo of a drawing removes the
    /// name: a drawing over a name that the scene holds loses that name, and
    /// a drawing onto a free name makes up for whatever the later commands
    /// lose of it. The undo of a deletion puts the name back, whatever the
    /// later commands lose of it.
    pub open spec fn lost(commands: Seq<CommandView>, scene: Scene) -> Set<Seq<char>>
        decreases commands.len(),
    {
        if commands.len() == 0 {
            Set::empty()
        } else {
            let later = Self::lost(commands.skip(1), commands[0].executed(scene)->Ok_0.1);
            match commands[0] {
                CommandView::DrawShape { name, .. } => if scene.contains_key(name) {
                    later.insert(name)
                } else {
                    later.remove(name)
                },
                CommandView::Delete { name, .. } => later.remove(name),
                _ => later,
            }
        }
    }

    /// Executing commands and then undoing as many leaves the scene as it
    /// was but for the names that are [`History::lost`]: it leads back to
    /// the scene before the first command exactly where no name is lost.
    /// This holds of all commands that are reversible and succeed, also
    /// where an undo among them fails. The executed commands of the
    /// history are then what they were before.
    pub proof fn lemma_round_trip_scene(self, commands: Seq<CommandView>, scene: Scene)
        requires
            self.reversible(),
            Self::executable(commands, scene),
        ensures
            ({
                let there = self.execute_all(commands, scene);
                let back = there.history.undo_times(commands.len(), there.scene);
                &&& there.result is Ok
                &&& there.history.reversible()
                &&& there.history.executed.len() == self.executed.len() + commands.len()
                &&& back.history.reversible()
                &&& back.history.executed == self.executed
                &&& back.scene == scene.remove_keys(Self::lost(commands, scene))
                &&& Self::lost(commands, scene).subset_of(scene.dom())
                &&& back.scene == scene <==> Self::lost(commands, scene) == Set::<
                    Seq<char>,
                >::empty()
            }),
        decreases commands.len(),
    {
        let missing = Self::lost(commands, scene);
        if commands.len() > 0 {
            let command = commands[0];
            let first = self.execute(command, scene);
            let kept = command.executed(scene)->Ok_0.0;
            let changed = command.executed(scene)->Ok_0.1;
            assert(first.scene == changed);
            assert(first.history.executed == self.executed.push(kept));
            assert(kept.reversible());
            assert(first.history.reversible());
            let rest = commands.skip(1);
            let later = Self::lost(rest, changed);
            first.history.lemma_round_trip_scene(rest, changed);
            let there = first.history.execute_all(rest, changed);
            let nearly = there.history.undo_times(rest.len(), there.scene);
            there.history.lemma_undo_once_more(rest.len(), there.scene);
            let back = nearly.history.undo(nearly.scene);
            assert(nearly.scene == changed.remove_keys(later));
            assert(nearly.history.executed.last() == kept);
            assert(nearly.history.executed.drop_last() =~= self.executed);
            match command {
                CommandView::MoveBy { name, dx, dy } => {
                    scene[name].lemma_moved_back(dx, dy);
                },
                _ => {},
            }
            assert(back.scene =~= scene.remove_keys(missing));
            assert(back.history.reversible()) by {
                if kept.undone(nearly.scene) is Ok {
                    let restored = kept.undone(nearly.scene)->Ok_0.0;
                    assert(back.history.undone == nearly.history.undone.push(restored));
                }
            }
            assert(missing.subset_of(scene.dom()));
        } else {
            assert(scene.remove_keys(missing) =~= scene);
        }
        if missing =~= Set::<Seq<char>>::empty() {
            assert(scene.remove_keys(missing) =~= scene);
        } else {
            let name = choose|name: Seq<char>| missing.contains(name);
            assert(missing.contains(name));
            assert(scene.contains_key(name));
            assert(!scene.remove_keys(missing).contains_key(name));
        }
    }

    /// Undo, redo, undo leads where the first undo led: where an undo
    /// succeeds, the redo and the undo that follow it succeed too, and leave
    /// the scene and the whole history as the first undo left them.
    pub proof fn lemma_undo_redo_undo(self, scene: Scene)
        requires
            self.reversible(),
            self.undo(scene).result is Ok,
        ensures
            ({
                let first = self.undo(scene);
                let again = first.history.redo(first.scene);
                let second = again.history.undo(again.scene);
                &&& again.result is Ok
                &&& second.result is Ok
                &&& second.scene == first.scene
                &&& second.history == first.history
            }),
    {
        let command = self.executed.last();
        let first = self.undo(scene);
        let undone = command.undone(scene)->Ok_0.0;
        assert(first.history.undone.last() == undone);
        assert(first.history.undone.drop_last() =~= self.undone);
        match command {
            CommandView::MoveBy { name, dx, dy } => {
                scene[name].lemma_moved_back(dx, dy);
            },
            _ => {},
        }
        let again = first.history.redo(first.scene);
        let redone = undone.executed(first.scene)->Ok_0.0;
        assert(again.history.executed.last() == redone);
        assert(again.history.executed.drop_last() =~= first.history.executed);
        let second = again.history.undo(again.scene);
        assert(second.scene =~= first.scene);
        assert(second.history.undone =~= first.history.undone);
    }

    /// A new command ends what could be redone: where a command other than
    /// undo and redo is executed with success, no undone command is left,
    /// and a redo that follows fails with `NoCmdToRedo` and changes nothing.
    pub proof fn lemma_execute_forgets_undone(self, command: CommandView, scene: Scene)
        requires
            command.reversible(),
            self.execute(command, scene).result is Ok,
        ensures
            ({
                let after = self.execute(command, scene);
                let redo = after.history.redo(after.scene);
                &&& after.history.undone.len() == 0
                &&& redo.result == Err::<(), ExecutionErrorView>(ExecutionErrorView::NoCmdToRedo)
                &&& redo.history == after.history
                &&& redo.scene == after.scene
            }),
    {
    }
}

/// The commands of a stack as contracts see them.
pub open spec fn views(commands: Seq<Command>) -> Seq<CommandView> {
    commands.map_values(|command: Command| command@)
}

/// What is logged of a command that was executed with the given result:
/// the command as it is written, and after it the message of the error if
/// there is one.
pub open spec fn log_of(command: CommandView, result: Result<(), ExecutionErrorView>) -> Seq<
    Seq<char>,
> {
    match result {
        Ok(()) => seq![command.text()],
        Err(error) => seq![command.text(), error.message()],
    }
}

/// Whether `result` is what `expected` says, error for error.
pub open spec fn returned(result: Result<(), ExecutionError>, expected: Result<(), ExecutionErrorView>) -> bool {
    match expected {
        Ok(()) => result is Ok,
        Err(error) => result matches Err(e) && e@ == error,
    }
}

/// The execution engine: it applies commands to the scene and keeps the
/// history that undo and redo walk.
#[derive(Debug)]
pub struct Executor {
    executed: Vec<Command>,
    undone: Vec<Command>,
}

impl View for Executor {
    type V = History;

    closed spec fn view(&self) -> History {
        History { executed: views(self.executed@), undone: views(self.undone@) }
    }
}

impl Executor {
    #[verifier::type_invariant]
    spec fn well_formed(self) -> bool {
        self@.reversible()
    }

    /// An engine with an empty history.
    pub fn new() -> (executor: Self)
        ensures
            executor@ == (History { executed: Seq::empty(), undone: Seq::empty() }),
            executor@.reversible(),
    {
        let executor = Executor { executed: Vec::new(), undone: Vec::new() };
        assert(executor@.executed =~= Seq::empty());
        assert(executor@.undone =~= Seq::empty());
        executor
    }

    /// The executed commands that were not undone, the oldest first.
    pub fn executed(&self) -> (commands: &Vec<Command>)
        ensures
            views(commands@) == self@.executed,
            self@.reversible(),
    {
        proof {
            use_type_invariant(self);
        }
        &self.executed
    }

    /// The undone commands that were not redone, the one undone last at the
    /// end.
    pub fn undone(&self) -> (commands: &Vec<Command>)
        ensures
            views(commands@) == self@.undone,
            self@.reversible(),
    {
        proof {
            use_type_invariant(self);
        }
        &self.undone
    }

    /// Executes `cmd`: see [`History::execute`].
    pub fn execute(&mut self, cmd: Command, shapes: &mut Shapes) -> (result: Result<
        (),
        ExecutionError,
    >)
        ensures
            ({
                let outcome = old(self)@.execute(cmd@, old(shapes)@);
                &&& final(self)@ == outcome.history
                &&& final(shapes)@ == outcome.scene
                &&& returned(result, outcome.result)
            }),
            final(self)@.reversible(),
    {
        let mut cmd = cmd;
        proof {
            use_type_invariant(&*self);
        }
        let result = match cmd.execute(shapes) {
            Err(error) => Err(error),
            Ok(()) => match cmd.after_execute(self, shapes) {
                Err(error) => Err(error),
                Ok(record) => {
                    if record {
                        let mut taken = Executor::new();
                        std::mem::swap(self, &mut taken);
                        let Executor { mut executed, mut undone } = taken;
                        undone.clear();
                        executed.push(cmd);
                        proof {
                            assert(views(executed@) =~= old(self)@.executed.push(cmd@));
                            assert(views(undone@) =~= Seq::<CommandView>::empty());
                        }
                        *self = Executor { executed, undone };
                    }
                    Ok(())
                },
            },
        };
        proof {
            use_type_invariant(&*self);
        }
        result
    }

    /// Executes `cmd` as [`Executor::execute`] does, and returns what is to
    /// be logged of it: the command as it is written, and after it the
    /// message of the error if the command failed.
    pub fn execute_logged(&mut self, cmd: Command, shapes: &mut Shapes) -> (lines: Vec<String>)
        ensures
            ({
                let outcome = old(self)@.execute(cmd@, old(shapes)@);
                &&& final(self)@ == outcome.history
                &&& final(shapes)@ == outcome.scene
                &&& lines.deep_view() == log_of(cmd@, outcome.result)
            }),
            final(self)@.reversible(),
    {
        let mut lines = Vec::new();
        lines.push(cmd.to_string());
        match self.execute(cmd, shapes) {
            Err(error) => {
                lines.push(error.to_string());
            },
            Ok(()) => {},
        }
        assert(lines.deep_view() =~= log_of(cmd@, old(self)@.execute(cmd@, old(shapes)@).result));
        lines
    }

    /// Undoes the command executed last: see [`History::undo`].
    pub fn undo(&mut self, shapes: &mut Shapes) -> (result: Result<(), ExecutionError>)
        ensures
            ({
                let outcome = old(self)@.undo(old(shapes)@);
                &&& final(self)@ == outcome.history
                &&& final(shapes)@ == outcome.scene
                &&& returned(result, outcome.result)
            }),
            final(self)@.reversible(),
    {
        proof {
            use_type_invariant(&*self);
        }
        let mut taken = Executor::new();
        std::mem::swap(self, &mut taken);
        let Executor { mut executed, mut undone } = taken;
        let result = match executed.pop() {
            None => Err(ExecutionError::NoCmdToUndo),
            Some(cmd) => {
                let mut cmd = cmd;
                assert(cmd@ == old(self)@.executed.last());
                assert(views(executed@) =~= old(self)@.executed.drop_last());
                match cmd.undo(shapes) {
                    Err(error) => Err(error),
                    Ok(()) => {
                        undone.push(cmd);
                        assert(views(undone@) =~= old(self)@.undone.push(cmd@));
                        Ok(())
                    },
                }
            },
        };
        *self = Executor { executed, undone };
        proof {
            use_type_invariant(&*self);
        }
        result
    }

    /// Redoes the command undone last: see [`History::redo`].
    pub fn redo(&mut self, shapes: &mut Shapes) -> (result: Result<(), ExecutionError>)
        ensures
            ({
                let outcome = old(self)@.redo(old(shapes)@);
                &&& final(self)@ == outcome.history
                &&& final(shapes)@ == outcome.scene
                &&& returned(result, outcome.result)
            }),
            final(self)@.reversible(),
    {
        proof {
            use_type_invariant(&*self);
        }
        let mut taken = Executor::new();
        std::mem::swap(self, &mut taken);
        let Executor { mut executed, mut undone } = taken;
        let result = match undone.pop() {
            None => Err(ExecutionError::NoCmdToRedo),
            Some(cmd) => {
                let mut cmd = cmd;
                assert(cmd@ == old(self)@.undone.last());
                assert(views(undone@) =~= old(self)@.undone.drop_last());
                match cmd.execute(shapes) {
                    Err(error) => Err(error),
                    Ok(()) => {
                        executed.push(cmd);
                        assert(views(executed@) =~= old(self)@.executed.push(cmd@));
                        Ok(())
                    },
                }
            },
        };
        *self = Executor { executed, undone };
        proof {
            use_type_invariant(&*self);
        }
        result
    }
}

impl Default for Executor {
    fn default() -> (executor: Executor)
        ensures
            executor@ == (History { executed: Seq::empty(), undone: Seq::empty() }),
            executor@.reversible(),
    {
        Executor::new()
    }
}

} // verus!
