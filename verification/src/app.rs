//! The application: a scene, the engine that edits it, a renderer that
//! shows it, and a logger that is told what happens.

use crate::command::{Command, CommandView};
use crate::executor::{log_of, returned, views, ExecutionError, Executor, History};
use crate::log::{logged, logged_all, logging, DummyLogger, Logger};
use crate::render::{
    frame_delay_ms, promised, shown, DummyRenderer, RenderError, RenderQueue, Renderer, Wake,
};
use crate::shape::{Scene, Shape, Shapes};
use vstd::prelude::*;

verus! {

/// The application. It owns the scene and is the only one to change it.
pub struct App<LoggerType: Logger, RendererType: Renderer> {
    shapes: Shapes,
    renderer: RendererType,
    logger: LoggerType,
    executor: Executor,
    fps: u64,
    async_render: bool,
}

impl<LoggerType: Logger, RendererType: Renderer> App<LoggerType, RendererType> {
    /// The scene of the application.
    pub closed spec fn scene(&self) -> Scene {
        self.shapes@
    }

    /// The entries of the scene in the order in which they are shown: see
    /// [`Shapes::listed`].
    pub closed spec fn listed(&self) -> Seq<(Seq<char>, Shape)> {
        self.shapes.listed()
    }

    /// The history of the engine of the application.
    pub closed spec fn history(&self) -> History {
        self.executor@
    }

    /// The renderer on which the application shows its frames.
    pub closed spec fn renderer(&self) -> RendererType {
        self.renderer
    }

    /// The logger to which the application writes its messages.
    pub closed spec fn logger(&self) -> LoggerType {
        self.logger
    }

    /// The highest number of frames that are shown in a second.
    pub closed spec fn frames_per_second(&self) -> u64 {
        self.fps
    }

    /// Whether frames are shown apart from the commands, so that a burst of
    /// commands costs one frame; otherwise a frame follows each command.
    pub closed spec fn renders_async(&self) -> bool {
        self.async_render
    }

    /// Whether `other` is this application but for its renderer and its
    /// logger.
    pub open spec fn same_state(&self, other: &Self) -> bool {
        &&& self.scene() == other.scene()
        &&& self.listed() == other.listed()
        &&& self.history() == other.history()
        &&& self.frames_per_second() == other.frames_per_second()
        &&& self.renders_async() == other.renders_async()
    }

    /// Whether a frame of `listed` was shown and its failure logged: the
    /// renderer went from `renderer` to `shown_on` while it showed `listed`
    /// in one frame, as [`shown`] says; if the frame succeeded the logger
    /// is as it was, and if it failed the logger was handed the message of
    /// the error and went from `logger` to `told`.
    pub open spec fn framed(
        renderer: RendererType,
        listed: Seq<(Seq<char>, Shape)>,
        logger: LoggerType,
        shown_on: RendererType,
        told: LoggerType,
    ) -> bool {
        exists|frame: Result<(), RenderError>| #[trigger]
            shown(promised::<RendererType>(), renderer, listed, shown_on, frame) && match frame {
                Ok(_) => told == logger,
                Err(error) => logger.logs(error.message@, &told),
            }
    }

    /// Whether one command took the application from `before` to `after`:
    /// the command was executed on the scene, as [`History::execute`] says;
    /// the logger was handed the command as it is written and, if the
    /// command failed, the message of its error after it; and where a frame
    /// follows each command, the scene as the command left it was then
    /// shown in one frame, whether the command failed or not, and a failure
    /// of the frame was logged. Where frames are shown apart the renderer
    /// is as it was.
    pub open spec fn stepped(before: &Self, cmd: CommandView, after: &Self) -> bool {
        let outcome = before.history().execute(cmd, before.scene());
        &&& after.scene() == outcome.scene
        &&& after.history() == outcome.history
        &&& after.frames_per_second() == before.frames_per_second()
        &&& after.renders_async() == before.renders_async()
        &&& exists|told: LoggerType| #[trigger]
            logged_all(
                logging::<LoggerType>(),
                before.logger(),
                log_of(cmd, outcome.result),
                told,
            ) && if before.renders_async() {
                after.renderer() == before.renderer() && after.logger() == told
            } else {
                Self::framed(
                    before.renderer(),
                    after.listed(),
                    told,
                    after.renderer(),
                    after.logger(),
                )
            }
    }

    /// Whether `states` are the states that the application went through
    /// while it ran `commands` from `before` on: each command took it from
    /// one state to the next, as [`App::stepped`] says.
    pub open spec fn ran(before: &Self, commands: Seq<CommandView>, states: Seq<Self>) -> bool {
        &&& states.len() == commands.len() + 1
        &&& states[0] == *before
        &&& forall|i: int|
            0 <= i < commands.len() ==> Self::stepped(
                &#[trigger] states[i],
                commands[i],
                &states[i + 1],
            )
    }

    /// Whether a last frame took the application from `before` to `after`:
    /// the scene as it is was shown in one frame and a failure of the frame
    /// was logged, as [`App::framed`] says, and nothing else changed.
    pub open spec fn ended(before: &Self, after: &Self) -> bool {
        &&& after.same_state(before)
        &&& Self::framed(
            before.renderer(),
            before.listed(),
            before.logger(),
            after.renderer(),
            after.logger(),
        )
    }

    /// An application with an empty scene and an empty history, at 10
    /// frames a second, that writes to `logger` and shows its frames on
    /// `renderer`.
    pub fn new(logger: LoggerType, renderer: RendererType, async_render: bool) -> (app: Self)
        ensures
            app.scene() == Scene::empty(),
            app.history() == (History { executed: Seq::empty(), undone: Seq::empty() }),
            app.frames_per_second() == 10,
            app.renders_async() == async_render,
            app.logger() == logger,
            app.renderer() == renderer,
    {
        App {
            shapes: Shapes::new(),
            executor: Executor::new(),
            renderer,
            logger,
            fps: 10,
            async_render,
        }
    }

    /// Has the application show its frames on `renderer` from now on.
    pub fn set_renderer(&mut self, renderer: RendererType)
        ensures
            final(self).renderer() == renderer,
            final(self).logger() == old(self).logger(),
            final(self).same_state(old(self)),
    {
        self.renderer = renderer;
    }

    /// Has the application write its messages to `logger` from now on.
    pub fn set_logger(&mut self, logger: LoggerType)
        ensures
            final(self).logger() == logger,
            final(self).renderer() == old(self).renderer(),
            final(self).same_state(old(self)),
    {
        self.logger = logger;
    }

    /// Sets the highest number of frames that are shown in a second.
    pub fn set_fps(&mut self, fps: u64)
        ensures
            final(self).frames_per_second() == fps,
            final(self).scene() == old(self).scene(),
            final(self).listed() == old(self).listed(),
            final(self).history() == old(self).history(),
            final(self).renders_async() == old(self).renders_async(),
            final(self).renderer() == old(self).renderer(),
            final(self).logger() == old(self).logger(),
    {
        self.fps = fps;
    }

    /// Sets whether frames are shown apart from the commands.
    pub fn set_async_render(&mut self, async_render: bool)
        ensures
            final(self).renders_async() == async_render,
            final(self).scene() == old(self).scene(),
            final(self).listed() == old(self).listed(),
            final(self).history() == old(self).history(),
            final(self).frames_per_second() == old(self).frames_per_second(),
            final(self).renderer() == old(self).renderer(),
            final(self).logger() == old(self).logger(),
    {
        self.async_render = async_render;
    }

    /// The highest number of frames that are shown in a second.
    pub fn fps(&self) -> (fps: u64)
        ensures
            fps == self.frames_per_second(),
    {
        self.fps
    }

    /// Whether frames are shown apart from the commands.
    pub fn async_render(&self) -> (async_render: bool)
        ensures
            async_render == self.renders_async(),
    {
        self.async_render
    }

    /// The time in milliseconds that the render task lets pass after a
    /// frame: [`frame_delay_ms`] of the set number of frames in a second.
    pub fn frame_delay_ms(&self) -> (delay: u64)
        requires
            self.frames_per_second() > 0,
        ensures
            delay == 1000u64 / self.frames_per_second(),
    {
        frame_delay_ms(self.fps)
    }

    /// The scene.
    pub fn shapes(&self) -> (shapes: &Shapes)
        ensures
            shapes@ == self.scene(),
            shapes.listed() == self.listed(),
    {
        &self.shapes
    }

    /// The engine.
    pub fn executor(&self) -> (executor: &Executor)
        ensures
            executor@ == self.history(),
    {
        &self.executor
    }

    /// Executes `cmd` on the scene: see [`History::execute`].
    pub fn execute(&mut self, cmd: Command) -> (result: Result<(), ExecutionError>)
        ensures
            ({
                let outcome = old(self).history().execute(cmd@, old(self).scene());
                &&& final(self).scene() == outcome.scene
                &&& final(self).history() == outcome.history
                &&& returned(result, outcome.result)
            }),
            final(self).frames_per_second() == old(self).frames_per_second(),
            final(self).renders_async() == old(self).renders_async(),
            final(self).renderer() == old(self).renderer(),
            final(self).logger() == old(self).logger(),
    {
        self.executor.execute(cmd, &mut self.shapes)
    }

    /// Shows the scene in one frame on the renderer, and returns what the
    /// renderer returned: the renderer is asked to begin the frame, to draw
    /// each entry of the scene, and to finish the frame, until a request
    /// fails, as [`shown`] says. Nothing but the renderer changes.
    pub fn render_shapes(&mut self) -> (result: Result<(), RenderError>)
        ensures
            shown(
                promised::<RendererType>(),
                old(self).renderer(),
                old(self).listed(),
                final(self).renderer(),
                result,
            ),
            final(self).logger() == old(self).logger(),
            final(self).same_state(old(self)),
    {
        self.renderer.render_shapes(&self.shapes)
    }

    /// Hands each of `lines` to the logger, in turn. Nothing but the logger
    /// changes.
    fn log_all(&mut self, lines: &Vec<String>)
        ensures
            logged_all(
                logging::<LoggerType>(),
                old(self).logger(),
                lines.deep_view(),
                final(self).logger(),
            ),
            final(self).renderer() == old(self).renderer(),
            final(self).same_state(old(self)),
    {
        let ghost mut states: Seq<LoggerType> = seq![self.logger];
        let mut i: usize = 0;
        while i < lines.len()
            invariant
                i <= lines.len(),
                self.same_state(old(self)),
                self.renderer == old(self).renderer,
                states.len() == i + 1,
                states[0] == old(self).logger,
                states.last() == self.logger,
                forall|j: int|
                    0 <= j < i ==> (#[trigger] states[j]).logs(lines.deep_view()[j], &states[j + 1]),
            decreases lines.len() - i,
        {
            let ghost earlier = states;
            let ghost found = self.logger;
            self.logger.log(lines[i].as_str());
            proof {
                states = states.push(self.logger);
                assert(states[i as int] == found);
                assert forall|j: int| 0 <= j < i + 1 implies (#[trigger] states[j]).logs(
                    lines.deep_view()[j],
                    &states[j + 1],
                ) by {
                    if j < i {
                        assert(states[j] == earlier[j]);
                        assert(states[j + 1] == earlier[j + 1]);
                    }
                }
            }
            i += 1;
        }
        assert(logged(logging::<LoggerType>(), old(self).logger(), lines.deep_view(), states));
    }

    /// Shows the scene in one frame, as [`App::render_shapes`] does, and
    /// hands the message of the error to the logger if the renderer
    /// failed: see [`App::framed`]. Nothing but the renderer and the logger
    /// changes.
    fn show(&mut self)
        ensures
            Self::ended(old(self), final(self)),
    {
        match self.render_shapes() {
            Err(error) => {
                let message = error.to_string();
                self.logger.log(message.as_str());
                assert(shown(
                    promised::<RendererType>(),
                    old(self).renderer(),
                    old(self).listed(),
                    self.renderer(),
                    Err(error),
                ));
            },
            Ok(()) => {
                assert(shown(
                    promised::<RendererType>(),
                    old(self).renderer(),
                    old(self).listed(),
                    self.renderer(),
                    Ok(()),
                ));
            },
        }
    }

    /// Runs one command: the command is logged and executed, and its error
    /// is logged if it fails. Where a frame follows each command, the scene
    /// is then shown, whether the command failed or not, and a renderer
    /// that fails is logged. See [`App::stepped`].
    pub fn step(&mut self, cmd: Command)
        ensures
            Self::stepped(old(self), cmd@, final(self)),
    {
        let ghost outcome = self.executor@.execute(cmd@, self.shapes@);
        let lines = self.executor.execute_logged(cmd, &mut self.shapes);
        self.log_all(&lines);
        let ghost told = self.logger;
        if !self.async_render {
            self.show();
        }
        assert(logged_all(
            logging::<LoggerType>(),
            old(self).logger(),
            log_of(cmd@, outcome.result),
            told,
        ));
    }

    /// Runs the commands in turn, each as [`App::step`] does: each command
    /// is logged and executed; one that fails is logged with its error, and
    /// the run goes on. Where frames follow the commands, the scene is
    /// shown after each command. Where frames are shown apart, each command
    /// asks for a frame, and the requests of the run are served by one
    /// frame at its end, which shows the scene as the last command left it.
    /// A renderer that fails is logged, and the run goes on.
    pub fn run(&mut self, commands: Vec<Command>)
        ensures
            ({
                let outcome = old(self).history().execute_all(views(commands@), old(self).scene());
                &&& final(self).scene() == outcome.scene
                &&& final(self).history() == outcome.history
            }),
            final(self).frames_per_second() == old(self).frames_per_second(),
            final(self).renders_async() == old(self).renders_async(),
            exists|states: Seq<Self>| #[trigger]
                Self::ran(old(self), views(commands@), states) && if old(self).renders_async() {
                    Self::ended(&states.last(), final(self))
                } else {
                    states.last() == *final(self)
                },
    {
        let ghost all = commands@;
        let ghost history = self.executor@;
        let ghost scene = self.shapes@;
        let ghost mut states: Seq<Self> = seq![*self];
        let async_render = self.async_render;
        let total = commands.len();
        let mut queue = RenderQueue::new();
        let mut revision: u64 = 0;
        assert(views(all.take(0)) =~= Seq::empty());
        for cmd in iter: commands
            invariant
                iter.seq() == all,
                revision == iter.index(),
                all.len() == total,
                !queue.closed,
                !queue.rendering,
                self.async_render == async_render,
                old(self).async_render == async_render,
                self.fps == old(self).fps,
                self.shapes@ == history.execute_all(views(all.take(iter.index())), scene).scene,
                self.executor@ == history.execute_all(
                    views(all.take(iter.index())),
                    scene,
                ).history,
                states.len() == iter.index() + 1,
                states[0] == *old(self),
                states.last() == *self,
                forall|i: int|
                    0 <= i < iter.index() ==> Self::stepped(
                        &#[trigger] states[i],
                        views(all)[i],
                        &states[i + 1],
                    ),
        {
            let ghost found = *self;
            let ghost earlier = states;
            let ghost number = iter.index();
            proof {
                history.lemma_execute_one_more(views(all.take(iter.index())), cmd@, scene);
                assert(views(all.take(iter.index() + 1)) =~= views(all.take(iter.index())).push(
                    cmd@,
                ));
                assert(views(all)[number] == cmd@);
            }
            self.step(cmd);
            proof {
                states = states.push(*self);
                assert(states[number] == found);
                assert forall|i: int| 0 <= i < number + 1 implies Self::stepped(
                    &#[trigger] states[i],
                    views(all)[i],
                    &states[i + 1],
                ) by {
                    if i < number {
                        assert(states[i] == earlier[i]);
                        assert(states[i + 1] == earlier[i + 1]);
                    }
                }
            }
            revision += 1;
            if async_render {
                queue.request(revision);
            }
        }
        assert(all.take(all.len() as int) =~= all);
        assert(Self::ran(old(self), views(all), states));
        if async_render {
            queue.close(revision);
            match queue.next() {
                Wake::Render(_) => {
                    self.show();
                    queue.finish();
                },
                _ => {},
            }
        }
    }
}

impl Default for App<DummyLogger, DummyRenderer> {
    /// An application that shows nothing and logs nothing, with an empty
    /// scene and an empty history, at 10 frames a second, with a frame
    /// after each command.
    fn default() -> (app: Self)
        ensures
            app.scene() == Scene::empty(),
            app.history() == (History { executed: Seq::empty(), undone: Seq::empty() }),
            app.frames_per_second() == 10,
            !app.renders_async(),
    {
        App::new(DummyLogger, DummyRenderer, false)
    }
}

} // verus!
