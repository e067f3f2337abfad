//! Rendering: what a renderer is asked to do for a frame.

use crate::shape::{Shape, Shapes};
use vstd::prelude::*;

pub mod dummy_renderer;
pub mod queue;

pub use dummy_renderer::DummyRenderer;
pub use queue::{frame_delay_ms, RenderQueue, RenderState, Wake};

verus! {

/// Why a renderer could not do what it was asked: the message of the
/// failure that it met, an error of its output as a rule.
#[derive(Debug)]
pub struct RenderError {
    pub message: String,
}

impl RenderError {
    /// The message of the error, as it is logged.
    pub fn to_string(&self) -> (message: String)
        ensures
            message@ == self.message@,
    {
        self.message.clone()
    }
}

/// A step of a frame.
#[derive(Debug, Copy, Clone, PartialEq, Eq, Structural)]
pub enum FrameStep {
    /// The renderer begins the frame.
    Init,
    /// The renderer draws the shape with this index among the entries of
    /// the scene.
    Draw(usize),
    /// The renderer finishes the frame.
    Finish,
}

impl FrameStep {
    /// The step that follows this one in a frame of `count` shapes: after
    /// the beginning the shapes in turn, then the end, and nothing after the
    /// end.
    pub open spec fn following(self, count: usize) -> Option<FrameStep> {
        match self {
            FrameStep::Init => if count > 0 {
                Some(FrameStep::Draw(0))
            } else {
                Some(FrameStep::Finish)
            },
            FrameStep::Draw(index) => if index + 1 < count {
                Some(FrameStep::Draw((index + 1) as usize))
            } else {
                Some(FrameStep::Finish)
            },
            FrameStep::Finish => None,
        }
    }

    /// The number of this step among the requests of a frame of `count`
    /// shapes, counted from 0.
    pub open spec fn position(self, count: usize) -> int {
        match self {
            FrameStep::Init => 0,
            FrameStep::Draw(index) => index + 1,
            FrameStep::Finish => count + 1,
        }
    }

    /// How many steps a frame of `count` shapes still has, this one
    /// counted.
    pub open spec fn steps_left(self, count: usize) -> nat {
        match self {
            FrameStep::Init => (count + 2) as nat,
            FrameStep::Draw(index) => if index < count {
                (count - index + 1) as nat
            } else {
                2
            },
            FrameStep::Finish => 1,
        }
    }

    /// What follows this step in a frame of `count` shapes, where the
    /// renderer returned `result` from it: its error ends the frame with
    /// that error; after a success comes [`FrameStep::following`], and
    /// `None` says that the frame is complete.
    pub fn next(self, count: usize, result: Result<(), RenderError>) -> (next: Result<
        Option<FrameStep>,
        RenderError,
    >)
        ensures
            match result {
                Err(error) => next == Err::<Option<FrameStep>, RenderError>(error),
                Ok(()) => next == Ok::<Option<FrameStep>, RenderError>(self.following(count)),
            },
            next matches Ok(Some(step)) ==> step.steps_left(count) < self.steps_left(count),
            next matches Ok(Some(FrameStep::Draw(index))) ==> index < count,
    {
        match result {
            Err(error) => Err(error),
            Ok(()) => Ok(
                match self {
                    FrameStep::Init => if count > 0 {
                        Some(FrameStep::Draw(0))
                    } else {
                        Some(FrameStep::Finish)
                    },
                    FrameStep::Draw(index) => if count > 0 && index < count - 1 {
                        Some(FrameStep::Draw(index + 1))
                    } else {
                        Some(FrameStep::Finish)
                    },
                    FrameStep::Finish => None,
                },
            ),
        }
    }
}

/// What a renderer can be asked to do.
pub enum Request {
    /// Begin a new frame.
    Init,
    /// Draw `shape`, which the scene holds under `name`, into the frame.
    Draw { name: Seq<char>, shape: Shape },
    /// Finish the frame.
    Finish,
}

/// The request with the given number in a frame of `entries`: request 0
/// begins the frame, the requests after it draw the entries in turn, and
/// the one after those finishes the frame.
pub open spec fn request(entries: Seq<(Seq<char>, Shape)>, number: int) -> Request {
    if number <= 0 {
        Request::Init
    } else if number <= entries.len() {
        Request::Draw { name: entries[number - 1].0, shape: entries[number - 1].1 }
    } else {
        Request::Finish
    }
}

/// The error that a request returned, if it returned one.
pub open spec fn failure(result: Result<(), RenderError>) -> Option<RenderError> {
    match result {
        Ok(_) => None,
        Err(error) => Some(error),
    }
}

/// What a renderer promises, as a function: whether a call that found the
/// renderer as the first argument, asked it for the request, and left it as
/// the third argument may have returned the error, or have succeeded where
/// that is `None`.
pub type Promises<R> = spec_fn(R, Request, R, Option<RenderError>) -> bool;

/// Whether `states` are the states that a renderer went through in a frame
/// of `entries` that began at `before` and ended with `failed`, by what it
/// promises: one request after the other was made, each found the renderer
/// as the one before left it, every request but the last succeeded, the
/// last ended with `failed`, and only the request that finishes the frame
/// ends the frame with success.
pub open spec fn frame<R>(
    promises: Promises<R>,
    before: R,
    entries: Seq<(Seq<char>, Shape)>,
    states: Seq<R>,
    failed: Option<RenderError>,
) -> bool {
    &&& 2 <= states.len() <= entries.len() + 3
    &&& states[0] == before
    &&& forall|i: int|
        0 <= i < states.len() - 2 ==> promises(
            #[trigger] states[i],
            request(entries, i),
            states[i + 1],
            None,
        )
    &&& promises(
        states[states.len() - 2],
        request(entries, states.len() - 2),
        states[states.len() - 1],
        failed,
    )
    &&& failed is None ==> states.len() == entries.len() + 3
}

/// Whether a renderer that was at `before` may have shown `entries` in one
/// frame, ending at `after` with `result`: see [`frame`].
pub open spec fn shown<R>(
    promises: Promises<R>,
    before: R,
    entries: Seq<(Seq<char>, Shape)>,
    after: R,
    result: Result<(), RenderError>,
) -> bool {
    exists|states: Seq<R>| #[trigger]
        frame(promises, before, entries, states, failure(result)) && states.last() == after
}

/// A sink that shows a scene, frame by frame. For each frame it is asked
/// to begin the frame, to draw each shape, and to finish the frame.
///
/// What a renderer does is its own affair, and so is what it promises: it
/// says in [`Renderer::promises`] what holds of every call of its three
/// methods. A renderer that promises nothing leaves that as it is.
pub trait Renderer: Sized {
    /// What this renderer promises of a call that found it as `self`, asked
    /// it for `request`, left it as `after`, and returned the error
    /// `failed` or, where that is `None`, succeeded.
    open spec fn promises(
        &self,
        request: Request,
        after: &Self,
        failed: Option<RenderError>,
    ) -> bool {
        true
    }

    /// Begins a new frame.
    fn init_frame(&mut self) -> (result: Result<(), RenderError>)
        ensures
            old(self).promises(Request::Init, final(self), failure(result)),
    ;

    /// Ends the frame, so that what was drawn can be seen.
    fn finish_frame(&mut self) -> (result: Result<(), RenderError>)
        ensures
            old(self).promises(Request::Finish, final(self), failure(result)),
    ;

    /// Draws `shape`, which the scene holds under `name`, into the frame.
    fn render(&mut self, name: &str, shape: &Shape) -> (result: Result<(), RenderError>)
        ensures
            old(self).promises(
                (Request::Draw { name: name@, shape: *shape }),
                final(self),
                failure(result),
            ),
    ;

    /// Shows the scene in one frame: begins the frame, draws every entry of
    /// the scene once, in the order of [`Shapes::listed`], and finishes the
    /// frame. The first request that fails ends the frame, and its error
    /// is returned: see [`shown`], here with what this renderer promises.
    fn render_shapes(&mut self, shapes: &Shapes) -> (result: Result<(), RenderError>)
        ensures
            shown(
                |from: Self, request: Request, to: Self, failed: Option<RenderError>|
                    from.promises(request, &to, failed),
                *old(self),
                shapes.listed(),
                *final(self),
                result,
            ),
    {
        let entries = shapes.entries();
        let count = entries.len();
        let ghost listed = shapes.listed();
        let ghost mut states: Seq<Self> = seq![*self];
        let mut step = FrameStep::Init;
        loop
            invariant
                count == entries@.len(),
                listed == shapes.listed(),
                listed.len() == count,
                forall|i: int|
                    0 <= i < count ==> (#[trigger] entries@[i]).0@ == listed[i].0 && entries@[i].1
                        == listed[i].1,
                step matches FrameStep::Draw(index) ==> index < count,
                states.len() == step.position(count) + 1,
                states[0] == *old(self),
                states.last() == *self,
                forall|i: int|
                    0 <= i < states.len() - 1 ==> (#[trigger] states[i]).promises(
                        request(listed, i),
                        &states[i + 1],
                        None,
                    ),
            decreases step.steps_left(count),
        {
            let ghost found = *self;
            let ghost number = step.position(count);
            let ghost earlier = states;
            let answer = match step {
                FrameStep::Init => self.init_frame(),
                FrameStep::Draw(index) => {
                    assert(entries@[index as int].0@ == listed[index as int].0);
                    self.render(entries[index].0.as_str(), &entries[index].1)
                },
                FrameStep::Finish => self.finish_frame(),
            };
            let ghost failed = failure(answer);
            proof {
                assert(found.promises(request(listed, number), self, failed));
                states = states.push(*self);
                assert(states[number] == found);
                assert(states[number + 1] == *self);
                assert forall|i: int| 0 <= i < states.len() - 2 implies (#[trigger] states[i]).promises(
                    request(listed, i),
                    &states[i + 1],
                    None,
                ) by {
                    assert(states[i] == earlier[i]);
                    assert(states[i + 1] == earlier[i + 1]);
                }
            }
            match step.next(count, answer) {
                Err(error) => {
                    assert(frame(
                        |from: Self, request: Request, to: Self, failed: Option<RenderError>|
                            from.promises(request, &to, failed),
                        *old(self),
                        listed,
                        states,
                        failure(Err(error)),
                    ));
                    return Err(error);
                },
                Ok(None) => {
                    assert(frame(
                        |from: Self, request: Request, to: Self, failed: Option<RenderError>|
                            from.promises(request, &to, failed),
                        *old(self),
                        listed,
                        states,
                        failure(Ok(())),
                    ));
                    return Ok(());
                },
                Ok(Some(following)) => {
                    step = following;
                },
            }
        }
    }
}

/// What the renderers of a type promise, as a function: see
/// [`Renderer::promises`].
pub open spec fn promised<R: Renderer>() -> Promises<R> {
    |from: R, request: Request, to: R, failed: Option<RenderError>|
        from.promises(request, &to, failed)
}

} // verus!
