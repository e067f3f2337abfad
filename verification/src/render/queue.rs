//! The requests to render that wait for the render task.
//!
//! The task that executes commands asks for a frame after each command,
//! and never waits for one. The render task shows one frame at a time.
//! Requests that come while no frame can be started are not queued one by
//! one: the queue remembers that a frame is wanted, and the newest revision
//! of the scene that was asked for, so that a burst of requests costs one
//! frame.

use vstd::prelude::*;

verus! {

/// The time in milliseconds that the render task lets pass after a frame,
/// so that no more than `fps` frames are shown in a second: 1000 divided
/// by `fps`, rounded down.
pub fn frame_delay_ms(fps: u64) -> (delay: u64)
    requires
        fps > 0,
    ensures
        delay == 1000u64 / fps,
{
    1000 / fps
}

/// Where the render task stands.
#[derive(Debug, Copy, Clone, PartialEq, Eq, Structural)]
pub enum RenderState {
    /// No frame is being shown, and none is wanted.
    Idle,
    /// A frame is wanted, and none is being shown.
    RequestPending,
    /// A frame is being shown.
    Rendering,
}

/// What the render task is to do now.
#[derive(Debug, Copy, Clone, PartialEq, Eq, Structural)]
pub enum Wake {
    /// Show a frame; the scene is at this revision or a later one.
    Render(u64),
    /// Wait for the next request.
    Wait,
    /// Nothing more will be asked for: end.
    Exit,
}

/// The requests that wait for the render task.
#[derive(Debug, Copy, Clone, PartialEq, Eq, Structural)]
pub struct RenderQueue {
    /// Whether a frame is being shown.
    pub rendering: bool,
    /// The revision asked for last, where a frame is wanted since the last
    /// frame was started.
    pub pending: Option<u64>,
    /// Whether the requests have ended.
    pub closed: bool,
}

impl RenderQueue {
    /// Where the render task stands.
    pub open spec fn state_of(self) -> RenderState {
        if self.rendering {
            RenderState::Rendering
        } else if self.pending is Some {
            RenderState::RequestPending
        } else {
            RenderState::Idle
        }
    }

    /// The queue after a request for a frame of `revision`. The request
    /// takes the place of one that still waits. After the end of the
    /// requests nothing is accepted.
    pub open spec fn requested(self, revision: u64) -> RenderQueue {
        if self.closed {
            self
        } else {
            RenderQueue { pending: Some(revision), ..self }
        }
    }

    /// The queue after a burst of requests, one for each of `revisions` in
    /// turn.
    pub open spec fn requested_all(self, revisions: Seq<u64>) -> RenderQueue
        decreases revisions.len(),
    {
        if revisions.len() == 0 {
            self
        } else {
            self.requested_all(revisions.drop_last()).requested(revisions.last())
        }
    }

    /// The queue after the end of the requests. A last frame of `revision`
    /// is wanted, whatever was shown before, so that the scene as the last
    /// command left it is shown.
    pub open spec fn ended(self, revision: u64) -> RenderQueue {
        if self.closed {
            self
        } else {
            RenderQueue { pending: Some(revision), closed: true, ..self }
        }
    }

    /// What the render task is to do, where it asks while no frame is being
    /// shown: a wanted frame is started; without one the task waits, or
    /// exits if the requests have ended. While a frame is being shown no
    /// other can be started: the task waits.
    pub open spec fn wake(self) -> Wake {
        if self.rendering {
            Wake::Wait
        } else if self.pending is Some {
            Wake::Render(self.pending->0)
        } else if self.closed {
            Wake::Exit
        } else {
            Wake::Wait
        }
    }

    /// The queue after the render task asked what to do: a frame that is
    /// started takes every request that waited with it.
    pub open spec fn woken(self) -> RenderQueue {
        if self.wake() is Render {
            RenderQueue { rendering: true, pending: None, ..self }
        } else {
            self
        }
    }

    /// The queue after the frame that was being shown is done.
    pub open spec fn finished(self) -> RenderQueue {
        RenderQueue { rendering: false, ..self }
    }

    /// A queue with no frame wanted and none being shown.
    pub fn new() -> (queue: Self)
        ensures
            queue == (RenderQueue { rendering: false, pending: None, closed: false }),
            queue.state_of() == RenderState::Idle,
    {
        RenderQueue { rendering: false, pending: None, closed: false }
    }

    /// Where the render task stands.
    pub fn state(&self) -> (state: RenderState)
        ensures
            state == self.state_of(),
    {
        if self.rendering {
            RenderState::Rendering
        } else if self.pending.is_some() {
            RenderState::RequestPending
        } else {
            RenderState::Idle
        }
    }

    /// Asks for a frame of the scene at `revision`: see
    /// [`RenderQueue::requested`]. Returns whether the request was accepted.
    pub fn request(&mut self, revision: u64) -> (accepted: bool)
        ensures
            *final(self) == old(self).requested(revision),
            accepted == !old(self).closed,
    {
        if self.closed {
            false
        } else {
            self.pending = Some(revision);
            true
        }
    }

    /// Ends the requests, asking for a last frame of the scene at
    /// `revision`: see [`RenderQueue::ended`].
    pub fn close(&mut self, revision: u64)
        ensures
            *final(self) == old(self).ended(revision),
    {
        if !self.closed {
            self.pending = Some(revision);
            self.closed = true;
        }
    }

    /// Tells the render task what to do now, and starts the frame where the
    /// answer is to show one: see [`RenderQueue::wake`] and
    /// [`RenderQueue::woken`].
    pub fn next(&mut self) -> (wake: Wake)
        ensures
            wake == old(self).wake(),
            *final(self) == old(self).woken(),
    {
        if self.rendering {
            Wake::Wait
        } else {
            match self.pending {
                Some(revision) => {
                    self.rendering = true;
                    self.pending = None;
                    Wake::Render(revision)
                },
                None => if self.closed {
                    Wake::Exit
                } else {
                    Wake::Wait
                },
            }
        }
    }

    /// Records that the frame that was being shown is done: see
    /// [`RenderQueue::finished`].
    pub fn finish(&mut self)
        ensures
            *final(self) == old(self).finished(),
    {
        self.rendering = false;
    }

    /// A burst of requests leaves the newest one waiting, and changes
    /// nothing else.
    pub proof fn lemma_burst(self, revisions: Seq<u64>)
        requires
            !self.closed,
            revisions.len() > 0,
        ensures
            self.requested_all(revisions) == (RenderQueue {
                pending: Some(revisions.last()),
                ..self
            }),
        decreases revisions.len(),
    {
        if revisions.len() > 1 {
            self.lemma_burst(revisions.drop_last());
        } else {
            assert(self.requested_all(revisions.drop_last()) == self);
        }
    }

    /// A burst of requests while a frame is being shown costs one frame:
    /// while that frame is shown none is started; when it is done, one
    /// frame is started, for the revision that was asked for last; and when
    /// that one is done the render task has nothing left to show.
    pub proof fn lemma_burst_while_rendering(self, revisions: Seq<u64>)
        requires
            self.rendering,
            !self.closed,
            revisions.len() > 0,
        ensures
            ({
                let burst = self.requested_all(revisions);
                let after = burst.finished().woken().finished();
                &&& burst.wake() == Wake::Wait
                &&& burst.woken() == burst
                &&& burst.finished().wake() == Wake::Render(revisions.last())
                &&& after.wake() == Wake::Wait
                &&& after.state_of() == RenderState::Idle
            }),
    {
        self.lemma_burst(revisions);
    }

    /// A burst of requests while no frame is being shown costs one frame
    /// too, for the revision that was asked for last.
    pub proof fn lemma_burst_while_idle(self, revisions: Seq<u64>)
        requires
            !self.rendering,
            !self.closed,
            revisions.len() > 0,
        ensures
            ({
                let burst = self.requested_all(revisions);
                let after = burst.woken().finished();
                &&& burst.wake() == Wake::Render(revisions.last())
                &&& after.wake() == Wake::Wait
                &&& after.state_of() == RenderState::Idle
            }),
    {
        self.lemma_burst(revisions);
    }

    /// The end of the requests is followed by one last frame, and then by
    /// the exit of the render task: the scene as the last command left it
    /// is always shown.
    pub proof fn lemma_last_frame(self, revision: u64)
        requires
            !self.closed,
        ensures
            ({
                let ended = self.ended(revision).finished();
                &&& ended.wake() == Wake::Render(revision)
                &&& ended.woken().finished().wake() == Wake::Exit
            }),
    {
    }
}

impl Default for RenderQueue {
    fn default() -> (queue: RenderQueue)
        ensures
            queue == (RenderQueue { rendering: false, pending: None, closed: false }),
    {
        RenderQueue::new()
    }
}

} // verus!
