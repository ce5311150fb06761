use vstd::prelude::*;

use crate::constant::MAX_FRAMES_IN_FLIGHT;

verus! {

/// One step of the swapchain recreation protocol, in the order in which they run.
#[derive(Clone, Copy, Debug, PartialEq, Eq, Structural)]
pub enum RecreateStep {
    WaitDeviceIdle,
    DestroyFramebuffers,
    DestroyImageViews,
    DestroySwapchain,
    CreateSwapchain,
    CreateImageViews,
    CreateFramebuffers,
}

/// Where the engine stands within a frame or a swapchain recreation.
#[derive(Clone, Copy, Debug, PartialEq, Eq, Structural)]
pub enum FrameStage {
    /// Between frames.
    Idle,
    /// Waiting on the current slot's in-flight fence.
    WaitingForFence,
    /// Acquiring the next presentable image.
    Acquiring,
    /// Resetting the fence and command buffer and recording for the acquired image.
    Recording(u32),
    /// Submitting the recorded commands to the graphics queue.
    Submitting(u32),
    /// Presenting the rendered image.
    Presenting(u32),
    /// Running the given step of swapchain recreation.
    Recreating(RecreateStep),
    /// A fatal error was reported; the engine does nothing more.
    Failed,
}

/// What the caller reports: a window event, a new tick, or how the last action went.
#[derive(Clone, Copy, Debug, PartialEq, Eq, Structural)]
pub enum FrameEvent {
    /// The event loop asks for a frame.
    Tick,
    /// The window now has this size.
    Resized { width: u32, height: u32 },
    /// The slot's in-flight fence was signaled.
    FenceSignaled,
    /// The swapchain handed out the presentable image with this index.
    ImageAcquired(u32),
    /// Acquiring reported an out-of-date or suboptimal swapchain.
    AcquireOutOfDate,
    /// The fence and command buffer were reset and the commands recorded.
    Recorded,
    /// The commands were submitted.
    Submitted,
    /// The image was presented.
    Presented,
    /// Presenting reported an out-of-date or suboptimal swapchain.
    PresentOutOfDate,
    /// The requested recreation step completed.
    StepDone,
    /// The requested operation failed in a way that cannot be recovered.
    OperationFailed,
}

/// Which operation failed fatally.
#[derive(Clone, Copy, Debug, PartialEq, Eq, Structural)]
pub enum FrameError {
    FenceWait,
    AcquireImage,
    Record,
    Submit,
    Present,
    Recreate,
}

/// What the caller must do next.
#[derive(Clone, Copy, Debug, PartialEq, Eq, Structural)]
pub enum FrameAction {
    /// Nothing until the next event.
    Nothing,
    /// Wait, without timeout, on the in-flight fence of this slot.
    WaitForFence { slot: usize },
    /// Acquire the next image, signaling this slot's image-available semaphore.
    AcquireImage { slot: usize },
    /// Reset this slot's fence and command buffer, then record for the image.
    ResetAndRecord { slot: usize, image_index: u32 },
    /// Submit this slot's command buffer: wait on its image-available semaphore at
    /// the color-attachment-output stage, signal its render-finished semaphore and
    /// its in-flight fence.
    Submit { slot: usize, image_index: u32 },
    /// Present the image on the present queue, waiting on this slot's
    /// render-finished semaphore.
    Present { slot: usize, image_index: u32 },
    /// Wait until the device is idle.
    WaitDeviceIdle,
    DestroyFramebuffers,
    DestroyImageViews,
    DestroySwapchain,
    CreateSwapchain,
    CreateImageViews,
    CreateFramebuffers,
    /// Stop: the error cannot be recovered.
    Abort(FrameError),
}

/// The state of the frame synchronization engine.
#[derive(Clone, Copy, Debug, PartialEq, Eq, Structural)]
pub struct FrameEngine {
    /// The frame slot in use, round-robin over `MAX_FRAMES_IN_FLIGHT`.
    pub current_frame: usize,
    /// The window has zero area; frames are skipped.
    pub minimized: bool,
    /// The window was resized since the swapchain was last built.
    pub framebuffer_resized: bool,
    pub stage: FrameStage,
    /// The slot whose fence has been waited on in the frame under way.
    pub waited_slot: Option<usize>,
    pub swapchain_live: bool,
    pub image_views_live: bool,
    pub framebuffers_live: bool,
}

/// Which of swapchain, image views and framebuffers exist while a step runs.
pub open spec fn live_during(step: RecreateStep) -> (bool, bool, bool) {
    match step {
        RecreateStep::WaitDeviceIdle => (true, true, true),
        RecreateStep::DestroyFramebuffers => (true, true, false),
        RecreateStep::DestroyImageViews => (true, false, false),
        RecreateStep::DestroySwapchain => (false, false, false),
        RecreateStep::CreateSwapchain => (true, false, false),
        RecreateStep::CreateImageViews => (true, true, false),
        RecreateStep::CreateFramebuffers => (true, true, true),
    }
}

/// The slot after `slot`, round-robin.
pub open spec fn next_slot(slot: usize) -> usize {
    ((slot + 1) % (MAX_FRAMES_IN_FLIGHT as int)) as usize
}

impl FrameEngine {
    /// Swapchain, image views and framebuffers all exist.
    pub open spec fn all_live(&self) -> bool {
        self.swapchain_live && self.image_views_live && self.framebuffers_live
    }

    /// None of swapchain, image views and framebuffers exists.
    pub open spec fn none_live(&self) -> bool {
        !self.swapchain_live && !self.image_views_live && !self.framebuffers_live
    }

    /// The liveness triple equals `t`.
    pub open spec fn live_is(&self, t: (bool, bool, bool)) -> bool {
        self.swapchain_live == t.0 && self.image_views_live == t.1 && self.framebuffers_live
            == t.2
    }

    /// The engine's invariant: the slot is in range, a resource exists only while the
    /// one it depends on exists, and a frame past its fence wait holds that wait for
    /// its own slot.
    pub open spec fn wf(&self) -> bool {
        &&& self.current_frame < MAX_FRAMES_IN_FLIGHT
        &&& self.framebuffers_live ==> self.image_views_live
        &&& self.image_views_live ==> self.swapchain_live
        &&& match self.stage {
            FrameStage::Idle => self.all_live() || self.none_live(),
            FrameStage::WaitingForFence => self.all_live() && self.waited_slot is None,
            FrameStage::Acquiring
            | FrameStage::Recording(_)
            | FrameStage::Submitting(_)
            | FrameStage::Presenting(_) => self.all_live() && self.waited_slot == Some(
                self.current_frame,
            ),
            FrameStage::Recreating(step) => self.live_is(live_during(step)),
            FrameStage::Failed => true,
        }
    }

    /// A fresh engine: slot 0, between frames, with the swapchain built.
    pub open spec fn initial() -> FrameEngine {
        FrameEngine {
            current_frame: 0,
            minimized: false,
            framebuffer_resized: false,
            stage: FrameStage::Idle,
            waited_slot: None,
            swapchain_live: true,
            image_views_live: true,
            framebuffers_live: true,
        }
    }

    /// Starts swapchain recreation with the device-idle wait. While the window is
    /// minimized a zero-sized swapchain cannot be built: the swapchain is only marked
    /// stale and the engine goes back between frames, leaving the rebuild to a later
    /// frame once the window has a nonzero size.
    pub open spec fn start_recreation(self) -> (FrameEngine, FrameAction) {
        if self.minimized {
            (
                FrameEngine {
                    stage: FrameStage::Idle,
                    framebuffer_resized: true,
                    waited_slot: None,
                    ..self
                },
                FrameAction::Nothing,
            )
        } else {
            (
                FrameEngine {
                    stage: FrameStage::Recreating(RecreateStep::WaitDeviceIdle),
                    framebuffer_resized: false,
                    waited_slot: None,
                    ..self
                },
                FrameAction::WaitDeviceIdle,
            )
        }
    }

    /// Moves on once recreation step `step` has completed.
    pub open spec fn after_step(self, step: RecreateStep) -> (FrameEngine, FrameAction) {
        match step {
            RecreateStep::WaitDeviceIdle => if self.minimized {
                (
                    FrameEngine { stage: FrameStage::Idle, framebuffer_resized: true, ..self },
                    FrameAction::Nothing,
                )
            } else {
                (
                    FrameEngine {
                        stage: FrameStage::Recreating(RecreateStep::DestroyFramebuffers),
                        framebuffers_live: false,
                        ..self
                    },
                    FrameAction::DestroyFramebuffers,
                )
            },
            RecreateStep::DestroyFramebuffers => (
                FrameEngine {
                    stage: FrameStage::Recreating(RecreateStep::DestroyImageViews),
                    image_views_live: false,
                    ..self
                },
                FrameAction::DestroyImageViews,
            ),
            RecreateStep::DestroyImageViews => (
                FrameEngine {
                    stage: FrameStage::Recreating(RecreateStep::DestroySwapchain),
                    swapchain_live: false,
                    ..self
                },
                FrameAction::DestroySwapchain,
            ),
            RecreateStep::DestroySwapchain => if self.minimized {
                (FrameEngine { stage: FrameStage::Idle, ..self }, FrameAction::Nothing)
            } else {
                (
                    FrameEngine {
                        stage: FrameStage::Recreating(RecreateStep::CreateSwapchain),
                        swapchain_live: true,
                        ..self
                    },
                    FrameAction::CreateSwapchain,
                )
            },
            RecreateStep::CreateSwapchain => (
                FrameEngine {
                    stage: FrameStage::Recreating(RecreateStep::CreateImageViews),
                    image_views_live: true,
                    ..self
                },
                FrameAction::CreateImageViews,
            ),
            RecreateStep::CreateImageViews => (
                FrameEngine {
                    stage: FrameStage::Recreating(RecreateStep::CreateFramebuffers),
                    framebuffers_live: true,
                    ..self
                },
                FrameAction::CreateFramebuffers,
            ),
            RecreateStep::CreateFramebuffers => (
                FrameEngine { stage: FrameStage::Idle, ..self },
                FrameAction::Nothing,
            ),
        }
    }

    /// Ends a frame whose image went to the present queue: the slot advances, and the
    /// swapchain is rebuilt when it was reported stale or the window was resized.
    pub open spec fn after_present(self, stale: bool) -> (FrameEngine, FrameAction) {
        let advanced = FrameEngine {
            current_frame: next_slot(self.current_frame),
            stage: FrameStage::Idle,
            waited_slot: None,
            ..self
        };
        if stale || self.framebuffer_resized {
            advanced.start_recreation()
        } else {
            (advanced, FrameAction::Nothing)
        }
    }

    /// The error that a failure of the operation under way amounts to.
    pub open spec fn failure_of(stage: FrameStage) -> Option<FrameError> {
        match stage {
            FrameStage::WaitingForFence => Some(FrameError::FenceWait),
            FrameStage::Acquiring => Some(FrameError::AcquireImage),
            FrameStage::Recording(_) => Some(FrameError::Record),
            FrameStage::Submitting(_) => Some(FrameError::Submit),
            FrameStage::Presenting(_) => Some(FrameError::Present),
            FrameStage::Recreating(_) => Some(FrameError::Recreate),
            _ => None,
        }
    }

    /// The engine's transitions: the next state and the action, for each event.
    /// An event that does not fit the stage changes nothing.
    pub open spec fn transition(self, event: FrameEvent) -> (FrameEngine, FrameAction) {
        let unchanged = (self, FrameAction::Nothing);
        match event {
            FrameEvent::Resized { width, height } => if width == 0 || height == 0 {
                (FrameEngine { minimized: true, ..self }, FrameAction::Nothing)
            } else {
                (
                    FrameEngine { minimized: false, framebuffer_resized: true, ..self },
                    FrameAction::Nothing,
                )
            },
            FrameEvent::Tick => if self.stage == FrameStage::Idle && !self.minimized {
                if self.swapchain_live {
                    (
                        FrameEngine {
                            stage: FrameStage::WaitingForFence,
                            waited_slot: None,
                            ..self
                        },
                        FrameAction::WaitForFence { slot: self.current_frame },
                    )
                } else {
                    (
                        FrameEngine {
                            stage: FrameStage::Recreating(RecreateStep::CreateSwapchain),
                            swapchain_live: true,
                            ..self
                        },
                        FrameAction::CreateSwapchain,
                    )
                }
            } else {
                unchanged
            },
            FrameEvent::FenceSignaled => if self.stage == FrameStage::WaitingForFence {
                (
                    FrameEngine {
                        stage: FrameStage::Acquiring,
                        waited_slot: Some(self.current_frame),
                        ..self
                    },
                    FrameAction::AcquireImage { slot: self.current_frame },
                )
            } else {
                unchanged
            },
            FrameEvent::ImageAcquired(image_index) => if self.stage == FrameStage::Acquiring {
                (
                    FrameEngine { stage: FrameStage::Recording(image_index), ..self },
                    FrameAction::ResetAndRecord { slot: self.current_frame, image_index },
                )
            } else {
                unchanged
            },
            FrameEvent::AcquireOutOfDate => if self.stage == FrameStage::Acquiring {
                self.start_recreation()
            } else {
                unchanged
            },
            FrameEvent::Recorded => match self.stage {
                FrameStage::Recording(image_index) => (
                    FrameEngine { stage: FrameStage::Submitting(image_index), ..self },
                    FrameAction::Submit { slot: self.current_frame, image_index },
                ),
                _ => unchanged,
            },
            FrameEvent::Submitted => match self.stage {
                FrameStage::Submitting(image_index) => (
                    FrameEngine { stage: FrameStage::Presenting(image_index), ..self },
                    FrameAction::Present { slot: self.current_frame, image_index },
                ),
                _ => unchanged,
            },
            FrameEvent::Presented => match self.stage {
                FrameStage::Presenting(_) => self.after_present(false),
                _ => unchanged,
            },
            FrameEvent::PresentOutOfDate => match self.stage {
                FrameStage::Presenting(_) => self.after_present(true),
                _ => unchanged,
            },
            FrameEvent::StepDone => match self.stage {
                FrameStage::Recreating(step) => self.after_step(step),
                _ => unchanged,
            },
            FrameEvent::OperationFailed => match Self::failure_of(self.stage) {
                Some(error) => (
                    FrameEngine { stage: FrameStage::Failed, ..self },
                    FrameAction::Abort(error),
                ),
                None => unchanged,
            },
        }
    }
    /// A fresh engine: slot 0, between frames, with swapchain, views and framebuffers built.
    pub fn new() -> (r: FrameEngine)
        ensures
            r == FrameEngine::initial(),
            r.wf(),
    {
        FrameEngine {
            current_frame: 0,
            minimized: false,
            framebuffer_resized: false,
            stage: FrameStage::Idle,
            waited_slot: None,
            swapchain_live: true,
            image_views_live: true,
            framebuffers_live: true,
        }
    }

    fn begin_recreation(&self) -> (r: (FrameEngine, FrameAction))
        ensures
            r == self.start_recreation(),
    {
        if self.minimized {
            (
                FrameEngine {
                    stage: FrameStage::Idle,
                    framebuffer_resized: true,
                    waited_slot: None,
                    ..*self
                },
                FrameAction::Nothing,
            )
        } else {
            (
                FrameEngine {
                    stage: FrameStage::Recreating(RecreateStep::WaitDeviceIdle),
                    framebuffer_resized: false,
                    waited_slot: None,
                    ..*self
                },
                FrameAction::WaitDeviceIdle,
            )
        }
    }

    fn next_recreation_step(&self, step: RecreateStep) -> (r: (FrameEngine, FrameAction))
        ensures
            r == self.after_step(step),
    {
        match step {
            RecreateStep::WaitDeviceIdle => if self.minimized {
                (
                    FrameEngine { stage: FrameStage::Idle, framebuffer_resized: true, ..*self },
                    FrameAction::Nothing,
                )
            } else {
                (
                    FrameEngine {
                        stage: FrameStage::Recreating(RecreateStep::DestroyFramebuffers),
                        framebuffers_live: false,
                        ..*self
                    },
                    FrameAction::DestroyFramebuffers,
                )
            },
            RecreateStep::DestroyFramebuffers => (
                FrameEngine {
                    stage: FrameStage::Recreating(RecreateStep::DestroyImageViews),
                    image_views_live: false,
                    ..*self
                },
                FrameAction::DestroyImageViews,
            ),
            RecreateStep::DestroyImageViews => (
                FrameEngine {
                    stage: FrameStage::Recreating(RecreateStep::DestroySwapchain),
                    swapchain_live: false,
                    ..*self
                },
                FrameAction::DestroySwapchain,
            ),
            RecreateStep::DestroySwapchain => if self.minimized {
                (FrameEngine { stage: FrameStage::Idle, ..*self }, FrameAction::Nothing)
            } else {
                (
                    FrameEngine {
                        stage: FrameStage::Recreating(RecreateStep::CreateSwapchain),
                        swapchain_live: true,
                        ..*self
                    },
                    FrameAction::CreateSwapchain,
                )
            },
            RecreateStep::CreateSwapchain => (
                FrameEngine {
                    stage: FrameStage::Recreating(RecreateStep::CreateImageViews),
                    image_views_live: true,
                    ..*self
                },
                FrameAction::CreateImageViews,
            ),
            RecreateStep::CreateImageViews => (
                FrameEngine {
                    stage: FrameStage::Recreating(RecreateStep::CreateFramebuffers),
                    framebuffers_live: true,
                    ..*self
                },
                FrameAction::CreateFramebuffers,
            ),
            RecreateStep::CreateFramebuffers => (
                FrameEngine { stage: FrameStage::Idle, ..*self },
                FrameAction::Nothing,
            ),
        }
    }

    fn finish_present(&self, stale: bool) -> (r: (FrameEngine, FrameAction))
        requires
            self.current_frame < MAX_FRAMES_IN_FLIGHT,
        ensures
            r == self.after_present(stale),
    {
        let advanced = FrameEngine {
            current_frame: (self.current_frame + 1) % MAX_FRAMES_IN_FLIGHT,
            stage: FrameStage::Idle,
            waited_slot: None,
            ..*self
        };
        if stale || self.framebuffer_resized {
            advanced.begin_recreation()
        } else {
            (advanced, FrameAction::Nothing)
        }
    }

    fn failure(stage: FrameStage) -> (r: Option<FrameError>)
        ensures
            r == Self::failure_of(stage),
    {
        match stage {
            FrameStage::WaitingForFence => Some(FrameError::FenceWait),
            FrameStage::Acquiring => Some(FrameError::AcquireImage),
            FrameStage::Recording(_) => Some(FrameError::Record),
            FrameStage::Submitting(_) => Some(FrameError::Submit),
            FrameStage::Presenting(_) => Some(FrameError::Present),
            FrameStage::Recreating(_) => Some(FrameError::Recreate),
            _ => None,
        }
    }

    /// Computes the next state and the action for an event, without changing `self`.
    pub fn next(&self, event: FrameEvent) -> (r: (FrameEngine, FrameAction))
        requires
            self.current_frame < MAX_FRAMES_IN_FLIGHT,
        ensures
            r == self.transition(event),
    {
        let unchanged = (*self, FrameAction::Nothing);
        match event {
            FrameEvent::Resized { width, height } => if width == 0 || height == 0 {
                (FrameEngine { minimized: true, ..*self }, FrameAction::Nothing)
            } else {
                (
                    FrameEngine { minimized: false, framebuffer_resized: true, ..*self },
                    FrameAction::Nothing,
                )
            },
            FrameEvent::Tick => if self.stage == FrameStage::Idle && !self.minimized {
                if self.swapchain_live {
                    (
                        FrameEngine {
                            stage: FrameStage::WaitingForFence,
                            waited_slot: None,
                            ..*self
                        },
                        FrameAction::WaitForFence { slot: self.current_frame },
                    )
                } else {
                    (
                        FrameEngine {
                            stage: FrameStage::Recreating(RecreateStep::CreateSwapchain),
                            swapchain_live: true,
                            ..*self
                        },
                        FrameAction::CreateSwapchain,
                    )
                }
            } else {
                unchanged
            },
            FrameEvent::FenceSignaled => if self.stage == FrameStage::WaitingForFence {
                (
                    FrameEngine {
                        stage: FrameStage::Acquiring,
                        waited_slot: Some(self.current_frame),
                        ..*self
                    },
                    FrameAction::AcquireImage { slot: self.current_frame },
                )
            } else {
                unchanged
            },
            FrameEvent::ImageAcquired(image_index) => if self.stage == FrameStage::Acquiring {
                (
                    FrameEngine { stage: FrameStage::Recording(image_index), ..*self },
                    FrameAction::ResetAndRecord { slot: self.current_frame, image_index },
                )
            } else {
                unchanged
            },
            FrameEvent::AcquireOutOfDate => if self.stage == FrameStage::Acquiring {
                self.begin_recreation()
            } else {
                unchanged
            },
            FrameEvent::Recorded => match self.stage {
                FrameStage::Recording(image_index) => (
                    FrameEngine { stage: FrameStage::Submitting(image_index), ..*self },
                    FrameAction::Submit { slot: self.current_frame, image_index },
                ),
                _ => unchanged,
            },
            FrameEvent::Submitted => match self.stage {
                FrameStage::Submitting(image_index) => (
                    FrameEngine { stage: FrameStage::Presenting(image_index), ..*self },
                    FrameAction::Present { slot: self.current_frame, image_index },
                ),
                _ => unchanged,
            },
            FrameEvent::Presented => match self.stage {
                FrameStage::Presenting(_) => self.finish_present(false),
                _ => unchanged,
            },
            FrameEvent::PresentOutOfDate => match self.stage {
                FrameStage::Presenting(_) => self.finish_present(true),
                _ => unchanged,
            },
            FrameEvent::StepDone => match self.stage {
                FrameStage::Recreating(step) => self.next_recreation_step(step),
                _ => unchanged,
            },
            FrameEvent::OperationFailed => match Self::failure(self.stage) {
                Some(error) => (
                    FrameEngine { stage: FrameStage::Failed, ..*self },
                    FrameAction::Abort(error),
                ),
                None => unchanged,
            },
        }
    }

    /// Feeds one event to the engine and returns what the caller must do next.
    ///
    /// A command buffer is only reset after the fence of its own slot was waited on.
    pub fn step(&mut self, event: FrameEvent) -> (action: FrameAction)
        requires
            old(self).wf(),
        ensures
            (*final(self), action) == old(self).transition(event),
            final(self).wf(),
            action matches FrameAction::ResetAndRecord { slot, .. } ==> old(self).waited_slot
                == Some(slot),
    {
        proof {
            lemma_transition_preserves_wf(*self, event);
        }
        let (next, action) = self.next(event);
        *self = next;
        action
    }

    /// Starts a frame attempt: the same as feeding a tick.
    pub fn draw_frame(&mut self) -> (action: FrameAction)
        requires
            old(self).wf(),
        ensures
            (*final(self), action) == old(self).transition(FrameEvent::Tick),
            final(self).wf(),
    {
        self.step(FrameEvent::Tick)
    }

    /// Starts swapchain recreation between frames, with a device-idle wait first.
    /// While the window is minimized, anywhere but between frames, or with a swapchain
    /// that is already torn down, nothing happens.
    pub fn recreate_swapchain(&mut self) -> (action: FrameAction)
        requires
            old(self).wf(),
        ensures
            old(self).minimized ==> *final(self) == *old(self) && action == FrameAction::Nothing,
            !old(self).minimized && old(self).stage == FrameStage::Idle && old(self).all_live()
                ==> (*final(self), action) == old(self).start_recreation()
                && action == FrameAction::WaitDeviceIdle,
            !(old(self).stage == FrameStage::Idle && old(self).all_live()) ==> *final(self)
                == *old(self) && action == FrameAction::Nothing,
            final(self).wf(),
    {
        if !self.minimized && self.stage == FrameStage::Idle && self.swapchain_live
            && self.image_views_live && self.framebuffers_live {
            let (next, action) = self.begin_recreation();
            *self = next;
            action
        } else {
            FrameAction::Nothing
        }
    }
}

/// Every transition keeps the engine's invariant.
pub proof fn lemma_transition_preserves_wf(e: FrameEngine, event: FrameEvent)
    requires
        e.wf(),
    ensures
        e.transition(event).0.wf(),
{
}

/// The engine after feeding it `events` in order.
pub open spec fn run(e: FrameEngine, events: Seq<FrameEvent>) -> FrameEngine
    decreases events.len(),
{
    if events.len() == 0 {
        e
    } else {
        run(e.transition(events[0]).0, events.drop_first())
    }
}

/// The actions the engine asks for while it is fed `events` in order.
pub open spec fn run_actions(e: FrameEngine, events: Seq<FrameEvent>) -> Seq<FrameAction>
    decreases events.len(),
{
    if events.len() == 0 {
        Seq::empty()
    } else {
        let (next, action) = e.transition(events[0]);
        seq![action] + run_actions(next, events.drop_first())
    }
}

/// The events of one frame that goes through without trouble.
pub open spec fn frame_events(image_index: u32) -> Seq<FrameEvent> {
    seq![
        FrameEvent::Tick,
        FrameEvent::FenceSignaled,
        FrameEvent::ImageAcquired(image_index),
        FrameEvent::Recorded,
        FrameEvent::Submitted,
        FrameEvent::Presented,
    ]
}

/// The events of successful frames, one for each acquired image index in order.
pub open spec fn frames_events(image_indices: Seq<u32>) -> Seq<FrameEvent>
    decreases image_indices.len(),
{
    if image_indices.len() == 0 {
        Seq::empty()
    } else {
        frames_events(image_indices.drop_last()) + frame_events(image_indices.last())
    }
}

/// The events of a frame whose acquire finds the swapchain out of date, followed by
/// the whole recreation protocol.
pub open spec fn out_of_date_events() -> Seq<FrameEvent> {
    seq![
        FrameEvent::Tick,
        FrameEvent::FenceSignaled,
        FrameEvent::AcquireOutOfDate,
        FrameEvent::StepDone,
        FrameEvent::StepDone,
        FrameEvent::StepDone,
        FrameEvent::StepDone,
        FrameEvent::StepDone,
        FrameEvent::StepDone,
        FrameEvent::StepDone,
    ]
}

/// Feeding two event sequences one after the other is feeding their concatenation.
pub proof fn lemma_run_concat(e: FrameEngine, a: Seq<FrameEvent>, b: Seq<FrameEvent>)
    ensures
        run(e, a + b) == run(run(e, a), b),
    decreases a.len(),
{
    if a.len() == 0 {
        assert(a + b =~= b);
    } else {
        assert((a + b).drop_first() =~= a.drop_first() + b);
        lemma_run_concat(e.transition(a[0]).0, a.drop_first(), b);
    }
}

/// A frame that goes through without trouble ends between frames with the next slot
/// current and everything else as it was.
pub proof fn lemma_successful_frame(e: FrameEngine, image_index: u32)
    requires
        e.wf(),
        e.stage == FrameStage::Idle,
        !e.minimized,
        !e.framebuffer_resized,
        e.all_live(),
    ensures
        run(e, frame_events(image_index)) == (FrameEngine {
            current_frame: next_slot(e.current_frame),
            waited_slot: None,
            ..e
        }),
        run_actions(e, frame_events(image_index)) == seq![
            FrameAction::WaitForFence { slot: e.current_frame },
            FrameAction::AcquireImage { slot: e.current_frame },
            FrameAction::ResetAndRecord { slot: e.current_frame, image_index },
            FrameAction::Submit { slot: e.current_frame, image_index },
            FrameAction::Present { slot: e.current_frame, image_index },
            FrameAction::Nothing,
        ],
{
    reveal_with_fuel(run, 7);
    reveal_with_fuel(run_actions, 7);
}

/// Round-robin: after `k` successful frames the current slot is the starting one plus
/// `k`, modulo the number of frames in flight, so frame `j` uses slot
/// `(start + j) % MAX_FRAMES_IN_FLIGHT`, and every `MAX_FRAMES_IN_FLIGHT` frames the
/// engine is back at the slot it started from.
pub proof fn lemma_round_robin(e: FrameEngine, image_indices: Seq<u32>)
    requires
        e.wf(),
        e.stage == FrameStage::Idle,
        !e.minimized,
        !e.framebuffer_resized,
        e.all_live(),
        e.waited_slot is None,
    ensures
        run(e, frames_events(image_indices)) == (FrameEngine {
            current_frame: ((e.current_frame + image_indices.len()) % (
            MAX_FRAMES_IN_FLIGHT as int)) as usize,
            ..e
        }),
        image_indices.len() == MAX_FRAMES_IN_FLIGHT ==> run(
            e,
            frames_events(image_indices),
        ).current_frame == e.current_frame,
    decreases image_indices.len(),
{
    if image_indices.len() == 0 {
        assert(frames_events(image_indices) =~= Seq::empty());
        assert((e.current_frame as int) % (MAX_FRAMES_IN_FLIGHT as int) == e.current_frame as int);
        assert(run(e, frames_events(image_indices)) == e);
    } else {
        let prefix = image_indices.drop_last();
        lemma_round_robin(e, prefix);
        let mid = run(e, frames_events(prefix));
        lemma_run_concat(e, frames_events(prefix), frame_events(image_indices.last()));
        lemma_successful_frame(mid, image_indices.last());
        assert(((e.current_frame + prefix.len()) % 2 + 1) % 2 == (e.current_frame + prefix.len()
            + 1) % 2);
    }
}

/// A command buffer is reset and re-recorded only for the slot whose fence was waited
/// on in the same frame: the engine records that wait only when the fence it asked
/// for, the current slot's, is reported signaled, and asks for a reset only after it.
pub proof fn lemma_fence_waited_before_reset(e: FrameEngine, event: FrameEvent)
    requires
        e.wf(),
    ensures
        e.transition(event).1 matches FrameAction::ResetAndRecord { slot, .. } ==> {
            &&& e.stage == FrameStage::Acquiring
            &&& slot == e.current_frame
            &&& e.waited_slot == Some(slot)
        },
        e.transition(event).0.waited_slot is Some && e.transition(event).0.waited_slot
            != e.waited_slot ==> {
            &&& event == FrameEvent::FenceSignaled
            &&& e.stage == FrameStage::WaitingForFence
            &&& e.transition(event).0.waited_slot == Some(e.current_frame)
        },
        e.transition(event).0.stage == FrameStage::WaitingForFence && e.stage
            != FrameStage::WaitingForFence ==> e.transition(event).1 == (FrameAction::WaitForFence {
            slot: e.current_frame,
        }),
{
}

/// Swapchain, image views and framebuffers change state only through an action that
/// destroys or creates them: a destroy only of one that exists, a create only of one
/// that does not. So no resource is created twice without a destroy between, nor
/// destroyed twice without a create between.
pub proof fn lemma_create_destroy_paired(e: FrameEngine, event: FrameEvent)
    requires
        e.wf(),
    ensures
        ({
            let (n, a) = e.transition(event);
            &&& n.swapchain_live != e.swapchain_live ==> (a == FrameAction::DestroySwapchain
                && e.swapchain_live) || (a == FrameAction::CreateSwapchain && !e.swapchain_live)
            &&& n.image_views_live != e.image_views_live ==> (a == FrameAction::DestroyImageViews
                && e.image_views_live) || (a == FrameAction::CreateImageViews
                && !e.image_views_live)
            &&& n.framebuffers_live != e.framebuffers_live ==> (a
                == FrameAction::DestroyFramebuffers && e.framebuffers_live) || (a
                == FrameAction::CreateFramebuffers && !e.framebuffers_live)
            &&& a == FrameAction::DestroySwapchain ==> e.swapchain_live && !n.swapchain_live
            &&& a == FrameAction::CreateSwapchain ==> !e.swapchain_live && n.swapchain_live
            &&& a == FrameAction::DestroyImageViews ==> e.image_views_live && !n.image_views_live
            &&& a == FrameAction::CreateImageViews ==> !e.image_views_live && n.image_views_live
            &&& a == FrameAction::DestroyFramebuffers ==> e.framebuffers_live
                && !n.framebuffers_live
            &&& a == FrameAction::CreateFramebuffers ==> !e.framebuffers_live
                && n.framebuffers_live
        }),
{
}

/// An out-of-date acquire leads to the device-idle wait, then the destruction of
/// framebuffers, image views and swapchain in that order, then their creation in the
/// reverse order, with no reset, submit or present; it ends between frames with
/// everything rebuilt, the slot unchanged and the resize flag cleared. Doing it twice
/// in succession ends in the same state as doing it once.
pub proof fn lemma_recreation_idempotent(e: FrameEngine)
    requires
        e.wf(),
        e.stage == FrameStage::Idle,
        !e.minimized,
        e.all_live(),
    ensures
        run(e, out_of_date_events()) == (FrameEngine {
            framebuffer_resized: false,
            waited_slot: None,
            ..e
        }),
        run(e, out_of_date_events() + out_of_date_events()) == run(e, out_of_date_events()),
        run_actions(e, out_of_date_events()) == seq![
            FrameAction::WaitForFence { slot: e.current_frame },
            FrameAction::AcquireImage { slot: e.current_frame },
            FrameAction::WaitDeviceIdle,
            FrameAction::DestroyFramebuffers,
            FrameAction::DestroyImageViews,
            FrameAction::DestroySwapchain,
            FrameAction::CreateSwapchain,
            FrameAction::CreateImageViews,
            FrameAction::CreateFramebuffers,
            FrameAction::Nothing,
        ],
{
    reveal_with_fuel(run, 11);
    reveal_with_fuel(run_actions, 11);
    let once = run(e, out_of_date_events());
    lemma_run_concat(e, out_of_date_events(), out_of_date_events());
    assert(run(once, out_of_date_events()) == once);
}

/// While the window is minimized a tick changes nothing and asks for nothing.
pub proof fn lemma_minimized_skips_frames(e: FrameEngine)
    requires
        e.minimized,
    ensures
        e.transition(FrameEvent::Tick) == (e, FrameAction::Nothing),
{
}

/// While the window is minimized nothing is torn down or built and no device-idle wait
/// is asked for, outside a recreation already past its device-idle wait: an
/// out-of-date report only marks the swapchain stale.
pub proof fn lemma_minimized_never_tears_down(e: FrameEngine, event: FrameEvent)
    requires
        e.wf(),
        e.minimized,
        !(e.stage matches FrameStage::Recreating(step) && step != RecreateStep::WaitDeviceIdle),
    ensures
        ({
            let (n, a) = e.transition(event);
            &&& a != FrameAction::WaitDeviceIdle
            &&& a != FrameAction::DestroyFramebuffers
            &&& a != FrameAction::DestroyImageViews
            &&& a != FrameAction::DestroySwapchain
            &&& a != FrameAction::CreateSwapchain
            &&& a != FrameAction::CreateImageViews
            &&& a != FrameAction::CreateFramebuffers
            &&& n.swapchain_live == e.swapchain_live
            &&& n.image_views_live == e.image_views_live
            &&& n.framebuffers_live == e.framebuffers_live
        }),
{
}

/// Once a minimized window gets a nonzero size again, the next tick is a frame like any
/// other: it waits on the current slot's fence and then acquires an image.
pub proof fn lemma_restored_window_draws(e: FrameEngine, width: u32, height: u32)
    requires
        e.wf(),
        e.stage == FrameStage::Idle,
        e.all_live(),
        width > 0,
        height > 0,
    ensures
        run_actions(
            e,
            seq![
                FrameEvent::Resized { width, height },
                FrameEvent::Tick,
                FrameEvent::FenceSignaled,
            ],
        ) == seq![
            FrameAction::Nothing,
            FrameAction::WaitForFence { slot: e.current_frame },
            FrameAction::AcquireImage { slot: e.current_frame },
        ],
        !run(e, seq![FrameEvent::Resized { width, height }]).minimized,
{
    reveal_with_fuel(run, 2);
    reveal_with_fuel(run_actions, 4);
}

} // verus!
