//! The per-frame state machine (Frame Driver).
//!
//! One host thread cycles `Idle -> Acquiring -> Recording -> Submitted ->
//! Presenting -> Idle` per frame; `Resizing` is the interrupt state entered
//! whenever acquire or present reports the surface stale or the window
//! signals a size change. The driver holds the model state and decides; the
//! unverified shell performs each returned action against the real device,
//! window and surface, and feeds the outcome back as the next event.
//!
//! In-flight discipline: this driver keeps at most one frame in flight. The
//! `sync_wait` strategy additionally blocks the host on the frame's fence
//! before the next cycle; either way a `Reconfigure` action is performed only
//! after a full device idle, so no in-flight frame ever references a retired
//! render target or bind set when they are destroyed.

use vstd::prelude::*;
use crate::binder::Binder;
use crate::extent::DispatchSize;
use crate::extent::Extent;
use crate::extent::dispatch_size;
use crate::pipeline::BindingSlot;
use crate::surface::AcquireOutcome;
use crate::surface::ExtentDecision;
use crate::surface::PresentOutcome;
use crate::surface::ResizePolicy;
use crate::surface::SurfaceConfig;
use crate::surface::decide_extent;
use crate::surface::reconfigure;
use crate::surface::reconfigured;
use crate::surface::spec_decide_extent;

verus! {

/// The configuration flags that distinguish the renderer variants: one
/// parametrized state machine serves them all.
#[derive(Clone, Copy, Debug, PartialEq, Eq, Structural)]
pub struct FrameStrategy {
    /// Block the host on the frame's completion fence before returning to
    /// idle.
    pub sync_wait: bool,
    /// Compose by copying the render target into the presentable image
    /// rather than by a full-screen sampled draw.
    pub copy_compose: bool,
    /// Run the ray-tracing pass rather than the plain compute pass.
    pub ray_tracing: bool,
}

/// Where the driver stands in the per-frame cycle.
#[derive(Clone, Copy, Debug, PartialEq, Eq, Structural)]
pub enum Phase {
    Idle,
    Acquiring,
    Recording { image: u32 },
    Submitted { image: u32 },
    Presenting { image: u32 },
    Resizing,
}

/// How the off-screen render target reaches the presentable image.
#[derive(Clone, Copy, Debug, PartialEq, Eq, Structural)]
pub enum Composition {
    /// Copy the render target into the acquired image.
    CopyToPresentable,
    /// Draw a full-screen triangle strip sampling the render target.
    FullScreenDraw { vertex_count: u32, instance_count: u32 },
}

/// The command sequence to record for one frame, as plain data.
#[derive(Clone, Copy, Debug, PartialEq, Eq, Structural)]
pub struct RecordPlan {
    /// The acquired presentable image the frame writes to.
    pub image: u32,
    /// Trace rays instead of running the plain compute pass.
    pub trace: bool,
    /// Work-group counts of the compute or ray dispatch.
    pub dispatch: DispatchSize,
    /// The render-target generation whose bind sets the commands reference.
    pub target_generation: u64,
    pub composition: Composition,
}

/// The explicit ordering of one frame's submission.
#[derive(Clone, Copy, Debug, PartialEq, Eq, Structural)]
pub struct SubmitPlan {
    /// Commands touching the presentable image wait on the acquire-complete
    /// signal.
    pub wait_acquire_signal: bool,
    /// Signal the submission-complete semaphore the present consumes.
    pub signal_submit_complete: bool,
    /// Attach a fence for the host-side completion wait.
    pub attach_fence: bool,
}

/// The enqueue of one frame's present.
#[derive(Clone, Copy, Debug, PartialEq, Eq, Structural)]
pub struct PresentPlan {
    /// The present is conditioned on the submission-complete signal.
    pub wait_submit_complete: bool,
    pub image: u32,
}

/// What the window system or the performed actions report back to the
/// driver.
#[derive(Clone, Copy, Debug, PartialEq, Eq, Structural)]
pub enum FrameEvent {
    RedrawRequested,
    AcquireReturned(AcquireOutcome),
    RecordingDone,
    SubmitDone,
    PresentReturned(PresentOutcome),
    WindowResized(Extent),
    CloseRequested,
}

/// What the unverified shell must perform next.
#[derive(Clone, Copy, Debug, PartialEq, Eq, Structural)]
pub enum FrameAction {
    /// Ask the surface for the next presentable image.
    Acquire,
    /// Record the frame's command sequence exactly as planned.
    Record(RecordPlan),
    /// Submit the recorded commands with the plan's ordering.
    Submit(SubmitPlan),
    /// Enqueue the present with the plan's ordering.
    Present(PresentPlan),
    /// Block the host until the frame's fence is signaled.
    WaitFence,
    /// Wait for the device to go idle, then reconfigure the surface to this
    /// extent and recreate the render target and bind sets to match.
    Reconfigure(Extent),
    /// Ask the window to shrink to this tile-aligned extent.
    RequestWindowResize(Extent),
    /// Let in-flight work drain, then leave the event loop.
    ShutDown,
    /// Nothing to perform.
    NoOp,
}

/// The frame driver: the model state of the whole orchestration core.
#[derive(Clone, Debug)]
pub struct FrameDriver {
    pub strategy: FrameStrategy,
    pub policy: ResizePolicy,
    /// The surface configuration currently in effect.
    pub config: SurfaceConfig,
    /// Layout of the compute or ray pass's bind set.
    pub compute_layout: Vec<BindingSlot>,
    /// Layout of the presentation pass's bind set.
    pub render_layout: Vec<BindingSlot>,
    /// Owner of the render target and bind sets.
    pub binder: Binder,
    /// The acceleration structures are built and complete (always true when
    /// the strategy traces rays).
    pub accel_complete: bool,
    pub phase: Phase,
    /// The most recent extent the window reported.
    pub window_extent: Extent,
    /// A window size change is waiting to be taken up.
    pub pending_resize: bool,
    /// The window asked to close; the loop exits at the next safe point.
    pub close_requested: bool,
}

impl FrameDriver {
    /// The bind sets in use reference the current render target, which
    /// matches the surface configuration in extent and format.
    pub open spec fn binding_fresh(self) -> bool {
        self.binder.current matches Some(g) && {
            &&& g.wf()
            &&& g.target.extent == self.config.extent
            &&& g.target.format == self.config.format
        }
    }

    /// Driver invariant: the policy quantizes to a positive tile, the
    /// accepted configuration is tile-aligned, the binder is consistent and
    /// current, and a ray-tracing strategy implies the acceleration
    /// structures were completed before the loop started.
    pub open spec fn wf(self) -> bool {
        &&& self.policy.wf()
        &&& self.policy.quantize_to_tile
        &&& self.config.extent.is_aligned(self.policy.tile)
        &&& self.binder.wf()
        &&& self.binding_fresh()
        &&& self.strategy.ray_tracing ==> self.accel_complete
    }

    /// The record plan the driver hands out for the acquired image `image`.
    pub open spec fn spec_record_plan(self, image: u32) -> RecordPlan {
        RecordPlan {
            image,
            trace: self.strategy.ray_tracing,
            dispatch: DispatchSize {
                x: (self.config.extent.width / self.policy.tile) as u32,
                y: (self.config.extent.height / self.policy.tile) as u32,
                z: 1u32,
            },
            target_generation: self.binder.current->Some_0.target.generation,
            composition: if self.strategy.copy_compose {
                Composition::CopyToPresentable
            } else {
                Composition::FullScreenDraw { vertex_count: 4u32, instance_count: 1u32 }
            },
        }
    }

    /// The submit plan: always wait on the acquire signal, always signal
    /// submission-complete, and attach a fence exactly for the synchronous
    /// strategy.
    pub open spec fn spec_submit_plan(self) -> SubmitPlan {
        SubmitPlan {
            wait_acquire_signal: true,
            signal_submit_complete: true,
            attach_fence: self.strategy.sync_wait,
        }
    }
}

/// The fields no step ever changes.
pub open spec fn same_statics(pre: FrameDriver, post: FrameDriver) -> bool {
    &&& post.strategy == pre.strategy
    &&& post.policy == pre.policy
    &&& post.compute_layout@ == pre.compute_layout@
    &&& post.render_layout@ == pre.render_layout@
    &&& post.accel_complete == pre.accel_complete
}

/// The step only moves the phase to `phase`; everything else is kept.
pub open spec fn moves_to(pre: FrameDriver, post: FrameDriver, phase: Phase) -> bool {
    &&& same_statics(pre, post)
    &&& post.config == pre.config
    &&& post.binder == pre.binder
    &&& post.window_extent == pre.window_extent
    &&& post.pending_resize == pre.pending_resize
    &&& post.close_requested == pre.close_requested
    &&& post.phase == phase
}

/// The step changes nothing.
pub open spec fn stays_put(pre: FrameDriver, post: FrameDriver) -> bool {
    moves_to(pre, post, pre.phase)
}

/// `pre` after the window reported extent `e`: the report is noted and a
/// resize is pending; nothing else moves.
pub open spec fn noted_resize(d: FrameDriver, e: Extent) -> FrameDriver {
    FrameDriver {
        strategy: d.strategy,
        policy: d.policy,
        config: d.config,
        compute_layout: d.compute_layout,
        render_layout: d.render_layout,
        binder: d.binder,
        accel_complete: d.accel_complete,
        phase: d.phase,
        window_extent: e,
        pending_resize: true,
        close_requested: d.close_requested,
    }
}

/// Entry into the resizing interrupt state. If the policy accepts the
/// window's extent, the surface is reconfigured to it and the render target
/// and bind sets are regenerated together; otherwise the driver asks the
/// window to shrink to the nearest smaller aligned extent and stays in
/// `Resizing` until a compliant report arrives.
pub open spec fn resize_entered(pre: FrameDriver, post: FrameDriver, action: FrameAction) -> bool {
    match spec_decide_extent(pre.policy, pre.window_extent) {
        ExtentDecision::Accept(e) => {
            &&& same_statics(pre, post)
            &&& post.config == reconfigured(pre.config, e)
            &&& Binder::rebuilt(
                pre.binder,
                post.binder,
                e,
                pre.config.format,
                pre.compute_layout@,
                pre.render_layout@,
            )
            &&& post.window_extent == pre.window_extent
            &&& post.pending_resize == false
            &&& post.close_requested == pre.close_requested
            &&& post.phase is Resizing
            &&& action == FrameAction::Reconfigure(e)
        },
        ExtentDecision::RequestResize(e) => {
            &&& moves_to(pre, post, Phase::Resizing)
            &&& action == FrameAction::RequestWindowResize(e)
        },
    }
}

/// The full transition relation of the frame driver: what one `step` call
/// does to the state and which action it hands the shell, for every phase
/// and event.
pub open spec fn step_spec(
    pre: FrameDriver,
    event: FrameEvent,
    post: FrameDriver,
    action: FrameAction,
) -> bool {
    match event {
        FrameEvent::CloseRequested => {
            &&& same_statics(pre, post)
            &&& post.config == pre.config
            &&& post.binder == pre.binder
            &&& post.window_extent == pre.window_extent
            &&& post.pending_resize == pre.pending_resize
            &&& post.close_requested == true
            &&& post.phase == pre.phase
            &&& action == (if pre.phase is Idle || pre.phase is Resizing {
                FrameAction::ShutDown
            } else {
                FrameAction::NoOp
            })
        },
        FrameEvent::WindowResized(e) => {
            if pre.phase is Idle || pre.phase is Resizing {
                resize_entered(noted_resize(pre, e), post, action)
            } else {
                &&& same_statics(pre, post)
                &&& post.config == pre.config
                &&& post.binder == pre.binder
                &&& post.window_extent == e
                &&& post.pending_resize == true
                &&& post.close_requested == pre.close_requested
                &&& post.phase == pre.phase
                &&& action == FrameAction::NoOp
            }
        },
        FrameEvent::RedrawRequested => {
            match pre.phase {
                Phase::Idle | Phase::Resizing => {
                    if pre.close_requested {
                        stays_put(pre, post) && action == FrameAction::ShutDown
                    } else if pre.pending_resize {
                        resize_entered(pre, post, action)
                    } else {
                        moves_to(pre, post, Phase::Acquiring) && action == FrameAction::Acquire
                    }
                },
                _ => stays_put(pre, post) && action == FrameAction::NoOp,
            }
        },
        FrameEvent::AcquireReturned(outcome) => {
            if pre.phase is Acquiring {
                match outcome {
                    AcquireOutcome::Image(i) => {
                        moves_to(pre, post, Phase::Recording { image: i }) && action
                            == FrameAction::Record(pre.spec_record_plan(i))
                    },
                    AcquireOutcome::Outdated | AcquireOutcome::Lost => {
                        resize_entered(pre, post, action)
                    },
                    AcquireOutcome::OtherError => {
                        moves_to(pre, post, Phase::Idle) && action == FrameAction::NoOp
                    },
                }
            } else {
                stays_put(pre, post) && action == FrameAction::NoOp
            }
        },
        FrameEvent::RecordingDone => {
            match pre.phase {
                Phase::Recording { image } => {
                    moves_to(pre, post, Phase::Submitted { image }) && action
                        == FrameAction::Submit(pre.spec_submit_plan())
                },
                _ => stays_put(pre, post) && action == FrameAction::NoOp,
            }
        },
        FrameEvent::SubmitDone => {
            match pre.phase {
                Phase::Submitted { image } => {
                    moves_to(pre, post, Phase::Presenting { image }) && action
                        == FrameAction::Present(PresentPlan { wait_submit_complete: true, image })
                },
                _ => stays_put(pre, post) && action == FrameAction::NoOp,
            }
        },
        FrameEvent::PresentReturned(outcome) => {
            match pre.phase {
                Phase::Presenting { .. } => {
                    match outcome {
                        PresentOutcome::Presented => {
                            moves_to(pre, post, Phase::Idle) && action == (
                            if pre.close_requested {
                                FrameAction::ShutDown
                            } else if pre.strategy.sync_wait {
                                FrameAction::WaitFence
                            } else {
                                FrameAction::NoOp
                            })
                        },
                        PresentOutcome::Outdated | PresentOutcome::Lost => {
                            resize_entered(pre, post, action)
                        },
                        PresentOutcome::OtherError => {
                            moves_to(pre, post, Phase::Idle) && action == FrameAction::NoOp
                        },
                    }
                },
                _ => stays_put(pre, post) && action == FrameAction::NoOp,
            }
        },
    }
}

impl FrameDriver {
    /// Builds the driver before the frame loop starts: negotiated surface
    /// configuration in hand, it creates the initial render target and bind
    /// sets to match. A ray-tracing strategy demands the acceleration
    /// structures already built and complete.
    pub fn new(
        strategy: FrameStrategy,
        policy: ResizePolicy,
        config: SurfaceConfig,
        compute_layout: Vec<BindingSlot>,
        render_layout: Vec<BindingSlot>,
        accel_complete: bool,
    ) -> (d: FrameDriver)
        requires
            policy.wf(),
            policy.quantize_to_tile,
            config.extent.is_aligned(policy.tile),
            strategy.ray_tracing ==> accel_complete,
        ensures
            d.wf(),
            d.phase is Idle,
            d.strategy == strategy,
            d.policy == policy,
            d.config == config,
            d.window_extent == config.extent,
            d.pending_resize == false,
            d.close_requested == false,
            d.accel_complete == accel_complete,
            d.compute_layout@ == compute_layout@,
            d.render_layout@ == render_layout@,
            d.binder.can_rebuild(),
    {
        let mut binder = Binder::new();
        binder.rebuild(config.extent, config.format, &compute_layout, &render_layout);
        FrameDriver {
            strategy,
            policy,
            config,
            compute_layout,
            render_layout,
            binder,
            accel_complete,
            phase: Phase::Idle,
            window_extent: config.extent,
            pending_resize: false,
            close_requested: false,
        }
    }

    /// The record plan for the acquired image, computed from the current
    /// configuration: exact work-group counts and the current target
    /// generation.
    fn make_record_plan(&self, image: u32) -> (plan: RecordPlan)
        requires
            self.wf(),
        ensures
            plan == self.spec_record_plan(image),
    {
        let dispatch = dispatch_size(self.config.extent, self.policy.tile);
        let target_generation: u64 = match &self.binder.current {
            Some(g) => g.target.generation,
            None => 0,
        };
        RecordPlan {
            image,
            trace: self.strategy.ray_tracing,
            dispatch,
            target_generation,
            composition: if self.strategy.copy_compose {
                Composition::CopyToPresentable
            } else {
                Composition::FullScreenDraw { vertex_count: 4, instance_count: 1 }
            },
        }
    }

    /// Enters the resizing interrupt state, deciding on the window's current
    /// extent as [`resize_entered`] describes.
    fn enter_resizing(&mut self) -> (action: FrameAction)
        requires
            old(self).wf(),
            old(self).binder.can_rebuild(),
        ensures
            final(self).wf(),
            resize_entered(*old(self), *final(self), action),
    {
        let decision = decide_extent(self.policy, self.window_extent);
        match decision {
            ExtentDecision::Accept(e) => {
                let format = self.config.format;
                self.config = reconfigure(self.config, e);
                self.binder.rebuild(e, format, &self.compute_layout, &self.render_layout);
                self.pending_resize = false;
                self.phase = Phase::Resizing;
                FrameAction::Reconfigure(e)
            },
            ExtentDecision::RequestResize(e) => {
                self.phase = Phase::Resizing;
                FrameAction::RequestWindowResize(e)
            },
        }
    }

    /// One turn of the frame driver: consumes the event the shell reports,
    /// moves the model as [`step_spec`] describes, and returns the action
    /// the shell must perform next.
    pub fn step(&mut self, event: FrameEvent) -> (action: FrameAction)
        requires
            old(self).wf(),
            old(self).binder.can_rebuild(),
        ensures
            final(self).wf(),
            step_spec(*old(self), event, *final(self), action),
    {
        match event {
            FrameEvent::CloseRequested => {
                self.close_requested = true;
                match self.phase {
                    Phase::Idle | Phase::Resizing => FrameAction::ShutDown,
                    _ => FrameAction::NoOp,
                }
            },
            FrameEvent::WindowResized(e) => {
                self.window_extent = e;
                self.pending_resize = true;
                match self.phase {
                    Phase::Idle | Phase::Resizing => self.enter_resizing(),
                    _ => FrameAction::NoOp,
                }
            },
            FrameEvent::RedrawRequested => {
                match self.phase {
                    Phase::Idle | Phase::Resizing => {
                        if self.close_requested {
                            FrameAction::ShutDown
                        } else if self.pending_resize {
                            self.enter_resizing()
                        } else {
                            self.phase = Phase::Acquiring;
                            FrameAction::Acquire
                        }
                    },
                    _ => FrameAction::NoOp,
                }
            },
            FrameEvent::AcquireReturned(outcome) => {
                match self.phase {
                    Phase::Acquiring => {
                        match outcome {
                            AcquireOutcome::Image(i) => {
                                let plan = self.make_record_plan(i);
                                self.phase = Phase::Recording { image: i };
                                FrameAction::Record(plan)
                            },
                            AcquireOutcome::Outdated | AcquireOutcome::Lost => {
                                self.enter_resizing()
                            },
                            AcquireOutcome::OtherError => {
                                self.phase = Phase::Idle;
                                FrameAction::NoOp
                            },
                        }
                    },
                    _ => FrameAction::NoOp,
                }
            },
            FrameEvent::RecordingDone => {
                match self.phase {
                    Phase::Recording { image } => {
                        self.phase = Phase::Submitted { image };
                        FrameAction::Submit(
                            SubmitPlan {
                                wait_acquire_signal: true,
                                signal_submit_complete: true,
                                attach_fence: self.strategy.sync_wait,
                            },
                        )
                    },
                    _ => FrameAction::NoOp,
                }
            },
            FrameEvent::SubmitDone => {
                match self.phase {
                    Phase::Submitted { image } => {
                        self.phase = Phase::Presenting { image };
                        FrameAction::Present(PresentPlan { wait_submit_complete: true, image })
                    },
                    _ => FrameAction::NoOp,
                }
            },
            FrameEvent::PresentReturned(outcome) => {
                match self.phase {
                    Phase::Presenting { .. } => {
                        match outcome {
                            PresentOutcome::Presented => {
                                self.phase = Phase::Idle;
                                if self.close_requested {
                                    FrameAction::ShutDown
                                } else if self.strategy.sync_wait {
                                    FrameAction::WaitFence
                                } else {
                                    FrameAction::NoOp
                                }
                            },
                            PresentOutcome::Outdated | PresentOutcome::Lost => {
                                self.enter_resizing()
                            },
                            PresentOutcome::OtherError => {
                                self.phase = Phase::Idle;
                                FrameAction::NoOp
                            },
                        }
                    },
                    _ => FrameAction::NoOp,
                }
            },
        }
    }
}

/// Well-formedness is an invariant of the step relation itself: any step
/// taken from a well-formed driver state leaves a well-formed state, whatever
/// the event.
pub proof fn lemma_step_preserves_wf(
    pre: FrameDriver,
    event: FrameEvent,
    post: FrameDriver,
    action: FrameAction,
)
    requires
        pre.wf(),
        step_spec(pre, event, post, action),
    ensures
        post.wf(),
{
}

/// An acquire that reports the surface outdated or lost never reaches the
/// recording phase with the stale image: that step enters the resizing
/// interrupt state and hands out no record action.
pub proof fn lemma_stale_acquire_never_records(
    pre: FrameDriver,
    outcome: AcquireOutcome,
    post: FrameDriver,
    action: FrameAction,
)
    requires
        pre.wf(),
        pre.phase is Acquiring,
        outcome.is_stale(),
        step_spec(pre, FrameEvent::AcquireReturned(outcome), post, action),
    ensures
        post.phase is Resizing,
        !(post.phase is Recording),
        !(action is Record),
{
}

/// A present that reports the surface outdated or lost is recovered through
/// the resizing path, never surfaced as fatal: that step enters the resizing
/// interrupt state.
pub proof fn lemma_stale_present_enters_resizing(
    pre: FrameDriver,
    outcome: PresentOutcome,
    post: FrameDriver,
    action: FrameAction,
)
    requires
        pre.wf(),
        pre.phase is Presenting,
        outcome.is_stale(),
        step_spec(pre, FrameEvent::PresentReturned(outcome), post, action),
    ensures
        post.phase is Resizing,
        action is Reconfigure || action is RequestWindowResize,
{
}

/// Once the resizing state has performed its reconfiguration, the very next
/// redraw re-enters the acquiring phase.
pub proof fn lemma_resizing_reacquires(pre: FrameDriver, post: FrameDriver, action: FrameAction)
    requires
        pre.wf(),
        pre.phase is Resizing,
        !pre.pending_resize,
        !pre.close_requested,
        step_spec(pre, FrameEvent::RedrawRequested, post, action),
    ensures
        post.phase is Acquiring,
        action == FrameAction::Acquire,
{
}

/// Recovery from a stale acquire, end to end: the step that sees the surface
/// outdated or lost reconfigures, and the very next redraw after that
/// reconfiguration re-enters the acquiring phase.
pub proof fn lemma_stale_acquire_then_redraw_reacquires(
    pre: FrameDriver,
    outcome: AcquireOutcome,
    mid: FrameDriver,
    first_action: FrameAction,
    post: FrameDriver,
    second_action: FrameAction,
)
    requires
        pre.wf(),
        pre.phase is Acquiring,
        !pre.close_requested,
        outcome.is_stale(),
        step_spec(pre, FrameEvent::AcquireReturned(outcome), mid, first_action),
        first_action is Reconfigure,
        step_spec(mid, FrameEvent::RedrawRequested, post, second_action),
    ensures
        post.phase is Acquiring,
        second_action == FrameAction::Acquire,
{
    lemma_step_preserves_wf(pre, FrameEvent::AcquireReturned(outcome), mid, first_action);
    lemma_resizing_reacquires(mid, post, second_action);
}

/// No frame ever records against a retired render target: whenever a step
/// hands out a record action, the generation the plan references is the
/// binder's current one, its bind sets reference that generation's target,
/// and that target's extent is exactly the surface extent in effect.
pub proof fn lemma_record_uses_current_binding(
    pre: FrameDriver,
    event: FrameEvent,
    post: FrameDriver,
    action: FrameAction,
    plan: RecordPlan,
)
    requires
        pre.wf(),
        step_spec(pre, event, post, action),
        action == FrameAction::Record(plan),
    ensures
        pre.binder.current matches Some(g) && {
            &&& plan.target_generation == g.target.generation
            &&& g.compute_bind.target_generation == g.target.generation
            &&& g.render_bind.target_generation == g.target.generation
            &&& g.compute_bind.view_extent == pre.config.extent
            &&& g.render_bind.view_extent == pre.config.extent
        },
        post.phase is Recording,
{
}

/// A trace dispatch is never recorded before the acceleration structures are
/// built: a record plan that traces can only come from a state whose build
/// was already completed, and completion persists across the step.
pub proof fn lemma_trace_waits_for_build(
    pre: FrameDriver,
    event: FrameEvent,
    post: FrameDriver,
    action: FrameAction,
    plan: RecordPlan,
)
    requires
        pre.wf(),
        step_spec(pre, event, post, action),
        action == FrameAction::Record(plan),
        plan.trace,
    ensures
        pre.accel_complete,
        post.accel_complete,
{
}

/// Every dispatch a record action carries covers the surface extent exactly:
/// the work-group counts are the extent divided by the tile with zero
/// remainder, one layer deep. In particular no dispatch ever receives a
/// fractional work-group count.
pub proof fn lemma_record_dispatch_exact(
    pre: FrameDriver,
    event: FrameEvent,
    post: FrameDriver,
    action: FrameAction,
    plan: RecordPlan,
)
    requires
        pre.wf(),
        step_spec(pre, event, post, action),
        action == FrameAction::Record(plan),
    ensures
        plan.dispatch.x == pre.config.extent.width / pre.policy.tile,
        plan.dispatch.y == pre.config.extent.height / pre.policy.tile,
        plan.dispatch.z == 1,
        plan.dispatch.x * pre.policy.tile == pre.config.extent.width,
        plan.dispatch.y * pre.policy.tile == pre.config.extent.height,
{
    let w = pre.config.extent.width as int;
    let h = pre.config.extent.height as int;
    let t = pre.policy.tile as int;
    vstd::arithmetic::div_mod::lemma_fundamental_div_mod(w, t);
    vstd::arithmetic::div_mod::lemma_fundamental_div_mod(h, t);
    vstd::arithmetic::mul::lemma_mul_is_commutative(w / t, t);
    vstd::arithmetic::mul::lemma_mul_is_commutative(h / t, t);
}

/// The per-frame signal chain is always explicit: every submission waits on
/// the acquire-complete signal and signals submission-complete, and every
/// present is conditioned on that submission-complete signal. The fence is
/// attached exactly for the synchronously waiting strategy.
pub proof fn lemma_submission_ordering(
    pre: FrameDriver,
    event: FrameEvent,
    post: FrameDriver,
    action: FrameAction,
)
    requires
        pre.wf(),
        step_spec(pre, event, post, action),
    ensures
        action matches FrameAction::Submit(p)
            ==> p.wait_acquire_signal && p.signal_submit_complete && p.attach_fence
            == pre.strategy.sync_wait,
        action matches FrameAction::Present(p) ==> p.wait_submit_complete,
{
}

} // verus!
