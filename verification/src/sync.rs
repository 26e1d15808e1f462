//! The frame synchronizer: the state machine that drives the
//! acquire → submit → present cycle, keeps one fence slot per
//! presentable image, and triggers swapchain recreation on resize or
//! staleness.
//!
//! Every decision of the per-iteration protocol is a method here with
//! an exact contract; the unverified shell performs the matching device
//! calls (acquire, fence wait, submit, present) and hands the outcome
//! back. The two invariants the design rests on are part of
//! well-formedness: a frame may be submitted against an image only
//! while that image's slot holds no unsignaled fence of an earlier
//! frame, and there is never more than one outstanding frame per slot,
//! so the number of frames in flight is bounded by the image count.

use vstd::prelude::*;

use crate::error::EngineError;
use crate::geometry::Extent;
use crate::geometry::Viewport;
use crate::pipeline::create_command_buffers;
use crate::pipeline::create_graphics_pipeline;
use crate::pipeline::CommandBufferDesc;
use crate::pipeline::PipelineDesc;
use crate::swapchain::spec_recreate;
use crate::swapchain::WindowModel;

verus! {

/// One fence slot. Slot `i` remembers the most recent frame whose GPU
/// work targeted image `i`, and whether that work is known complete.
#[derive(Clone, Copy, Debug, PartialEq, Eq, Structural)]
pub enum SlotState {
    /// No frame's work is outstanding on this image.
    Empty,
    /// Frame `frame` targeted this image and its fence has not been
    /// observed to signal: the GPU may still read or write the
    /// image's resources.
    Pending { frame: u64 },
    /// Frame `frame` targeted this image and its fence has signaled:
    /// the image may be reused.
    Signaled { frame: u64 },
}

/// Where in the per-iteration protocol the synchronizer stands. The
/// acquiring, submitting and presenting steps of an iteration run
/// within one `Idle → … → Idle` round trip; presentation is chained
/// onto submission in a single queue call, so it needs no phase of its
/// own.
#[derive(Clone, Copy, Debug, PartialEq, Eq, Structural)]
pub enum Phase {
    /// Between iterations: recreation (if flagged) and acquisition
    /// come next.
    Idle,
    /// An image was acquired whose slot still holds an unsignaled
    /// fence: the synchronizer blocks until it signals.
    AwaitingFence { index: usize },
    /// The acquired image is safe to reuse: its command buffer may be
    /// submitted and the image presented.
    Submitting { index: usize },
}

/// What acquisition reported. Any outcome other than these two is
/// fatal and never reaches the synchronizer.
#[derive(Clone, Copy, Debug, PartialEq, Eq, Structural)]
pub enum AcquireOutcome {
    /// The presentation engine yielded an image; `suboptimal` means
    /// the surface no longer matches ideally and the next iteration
    /// should recreate, though this frame may proceed.
    Acquired { index: usize, suboptimal: bool },
    /// The swapchain no longer matches the surface at all.
    OutOfDate,
}

/// What the synchronizer decided after acquisition.
#[derive(Clone, Copy, Debug, PartialEq, Eq, Structural)]
pub enum AcquireStep {
    /// Out of date: this iteration submits and presents nothing; the
    /// next iteration recreates first.
    Abandoned,
    /// The acquired image's slot holds the unsignaled fence of frame
    /// `frame`: block until it signals, then report it.
    MustWait { index: usize, frame: u64 },
    /// The acquired image is free: proceed to submission.
    ReadyToSubmit { index: usize },
}

/// The GPU-side dependency the next submission waits on, joined with
/// the image-acquired signal.
#[derive(Clone, Copy, Debug, PartialEq, Eq, Structural)]
pub enum WaitDependency {
    /// The previous frame left no fence: an immediately satisfied
    /// marker.
    Immediate,
    /// The fence of frame `frame`, recorded at the previous frame's
    /// image index.
    PriorFence { frame: u64 },
}

/// What submission and the chained present reported.
#[derive(Clone, Copy, Debug, PartialEq, Eq, Structural)]
pub enum SubmitOutcome {
    /// The chain was accepted and a fence will signal its completion.
    Completed,
    /// The present leg found the swapchain out of date: recreate next
    /// iteration; no fence is kept.
    OutOfDate,
    /// Any other submission failure: the frame is dropped, the slot
    /// left empty, and the loop continues.
    Failed,
}

/// What the shell must rebuild before this iteration acquires.
#[derive(Clone, Copy, Debug, PartialEq, Eq, Structural)]
pub struct RebuildActions {
    /// Recreate the swapchain and its framebuffers.
    pub swapchain: bool,
    /// Also rebuild the graphics pipeline against the new viewport and
    /// the command buffers against the new pipeline and framebuffers.
    pub pipeline_and_commands: bool,
}

/// Whether an image slot permits new GPU work on its image.
pub open spec fn slot_clear(s: SlotState) -> bool {
    s is Empty || s is Signaled
}

/// Whether every frame a slot remembers was numbered before `bound`.
pub open spec fn slot_frame_below(s: SlotState, bound: u64) -> bool {
    match s {
        SlotState::Empty => true,
        SlotState::Pending { frame } => frame < bound,
        SlotState::Signaled { frame } => frame < bound,
    }
}

/// How many slots hold an unsignaled fence: the number of frames whose
/// GPU work may still be outstanding.
pub open spec fn count_pending(s: Seq<SlotState>) -> nat
    decreases s.len(),
{
    if s.len() == 0 {
        0
    } else {
        count_pending(s.drop_last()) + if s.last() is Pending {
            1nat
        } else {
            0nat
        }
    }
}

/// At most one frame is outstanding per slot.
pub proof fn lemma_count_pending_le_len(s: Seq<SlotState>)
    ensures
        count_pending(s) <= s.len(),
    decreases s.len(),
{
    if s.len() > 0 {
        lemma_count_pending_le_len(s.drop_last());
    }
}

/// The frame synchronizer's owned state: the window it presents to,
/// the pipeline and prebuilt command buffers it replays, one fence
/// slot per presentable image, the previous-frame cursor, the resize
/// and staleness flags, and rebuild counters that make recreation
/// observable.
pub struct FrameSynchronizer {
    pub window: WindowModel,
    pub pipeline: PipelineDesc,
    pub command_buffers: Vec<CommandBufferDesc>,
    pub vertex_count: u32,
    pub slots: Vec<SlotState>,
    pub previous_index: usize,
    pub stale: bool,
    pub resized: bool,
    pub phase: Phase,
    pub next_frame: u64,
    pub swapchain_rebuilds: u64,
    pub pipeline_rebuilds: u64,
    pub command_rebuilds: u64,
}

impl FrameSynchronizer {
    /// The number of presentable images, which also bounds the frames
    /// in flight.
    pub open spec fn image_count(&self) -> int {
        self.slots@.len() as int
    }

    /// Well-formedness, established by the constructor and preserved
    /// by every transition:
    /// - the window is provisioned and internally consistent, with one
    ///   fence slot per presentable image;
    /// - the pipeline was built against the window's render pass and
    ///   its current viewport (a resize therefore forces a rebuild);
    /// - there is one command buffer per image, each drawing the whole
    ///   vertex buffer as one instance into its own framebuffer;
    /// - the previous-frame cursor and every phase index are in range;
    /// - while awaiting a fence the slot is pending, and in the
    ///   submitting phase the acquired image's slot holds no
    ///   unsignaled fence — the fence-safety invariant;
    /// - every recorded frame was numbered below the next frame.
    pub open spec fn wf(&self) -> bool {
        &&& self.window.wf()
        &&& self.window.provisioned()
        &&& self.slots@.len() == self.window.spec_swapchain().image_count
        &&& self.slots@.len() > 0
        &&& self.previous_index < self.slots@.len()
        &&& self.pipeline == (PipelineDesc {
            render_pass: self.window.spec_render_pass(),
            viewport: self.window.viewport,
        })
        &&& self.command_buffers@.len() == self.slots@.len()
        &&& forall|i: int|
            0 <= i < self.command_buffers@.len() ==> self.command_buffers@[i] == (CommandBufferDesc {
                image_index: i as u32,
                vertex_count: self.vertex_count,
                instance_count: 1,
            })
        &&& match self.phase {
            Phase::Idle => true,
            Phase::AwaitingFence { index } => index < self.slots@.len() && self.slots@[index as int]
                is Pending,
            Phase::Submitting { index } => index < self.slots@.len() && slot_clear(
                self.slots@[index as int],
            ),
        }
        &&& forall|i: int|
            0 <= i < self.slots@.len() ==> slot_frame_below(
                #[trigger] self.slots@[i],
                self.next_frame,
            )
    }

    /// Builds the synchronizer over a provisioned window: a pipeline
    /// against the window's render pass and viewport, one command
    /// buffer and one empty fence slot per presentable image, the
    /// cursor at image zero, both flags clear, and frame numbering
    /// starting at one. Rejects an unprovisioned window with a typed
    /// error.
    pub fn new(window: WindowModel, vertex_count: u32) -> (r: Result<
        FrameSynchronizer,
        EngineError,
    >)
        requires
            window.wf(),
            window.provisioned() ==> window.spec_swapchain().image_count > 0,
        ensures
            !window.provisioned() ==> r == Err::<FrameSynchronizer, EngineError>(
                EngineError::NotProvisioned,
            ),
            window.provisioned() ==> (r matches Ok(s) && {
                &&& s.wf()
                &&& s.window == window
                &&& s.vertex_count == vertex_count
                &&& s.slots@.len() == window.spec_swapchain().image_count
                &&& forall|i: int| 0 <= i < s.slots@.len() ==> s.slots@[i] is Empty
                &&& s.previous_index == 0
                &&& !s.stale
                &&& !s.resized
                &&& s.phase is Idle
                &&& s.next_frame == 1
                &&& s.swapchain_rebuilds == 0
                &&& s.pipeline_rebuilds == 0
                &&& s.command_rebuilds == 0
            }),
    {
        let render_pass = match window.get_render_pass() {
            Ok(render_pass) => render_pass,
            Err(e) => {
                return Err(e);
            },
        };
        let framebuffers = match window.get_framebuffers() {
            Ok(framebuffers) => framebuffers,
            Err(_) => unreached(),
        };
        let pipeline = create_graphics_pipeline(render_pass, window.get_window_viewport());
        let command_buffers = create_command_buffers(vertex_count, framebuffers);
        let image_count = command_buffers.len();
        let mut slots: Vec<SlotState> = Vec::new();
        let mut i: usize = 0;
        while i < image_count
            invariant
                i <= image_count,
                slots@.len() == i,
                forall|j: int| 0 <= j < i ==> slots@[j] is Empty,
            decreases image_count - i,
        {
            slots.push(SlotState::Empty);
            i = i + 1;
        }
        Ok(
            FrameSynchronizer {
                window,
                pipeline,
                command_buffers,
                vertex_count,
                slots,
                previous_index: 0,
                stale: false,
                resized: false,
                phase: Phase::Idle,
                next_frame: 1,
                swapchain_rebuilds: 0,
                pipeline_rebuilds: 0,
                command_rebuilds: 0,
            },
        )
    }

    /// The render-side part of the state: everything the acquire,
    /// fence-wait and submit steps leave untouched. Only recreation,
    /// at the top of an iteration, may change it.
    pub open spec fn render_state(&self) -> (
        WindowModel,
        PipelineDesc,
        Seq<CommandBufferDesc>,
        u32,
        u64,
        u64,
        u64,
    ) {
        (
            self.window,
            self.pipeline,
            self.command_buffers@,
            self.vertex_count,
            self.swapchain_rebuilds,
            self.pipeline_rebuilds,
            self.command_rebuilds,
        )
    }

    /// Resize detection: the windowing layer saw a resize event. Only
    /// the flag is set; all rebuilding is deferred to the top of the
    /// next iteration — the synchronizer never rebuilds mid-frame.
    pub fn note_resized(&mut self)
        requires
            old(self).wf(),
        ensures
            final(self).wf(),
            *final(self) == (FrameSynchronizer { resized: true, ..*old(self) }),
    {
        self.resized = true;
    }

    /// The top of one loop iteration: if a resize or a staleness
    /// signal is pending, rebuild the swapchain and its render targets
    /// at the current drawable size; on a resize — an actual extent
    /// change, not just staleness — also give the viewport the new
    /// extent, rebuild the pipeline against it, and rebuild the
    /// command buffer set, each exactly once. Returns what the shell
    /// must rebuild on the device before acquiring.
    pub fn begin_iteration(&mut self, drawable: Extent) -> (actions: RebuildActions)
        requires
            old(self).wf(),
            old(self).phase is Idle,
            old(self).swapchain_rebuilds < u64::MAX,
            old(self).pipeline_rebuilds < u64::MAX,
            old(self).command_rebuilds < u64::MAX,
        ensures
            final(self).wf(),
            final(self).phase is Idle,
            final(self).slots@ == old(self).slots@,
            final(self).previous_index == old(self).previous_index,
            final(self).next_frame == old(self).next_frame,
            final(self).vertex_count == old(self).vertex_count,
            !final(self).stale,
            !final(self).resized,
            !old(self).resized && !old(self).stale ==> {
                &&& *final(self) == *old(self)
                &&& actions == (RebuildActions { swapchain: false, pipeline_and_commands: false })
            },
            old(self).stale && !old(self).resized ==> {
                &&& actions == (RebuildActions { swapchain: true, pipeline_and_commands: false })
                &&& final(self).window.spec_swapchain() == spec_recreate(
                    old(self).window.spec_swapchain(),
                    drawable,
                )
                &&& final(self).window.spec_render_pass() == old(self).window.spec_render_pass()
                &&& final(self).window.viewport == old(self).window.viewport
                &&& final(self).pipeline == old(self).pipeline
                &&& final(self).command_buffers@ == old(self).command_buffers@
                &&& final(self).swapchain_rebuilds == old(self).swapchain_rebuilds + 1
                &&& final(self).pipeline_rebuilds == old(self).pipeline_rebuilds
                &&& final(self).command_rebuilds == old(self).command_rebuilds
            },
            old(self).resized ==> {
                &&& actions == (RebuildActions { swapchain: true, pipeline_and_commands: true })
                &&& final(self).window.spec_swapchain() == spec_recreate(
                    old(self).window.spec_swapchain(),
                    drawable,
                )
                &&& final(self).window.spec_render_pass() == old(self).window.spec_render_pass()
                &&& final(self).window.viewport == (Viewport {
                    extent: drawable,
                    ..old(self).window.viewport
                })
                &&& final(self).pipeline == (PipelineDesc {
                    render_pass: old(self).window.spec_render_pass(),
                    viewport: final(self).window.viewport,
                })
                &&& final(self).swapchain_rebuilds == old(self).swapchain_rebuilds + 1
                &&& final(self).pipeline_rebuilds == old(self).pipeline_rebuilds + 1
                &&& final(self).command_rebuilds == old(self).command_rebuilds + 1
            },
    {
        let mut actions = RebuildActions { swapchain: false, pipeline_and_commands: false };
        if self.resized || self.stale {
            self.stale = false;
            let _desc = self.window.recreate_swapchain(drawable);
            self.swapchain_rebuilds = self.swapchain_rebuilds + 1;
            actions.swapchain = true;
            if self.resized {
                self.resized = false;
                self.window.viewport.extent = drawable;
                let render_pass = match self.window.get_render_pass() {
                    Ok(render_pass) => render_pass,
                    Err(_) => unreached(),
                };
                self.pipeline = create_graphics_pipeline(
                    render_pass,
                    self.window.get_window_viewport(),
                );
                let command_buffers = match self.window.get_framebuffers() {
                    Ok(framebuffers) => create_command_buffers(self.vertex_count, framebuffers),
                    Err(_) => unreached(),
                };
                self.command_buffers = command_buffers;
                self.pipeline_rebuilds = self.pipeline_rebuilds + 1;
                self.command_rebuilds = self.command_rebuilds + 1;
                actions.pipeline_and_commands = true;
            }
        }
        actions
    }

    /// What acquisition decided. Out of date abandons the iteration —
    /// nothing is submitted or presented — and flags staleness for the
    /// next one. A suboptimal acquire flags staleness too but the
    /// frame proceeds. If the acquired image's slot still holds an
    /// unsignaled fence, the shell must block on it before the frame
    /// may reuse the image; otherwise submission may start at once.
    pub fn on_acquire(&mut self, outcome: AcquireOutcome) -> (step: AcquireStep)
        requires
            old(self).wf(),
            old(self).phase is Idle,
            outcome matches AcquireOutcome::Acquired { index, .. } ==> index < old(
                self,
            ).slots@.len(),
        ensures
            final(self).wf(),
            final(self).render_state() == old(self).render_state(),
            final(self).slots@ == old(self).slots@,
            final(self).previous_index == old(self).previous_index,
            final(self).next_frame == old(self).next_frame,
            final(self).resized == old(self).resized,
            outcome is OutOfDate ==> {
                &&& step == AcquireStep::Abandoned
                &&& final(self).stale
                &&& final(self).phase is Idle
            },
            outcome matches AcquireOutcome::Acquired { index, suboptimal } ==> {
                &&& final(self).stale == (old(self).stale || suboptimal)
                &&& match old(self).slots@[index as int] {
                    SlotState::Pending { frame } => step == AcquireStep::MustWait { index, frame }
                        && final(self).phase == Phase::AwaitingFence { index },
                    _ => step == AcquireStep::ReadyToSubmit { index } && final(self).phase
                        == Phase::Submitting { index },
                }
            },
    {
        match outcome {
            AcquireOutcome::OutOfDate => {
                self.stale = true;
                AcquireStep::Abandoned
            },
            AcquireOutcome::Acquired { index, suboptimal } => {
                if suboptimal {
                    self.stale = true;
                }
                match self.slots[index] {
                    SlotState::Pending { frame } => {
                        self.phase = Phase::AwaitingFence { index };
                        AcquireStep::MustWait { index, frame }
                    },
                    _ => {
                        self.phase = Phase::Submitting { index };
                        AcquireStep::ReadyToSubmit { index }
                    },
                }
            },
        }
    }

    /// The blocking fence wait completed: the fence in the acquired
    /// image's slot has signaled, so the GPU has finished all prior
    /// reads and writes of that image's resources and the frame may
    /// proceed to submission.
    pub fn note_fence_signaled(&mut self)
        requires
            old(self).wf(),
            old(self).phase is AwaitingFence,
        ensures
            final(self).wf(),
            final(self).render_state() == old(self).render_state(),
            final(self).previous_index == old(self).previous_index,
            final(self).next_frame == old(self).next_frame,
            final(self).stale == old(self).stale,
            final(self).resized == old(self).resized,
            old(self).phase matches Phase::AwaitingFence { index } && old(self).slots@[index as int]
                matches SlotState::Pending { frame } ==> {
                &&& final(self).slots@ == old(self).slots@.update(
                    index as int,
                    SlotState::Signaled { frame },
                )
                &&& final(self).phase == Phase::Submitting { index }
            },
    {
        match self.phase {
            Phase::AwaitingFence { index } => {
                match self.slots[index] {
                    SlotState::Pending { frame } => {
                        self.slots.set(index, SlotState::Signaled { frame });
                        self.phase = Phase::Submitting { index };
                    },
                    _ => unreached(),
                }
            },
            _ => unreached(),
        }
    }

    /// The wait dependency of this submission: the fence the previous
    /// frame recorded at its image index, or an immediately satisfied
    /// marker when it left none. Joined with the image-acquired
    /// signal, this is the precondition for replaying the acquired
    /// image's command buffer.
    pub fn wait_dependency(&self) -> (dep: WaitDependency)
        requires
            self.wf(),
            self.phase is Submitting,
        ensures
            match self.slots@[self.previous_index as int] {
                SlotState::Empty => dep == WaitDependency::Immediate,
                SlotState::Pending { frame } => dep == WaitDependency::PriorFence { frame },
                SlotState::Signaled { frame } => dep == WaitDependency::PriorFence { frame },
            },
    {
        match self.slots[self.previous_index] {
            SlotState::Empty => WaitDependency::Immediate,
            SlotState::Pending { frame } => WaitDependency::PriorFence { frame },
            SlotState::Signaled { frame } => WaitDependency::PriorFence { frame },
        }
    }

    /// The submission and chained present went out: record the
    /// outcome. On completion the new frame's fence takes the acquired
    /// image's slot, replacing whatever was there. An out-of-date
    /// report stores no fence and flags staleness; any other failure
    /// stores no fence and the frame is simply dropped. Either way the
    /// acquired index becomes the previous-frame cursor and the
    /// iteration ends.
    pub fn on_submit(&mut self, outcome: SubmitOutcome)
        requires
            old(self).wf(),
            old(self).phase is Submitting,
            old(self).next_frame < u64::MAX,
        ensures
            final(self).wf(),
            final(self).render_state() == old(self).render_state(),
            final(self).resized == old(self).resized,
            final(self).phase is Idle,
            old(self).phase matches Phase::Submitting { index } ==> {
                &&& final(self).previous_index == index
                &&& match outcome {
                    SubmitOutcome::Completed => {
                        &&& final(self).slots@ == old(self).slots@.update(
                            index as int,
                            SlotState::Pending { frame: old(self).next_frame },
                        )
                        &&& final(self).next_frame == old(self).next_frame + 1
                        &&& final(self).stale == old(self).stale
                    },
                    SubmitOutcome::OutOfDate => {
                        &&& final(self).slots@ == old(self).slots@.update(
                            index as int,
                            SlotState::Empty,
                        )
                        &&& final(self).next_frame == old(self).next_frame
                        &&& final(self).stale
                    },
                    SubmitOutcome::Failed => {
                        &&& final(self).slots@ == old(self).slots@.update(
                            index as int,
                            SlotState::Empty,
                        )
                        &&& final(self).next_frame == old(self).next_frame
                        &&& final(self).stale == old(self).stale
                    },
                }
            },
    {
        match self.phase {
            Phase::Submitting { index } => {
                match outcome {
                    SubmitOutcome::Completed => {
                        self.slots.set(index, SlotState::Pending { frame: self.next_frame });
                        self.next_frame = self.next_frame + 1;
                    },
                    SubmitOutcome::OutOfDate => {
                        self.slots.set(index, SlotState::Empty);
                        self.stale = true;
                    },
                    SubmitOutcome::Failed => {
                        self.slots.set(index, SlotState::Empty);
                    },
                }
                self.previous_index = index;
                self.phase = Phase::Idle;
            },
            _ => unreached(),
        }
    }

    /// How many frames currently have GPU work outstanding: the
    /// number of slots holding an unsignaled fence.
    pub fn frames_in_flight(&self) -> (n: usize)
        requires
            self.wf(),
        ensures
            n == count_pending(self.slots@),
            n <= self.image_count(),
    {
        let ghost slots = self.slots@;
        let mut n: usize = 0;
        let mut i: usize = 0;
        while i < self.slots.len()
            invariant
                i <= slots.len(),
                self.slots@ == slots,
                n == count_pending(slots.subrange(0, i as int)),
                n <= i,
            decreases slots.len() - i,
        {
            proof {
                assert(slots.subrange(0, i as int + 1).drop_last() =~= slots.subrange(0, i as int));
                assert(slots.subrange(0, i as int + 1).last() == slots[i as int]);
            }
            match self.slots[i] {
                SlotState::Pending { .. } => {
                    n = n + 1;
                },
                _ => {},
            }
            i = i + 1;
        }
        proof {
            assert(slots.subrange(0, slots.len() as int) =~= slots);
        }
        n
    }
}

/// Fence safety: the submitting phase is the only one from which GPU
/// commands touching the acquired image's resources are issued, and a
/// well-formed synchronizer reaches it for image `index` only while
/// that image's slot holds no unsignaled fence. So whenever two frames
/// target the same image, the earlier frame's fence has signaled — or
/// its slot was cleared on a dropped frame — before the later frame's
/// GPU work is submitted; while the earlier fence is still unsignaled,
/// the machine can only be blocking on it.
pub proof fn lemma_fence_safety(s: FrameSynchronizer)
    requires
        s.wf(),
    ensures
        s.phase matches Phase::Submitting { index } ==> slot_clear(s.slots@[index as int]),
        s.phase matches Phase::AwaitingFence { index } ==> s.slots@[index as int] is Pending,
{
}

/// Slot bound: each presentable image has exactly one fence slot and
/// each slot holds at most one unsignaled fence, so at most
/// `image_count` frames have GPU work outstanding simultaneously.
pub proof fn lemma_slot_bound(s: FrameSynchronizer)
    requires
        s.wf(),
    ensures
        count_pending(s.slots@) <= s.image_count(),
{
    lemma_count_pending_le_len(s.slots@);
}

} // verus!
