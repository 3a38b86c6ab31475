//! The presentation engine: the per-frame protocol and its recovery rules.
//!
//! One cycle runs acquire → record → submit → present against one of
//! [`MAX_IN_FLIGHT`] slots, each slot owning its own synchronization
//! primitives and command buffer.  The engine is driven by an unverified
//! shell: every step here decides what the shell must do next (block on a
//! fence, record commands, submit, present, recreate the swapchain, abort)
//! and the shell reports each backend outcome back.  The engine's state plus
//! these decisions are the verified protocol; the shell performs them in
//! order and nothing else.

use vstd::prelude::*;

use crate::recorder::{frame_script, Cmd, DrawPayload, FrameRecorder};
use crate::surface::{Extent, SwapchainPlan};
use crate::swapchain::{installed_view, ReleaseStep, SwapchainManager, SwapchainView};

verus! {

/// How many frames may be prepared ahead of the GPU at once.
pub const MAX_IN_FLIGHT: usize = 2;

/// The synchronization primitives of one in-flight slot.
#[derive(Clone, Copy, PartialEq, Eq, Structural, Debug)]
pub struct SyncSet {
    /// GPU-side signal raised when the acquired image becomes usable; the
    /// slot's submission waits on it at the color-attachment-output stage.
    pub image_available: u64,
    /// GPU-side signal raised when the slot's submission has finished
    /// rendering; presentation of the image is gated on it.
    pub render_done: u64,
    /// CPU-waitable fence armed by the slot's submission and created in the
    /// signaled state, so the first wait on a slot never blocks.
    pub in_flight: u64,
}

/// Where in a cycle the engine stands.
#[derive(Clone, Copy, PartialEq, Eq, Structural, Debug)]
pub enum Phase {
    Idle,
    Acquiring,
    Recording { image_index: u32 },
    Submitted { image_index: u32 },
    Presenting { image_index: u32 },
}

/// What the backend reported for an acquire request.
#[derive(Clone, Copy, PartialEq, Eq, Structural, Debug)]
pub enum AcquireOutcome {
    /// An image is available; its index within the chain.
    Success { image_index: u32 },
    /// The chain no longer matches the surface and must be recreated.
    OutOfDate,
    /// Any other backend failure.
    DeviceFault,
}

/// What the backend reported for a present request.
#[derive(Clone, Copy, PartialEq, Eq, Structural, Debug)]
pub enum PresentOutcome {
    Success,
    /// Presentation succeeded but the chain no longer matches the surface
    /// optimally.
    Suboptimal,
    /// The chain no longer matches the surface and must be recreated.
    OutOfDate,
    /// Any other backend failure.
    DeviceFault,
}

/// What the shell must do at the start of a cycle: block on `fence`
/// (throttle), then request the next image, handing `image_available` to the
/// backend to signal.
#[derive(Clone, Copy, PartialEq, Eq, Structural, Debug)]
pub struct FrameStart {
    pub slot: usize,
    pub fence: u64,
    pub image_available: u64,
}

/// The work of one cycle after a successful acquire: reset `fence`, reset
/// `command_buffer` and record `commands` into it, then ask the engine for
/// the submission.
#[derive(PartialEq, Eq, Debug)]
pub struct FrameJob {
    pub slot: usize,
    pub image_index: u32,
    pub fence: u64,
    pub command_buffer: u64,
    pub commands: Vec<Cmd>,
}

/// How a cycle proceeds after the acquire outcome.
#[derive(PartialEq, Eq, Debug)]
pub enum AfterAcquire {
    /// Proceed with this frame's work.
    Render(FrameJob),
    /// Cycle abandoned: wait for the device to go idle, then destroy and
    /// rebuild the swapchain.
    Recreate,
    /// Unrecoverable backend failure: abort with a diagnostic.
    Fatal,
}

/// The submission of one cycle: enqueue `command_buffer`, waiting on
/// `wait_semaphore` at the color-attachment-output stage, signaling
/// `signal_semaphore` when rendering is done, arming `fence` on completion.
#[derive(Clone, Copy, PartialEq, Eq, Structural, Debug)]
pub struct SubmitRequest {
    pub command_buffer: u64,
    pub wait_semaphore: u64,
    pub signal_semaphore: u64,
    pub fence: u64,
}

/// The present request of one cycle: present `image_index` of `chain`, gated
/// on `wait_semaphore`.
#[derive(Clone, Copy, PartialEq, Eq, Structural, Debug)]
pub struct PresentRequest {
    pub chain: u64,
    pub image_index: u32,
    pub wait_semaphore: u64,
}

/// How a cycle ends after the present outcome.
#[derive(Clone, Copy, PartialEq, Eq, Structural, Debug)]
pub enum AfterPresent {
    /// Cycle complete; the engine advanced to the next slot.
    Advance,
    /// Wait for the device to go idle, then destroy and rebuild the
    /// swapchain.  The slot is not advanced: its fence is armed and the next
    /// cycle must still wait on it.
    Recreate,
    /// A pending resize names a zero-area surface: recreation is skipped and
    /// the marker kept for a later attempt.  The slot is not advanced.
    SkipFrame,
    /// Unrecoverable backend failure: abort with a diagnostic.
    Fatal,
}

/// Mathematical view of a [`PresentationEngine`].
#[verifier::ext_equal]
pub struct EngineView {
    pub sync_sets: Seq<SyncSet>,
    pub command_buffers: Seq<u64>,
    pub recorder: FrameRecorder,
    pub swapchain: SwapchainView,
    pub command_pool: u64,
    pub current_slot: usize,
    pub pending_resize: Option<Extent>,
    pub phase: Phase,
    /// Whether a submission that references the slot's primitives may still
    /// be executing: set when the slot submits, cleared when the slot's fence
    /// has been observed signaled at the throttle step.
    pub slot_busy: Seq<bool>,
}

impl EngineView {
    /// Structural invariant, kept by every step.  In particular: while the
    /// engine records or is about to submit, no earlier submission on the
    /// current slot is outstanding, and any held image index lies within the
    /// chain.
    pub open spec fn inv(self) -> bool {
        &&& self.sync_sets.len() == MAX_IN_FLIGHT
        &&& self.command_buffers.len() == MAX_IN_FLIGHT
        &&& self.slot_busy.len() == MAX_IN_FLIGHT
        &&& self.current_slot < MAX_IN_FLIGHT
        &&& self.swapchain.inv()
        &&& (self.phase !is Idle ==> self.swapchain.built())
        &&& (self.phase is Acquiring ==> !self.slot_busy[self.current_slot as int])
        &&& (self.phase matches Phase::Recording { .. } ==> !self.slot_busy[self.current_slot as int])
        &&& (self.phase matches Phase::Submitted { .. } ==> self.slot_busy[self.current_slot as int])
        &&& (self.phase matches Phase::Presenting { .. } ==> self.slot_busy[self.current_slot as int])
        &&& (self.phase matches Phase::Recording { image_index } ==> (image_index as int)
            < self.swapchain.images.len())
        &&& (self.phase matches Phase::Submitted { image_index } ==> (image_index as int)
            < self.swapchain.images.len())
        &&& (self.phase matches Phase::Presenting { image_index } ==> (image_index as int)
            < self.swapchain.images.len())
    }

    /// After the throttle: the slot's fence was observed signaled, so no
    /// submission on the slot is outstanding any more.
    pub open spec fn begun(self) -> EngineView {
        EngineView {
            phase: Phase::Acquiring,
            slot_busy: self.slot_busy.update(self.current_slot as int, false),
            ..self
        }
    }

    /// After a successful acquire: the cycle records against this image.
    pub open spec fn acquired(self, image_index: u32) -> EngineView {
        EngineView { phase: Phase::Recording { image_index }, ..self }
    }

    /// After an out-of-date acquire: the cycle is abandoned.  The slot's
    /// fence was not re-armed (and not reset), so the slot stays free.
    pub open spec fn acquire_failed(self) -> EngineView {
        EngineView { phase: Phase::Idle, ..self }
    }

    /// After the submission: the slot's fence is armed again.
    pub open spec fn submitted(self) -> EngineView
        recommends
            self.phase matches Phase::Recording { .. },
    {
        EngineView {
            phase: match self.phase {
                Phase::Recording { image_index } => Phase::Submitted { image_index },
                _ => self.phase,
            },
            slot_busy: self.slot_busy.update(self.current_slot as int, true),
            ..self
        }
    }

    /// After the present request was issued.
    pub open spec fn presenting(self) -> EngineView
        recommends
            self.phase matches Phase::Submitted { .. },
    {
        EngineView {
            phase: match self.phase {
                Phase::Submitted { image_index } => Phase::Presenting { image_index },
                _ => self.phase,
            },
            ..self
        }
    }

    /// Whether the pending resize names a zero-area surface, to which
    /// rendering is undefined.
    pub open spec fn zero_pending(self) -> bool {
        self.pending_resize matches Some(e) && (e.width == 0 || e.height == 0)
    }

    /// The decision taken at the present boundary: a backend fault is fatal;
    /// a zero-area pending resize skips recreation and keeps its marker; a
    /// stale chain or a completed nonzero resize recreates; otherwise the
    /// cycle completes and the engine advances round-robin to the next slot.
    pub open spec fn present_action(self, outcome: PresentOutcome) -> AfterPresent {
        if outcome is DeviceFault {
            AfterPresent::Fatal
        } else if self.zero_pending() {
            AfterPresent::SkipFrame
        } else if outcome is OutOfDate || outcome is Suboptimal || self.pending_resize is Some {
            AfterPresent::Recreate
        } else {
            AfterPresent::Advance
        }
    }

    /// The state after the present boundary.  Only a completed cycle
    /// advances the slot; recreation and the zero-size skip leave it alone,
    /// since the slot's fence is armed and the next cycle must wait on it.
    pub open spec fn present_step(self, outcome: PresentOutcome) -> EngineView {
        match self.present_action(outcome) {
            AfterPresent::Fatal => self,
            AfterPresent::SkipFrame => EngineView { phase: Phase::Idle, ..self },
            AfterPresent::Recreate => EngineView { phase: Phase::Idle, ..self },
            AfterPresent::Advance => EngineView {
                phase: Phase::Idle,
                current_slot: (((self.current_slot + 1) % (MAX_IN_FLIGHT as int)) as usize),
                ..self
            },
        }
    }

    /// After a teardown of the swapchain.
    pub open spec fn torn_down(self) -> EngineView {
        EngineView { swapchain: SwapchainView::torn_down(), ..self }
    }

    /// After a rebuild: the fresh chain is adopted and the pending resize,
    /// now consumed, is cleared.
    pub open spec fn with_installed(
        self,
        plan: SwapchainPlan,
        chain: u64,
        render_pass: u64,
        images: Seq<u64>,
        image_views: Seq<u64>,
        framebuffers: Seq<u64>,
    ) -> EngineView {
        EngineView {
            swapchain: installed_view(plan, chain, render_pass, images, image_views, framebuffers),
            pending_resize: None,
            ..self
        }
    }

    /// The releases of a full shutdown, in dependency order: each slot's
    /// primitives, then the swapchain teardown, then the pipeline, its
    /// layout, the geometry buffers with their memory, and last the command
    /// pool that owned the command buffers.  What the engine only borrowed
    /// (queue, surface, device) is not here: its owner releases it
    /// afterwards.
    pub open spec fn shutdown_script(self) -> Seq<ReleaseStep> {
        sync_release_steps(self.sync_sets) + self.swapchain.destroy_script()
            + fixed_release_steps(self.recorder, self.command_pool)
    }
}

/// The releases of one slot's synchronization primitives.
pub open spec fn sync_set_steps(s: SyncSet) -> Seq<ReleaseStep> {
    seq![
        ReleaseStep::Semaphore(s.render_done),
        ReleaseStep::Semaphore(s.image_available),
        ReleaseStep::Fence(s.in_flight),
    ]
}

/// The releases of every slot's primitives, slot by slot.
pub open spec fn sync_release_steps(sets: Seq<SyncSet>) -> Seq<ReleaseStep>
    decreases sets.len(),
{
    if sets.len() == 0 {
        Seq::empty()
    } else {
        sync_release_steps(sets.drop_last()) + sync_set_steps(sets.last())
    }
}

/// The releases of the draw payload's buffers, each followed by its memory.
pub open spec fn payload_release_steps(p: DrawPayload) -> Seq<ReleaseStep> {
    match p {
        DrawPayload::Plain { vertices, .. } => seq![
            ReleaseStep::Buffer(vertices.buffer),
            ReleaseStep::Memory(vertices.memory),
        ],
        DrawPayload::Indexed { vertices, indices, .. } => seq![
            ReleaseStep::Buffer(vertices.buffer),
            ReleaseStep::Memory(vertices.memory),
            ReleaseStep::Buffer(indices.buffer),
            ReleaseStep::Memory(indices.memory),
        ],
    }
}

/// The releases of the objects fixed at startup: pipeline, layout, geometry,
/// command pool.
pub open spec fn fixed_release_steps(rec: FrameRecorder, command_pool: u64) -> Seq<ReleaseStep> {
    seq![ReleaseStep::Pipeline(rec.pipeline), ReleaseStep::PipelineLayout(rec.pipeline_layout)]
        + payload_release_steps(rec.payload) + seq![ReleaseStep::CommandPool(command_pool)]
}

/// The top-level driver: owns the slots' primitives and command buffers, the
/// recorder, and the swapchain manager, and runs the frame protocol.
pub struct PresentationEngine {
    pub sync_sets: Vec<SyncSet>,
    pub command_buffers: Vec<u64>,
    pub recorder: FrameRecorder,
    pub swapchain: SwapchainManager,
    pub command_pool: u64,
    pub current_slot: usize,
    pub pending_resize: Option<Extent>,
    pub phase: Phase,
    pub slot_busy: Vec<bool>,
}

impl View for PresentationEngine {
    type V = EngineView;

    open spec fn view(&self) -> EngineView {
        EngineView {
            sync_sets: self.sync_sets@,
            command_buffers: self.command_buffers@,
            recorder: self.recorder,
            swapchain: self.swapchain@,
            command_pool: self.command_pool,
            current_slot: self.current_slot,
            pending_resize: self.pending_resize,
            phase: self.phase,
            slot_busy: self.slot_busy@,
        }
    }
}

impl PresentationEngine {
    /// A fresh engine: slot zero first, nothing pending, idle, and every
    /// slot free — the fences were created in the signaled state.
    pub fn new(
        sync_sets: Vec<SyncSet>,
        command_buffers: Vec<u64>,
        recorder: FrameRecorder,
        swapchain: SwapchainManager,
        command_pool: u64,
    ) -> (e: Self)
        requires
            sync_sets@.len() == MAX_IN_FLIGHT,
            command_buffers@.len() == MAX_IN_FLIGHT,
            swapchain@.inv(),
        ensures
            e@.inv(),
            e@.sync_sets == sync_sets@,
            e@.command_buffers == command_buffers@,
            e@.recorder == recorder,
            e@.swapchain == swapchain@,
            e@.command_pool == command_pool,
            e@.current_slot == 0,
            e@.pending_resize is None,
            e@.phase is Idle,
            forall|i: int| 0 <= i < MAX_IN_FLIGHT ==> !e@.slot_busy[i],
    {
        let mut slot_busy: Vec<bool> = Vec::new();
        let mut i: usize = 0;
        while i < MAX_IN_FLIGHT
            invariant
                i <= MAX_IN_FLIGHT,
                slot_busy@.len() == i,
                forall|j: int| 0 <= j < i ==> !slot_busy@[j],
            decreases MAX_IN_FLIGHT - i,
        {
            slot_busy.push(false);
            i += 1;
        }
        PresentationEngine {
            sync_sets,
            command_buffers,
            recorder,
            swapchain,
            command_pool,
            current_slot: 0,
            pending_resize: None,
            phase: Phase::Idle,
            slot_busy,
        }
    }

    /// Record a resize signal.  It is consumed at the next present boundary;
    /// nothing else changes now.
    pub fn note_resize(&mut self, width: u32, height: u32)
        requires
            old(self)@.inv(),
        ensures
            final(self)@ == (EngineView {
                pending_resize: Some(Extent { width, height }),
                ..old(self)@
            }),
            final(self)@.inv(),
    {
        self.pending_resize = Some(Extent { width, height });
    }

    /// Start a cycle on the current slot.  The shell must block on the
    /// returned fence — the throttle that bounds the frames in flight — and
    /// only then request the next image, handing the returned semaphore to
    /// the backend.  Once the wait returns, the slot's previous submission
    /// has fully completed and the slot is free for reuse.
    pub fn begin_frame(&mut self) -> (s: FrameStart)
        requires
            old(self)@.inv(),
            old(self)@.phase is Idle,
            old(self)@.swapchain.built(),
        ensures
            final(self)@ == old(self)@.begun(),
            final(self)@.inv(),
            s.slot == old(self)@.current_slot,
            s.fence == old(self)@.sync_sets[s.slot as int].in_flight,
            s.image_available == old(self)@.sync_sets[s.slot as int].image_available,
    {
        let slot = self.current_slot;
        self.slot_busy[slot] = false;
        self.phase = Phase::Acquiring;
        let ss = self.sync_sets[slot];
        FrameStart { slot, fence: ss.in_flight, image_available: ss.image_available }
    }

    /// Apply the backend's acquire outcome.  Success hands back the frame's
    /// work; an out-of-date surface abandons the cycle for recreation without
    /// touching slot or pending marker; anything else — including an image
    /// index the chain cannot hold — is fatal.
    pub fn handle_acquire(&mut self, outcome: AcquireOutcome) -> (a: AfterAcquire)
        requires
            old(self)@.inv(),
            old(self)@.phase is Acquiring,
        ensures
            final(self)@.inv(),
            (match outcome {
                AcquireOutcome::Success { image_index } => {
                    if (image_index as int) < old(self)@.swapchain.images.len() {
                        &&& final(self)@ == old(self)@.acquired(image_index)
                        &&& (a matches AfterAcquire::Render(job) ==> {
                            &&& job.slot == old(self)@.current_slot
                            &&& job.image_index == image_index
                            &&& job.fence == old(self)@.sync_sets[job.slot as int].in_flight
                            &&& job.command_buffer == old(self)@.command_buffers[job.slot as int]
                            &&& job.commands@ == frame_script(
                                old(self)@.recorder,
                                old(self)@.swapchain.render_pass,
                                old(self)@.swapchain.framebuffers[image_index as int],
                                old(self)@.swapchain.extent(),
                            )
                        })
                        &&& a is Render
                    } else {
                        &&& final(self)@ == old(self)@
                        &&& a is Fatal
                    }
                },
                AcquireOutcome::OutOfDate => {
                    &&& final(self)@ == old(self)@.acquire_failed()
                    &&& a is Recreate
                },
                AcquireOutcome::DeviceFault => {
                    &&& final(self)@ == old(self)@
                    &&& a is Fatal
                },
            }),
    {
        match outcome {
            AcquireOutcome::Success { image_index } => {
                if (image_index as usize) < self.swapchain.images.len() {
                    let slot = self.current_slot;
                    let plan = self.swapchain.plan();
                    let framebuffer = self.swapchain.framebuffers[image_index as usize];
                    let commands = self.recorder.record(
                        self.swapchain.render_pass,
                        framebuffer,
                        plan.extent,
                    );
                    self.phase = Phase::Recording { image_index };
                    let ss = self.sync_sets[slot];
                    AfterAcquire::Render(
                        FrameJob {
                            slot,
                            image_index,
                            fence: ss.in_flight,
                            command_buffer: self.command_buffers[slot],
                            commands,
                        },
                    )
                } else {
                    AfterAcquire::Fatal
                }
            },
            AcquireOutcome::OutOfDate => {
                self.phase = Phase::Idle;
                AfterAcquire::Recreate
            },
            AcquireOutcome::DeviceFault => AfterAcquire::Fatal,
        }
    }

    /// The shell has recorded the job's commands; hand it the submission.
    /// Submitting arms the slot's fence, so the slot counts as busy until a
    /// later throttle observes that fence signaled.
    pub fn submit(&mut self) -> (s: SubmitRequest)
        requires
            old(self)@.inv(),
            old(self)@.phase matches Phase::Recording { .. },
        ensures
            final(self)@ == old(self)@.submitted(),
            final(self)@.inv(),
            s.command_buffer == old(self)@.command_buffers[old(self)@.current_slot as int],
            s.wait_semaphore == old(self)@.sync_sets[old(self)@.current_slot as int].image_available,
            s.signal_semaphore == old(self)@.sync_sets[old(self)@.current_slot as int].render_done,
            s.fence == old(self)@.sync_sets[old(self)@.current_slot as int].in_flight,
    {
        let slot = self.current_slot;
        self.slot_busy[slot] = true;
        let image_index = match self.phase {
            Phase::Recording { image_index } => image_index,
            _ => unreached(),
        };
        self.phase = Phase::Submitted { image_index };
        let ss = self.sync_sets[slot];
        SubmitRequest {
            command_buffer: self.command_buffers[slot],
            wait_semaphore: ss.image_available,
            signal_semaphore: ss.render_done,
            fence: ss.in_flight,
        }
    }

    /// Request presentation of the submitted image, gated on the slot's
    /// render-done semaphore.
    pub fn present(&mut self) -> (p: PresentRequest)
        requires
            old(self)@.inv(),
            old(self)@.phase matches Phase::Submitted { .. },
        ensures
            final(self)@ == old(self)@.presenting(),
            final(self)@.inv(),
            (old(self)@.phase matches Phase::Submitted { image_index } ==> p.image_index
                == image_index),
            p.chain == old(self)@.swapchain.chain,
            p.wait_semaphore == old(self)@.sync_sets[old(self)@.current_slot as int].render_done,
    {
        let image_index = match self.phase {
            Phase::Submitted { image_index } => image_index,
            _ => unreached(),
        };
        self.phase = Phase::Presenting { image_index };
        PresentRequest {
            chain: self.swapchain.chain,
            image_index,
            wait_semaphore: self.sync_sets[self.current_slot].render_done,
        }
    }

    /// Apply the backend's present outcome and decide how the cycle ends:
    /// see [`EngineView::present_action`].
    pub fn handle_present(&mut self, outcome: PresentOutcome) -> (a: AfterPresent)
        requires
            old(self)@.inv(),
            old(self)@.phase matches Phase::Presenting { .. },
        ensures
            final(self)@ == old(self)@.present_step(outcome),
            final(self)@.inv(),
            a == old(self)@.present_action(outcome),
    {
        match outcome {
            PresentOutcome::DeviceFault => AfterPresent::Fatal,
            _ => {
                let zero = match self.pending_resize {
                    Some(e) => e.width == 0 || e.height == 0,
                    None => false,
                };
                if zero {
                    self.phase = Phase::Idle;
                    AfterPresent::SkipFrame
                } else {
                    let stale = match outcome {
                        PresentOutcome::OutOfDate | PresentOutcome::Suboptimal => true,
                        _ => false,
                    };
                    if stale || self.pending_resize.is_some() {
                        self.phase = Phase::Idle;
                        AfterPresent::Recreate
                    } else {
                        self.phase = Phase::Idle;
                        self.current_slot = (self.current_slot + 1) % MAX_IN_FLIGHT;
                        AfterPresent::Advance
                    }
                }
            },
        }
    }

    /// Tear the swapchain down for recreation or shutdown.  The shell must
    /// first wait for the device to go idle, then perform the returned
    /// releases in order.  Slot, pending marker and busy flags are untouched.
    pub fn destroy_swapchain(&mut self) -> (steps: Vec<ReleaseStep>)
        requires
            old(self)@.inv(),
            old(self)@.phase is Idle,
            old(self)@.swapchain.built(),
        ensures
            final(self)@ == old(self)@.torn_down(),
            final(self)@.inv(),
            steps@ == old(self)@.swapchain.destroy_script(),
    {
        let steps = self.swapchain.destroy();
        proof {
            assert(self@ =~= old(self)@.torn_down());
        }
        steps
    }

    /// Adopt a freshly rebuilt swapchain; this completes a recreation and
    /// consumes the pending resize.  The slot is unchanged: the next cycle
    /// still begins with the throttle wait on the same slot.
    pub fn install_swapchain(
        &mut self,
        plan: SwapchainPlan,
        chain: u64,
        render_pass: u64,
        images: Vec<u64>,
        image_views: Vec<u64>,
        framebuffers: Vec<u64>,
    )
        requires
            old(self)@.inv(),
            old(self)@.phase is Idle,
            !old(self)@.swapchain.built(),
            image_views@.len() == images@.len(),
            framebuffers@.len() == images@.len(),
        ensures
            final(self)@ == old(self)@.with_installed(
                plan,
                chain,
                render_pass,
                images@,
                image_views@,
                framebuffers@,
            ),
            final(self)@.inv(),
    {
        self.swapchain.install(plan, chain, render_pass, images, image_views, framebuffers);
        self.pending_resize = None;
        proof {
            assert(self@ =~= old(self)@.with_installed(
                plan,
                chain,
                render_pass,
                images@,
                image_views@,
                framebuffers@,
            ));
        }
    }

    /// Shut the engine down.  The shell must wait for the device to go idle,
    /// then perform the returned releases in order; the objects the engine
    /// only borrowed (queue, surface, device, instance) are destroyed by
    /// their owner afterwards.
    pub fn shutdown(&mut self) -> (steps: Vec<ReleaseStep>)
        requires
            old(self)@.inv(),
            old(self)@.phase is Idle,
            old(self)@.swapchain.built(),
        ensures
            final(self)@ == old(self)@.torn_down(),
            final(self)@.inv(),
            steps@ == old(self)@.shutdown_script(),
    {
        let mut steps: Vec<ReleaseStep> = Vec::new();
        let mut i: usize = 0;
        while i < self.sync_sets.len()
            invariant
                i <= self.sync_sets@.len(),
                steps@ == sync_release_steps(self.sync_sets@.take(i as int)),
            decreases self.sync_sets@.len() - i,
        {
            let s = self.sync_sets[i];
            steps.push(ReleaseStep::Semaphore(s.render_done));
            steps.push(ReleaseStep::Semaphore(s.image_available));
            steps.push(ReleaseStep::Fence(s.in_flight));
            proof {
                let taken = self.sync_sets@.take(i + 1 as int);
                assert(taken.drop_last() =~= self.sync_sets@.take(i as int));
                assert(taken.last() == self.sync_sets@[i as int]);
                assert(steps@ =~= sync_release_steps(taken));
            }
            i += 1;
        }
        proof {
            assert(self.sync_sets@.take(self.sync_sets@.len() as int) =~= self.sync_sets@);
        }
        let mut swap_steps = self.swapchain.destroy();
        steps.append(&mut swap_steps);
        steps.push(ReleaseStep::Pipeline(self.recorder.pipeline));
        steps.push(ReleaseStep::PipelineLayout(self.recorder.pipeline_layout));
        match self.recorder.payload {
            DrawPayload::Plain { vertices, .. } => {
                steps.push(ReleaseStep::Buffer(vertices.buffer));
                steps.push(ReleaseStep::Memory(vertices.memory));
            },
            DrawPayload::Indexed { vertices, indices, .. } => {
                steps.push(ReleaseStep::Buffer(vertices.buffer));
                steps.push(ReleaseStep::Memory(vertices.memory));
                steps.push(ReleaseStep::Buffer(indices.buffer));
                steps.push(ReleaseStep::Memory(indices.memory));
            },
        }
        steps.push(ReleaseStep::CommandPool(self.command_pool));
        proof {
            assert(steps@ =~= old(self)@.shutdown_script());
            assert(self@ =~= old(self)@.torn_down());
        }
        steps
    }
}

/// Slot mutual exclusion law: whenever the engine records for a slot, or is
/// about to submit on it, the fence armed by that slot's previous submission
/// has been observed signaled — no submission that references the slot's
/// command buffer or semaphores is still outstanding.
pub proof fn lemma_slot_mutual_exclusion(v: EngineView)
    requires
        v.inv(),
        v.phase matches Phase::Recording { .. },
    ensures
        !v.slot_busy[v.current_slot as int],
{
}

/// Slot discipline over a whole cycle: the throttle wait frees the current
/// slot, acquiring keeps working on that same, still-free slot, and the
/// submission is what arms the slot again.
pub proof fn lemma_cycle_slot_discipline(v: EngineView, image_index: u32)
    requires
        v.inv(),
        v.phase is Idle,
        v.swapchain.built(),
        (image_index as int) < v.swapchain.images.len(),
    ensures
        ({
            let throttled = v.begun();
            let recording = throttled.acquired(image_index);
            &&& !throttled.slot_busy[throttled.current_slot as int]
            &&& recording.current_slot == v.current_slot
            &&& !recording.slot_busy[recording.current_slot as int]
            &&& recording.submitted().slot_busy[v.current_slot as int]
        }),
{
}

/// Extent consistency law: immediately after a rebuild, the commands recorded
/// for the next acquired image set viewport and scissor to the extent the
/// rebuild just computed — never a stale cached value.
pub proof fn lemma_extent_consistency(
    v: EngineView,
    plan: SwapchainPlan,
    chain: u64,
    render_pass: u64,
    images: Seq<u64>,
    image_views: Seq<u64>,
    framebuffers: Seq<u64>,
    image_index: u32,
)
    requires
        v.inv(),
        v.phase is Idle,
        !v.swapchain.built(),
        image_views.len() == images.len(),
        framebuffers.len() == images.len(),
        (image_index as int) < images.len(),
    ensures
        ({
            let rebuilt = v.with_installed(plan, chain, render_pass, images, image_views, framebuffers);
            let script = frame_script(
                rebuilt.recorder,
                rebuilt.swapchain.render_pass,
                rebuilt.swapchain.framebuffers[image_index as int],
                rebuilt.swapchain.extent(),
            );
            &&& rebuilt.swapchain.extent() == plan.extent
            &&& script[2] == (Cmd::SetViewport { extent: plan.extent })
            &&& script[3] == (Cmd::SetScissor { extent: plan.extent })
        }),
{
}

/// Zero-size guard law: with a pending resize naming a zero-area surface, the
/// present boundary skips recreation entirely — the swapchain, the pending
/// marker and the slot all survive unchanged, whatever the backend reported
/// short of a fault.
pub proof fn lemma_zero_size_guard(v: EngineView, outcome: PresentOutcome)
    requires
        v.inv(),
        v.phase matches Phase::Presenting { .. },
        v.zero_pending(),
        outcome !is DeviceFault,
    ensures
        v.present_action(outcome) is SkipFrame,
        v.present_step(outcome).swapchain == v.swapchain,
        v.present_step(outcome).pending_resize == v.pending_resize,
        v.present_step(outcome).current_slot == v.current_slot,
{
}

/// Recreation preserves the protocol: a recreate decided at the present
/// boundary leaves the current slot and the armed busy flags unchanged, and
/// the next cycle's throttle therefore still waits on that same slot's fence.
pub proof fn lemma_recreation_preserves_protocol(v: EngineView, outcome: PresentOutcome)
    requires
        v.inv(),
        v.phase matches Phase::Presenting { .. },
        v.present_action(outcome) is Recreate,
    ensures
        ({
            let after = v.present_step(outcome);
            &&& after.current_slot == v.current_slot
            &&& after.phase is Idle
            &&& after.slot_busy == v.slot_busy
            &&& after.begun() == (EngineView {
                phase: Phase::Acquiring,
                slot_busy: v.slot_busy.update(v.current_slot as int, false),
                ..after
            })
        }),
{
}

/// The same protocol preservation holds for a recreate decided at the acquire
/// boundary: the abandoned cycle leaves slot, busy flags and pending marker
/// untouched.
pub proof fn lemma_acquire_recreate_preserves_protocol(v: EngineView)
    requires
        v.inv(),
        v.phase is Acquiring,
    ensures
        v.acquire_failed().current_slot == v.current_slot,
        v.acquire_failed().slot_busy == v.slot_busy,
        v.acquire_failed().pending_resize == v.pending_resize,
        v.acquire_failed().phase is Idle,
{
}

} // verus!
