//! The frame schedule: which synchronisation slot, command buffer, image and
//! semaphores each step of a frame uses, and the commands recorded for it.
//! The host performs each action and reports back what happened.
use vstd::prelude::*;
use crate::surface::Extent;

verus! {

/// Edge of the compute work-group, in pixels.
pub const WORKGROUP_EDGE: u32 = 16;

/// Layout of a swapchain image.
#[derive(Clone, Copy, Debug, PartialEq, Eq, Structural)]
pub enum ImageLayout {
    Undefined,
    General,
    PresentSrc,
}

/// Memory access guarded by a barrier.
#[derive(Clone, Copy, Debug, PartialEq, Eq, Structural)]
pub enum Access {
    NoAccess,
    ShaderWrite,
}

/// Pipeline stage on one side of a barrier.
#[derive(Clone, Copy, Debug, PartialEq, Eq, Structural)]
pub enum PipelineStage {
    TopOfPipe,
    ComputeShader,
    BottomOfPipe,
}

/// A layout transition of swapchain image `image`.
#[derive(Clone, Copy, Debug, PartialEq, Eq, Structural)]
pub struct ImageBarrier {
    pub image: u32,
    pub old_layout: ImageLayout,
    pub new_layout: ImageLayout,
    pub src_access: Access,
    pub dst_access: Access,
    pub src_stage: PipelineStage,
    pub dst_stage: PipelineStage,
}

/// The commands of one frame: transition to a shader-writable layout, bind
/// the descriptor set of the image, dispatch, transition for presentation.
#[derive(Clone, Copy, Debug, PartialEq, Eq, Structural)]
pub struct ComputeCommands {
    pub to_general: ImageBarrier,
    pub descriptor_set: u32,
    pub groups_x: u32,
    pub groups_y: u32,
    pub groups_z: u32,
    pub to_present: ImageBarrier,
}

/// Work-groups covering `n` pixels: `ceil(n / 16)`.
pub open spec fn groups_for(n: u32) -> int {
    (n + 15) / 16
}

/// Commands that render into swapchain image `image` of the given extent.
pub fn compute_commands(extent: Extent, image: u32) -> (r: ComputeCommands)
    ensures
        r.to_general == (ImageBarrier {
            image,
            old_layout: ImageLayout::Undefined,
            new_layout: ImageLayout::General,
            src_access: Access::NoAccess,
            dst_access: Access::ShaderWrite,
            src_stage: PipelineStage::TopOfPipe,
            dst_stage: PipelineStage::ComputeShader,
        }),
        r.to_present == (ImageBarrier {
            image,
            old_layout: ImageLayout::General,
            new_layout: ImageLayout::PresentSrc,
            src_access: Access::ShaderWrite,
            dst_access: Access::NoAccess,
            src_stage: PipelineStage::ComputeShader,
            dst_stage: PipelineStage::BottomOfPipe,
        }),
        r.descriptor_set == image,
        r.groups_x == groups_for(extent.width),
        r.groups_y == groups_for(extent.height),
        r.groups_z == 1,
{
    let gx: u32 = extent.width / WORKGROUP_EDGE + if extent.width % WORKGROUP_EDGE != 0 {
        1u32
    } else {
        0u32
    };
    let gy: u32 = extent.height / WORKGROUP_EDGE + if extent.height % WORKGROUP_EDGE != 0 {
        1u32
    } else {
        0u32
    };
    ComputeCommands {
        to_general: ImageBarrier {
            image,
            old_layout: ImageLayout::Undefined,
            new_layout: ImageLayout::General,
            src_access: Access::NoAccess,
            dst_access: Access::ShaderWrite,
            src_stage: PipelineStage::TopOfPipe,
            dst_stage: PipelineStage::ComputeShader,
        },
        descriptor_set: image,
        groups_x: gx,
        groups_y: gy,
        groups_z: 1,
        to_present: ImageBarrier {
            image,
            old_layout: ImageLayout::General,
            new_layout: ImageLayout::PresentSrc,
            src_access: Access::ShaderWrite,
            dst_access: Access::NoAccess,
            src_stage: PipelineStage::ComputeShader,
            dst_stage: PipelineStage::BottomOfPipe,
        },
    }
}

/// Where the current frame stands.
#[derive(Clone, Copy, Debug, PartialEq, Eq, Structural)]
pub enum FramePhase {
    /// No frame under way.
    Idle,
    /// Waiting on the slot's in-flight fence.
    Waiting,
    /// The fence was seen signaled; acquiring an image.
    Acquiring,
    /// The fence was reset; recording into the slot's command buffer.
    Recording { image: u32, suboptimal: bool },
    /// Submitting the recorded commands.
    Submitting { image: u32, suboptimal: bool },
    /// Presenting the image.
    Presenting { image: u32, suboptimal: bool },
    /// A step failed; nothing more is scheduled.
    Halted,
}

/// What the host reports after performing an action.
#[derive(Clone, Copy, Debug, PartialEq, Eq, Structural)]
pub enum FrameEvent {
    /// The action succeeded (for `Idle`: a frame is wanted).
    Proceed,
    /// An image was acquired; `suboptimal` when the surface no longer
    /// matches exactly.
    Acquired { image: u32, suboptimal: bool },
    /// The image was presented, but the surface no longer matches exactly.
    Suboptimal,
    /// The surface is out of date.
    OutOfDate,
    /// The action failed otherwise.
    Failed,
}

/// What the host is to do next.
#[derive(Clone, Copy, Debug, PartialEq, Eq, Structural)]
pub enum FrameAction {
    /// Block on in-flight fence `slot`.
    WaitFence { slot: usize },
    /// Acquire an image, signaling image-available semaphore `slot`.
    Acquire { slot: usize },
    /// Reset fence `slot` and command buffer `slot`, then record the
    /// commands for `image` into it.
    Record { slot: usize, image: u32 },
    /// Submit command buffer `slot`, waiting on image-available semaphore
    /// `slot` at the compute stage, signaling render-finished semaphore
    /// `image` and fence `slot`.
    Submit { slot: usize, image: u32 },
    /// Present `image`, waiting on render-finished semaphore `image`.
    Present { image: u32 },
    /// The frame is done.
    Done,
    /// Rebuild the swapchain before the next frame.
    Rebuild,
    /// Give up: the frame failed.
    Abort,
}

/// The schedule seen as values: slot count, current slot, frame counter,
/// which fences are known signaled, and the phase.
pub struct FrameState {
    pub slot_count: usize,
    pub current_frame: usize,
    pub frame: usize,
    pub fences: Seq<bool>,
    pub phase: FramePhase,
}

/// The rotating per-frame schedule over `slot_count` synchronisation slots.
pub struct FrameSchedule {
    pub slot_count: usize,
    pub current_frame: usize,
    pub frame: usize,
    /// Per slot: whether its fence is known to be signaled.
    pub fence_signaled: Vec<bool>,
    pub phase: FramePhase,
}

impl View for FrameSchedule {
    type V = FrameState;

    open spec fn view(&self) -> FrameState {
        FrameState {
            slot_count: self.slot_count,
            current_frame: self.current_frame,
            frame: self.frame,
            fences: self.fence_signaled@,
            phase: self.phase,
        }
    }
}

/// A consistent schedule: one fence per slot, the current slot in range, its
/// fence seen signaled while acquiring and reset from recording on, and the
/// image of a frame under way within the slots.
pub open spec fn state_wf(s: FrameState) -> bool {
    &&& s.slot_count > 0
    &&& s.fences.len() == s.slot_count
    &&& s.current_frame < s.slot_count
    &&& s.phase == FramePhase::Acquiring ==> s.fences[s.current_frame as int]
    &&& match s.phase {
        FramePhase::Recording { image, .. } | FramePhase::Submitting { image, .. }
        | FramePhase::Presenting { image, .. } => image < s.slot_count
            && !s.fences[s.current_frame as int],
        _ => true,
    }
}

/// The frame counter after one more frame, wrapping.
pub open spec fn next_frame(frame: usize) -> usize {
    if frame == usize::MAX {
        0
    } else {
        (frame + 1) as usize
    }
}

/// `s` after a frame completed: the next slot, the next frame number.
pub open spec fn advanced(s: FrameState) -> FrameState {
    FrameState {
        current_frame: ((s.current_frame + 1) % (s.slot_count as int)) as usize,
        frame: next_frame(s.frame),
        phase: FramePhase::Idle,
        ..s
    }
}

/// `s` in phase `p`.
pub open spec fn in_phase(s: FrameState, p: FramePhase) -> FrameState {
    FrameState { phase: p, ..s }
}

/// One step of the schedule: the state after event `e`, and the next action.
pub open spec fn next_step(s: FrameState, e: FrameEvent) -> (FrameState, FrameAction) {
    let cur = s.current_frame;
    match (s.phase, e) {
        (FramePhase::Idle, FrameEvent::Proceed) => (
            in_phase(s, FramePhase::Waiting),
            FrameAction::WaitFence { slot: cur },
        ),
        (FramePhase::Waiting, FrameEvent::Proceed) => (
            FrameState {
                phase: FramePhase::Acquiring,
                fences: s.fences.update(cur as int, true),
                ..s
            },
            FrameAction::Acquire { slot: cur },
        ),
        (FramePhase::Acquiring, FrameEvent::Acquired { image, suboptimal }) => if image
            < s.slot_count {
            (
                FrameState {
                    phase: FramePhase::Recording { image, suboptimal },
                    fences: s.fences.update(cur as int, false),
                    ..s
                },
                FrameAction::Record { slot: cur, image },
            )
        } else {
            (in_phase(s, FramePhase::Halted), FrameAction::Abort)
        },
        (FramePhase::Acquiring, FrameEvent::OutOfDate) => (
            in_phase(s, FramePhase::Idle),
            FrameAction::Rebuild,
        ),
        (FramePhase::Recording { image, suboptimal }, FrameEvent::Proceed) => (
            in_phase(s, FramePhase::Submitting { image, suboptimal }),
            FrameAction::Submit { slot: cur, image },
        ),
        (FramePhase::Submitting { image, suboptimal }, FrameEvent::Proceed) => (
            in_phase(s, FramePhase::Presenting { image, suboptimal }),
            FrameAction::Present { image },
        ),
        (FramePhase::Presenting { suboptimal, .. }, FrameEvent::Proceed) => (
            advanced(s),
            if suboptimal {
                FrameAction::Rebuild
            } else {
                FrameAction::Done
            },
        ),
        (FramePhase::Presenting { .. }, FrameEvent::Suboptimal) => (
            advanced(s),
            FrameAction::Rebuild,
        ),
        (FramePhase::Presenting { .. }, FrameEvent::OutOfDate) => (
            advanced(s),
            FrameAction::Rebuild,
        ),
        _ => (in_phase(s, FramePhase::Halted), FrameAction::Abort),
    }
}

impl FrameSchedule {
    pub open spec fn wf(&self) -> bool {
        state_wf(self@)
    }

    /// A schedule over `slot_count` slots, every fence created signaled, so
    /// that the first wait on each slot returns at once. `None` for no slots.
    pub fn new(slot_count: usize) -> (r: Option<FrameSchedule>)
        ensures
            r is Some <==> slot_count > 0,
            r matches Some(s) ==> s.wf() && s.slot_count == slot_count && s.current_frame == 0
                && s.frame == 0 && s.phase == FramePhase::Idle && forall|i: int|
                0 <= i < slot_count ==> s.fence_signaled@[i],
    {
        if slot_count == 0 {
            return None;
        }
        let fence_signaled: Vec<bool> = vec![true; slot_count];
        Some(
            FrameSchedule {
                slot_count,
                current_frame: 0,
                frame: 0,
                fence_signaled,
                phase: FramePhase::Idle,
            },
        )
    }

    /// Advances the schedule on event `e` and returns the next action.
    pub fn step(&mut self, e: FrameEvent) -> (action: FrameAction)
        requires
            old(self).wf(),
        ensures
            final(self).wf(),
            (final(self)@, action) == next_step(old(self)@, e),
    {
        let cur = self.current_frame;
        proof {
            lemma_step_keeps_wf(self@, e);
        }
        match (self.phase, e) {
            (FramePhase::Idle, FrameEvent::Proceed) => {
                self.phase = FramePhase::Waiting;
                FrameAction::WaitFence { slot: cur }
            },
            (FramePhase::Waiting, FrameEvent::Proceed) => {
                self.fence_signaled.set(cur, true);
                self.phase = FramePhase::Acquiring;
                FrameAction::Acquire { slot: cur }
            },
            (FramePhase::Acquiring, FrameEvent::Acquired { image, suboptimal }) => {
                if (image as usize) < self.slot_count && image as usize as u32 == image {
                    self.fence_signaled.set(cur, false);
                    self.phase = FramePhase::Recording { image, suboptimal };
                    FrameAction::Record { slot: cur, image }
                } else {
                    self.phase = FramePhase::Halted;
                    FrameAction::Abort
                }
            },
            (FramePhase::Acquiring, FrameEvent::OutOfDate) => {
                self.phase = FramePhase::Idle;
                FrameAction::Rebuild
            },
            (FramePhase::Recording { image, suboptimal }, FrameEvent::Proceed) => {
                self.phase = FramePhase::Submitting { image, suboptimal };
                FrameAction::Submit { slot: cur, image }
            },
            (FramePhase::Submitting { image, suboptimal }, FrameEvent::Proceed) => {
                self.phase = FramePhase::Presenting { image, suboptimal };
                FrameAction::Present { image }
            },
            (FramePhase::Presenting { suboptimal, .. }, FrameEvent::Proceed) => {
                self.advance();
                if suboptimal {
                    FrameAction::Rebuild
                } else {
                    FrameAction::Done
                }
            },
            (FramePhase::Presenting { .. }, FrameEvent::Suboptimal) => {
                self.advance();
                FrameAction::Rebuild
            },
            (FramePhase::Presenting { .. }, FrameEvent::OutOfDate) => {
                self.advance();
                FrameAction::Rebuild
            },
            _ => {
                self.phase = FramePhase::Halted;
                FrameAction::Abort
            },
        }
    }

    fn advance(&mut self)
        requires
            old(self).slot_count > 0,
            old(self).current_frame < old(self).slot_count,
        ensures
            final(self)@ == advanced(old(self)@),
    {
        self.current_frame = (self.current_frame + 1) % self.slot_count;
        self.frame = if self.frame == usize::MAX {
            0
        } else {
            self.frame + 1
        };
        self.phase = FramePhase::Idle;
    }

    /// After the swapchain was rebuilt with `image_count` images (the device
    /// idle, so every fence signaled): the slots are recreated to match the
    /// image count when it changed, and the schedule starts again at slot 0.
    /// Returns whether the slots were recreated.
    pub fn swapchain_rebuilt(&mut self, image_count: usize) -> (recreated: bool)
        requires
            old(self).wf(),
            image_count > 0,
        ensures
            final(self).wf(),
            recreated == (image_count != old(self).slot_count),
            final(self).slot_count == image_count,
            final(self).current_frame == 0,
            final(self).frame == old(self).frame,
            final(self).phase == FramePhase::Idle,
            forall|i: int| 0 <= i < image_count ==> final(self).fence_signaled@[i],
    {
        let recreated = image_count != self.slot_count;
        self.slot_count = image_count;
        self.fence_signaled = vec![true; image_count];
        self.current_frame = 0;
        self.phase = FramePhase::Idle;
        recreated
    }
}

/// Every step keeps the schedule consistent.
pub proof fn lemma_step_keeps_wf(s: FrameState, e: FrameEvent)
    requires
        state_wf(s),
    ensures
        state_wf(next_step(s, e).0),
        next_step(s, e).0.slot_count == s.slot_count,
{
}

/// Commands are recorded into a slot only right after its fence was seen
/// signaled in the same frame, and a slot is submitted only after its fence
/// was reset.
pub proof fn lemma_slot_reuse_guarded(s: FrameState, e: FrameEvent)
    requires
        state_wf(s),
    ensures
        next_step(s, e).1 matches FrameAction::Record { slot, .. } ==> s.phase
            == FramePhase::Acquiring && slot == s.current_frame && s.fences[slot as int]
            && !next_step(s, e).0.fences[slot as int],
        next_step(s, e).1 matches FrameAction::Submit { slot, .. } ==> (s.phase
            matches FramePhase::Recording { .. }) && slot == s.current_frame
            && !s.fences[slot as int],
{
}

/// Slot used by the frame `n` frames after the schedule started at slot 0.
pub open spec fn slot_after(slot_count: int, n: nat) -> int
    decreases n,
{
    if n == 0 {
        0
    } else {
        (slot_after(slot_count, (n - 1) as nat) + 1) % slot_count
    }
}

/// Frames visit the slots in turn: frame `n` uses slot `n mod slot_count`.
pub proof fn lemma_slots_rotate(slot_count: int, n: nat)
    requires
        slot_count > 0,
    ensures
        slot_after(slot_count, n) == (n as int) % slot_count,
    decreases n,
{
    if n > 0 {
        lemma_slots_rotate(slot_count, (n - 1) as nat);
        let m = (n - 1) as nat;
        vstd::arithmetic::div_mod::lemma_add_mod_noop_right(1, m as int, slot_count);
    } else {
        vstd::arithmetic::div_mod::lemma_small_mod(0, slot_count as nat);
    }
}

/// A completed frame moves the schedule to the next slot in turn.
pub proof fn lemma_completed_frame_advances(s: FrameState, e: FrameEvent)
    requires
        state_wf(s),
        s.phase matches FramePhase::Presenting { .. },
        e == FrameEvent::Proceed || e == FrameEvent::Suboptimal || e == FrameEvent::OutOfDate,
    ensures
        next_step(s, e).0.current_frame == (s.current_frame + 1) % (s.slot_count as int),
        next_step(s, e).0.phase == FramePhase::Idle,
{
}

} // verus!
