use vstd::prelude::*;
use crate::allocator::AllocatedMesh;
use crate::register::Register;

verus! {

/// How many frames the CPU may record ahead of the GPU; one fence, one pair
/// of semaphores and one command buffer per frame slot.
pub const FRAMES_IN_FLIGHT: usize = 2;

/// Where a frame is in its cycle.
#[derive(Clone, Copy, Debug, PartialEq, Eq, Structural)]
pub enum FramePhase {
    Idle,
    FenceWait,
    ImageAcquire,
    RecordCommands,
    Submit,
    Present,
    /// A presentation found the swapchain stale: the frame is done, and the
    /// next one starts once the swapchain is rebuilt.
    Recreating,
    Lost,
}

/// What the device reported, or what the host asked for.
#[derive(Clone, Copy, Debug, PartialEq, Eq, Structural)]
pub enum FrameEvent {
    DrawRequested,
    FenceSignaled,
    ImageAcquired(u32),
    SwapchainOutOfDate,
    SwapchainRecreated,
    CommandsRecorded,
    Submitted,
    Presented,
    DeviceLost,
}

/// What the host must do next.
#[derive(Clone, Copy, Debug, PartialEq, Eq, Structural)]
pub enum FrameAction {
    /// Wait for, then reset, the fence of the slot.
    WaitForFence { slot: usize },
    /// Acquire the next swapchain image, signaling the slot's acquire semaphore.
    AcquireImage { slot: usize },
    /// Record the slot's command buffer for the image.
    RecordCommands { slot: usize, image: u32 },
    /// Submit the slot's command buffer, signaling its fence.
    SubmitCommands { slot: usize },
    /// Present the image once the slot's render semaphore signals.
    PresentImage { slot: usize, image: u32 },
    /// Wait for the device to be idle, destroy the swapchain, its views and
    /// depth image, and build them anew.
    RecreateSwapchain,
    /// The frame is done.
    FrameComplete,
    /// Tear everything down in order; the device is lost.
    Teardown,
    /// The event does not apply in this phase; nothing to do.
    Ignore,
}

/// The state of the frame loop.
#[derive(Clone, Copy, Debug, PartialEq, Eq, Structural)]
pub struct FrameState {
    pub phase: FramePhase,
    pub slot: usize,
    pub image: u32,
    pub frame_count: u64,
}

/// The slot that follows `slot`.
pub open spec fn next_slot(slot: usize) -> usize {
    ((slot + 1) % (FRAMES_IN_FLIGHT as int)) as usize
}

/// The count of frames after one more, wrapping to zero.
pub open spec fn next_frame_count(c: u64) -> u64 {
    if c == u64::MAX {
        0
    } else {
        (c + 1) as u64
    }
}

/// The state after `s` takes `e`, and the action the host must perform.
pub open spec fn transition(s: FrameState, e: FrameEvent) -> (FrameState, FrameAction) {
    match (s.phase, e) {
        (FramePhase::Lost, _) => (s, FrameAction::Ignore),
        (_, FrameEvent::DeviceLost) => (FrameState { phase: FramePhase::Lost, ..s }, FrameAction::Teardown),
        (FramePhase::Idle, FrameEvent::DrawRequested) =>
            (FrameState { phase: FramePhase::FenceWait, ..s }, FrameAction::WaitForFence { slot: s.slot }),
        (FramePhase::FenceWait, FrameEvent::FenceSignaled) =>
            (FrameState { phase: FramePhase::ImageAcquire, ..s }, FrameAction::AcquireImage { slot: s.slot }),
        (FramePhase::ImageAcquire, FrameEvent::ImageAcquired(i)) =>
            (FrameState { phase: FramePhase::RecordCommands, image: i, ..s },
             FrameAction::RecordCommands { slot: s.slot, image: i }),
        (FramePhase::ImageAcquire, FrameEvent::SwapchainOutOfDate) => (s, FrameAction::RecreateSwapchain),
        (FramePhase::ImageAcquire, FrameEvent::SwapchainRecreated) => (s, FrameAction::AcquireImage { slot: s.slot }),
        (FramePhase::RecordCommands, FrameEvent::CommandsRecorded) =>
            (FrameState { phase: FramePhase::Submit, ..s }, FrameAction::SubmitCommands { slot: s.slot }),
        (FramePhase::Submit, FrameEvent::Submitted) =>
            (FrameState { phase: FramePhase::Present, ..s },
             FrameAction::PresentImage { slot: s.slot, image: s.image }),
        (FramePhase::Present, FrameEvent::Presented) =>
            (FrameState {
                phase: FramePhase::Idle,
                slot: next_slot(s.slot),
                frame_count: next_frame_count(s.frame_count),
                ..s
            }, FrameAction::FrameComplete),
        (FramePhase::Submit, FrameEvent::SwapchainOutOfDate) =>
            (FrameState { phase: FramePhase::ImageAcquire, ..s }, FrameAction::RecreateSwapchain),
        (FramePhase::Present, FrameEvent::SwapchainOutOfDate) =>
            (FrameState {
                phase: FramePhase::Recreating,
                slot: next_slot(s.slot),
                frame_count: next_frame_count(s.frame_count),
                ..s
            }, FrameAction::RecreateSwapchain),
        (FramePhase::Recreating, FrameEvent::SwapchainRecreated) =>
            (FrameState { phase: FramePhase::FenceWait, ..s }, FrameAction::WaitForFence { slot: s.slot }),
        _ => (s, FrameAction::Ignore),
    }
}

/// Drives the per-frame cycle: fence wait, image acquisition, recording,
/// submission and presentation, one frame slot after another.
pub struct FrameOrchestrator {
    state: FrameState,
}

impl FrameOrchestrator {
    pub closed spec fn view(&self) -> FrameState {
        self.state
    }

    /// The slot is the frame count modulo the number of frame slots.
    pub open spec fn wf(&self) -> bool {
        &&& self@.slot < FRAMES_IN_FLIGHT
        &&& self@.slot as int == self@.frame_count as int % (FRAMES_IN_FLIGHT as int)
    }

    pub fn new() -> (r: Self)
        ensures
            r.wf(),
            r@ == (FrameState { phase: FramePhase::Idle, slot: 0, image: 0, frame_count: 0 }),
    {
        FrameOrchestrator { state: FrameState { phase: FramePhase::Idle, slot: 0, image: 0, frame_count: 0 } }
    }

    pub fn state(&self) -> (r: FrameState)
        ensures
            r == self@,
    {
        self.state
    }

    /// Takes one event and returns the action that follows it.
    pub fn step(&mut self, event: FrameEvent) -> (r: FrameAction)
        requires
            old(self).wf(),
        ensures
            final(self).wf(),
            (final(self)@, r) == transition(old(self)@, event),
    {
        let s = self.state;
        let (next, action) = match (s.phase, event) {
            (FramePhase::Lost, _) => (s, FrameAction::Ignore),
            (_, FrameEvent::DeviceLost) => (FrameState { phase: FramePhase::Lost, ..s }, FrameAction::Teardown),
            (FramePhase::Idle, FrameEvent::DrawRequested) =>
                (FrameState { phase: FramePhase::FenceWait, ..s }, FrameAction::WaitForFence { slot: s.slot }),
            (FramePhase::FenceWait, FrameEvent::FenceSignaled) =>
                (FrameState { phase: FramePhase::ImageAcquire, ..s }, FrameAction::AcquireImage { slot: s.slot }),
            (FramePhase::ImageAcquire, FrameEvent::ImageAcquired(i)) =>
                (FrameState { phase: FramePhase::RecordCommands, image: i, ..s },
                 FrameAction::RecordCommands { slot: s.slot, image: i }),
            (FramePhase::ImageAcquire, FrameEvent::SwapchainOutOfDate) => (s, FrameAction::RecreateSwapchain),
            (FramePhase::ImageAcquire, FrameEvent::SwapchainRecreated) =>
                (s, FrameAction::AcquireImage { slot: s.slot }),
            (FramePhase::RecordCommands, FrameEvent::CommandsRecorded) =>
                (FrameState { phase: FramePhase::Submit, ..s }, FrameAction::SubmitCommands { slot: s.slot }),
            (FramePhase::Submit, FrameEvent::Submitted) =>
                (FrameState { phase: FramePhase::Present, ..s },
                 FrameAction::PresentImage { slot: s.slot, image: s.image }),
            (FramePhase::Present, FrameEvent::Presented) =>
                (FrameState {
                    phase: FramePhase::Idle,
                    slot: (s.slot + 1) % FRAMES_IN_FLIGHT,
                    frame_count: if s.frame_count == u64::MAX { 0 } else { s.frame_count + 1 },
                    ..s
                }, FrameAction::FrameComplete),
            (FramePhase::Submit, FrameEvent::SwapchainOutOfDate) =>
                (FrameState { phase: FramePhase::ImageAcquire, ..s }, FrameAction::RecreateSwapchain),
            (FramePhase::Present, FrameEvent::SwapchainOutOfDate) =>
                (FrameState {
                    phase: FramePhase::Recreating,
                    slot: (s.slot + 1) % FRAMES_IN_FLIGHT,
                    frame_count: if s.frame_count == u64::MAX { 0 } else { s.frame_count + 1 },
                    ..s
                }, FrameAction::RecreateSwapchain),
            (FramePhase::Recreating, FrameEvent::SwapchainRecreated) =>
                (FrameState { phase: FramePhase::FenceWait, ..s }, FrameAction::WaitForFence { slot: s.slot }),
            _ => (s, FrameAction::Ignore),
        };
        self.state = next;
        action
    }
}

/// A swapchain found stale while presenting is rebuilt, and the cycle then
/// goes on with the next frame on the next slot, starting with its fence
/// wait. Found stale while acquiring, it is rebuilt and the image is
/// acquired again on the same slot.
pub proof fn lemma_stale_swapchain_retries(s: FrameState)
    ensures
        s.phase == FramePhase::Present ==> ({
            let (s1, a1) = transition(s, FrameEvent::SwapchainOutOfDate);
            let (s2, a2) = transition(s1, FrameEvent::SwapchainRecreated);
            &&& a1 == FrameAction::RecreateSwapchain
            &&& s2.phase == FramePhase::FenceWait
            &&& s2.slot == next_slot(s.slot)
            &&& s2.frame_count == next_frame_count(s.frame_count)
            &&& a2 == FrameAction::WaitForFence { slot: next_slot(s.slot) }
        }),
        s.phase == FramePhase::ImageAcquire || s.phase == FramePhase::Submit ==> ({
            let (s1, a1) = transition(s, FrameEvent::SwapchainOutOfDate);
            let (s2, a2) = transition(s1, FrameEvent::SwapchainRecreated);
            &&& a1 == FrameAction::RecreateSwapchain
            &&& s2 == (FrameState { phase: FramePhase::ImageAcquire, ..s })
            &&& a2 == FrameAction::AcquireImage { slot: s.slot }
        }),
{
}

/// A frame waiting on its fence moves on only when that fence signals (or
/// the device is lost); every other event leaves it waiting.
pub proof fn lemma_fence_wait_blocks(s: FrameState, e: FrameEvent)
    requires
        s.phase == FramePhase::FenceWait,
        e != FrameEvent::FenceSignaled,
        e != FrameEvent::DeviceLost,
    ensures
        transition(s, e) == (s, FrameAction::Ignore),
{
}

/// Frame `n` (counting from zero) waits on the fence of slot
/// `n % FRAMES_IN_FLIGHT`, the fence that frame `n - FRAMES_IN_FLIGHT`
/// signaled when it was submitted.
pub proof fn lemma_frame_waits_on_its_slot(o: FrameOrchestrator)
    requires
        o.wf(),
        o@.phase == FramePhase::Idle,
    ensures
        transition(o@, FrameEvent::DrawRequested).1
            == (FrameAction::WaitForFence { slot: (o@.frame_count as int % (FRAMES_IN_FLIGHT as int)) as usize }),
{
}

/// The slot of the frame `n` frames after one in slot `first`.
pub open spec fn slot_of_frame(first: usize, n: nat) -> int {
    (first + n) % (FRAMES_IN_FLIGHT as int)
}

/// Frame slots rotate: a frame reuses the slot, and so waits on the fence,
/// of the frame `FRAMES_IN_FLIGHT` frames before it, and of no frame in
/// between.
pub proof fn lemma_fence_reuse(first: usize, n: nat)
    requires
        first < FRAMES_IN_FLIGHT,
    ensures
        slot_of_frame(first, n + FRAMES_IN_FLIGHT as nat) == slot_of_frame(first, n),
        forall|k: nat| 0 < k < FRAMES_IN_FLIGHT ==> slot_of_frame(first, #[trigger] (n + k)) != slot_of_frame(first, n),
{
    assert forall|k: nat| 0 < k < FRAMES_IN_FLIGHT implies slot_of_frame(first, #[trigger] (n + k)) != slot_of_frame(first, n) by {
        assert(k == 1);
    }
}

/// Completing a frame moves to the slot of the next frame.
pub proof fn lemma_next_slot(first: usize, n: nat)
    requires
        first < FRAMES_IN_FLIGHT,
    ensures
        next_slot(slot_of_frame(first, n) as usize) == slot_of_frame(first, n + 1),
{
}

/// One indexed draw: the index buffer to bind and how many indices to draw.
#[derive(Clone, Copy, Debug, PartialEq, Eq, Structural)]
pub struct DrawCall {
    pub index_buffer: u64,
    pub index_count: u32,
}

pub open spec fn draw_call_of(m: AllocatedMesh) -> DrawCall {
    DrawCall { index_buffer: m.index_buffer.buffer, index_count: m.metadata.indices_count }
}

/// The draws of a frame: one indexed draw per registered mesh, in
/// registration order, over the mesh's index buffer and index count.
pub fn draw_calls(register: &Register) -> (r: Vec<DrawCall>)
    ensures
        r@ == register@.map_values(|m: AllocatedMesh| draw_call_of(m)),
{
    let meshes = register.get_meshes();
    let mut out: Vec<DrawCall> = Vec::new();
    let mut k: usize = 0;
    while k < meshes.len()
        invariant
            k <= meshes@.len(),
            meshes@ == register@,
            out@ == meshes@.subrange(0, k as int).map_values(|m: AllocatedMesh| draw_call_of(m)),
        decreases meshes@.len() - k,
    {
        out.push(DrawCall { index_buffer: meshes[k].index_buffer.buffer, index_count: meshes[k].metadata.indices_count });
        k = k + 1;
        assert(out@ =~= meshes@.subrange(0, k as int).map_values(|m: AllocatedMesh| draw_call_of(m)));
    }
    assert(meshes@.subrange(0, k as int) =~= meshes@);
    out
}

/// One step of tearing the engine down.
#[derive(Clone, Copy, Debug, PartialEq, Eq, Structural)]
pub enum TeardownStep {
    WaitDeviceIdle,
    DestroyShaderObjects,
    DestroyPipelines,
    DestroyCommandPool,
    DestroyImageViews,
    DestroyDepthImage,
    DestroySwapchain,
    DestroySyncObjects,
    DestroyAllocator,
    DestroyDevice,
    DestroyDebugMessenger,
    DestroySurface,
    DestroyInstance,
}

/// The order of teardown: nothing is destroyed before the device is idle,
/// and nothing is destroyed after what it was made from.
pub fn teardown_order() -> (r: Vec<TeardownStep>)
    ensures
        r@ == seq![
            TeardownStep::WaitDeviceIdle,
            TeardownStep::DestroyShaderObjects,
            TeardownStep::DestroyPipelines,
            TeardownStep::DestroyCommandPool,
            TeardownStep::DestroyImageViews,
            TeardownStep::DestroyDepthImage,
            TeardownStep::DestroySwapchain,
            TeardownStep::DestroySyncObjects,
            TeardownStep::DestroyAllocator,
            TeardownStep::DestroyDevice,
            TeardownStep::DestroyDebugMessenger,
            TeardownStep::DestroySurface,
            TeardownStep::DestroyInstance,
        ],
{
    let mut r: Vec<TeardownStep> = Vec::new();
    r.push(TeardownStep::WaitDeviceIdle);
    r.push(TeardownStep::DestroyShaderObjects);
    r.push(TeardownStep::DestroyPipelines);
    r.push(TeardownStep::DestroyCommandPool);
    r.push(TeardownStep::DestroyImageViews);
    r.push(TeardownStep::DestroyDepthImage);
    r.push(TeardownStep::DestroySwapchain);
    r.push(TeardownStep::DestroySyncObjects);
    r.push(TeardownStep::DestroyAllocator);
    r.push(TeardownStep::DestroyDevice);
    r.push(TeardownStep::DestroyDebugMessenger);
    r.push(TeardownStep::DestroySurface);
    r.push(TeardownStep::DestroyInstance);
    assert(r@ =~= seq![
        TeardownStep::WaitDeviceIdle,
        TeardownStep::DestroyShaderObjects,
        TeardownStep::DestroyPipelines,
        TeardownStep::DestroyCommandPool,
        TeardownStep::DestroyImageViews,
        TeardownStep::DestroyDepthImage,
        TeardownStep::DestroySwapchain,
        TeardownStep::DestroySyncObjects,
        TeardownStep::DestroyAllocator,
        TeardownStep::DestroyDevice,
        TeardownStep::DestroyDebugMessenger,
        TeardownStep::DestroySurface,
        TeardownStep::DestroyInstance,
    ]);
    r
}

} // verus!
