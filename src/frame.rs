//! Frame scheduler: rotates through a fixed number of in-flight frame slots,
//! each guarded by a fence value, and plans the commands recorded per frame.
use vstd::prelude::*;
use crate::layout::{root_signature_layout_spec, ComputePipelineState, DeviceFeatures};
use crate::startup::{first_missing_feature, startup_pipeline, StartupError};

verus! {

/// Number of frames that may be in flight on the GPU at once.
pub const FRAMES_IN_FLIGHT: usize = 3;

/// Edge length of the square compute workgroup tile declared by the shader.
pub const WORKGROUP_SIZE: u32 = 8;

/// Number of workgroups needed to cover `extent` texels with tiles of `tile`.
pub open spec fn ceil_div(extent: int, tile: int) -> int {
    (extent + tile - 1) / tile
}

/// Workgroups needed along one axis of an image of `extent` texels.
pub fn workgroup_count(extent: u32) -> (r: u32)
    ensures
        r as int == ceil_div(extent as int, WORKGROUP_SIZE as int),
        r as int * WORKGROUP_SIZE as int >= extent as int,
        (r as int - 1) * (WORKGROUP_SIZE as int) < extent as int,
{
    let whole = extent / WORKGROUP_SIZE;
    if extent % WORKGROUP_SIZE == 0 {
        whole
    } else {
        whole + 1
    }
}

/// Workgroup grid `(⌈W/8⌉, ⌈H/8⌉, 1)` that covers a `width × height` target.
pub fn dispatch_grid(width: u32, height: u32) -> (r: (u32, u32, u32))
    ensures
        r.0 as int == ceil_div(width as int, WORKGROUP_SIZE as int),
        r.1 as int == ceil_div(height as int, WORKGROUP_SIZE as int),
        r.2 == 1,
{
    (workgroup_count(width), workgroup_count(height), 1)
}

/// The state a render target is in, as far as a barrier is concerned.
#[derive(Clone, Copy, Debug, PartialEq, Eq, Structural)]
pub enum ResourceState {
    Common,
    RenderTarget,
}

/// One step of the command list recorded for a frame.
#[derive(Clone, Copy, Debug, PartialEq, Eq, Structural)]
pub enum FrameCommand {
    /// Barrier on back buffer `buffer` from one state to another.
    Transition { buffer: u32, before: ResourceState, after: ResourceState },
    SetViewport { width: u32, height: u32 },
    SetScissor { right: u32, bottom: u32 },
    /// Bind the render target view at `rtv_offset` bytes from the heap start.
    SetRenderTarget { rtv_offset: u64 },
    /// Clear the render target view at `rtv_offset` to opaque black.
    ClearRenderTarget { rtv_offset: u64 },
    SetComputeRootSignature,
    SetPipelineState,
    Dispatch { x: u32, y: u32, z: u32 },
    Close,
}

/// What the host must do for one frame, in order: wait on the fence if
/// asked, reset the slot's command allocator, record `commands`, execute
/// them, present with sync interval 1, then signal the fence with
/// `signal_value`.
pub struct FramePlan {
    pub slot: usize,
    pub wait_for: Option<u64>,
    pub commands: Vec<FrameCommand>,
    pub present_sync_interval: u32,
    pub signal_value: u64,
}

/// Byte offset of the render target view of back buffer `index`.
pub open spec fn rtv_offset_spec(index: int, increment: int) -> int {
    index * increment
}

/// The commands recorded for a frame that writes back buffer `buffer`.
pub open spec fn frame_commands(
    buffer: u32,
    width: u32,
    height: u32,
    rtv_offset: u64,
) -> Seq<FrameCommand> {
    seq![
        FrameCommand::Transition {
            buffer,
            before: ResourceState::Common,
            after: ResourceState::RenderTarget,
        },
        FrameCommand::SetViewport { width, height },
        FrameCommand::SetScissor { right: width, bottom: height },
        FrameCommand::SetRenderTarget { rtv_offset },
        FrameCommand::ClearRenderTarget { rtv_offset },
        FrameCommand::SetComputeRootSignature,
        FrameCommand::SetPipelineState,
        FrameCommand::Dispatch {
            x: ceil_div(width as int, WORKGROUP_SIZE as int) as u32,
            y: ceil_div(height as int, WORKGROUP_SIZE as int) as u32,
            z: 1,
        },
        FrameCommand::Transition {
            buffer,
            before: ResourceState::RenderTarget,
            after: ResourceState::Common,
        },
        FrameCommand::Close,
    ]
}

/// The fence value signaled when slot `slot` was last submitted, after
/// `frames` frames have been submitted in total; 0 if it never was.
/// Frame `f` runs in slot `f % FRAMES_IN_FLIGHT` and signals `f + 1`.
pub open spec fn last_signal(frames: int, slot: int) -> int {
    if frames <= slot {
        0
    } else {
        ((frames - 1 - slot) / (FRAMES_IN_FLIGHT as int)) * (FRAMES_IN_FLIGHT as int) + slot + 1
    }
}

/// How presented buffers are handed to the window.
#[derive(Clone, Copy, Debug, PartialEq, Eq, Structural)]
pub enum SwapEffect {
    /// Buffers are presented as they are, without scaling or conversion.
    Identity,
}

/// How the swapchain is created: one buffer per frame in flight, at the
/// window's size, presented as is, with the window's alt-enter fullscreen
/// toggle switched off.
#[derive(Clone, Copy, Debug, PartialEq, Eq, Structural)]
pub struct SwapchainDesc {
    pub width: u32,
    pub height: u32,
    pub buffer_count: u32,
    pub swap_effect: SwapEffect,
    pub alt_enter_toggles_fullscreen: bool,
}

/// What `execute` does: `after` and the plan `r` follow from `before` for
/// a fence that has completed `completed`, rendering into `back_buffer`.
pub open spec fn planned(
    before: Renderer,
    after: Renderer,
    completed: u64,
    back_buffer: u32,
    r: FramePlan,
) -> bool {
    &&& r.slot as nat == before.slot()
    &&& r.wait_for == (if (completed as int) < before.fence_value(r.slot as int) {
            Some(before.fence_value(r.slot as int) as u64)
        } else {
            None
        })
    &&& r.signal_value as nat == before.frames_submitted() + 1
    &&& r.present_sync_interval == 1
    &&& r.commands@ == frame_commands(
            back_buffer,
            before.extent().0,
            before.extent().1,
            rtv_offset_spec(back_buffer as int, before.rtv_increment() as int) as u64,
        )
    &&& after.frames_submitted() == before.frames_submitted() + 1
    &&& after.slot() == (before.slot() + 1) % (FRAMES_IN_FLIGHT as nat)
    &&& after.fence_value(r.slot as int) == r.signal_value as int
    &&& forall|s: int|
            0 <= s < FRAMES_IN_FLIGHT && s != r.slot ==> after.fence_value(s)
                == before.fence_value(s)
    &&& after.extent() == before.extent()
    &&& after.rtv_increment() == before.rtv_increment()
    &&& forall|s: int|
            0 <= s < FRAMES_IN_FLIGHT ==> after.fence_value(s)
                <= after.frames_submitted()
}

/// Per-frame scheduling state of the direct-API renderer.
pub struct Renderer {
    fence_values: Vec<u64>,
    signaled_value: u64,
    frame_index: usize,
    width: u32,
    height: u32,
    rtv_descriptor_handle_size: u64,
}

impl Renderer {
    /// Each slot holds the value signaled at its last submission, the slot
    /// index follows the number of frames submitted, and one fence value is
    /// signaled per frame.
    pub closed spec fn wf(&self) -> bool {
        &&& self.fence_values@.len() == FRAMES_IN_FLIGHT
        &&& self.frame_index as int == self.signaled_value as int % (FRAMES_IN_FLIGHT as int)
        &&& forall|s: int|
            0 <= s < FRAMES_IN_FLIGHT ==> self.fence_values@[s] as int == last_signal(
                self.signaled_value as int,
                s,
            )
    }

    pub closed spec fn frames_submitted(&self) -> nat {
        self.signaled_value as nat
    }

    pub closed spec fn slot(&self) -> nat {
        self.frame_index as nat
    }

    pub closed spec fn fence_value(&self, slot: int) -> int {
        self.fence_values@[slot] as int
    }

    pub closed spec fn extent(&self) -> (u32, u32) {
        (self.width, self.height)
    }

    pub closed spec fn rtv_increment(&self) -> u64 {
        self.rtv_descriptor_handle_size
    }

    /// Starts the renderer on a device with `features`: runs
    /// `startup_pipeline` and, once it succeeds, sets up the schedule of a
    /// `width × height` swapchain (see `for_swapchain`). A missing feature
    /// or a failed shader compile stops startup, with no renderer.
    pub fn new(
        width: u32,
        height: u32,
        rtv_descriptor_handle_size: u64,
        features: DeviceFeatures,
        version_1_1_supported: bool,
    ) -> (r: Result<(Renderer, ComputePipelineState), StartupError>)
        ensures
            match first_missing_feature(features, version_1_1_supported) {
                Some(f) => (match r {
                    Err(StartupError::MissingFeature(g)) => g == f,
                    _ => false,
                }),
                None => match r {
                    Ok((renderer, pso)) => {
                        &&& renderer.wf()
                        &&& renderer.frames_submitted() == 0
                        &&& renderer.slot() == 0
                        &&& renderer.extent() == (width, height)
                        &&& renderer.rtv_increment() == rtv_descriptor_handle_size
                        &&& forall|s: int|
                            0 <= s < FRAMES_IN_FLIGHT ==> renderer.fence_value(s) == 0
                        &&& pso.root_signature@ == root_signature_layout_spec()
                    },
                    Err(StartupError::ShaderCompile(e)) => !e.is_nul_character(),
                    Err(StartupError::MissingFeature(_)) => false,
                },
            },
    {
        match startup_pipeline(features, version_1_1_supported) {
            Ok(pso) => Ok((Renderer::for_swapchain(width, height, rtv_descriptor_handle_size), pso)),
            Err(e) => Err(e),
        }
    }

    /// Scheduling state for a `width × height` swapchain whose render target
    /// views lie `rtv_descriptor_handle_size` bytes apart.
    pub fn for_swapchain(width: u32, height: u32, rtv_descriptor_handle_size: u64) -> (r: Renderer)
        ensures
            r.wf(),
            r.frames_submitted() == 0,
            r.slot() == 0,
            r.extent() == (width, height),
            r.rtv_increment() == rtv_descriptor_handle_size,
            forall|s: int| 0 <= s < FRAMES_IN_FLIGHT ==> r.fence_value(s) == 0,
            forall|s: int| 0 <= s < FRAMES_IN_FLIGHT ==> r.fence_value(s) <= r.frames_submitted(),
    {
        let fence_values: Vec<u64> = vec![0u64, 0u64, 0u64];
        assert(fence_values@ =~= seq![0u64, 0u64, 0u64]);
        Renderer {
            fence_values,
            signaled_value: 0,
            frame_index: 0,
            width,
            height,
            rtv_descriptor_handle_size,
        }
    }

    /// The swapchain this schedule drives.
    pub fn swapchain_desc(&self) -> (r: SwapchainDesc)
        ensures
            r == (SwapchainDesc {
                width: self.extent().0,
                height: self.extent().1,
                buffer_count: FRAMES_IN_FLIGHT as u32,
                swap_effect: SwapEffect::Identity,
                alt_enter_toggles_fullscreen: false,
            }),
    {
        SwapchainDesc {
            width: self.width,
            height: self.height,
            buffer_count: FRAMES_IN_FLIGHT as u32,
            swap_effect: SwapEffect::Identity,
            alt_enter_toggles_fullscreen: false,
        }
    }

    /// Number of frames submitted so far; also the last value signaled.
    pub fn frame_count(&self) -> (r: u64)
        ensures
            r as nat == self.frames_submitted(),
    {
        self.signaled_value
    }

    /// The value signaled when `slot` was last submitted (0 if never).
    pub fn fence_value_at(&self, slot: usize) -> (r: u64)
        requires
            self.wf(),
            slot < FRAMES_IN_FLIGHT,
        ensures
            r as int == self.fence_value(slot as int),
            r as nat <= self.frames_submitted(),
    {
        proof {
            lemma_last_signal_bounded(self.signaled_value as int, slot as int);
        }
        self.fence_values[slot]
    }

    /// The slot the next frame will be recorded in.
    pub fn frame_index(&self) -> (r: usize)
        ensures
            r as nat == self.slot(),
    {
        self.frame_index
    }

    /// Byte offset from the heap start of the render target view of back
    /// buffer `index`, or `None` where it does not fit in 64 bits.
    pub fn rtv_offset(&self, index: u32) -> (r: Option<u64>)
        ensures
            match r {
                Some(o) => o as int == rtv_offset_spec(index as int, self.rtv_increment() as int),
                None => rtv_offset_spec(index as int, self.rtv_increment() as int) > u64::MAX,
            },
    {
        (index as u64).checked_mul(self.rtv_descriptor_handle_size)
    }

    /// Plans the next frame. `completed` is the fence's completed value and
    /// `back_buffer` the index the swapchain reports for its current buffer.
    /// The plan waits for the value signaled at the slot's last submission
    /// when the GPU has not reached it yet, renders into `back_buffer`, and
    /// signals the next value of a strictly increasing counter.
    pub fn execute(&mut self, completed: u64, back_buffer: u32) -> (r: FramePlan)
        requires
            old(self).wf(),
            old(self).frames_submitted() < u64::MAX,
            rtv_offset_spec(back_buffer as int, old(self).rtv_increment() as int) <= u64::MAX,
        ensures
            final(self).wf(),
            planned(*old(self), *final(self), completed, back_buffer, r),
    {
        let slot = self.frame_index;
        let last = self.fence_values[slot];
        let wait_for = if completed < last {
            Some(last)
        } else {
            None
        };
        let rtv_offset = (back_buffer as u64) * self.rtv_descriptor_handle_size;
        let (gx, gy, gz) = dispatch_grid(self.width, self.height);
        let commands = vec![
            FrameCommand::Transition {
                buffer: back_buffer,
                before: ResourceState::Common,
                after: ResourceState::RenderTarget,
            },
            FrameCommand::SetViewport { width: self.width, height: self.height },
            FrameCommand::SetScissor { right: self.width, bottom: self.height },
            FrameCommand::SetRenderTarget { rtv_offset },
            FrameCommand::ClearRenderTarget { rtv_offset },
            FrameCommand::SetComputeRootSignature,
            FrameCommand::SetPipelineState,
            FrameCommand::Dispatch { x: gx, y: gy, z: gz },
            FrameCommand::Transition {
                buffer: back_buffer,
                before: ResourceState::RenderTarget,
                after: ResourceState::Common,
            },
            FrameCommand::Close,
        ];
        proof {
            lemma_last_signal_step(self.signaled_value as int);
        }
        let signal_value = self.signaled_value + 1;
        self.signaled_value = signal_value;
        self.fence_values.set(slot, signal_value);
        self.frame_index = (slot + 1) % FRAMES_IN_FLIGHT;
        assert forall|s: int| 0 <= s < FRAMES_IN_FLIGHT implies self.fence_values@[s] as int
            == last_signal(self.signaled_value as int, s) by {
            if s != slot {
                assert(old(self).fence_values@[s] as int == last_signal(
                    old(self).signaled_value as int,
                    s,
                ));
            }
        }
        assert(commands@ =~= frame_commands(
            back_buffer,
            self.width,
            self.height,
            rtv_offset,
        ));
        assert forall|s: int| 0 <= s < FRAMES_IN_FLIGHT implies self.fence_values@[s]
            <= self.signaled_value by {
            lemma_last_signal_bounded(self.signaled_value as int, s);
        }
        FramePlan { slot, wait_for, commands, present_sync_interval: 1, signal_value }
    }
}

impl Renderer {
    /// Plans the next frame as `execute` does, or returns `None` and changes
    /// nothing where the fence counter is exhausted or the back buffer's
    /// render target offset does not fit in 64 bits.
    pub fn try_execute(&mut self, completed: u64, back_buffer: u32) -> (r: Option<FramePlan>)
        requires
            old(self).wf(),
        ensures
            final(self).wf(),
            r is None <==> (old(self).frames_submitted() == u64::MAX || rtv_offset_spec(
                back_buffer as int,
                old(self).rtv_increment() as int,
            ) > u64::MAX),
            r is None ==> *final(self) == *old(self),
            match r {
                Some(plan) => planned(*old(self), *final(self), completed, back_buffer, plan),
                None => true,
            },
    {
        if self.signaled_value == u64::MAX {
            return None;
        }
        match self.rtv_offset(back_buffer) {
            None => None,
            Some(_) => Some(self.execute(completed, back_buffer)),
        }
    }
}

/// Submitting frame `k` sets its own slot to `k + 1` and leaves the other
/// slots' last submissions unchanged.
proof fn lemma_last_signal_step(k: int)
    requires
        k >= 0,
    ensures
        last_signal(k + 1, k % (FRAMES_IN_FLIGHT as int)) == k + 1,
        forall|s: int|
            0 <= s < FRAMES_IN_FLIGHT && s != k % (FRAMES_IN_FLIGHT as int) ==> last_signal(k + 1, s)
                == last_signal(k, s),
{
    let n = FRAMES_IN_FLIGHT as int;
    assert(k == n * (k / n) + k % n);
}

/// No slot waits on a value that was never signaled.
proof fn lemma_last_signal_bounded(k: int, s: int)
    requires
        k >= 0,
        0 <= s < FRAMES_IN_FLIGHT,
    ensures
        last_signal(k, s) <= k,
{
    if k > s {
        let q = (k - 1 - s) / 3;
        assert(k - 1 - s == 3 * q + (k - 1 - s) % 3);
    }
}

/// A slot is reused only after a wait for what it last signaled: once
/// `FRAMES_IN_FLIGHT` frames or more have been submitted, the value the next
/// frame waits for (when the fence has not reached it) is the value signaled
/// by the frame `FRAMES_IN_FLIGHT` earlier, which ran in the same slot.
pub proof fn lemma_slot_reuse_waits_for_its_last_submission(r: &Renderer)
    requires
        r.wf(),
        r.frames_submitted() >= FRAMES_IN_FLIGHT,
    ensures
        r.slot() == r.frames_submitted() % (FRAMES_IN_FLIGHT as nat),
        ((r.frames_submitted() - FRAMES_IN_FLIGHT) as int) % (FRAMES_IN_FLIGHT as int)
            == r.slot() as int,
        r.fence_value(r.slot() as int) == (r.frames_submitted() - FRAMES_IN_FLIGHT) + 1,
{
    let k = r.signaled_value as int;
    let q = k / 3;
    let m = k % 3;
    assert(k == 3 * q + m);
    assert(q >= 1);
    assert((k - 1 - m) / 3 == q - 1) by {
        assert(k - 1 - m == 3 * (q - 1) + 2);
    }
    assert((k - 3) % 3 == m) by {
        assert(k - 3 == 3 * (q - 1) + m);
    }
    assert(r.fence_values@[r.frame_index as int] as int == last_signal(k, m));
}

} // verus!
