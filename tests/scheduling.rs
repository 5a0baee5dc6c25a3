use modern_renderer::frame::{
    dispatch_grid, workgroup_count, FrameCommand, Renderer, ResourceState, SwapEffect,
    SwapchainDesc, FRAMES_IN_FLIGHT,
};
use modern_renderer::layout::{DeviceFeature, DeviceFeatures};
use modern_renderer::startup::StartupError;

#[test]
fn first_frames_do_not_wait() {
    let mut r = Renderer::for_swapchain(640, 480, 32);
    for f in 0..FRAMES_IN_FLIGHT as u64 {
        // The GPU has completed nothing yet, but no slot has been used.
        let plan = r.execute(0, 0);
        assert_eq!(plan.wait_for, None);
        assert_eq!(plan.slot as u64, f);
        assert_eq!(plan.signal_value, f + 1);
    }
}

#[test]
fn reused_slot_waits_for_its_last_signal() {
    let mut r = Renderer::for_swapchain(640, 480, 32);
    for _ in 0..FRAMES_IN_FLIGHT {
        r.execute(0, 0);
    }
    // Frame 3 reuses slot 0, last signaled with value 1 by frame 0.
    let plan = r.execute(0, 1);
    assert_eq!(plan.slot, 0);
    assert_eq!(plan.wait_for, Some(1));
    assert_eq!(plan.signal_value, 4);
    // Frame 4 reuses slot 1 (value 2); the GPU has already reached 2.
    let plan = r.execute(2, 2);
    assert_eq!(plan.slot, 1);
    assert_eq!(plan.wait_for, None);
}

#[test]
fn fourth_frame_blocks_when_gpu_lags() {
    let mut r = Renderer::for_swapchain(640, 480, 32);
    // A GPU that completes work only when the CPU waits for it.
    let mut completed = 0u64;
    let mut waits = Vec::new();
    for _ in 0..12u64 {
        let plan = r.execute(completed, 0);
        if let Some(v) = plan.wait_for {
            assert!(v > completed);
            completed = v;
        }
        waits.push(plan.wait_for);
        // Never more than three submissions in flight.
        assert!(plan.signal_value - completed <= FRAMES_IN_FLIGHT as u64);
    }
    assert_eq!(waits[0], None);
    assert_eq!(waits[1], None);
    assert_eq!(waits[2], None);
    assert_eq!(waits[3], Some(1));
    assert_eq!(waits[4], Some(2));
    assert_eq!(waits[11], Some(9));
}

#[test]
fn signaled_values_strictly_increase_and_slots_rotate() {
    let mut r = Renderer::for_swapchain(8, 8, 1);
    let mut last = 0u64;
    for f in 0..10u64 {
        let plan = r.execute(u64::MAX, 0);
        assert!(plan.signal_value > last);
        last = plan.signal_value;
        assert_eq!(plan.slot as u64, f % 3);
        assert_eq!(plan.present_sync_interval, 1);
    }
    assert_eq!(r.frame_count(), 10);
    assert_eq!(r.frame_index(), 1);
}

#[test]
fn frame_commands_use_back_buffer_and_balance_transitions() {
    let mut r = Renderer::for_swapchain(1920, 1080, 32);
    let plan = r.execute(0, 2);
    let c = &plan.commands;
    assert_eq!(c.len(), 10);
    assert_eq!(
        c[0],
        FrameCommand::Transition {
            buffer: 2,
            before: ResourceState::Common,
            after: ResourceState::RenderTarget
        }
    );
    assert_eq!(c[1], FrameCommand::SetViewport { width: 1920, height: 1080 });
    assert_eq!(c[2], FrameCommand::SetScissor { right: 1920, bottom: 1080 });
    assert_eq!(c[3], FrameCommand::SetRenderTarget { rtv_offset: 64 });
    assert_eq!(c[4], FrameCommand::ClearRenderTarget { rtv_offset: 64 });
    assert_eq!(c[5], FrameCommand::SetComputeRootSignature);
    assert_eq!(c[6], FrameCommand::SetPipelineState);
    assert_eq!(c[7], FrameCommand::Dispatch { x: 240, y: 135, z: 1 });
    assert_eq!(
        c[8],
        FrameCommand::Transition {
            buffer: 2,
            before: ResourceState::RenderTarget,
            after: ResourceState::Common
        }
    );
    assert_eq!(c[9], FrameCommand::Close);
    // The slot is the frame index, not the back buffer.
    assert_eq!(plan.slot, 0);
}

#[test]
fn rtv_offset_is_index_times_increment() {
    let r = Renderer::for_swapchain(640, 480, 48);
    assert_eq!(r.rtv_offset(0), Some(0));
    assert_eq!(r.rtv_offset(2), Some(96));
    let big = Renderer::for_swapchain(640, 480, u64::MAX);
    assert_eq!(big.rtv_offset(2), None);
}

#[test]
fn workgroup_grid_covers_full_hd() {
    assert_eq!(dispatch_grid(1920, 1080), (240, 135, 1));
}

#[test]
fn workgroup_count_rounds_up() {
    assert_eq!(workgroup_count(0), 0);
    assert_eq!(workgroup_count(1), 1);
    assert_eq!(workgroup_count(8), 1);
    assert_eq!(workgroup_count(9), 2);
    assert_eq!(workgroup_count(640), 80);
    assert_eq!(workgroup_count(u32::MAX), 536870912);
    assert_eq!(dispatch_grid(17, 3), (3, 1, 1));
}

#[test]
fn new_renderer_starts_at_slot_zero() {
    let r = Renderer::for_swapchain(1920, 1080, 32);
    assert_eq!(r.frame_count(), 0);
    assert_eq!(r.frame_index(), 0);
    assert_eq!(
        r.swapchain_desc(),
        SwapchainDesc {
            width: 1920,
            height: 1080,
            buffer_count: 3,
            swap_effect: SwapEffect::Identity,
            alt_enter_toggles_fullscreen: false,
        }
    );
}

#[test]
fn try_execute_refuses_unrepresentable_offsets() {
    let mut r = Renderer::for_swapchain(640, 480, u64::MAX);
    assert!(r.try_execute(0, 2).is_none());
    assert_eq!(r.frame_count(), 0);
    let plan = r.try_execute(0, 0).unwrap();
    assert_eq!(plan.signal_value, 1);
    assert_eq!(r.frame_count(), 1);
}

#[test]
fn slot_values_never_exceed_last_signal() {
    let mut r = Renderer::for_swapchain(64, 64, 8);
    for f in 1..=7u64 {
        r.execute(f, 0);
        for s in 0..FRAMES_IN_FLIGHT {
            assert!(r.fence_value_at(s) <= r.frame_count());
        }
    }
    // After 7 frames: slot 0 last ran frame 6, slot 1 frame 4, slot 2 frame 5.
    assert_eq!(r.fence_value_at(0), 7);
    assert_eq!(r.fence_value_at(1), 5);
    assert_eq!(r.fence_value_at(2), 6);
}

#[test]
fn renderer_startup_refuses_missing_features() {
    let all = DeviceFeatures { non_uniform_indexing: true, push_constants: true };
    let no_index = DeviceFeatures { non_uniform_indexing: false, push_constants: true };
    let no_push = DeviceFeatures { non_uniform_indexing: true, push_constants: false };
    match Renderer::new(1920, 1080, 32, no_index, true) {
        Err(StartupError::MissingFeature(f)) => {
            assert_eq!(f, DeviceFeature::NonUniformIndexing);
            assert!(f.name().contains("NON_UNIFORM_INDEXING"));
        }
        _ => panic!("a missing feature must stop startup"),
    }
    assert!(matches!(
        Renderer::new(1920, 1080, 32, no_push, true),
        Err(StartupError::MissingFeature(DeviceFeature::PushConstants))
    ));
    assert!(matches!(
        Renderer::new(1920, 1080, 32, all, false),
        Err(StartupError::MissingFeature(DeviceFeature::RootSignature11))
    ));
    match Renderer::new(1920, 1080, 32, all, true) {
        Ok((r, pso)) => {
            assert_eq!(r.frame_count(), 0);
            assert_eq!(pso.root_signature.slots.len(), 1);
        }
        Err(StartupError::ShaderCompile(_)) => {}
        Err(StartupError::MissingFeature(_)) => panic!("every feature is present"),
    }
}
