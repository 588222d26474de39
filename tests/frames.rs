use no_engine::rendering_info::{closing_barrier, opening_barriers, ImageAspect, ImageLayout, LoadOp, RenderingInfo, StoreOp};
use no_engine::vertex_states::ShaderLayout;
use no_engine::allocator::AllocatedImage;
use no_engine::frame::{teardown_order, FrameAction, FrameEvent, FrameOrchestrator, FramePhase, TeardownStep, FRAMES_IN_FLIGHT};
use no_engine::fps_counter::FPSCounter;
use no_engine::id::Id;
use no_engine::pipeline::{Extent2D, DEPTH_FORMAT_D32_SFLOAT};
use no_engine::swapchain::{depth_image_request, swapchain_image_count, Depth, ImageUsage, SwapchainState};
use no_engine::vertex_states::{VertexInputRate, VertexStates, FORMAT_R32G32B32_SFLOAT};

fn run_frame(f: &mut FrameOrchestrator, image: u32) -> usize {
    let slot = match f.step(FrameEvent::DrawRequested) {
        FrameAction::WaitForFence { slot } => slot,
        other => panic!("unexpected {:?}", other),
    };
    assert_eq!(f.step(FrameEvent::FenceSignaled), FrameAction::AcquireImage { slot });
    assert_eq!(f.step(FrameEvent::ImageAcquired(image)), FrameAction::RecordCommands { slot, image });
    assert_eq!(f.step(FrameEvent::CommandsRecorded), FrameAction::SubmitCommands { slot });
    assert_eq!(f.step(FrameEvent::Submitted), FrameAction::PresentImage { slot, image });
    assert_eq!(f.step(FrameEvent::Presented), FrameAction::FrameComplete);
    slot
}

#[test]
fn third_frame_waits_on_first_frames_fence() {
    assert_eq!(FRAMES_IN_FLIGHT, 2);
    let mut f = FrameOrchestrator::new();
    let s1 = run_frame(&mut f, 0);
    let s2 = run_frame(&mut f, 1);
    let s3 = run_frame(&mut f, 0);
    assert_eq!((s1, s2, s3), (0, 1, 0));
    assert_eq!(f.state().frame_count, 3);
    assert_eq!(f.state().phase, FramePhase::Idle);
}

#[test]
fn stale_swapchain_is_recreated_before_retry() {
    let mut f = FrameOrchestrator::new();
    f.step(FrameEvent::DrawRequested);
    f.step(FrameEvent::FenceSignaled);
    assert_eq!(f.step(FrameEvent::SwapchainOutOfDate), FrameAction::RecreateSwapchain);
    assert_eq!(f.step(FrameEvent::SwapchainRecreated), FrameAction::AcquireImage { slot: 0 });
    f.step(FrameEvent::ImageAcquired(2));
    f.step(FrameEvent::CommandsRecorded);
    f.step(FrameEvent::Submitted);
    assert_eq!(f.step(FrameEvent::SwapchainOutOfDate), FrameAction::RecreateSwapchain);
    assert_eq!(f.state().slot, 1);
    assert_eq!(f.state().phase, FramePhase::Recreating);
    assert_eq!(f.step(FrameEvent::DrawRequested), FrameAction::Ignore);
    assert_eq!(f.step(FrameEvent::SwapchainRecreated), FrameAction::WaitForFence { slot: 1 });
    assert_eq!(f.step(FrameEvent::FenceSignaled), FrameAction::AcquireImage { slot: 1 });
    assert_eq!(f.step(FrameEvent::ImageAcquired(0)), FrameAction::RecordCommands { slot: 1, image: 0 });
    assert_eq!(f.step(FrameEvent::CommandsRecorded), FrameAction::SubmitCommands { slot: 1 });
    assert_eq!(f.step(FrameEvent::SwapchainOutOfDate), FrameAction::RecreateSwapchain);
    assert_eq!(f.state().phase, FramePhase::ImageAcquire);
    assert_eq!(f.step(FrameEvent::SwapchainRecreated), FrameAction::AcquireImage { slot: 1 });
    assert_eq!(f.state().frame_count, 1);
}

#[test]
fn fence_wait_ignores_other_events() {
    let mut f = FrameOrchestrator::new();
    run_frame(&mut f, 0);
    run_frame(&mut f, 1);
    assert_eq!(f.step(FrameEvent::DrawRequested), FrameAction::WaitForFence { slot: 0 });
    assert_eq!(f.step(FrameEvent::ImageAcquired(0)), FrameAction::Ignore);
    assert_eq!(f.step(FrameEvent::Presented), FrameAction::Ignore);
    assert_eq!(f.step(FrameEvent::SwapchainRecreated), FrameAction::Ignore);
    assert_eq!(f.state().phase, FramePhase::FenceWait);
    assert_eq!(f.step(FrameEvent::FenceSignaled), FrameAction::AcquireImage { slot: 0 });
}

#[test]
fn device_loss_tears_down() {
    let mut f = FrameOrchestrator::new();
    assert_eq!(f.step(FrameEvent::FenceSignaled), FrameAction::Ignore);
    f.step(FrameEvent::DrawRequested);
    assert_eq!(f.step(FrameEvent::DeviceLost), FrameAction::Teardown);
    assert_eq!(f.step(FrameEvent::DrawRequested), FrameAction::Ignore);
    assert_eq!(f.state().phase, FramePhase::Lost);
    let order = teardown_order();
    assert_eq!(order.first(), Some(&TeardownStep::WaitDeviceIdle));
    assert_eq!(order.last(), Some(&TeardownStep::DestroyInstance));
    assert_eq!(order.len(), 13);
}

#[test]
fn fps_rounds_mean_frame_time() {
    let mut c = FPSCounter::new(1_000);
    c.frame(1_000 + 16_000_000);
    assert_eq!(c.fps(), 63);
    c.frame(1_000 + 36_000_000);
    assert_eq!(c.fps(), 56);
    c.frame(1_000 + 36_000_000);
    assert_eq!(c.frame_times.len(), 3);
    assert_eq!(c.fps(), 83);
}

#[test]
fn fps_window_keeps_last_hundred_frames() {
    let mut c = FPSCounter::new(0);
    let mut now = 0u64;
    for _ in 0..100 {
        now += 1_000_000_000;
        c.frame(now);
    }
    assert_eq!(c.fps(), 1);
    for _ in 0..100 {
        now += 10_000_000;
        c.frame(now);
    }
    assert_eq!(c.frame_times.len(), FPSCounter::MAX_FRAME_TIMES);
    assert_eq!(c.fps(), 100);
    c.frame(now);
    assert_eq!(c.fps(), 101);
}

#[test]
fn mesh_vertex_layout() {
    let d = VertexStates::get_mesh_vertex_description();
    assert_eq!(d.binding_descriptions.len(), 1);
    assert_eq!(d.binding_descriptions[0].stride, 36);
    assert_eq!(d.binding_descriptions[0].input_rate, VertexInputRate::Vertex);
    let offsets: Vec<u32> = d.attribute_descriptions.iter().map(|a| a.offset).collect();
    let locations: Vec<u32> = d.attribute_descriptions.iter().map(|a| a.location).collect();
    assert_eq!(offsets, vec![0, 12, 24]);
    assert_eq!(locations, vec![0, 1, 2]);
    assert!(d.attribute_descriptions.iter().all(|a| a.format == FORMAT_R32G32B32_SFLOAT));
}

#[test]
fn swapchain_depth_and_images() {
    assert_eq!(swapchain_image_count(), 2);
    let r = depth_image_request(Extent2D { width: 640, height: 480 });
    assert_eq!(r.format, DEPTH_FORMAT_D32_SFLOAT);
    assert_eq!((r.extent.width, r.extent.height, r.extent.depth), (640, 480, 1));
    assert_eq!(r.usage, ImageUsage::DepthStencilAttachment);
    assert!(r.device_local);
    let depth = Depth::new(9, AllocatedImage::new(Id(1), DEPTH_FORMAT_D32_SFLOAT, 8, 7));
    assert!(SwapchainState::new(vec![1, 2], vec![3], depth, Extent2D { width: 1, height: 1 }).is_none());
    let s = SwapchainState::new(vec![1, 2], vec![3, 4], depth, Extent2D { width: 1, height: 1 }).unwrap();
    assert_eq!(s.image_at(1), Some((2, 4)));
    assert_eq!(s.image_at(2), None);
    assert_eq!(s.views(), &[3, 4]);
}

#[test]
fn frame_barriers_and_attachments() {
    let open = opening_barriers(5, 6, 0);
    assert_eq!(open.len(), 2);
    assert_eq!((open[0].image, open[0].old_layout, open[0].new_layout), (5, ImageLayout::Undefined, ImageLayout::ColorAttachmentOptimal));
    assert_eq!((open[1].image, open[1].aspect, open[1].new_layout), (6, ImageAspect::Depth, ImageLayout::DepthAttachmentOptimal));
    let close = closing_barrier(5, 0);
    assert_eq!((close.old_layout, close.new_layout), (ImageLayout::ColorAttachmentOptimal, ImageLayout::PresentSrc));
    let info = RenderingInfo::new(1, 2, Extent2D { width: 3, height: 4 });
    assert_eq!((info.color_attachment.load_op, info.color_attachment.store_op), (LoadOp::Clear, StoreOp::Store));
    assert_eq!(info.depth_attachment.image_view, 2);
    assert_eq!(info.layer_count, 1);
    assert!(ShaderLayout::new().bindings.is_empty());
}
