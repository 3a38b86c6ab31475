//! Teardown ordering and the rebuild round trip.

use gaem::engine::{PresentationEngine, SyncSet};
use gaem::recorder::{DrawPayload, FrameRecorder, GpuBuffer};
use gaem::surface::{
    plan_build, Extent, SurfaceCaps, SurfaceFormat, PRESENT_MODE_FIFO, PRESENT_MODE_MAILBOX,
};
use gaem::swapchain::{ReleaseStep, SwapchainManager};

fn built_manager() -> SwapchainManager {
    let caps = SurfaceCaps {
        min_image_count: 2,
        max_image_count: 0,
        current_extent: Extent { width: 640, height: 480 },
        max_image_extent: Extent { width: 4096, height: 4096 },
    };
    let formats = vec![SurfaceFormat { format: 50, color_space: 0 }];
    let modes = vec![PRESENT_MODE_FIFO, PRESENT_MODE_MAILBOX];
    let plan = plan_build(&caps, &formats, &modes).unwrap();
    let mut m = SwapchainManager::empty();
    m.install(plan, 700, 701, vec![710, 711, 712], vec![720, 721, 722], vec![730, 731, 732]);
    m
}

#[test]
fn destroy_releases_in_dependency_order() {
    let mut m = built_manager();
    let steps = m.destroy();
    assert_eq!(
        steps,
        vec![
            ReleaseStep::Framebuffer(730),
            ReleaseStep::Framebuffer(731),
            ReleaseStep::Framebuffer(732),
            ReleaseStep::ImageView(720),
            ReleaseStep::ImageView(721),
            ReleaseStep::ImageView(722),
            ReleaseStep::Swapchain(700),
            ReleaseStep::RenderPass(701),
        ]
    );
    assert_eq!(m.config, None);
    assert!(m.images.is_empty());
    assert!(m.image_views.is_empty());
    assert!(m.framebuffers.is_empty());
}

#[test]
fn destroy_then_rebuild_reproduces_the_plan() {
    let caps = SurfaceCaps {
        min_image_count: 2,
        max_image_count: 3,
        current_extent: Extent { width: 800, height: 600 },
        max_image_extent: Extent { width: 4096, height: 4096 },
    };
    let formats = vec![
        SurfaceFormat { format: 44, color_space: 9 },
        SurfaceFormat { format: 50, color_space: 0 },
    ];
    let modes = vec![PRESENT_MODE_MAILBOX, PRESENT_MODE_FIFO];
    let first = plan_build(&caps, &formats, &modes).unwrap();
    let mut m = SwapchainManager::empty();
    m.install(first, 700, 701, vec![710, 711, 712], vec![720, 721, 722], vec![730, 731, 732]);
    let before = m.config;

    m.destroy();
    // The backend reports identical capabilities; the recomputed plan is
    // identical, whatever handles the rebuild returns.
    let second = plan_build(&caps, &formats, &modes).unwrap();
    assert_eq!(Some(second), before);
    m.install(second, 900, 901, vec![910, 911, 912], vec![920, 921, 922], vec![930, 931, 932]);
    assert_eq!(m.config, before);
    assert_eq!(m.images.len(), m.image_views.len());
    assert_eq!(m.images.len(), m.framebuffers.len());
}

#[test]
fn shutdown_releases_everything_in_dependency_order() {
    let sync_sets = vec![
        SyncSet { image_available: 101, render_done: 102, in_flight: 103 },
        SyncSet { image_available: 201, render_done: 202, in_flight: 203 },
    ];
    let recorder = FrameRecorder {
        pipeline: 400,
        pipeline_layout: 401,
        payload: DrawPayload::Indexed {
            vertices: GpuBuffer { buffer: 500, memory: 501 },
            indices: GpuBuffer { buffer: 502, memory: 503 },
            index_count: 6,
        },
    };
    let mut e = PresentationEngine::new(sync_sets, vec![301, 302], recorder, built_manager(), 800);
    let steps = e.shutdown();
    assert_eq!(
        steps,
        vec![
            // Per-slot synchronization primitives first.
            ReleaseStep::Semaphore(102),
            ReleaseStep::Semaphore(101),
            ReleaseStep::Fence(103),
            ReleaseStep::Semaphore(202),
            ReleaseStep::Semaphore(201),
            ReleaseStep::Fence(203),
            // Then the swapchain teardown.
            ReleaseStep::Framebuffer(730),
            ReleaseStep::Framebuffer(731),
            ReleaseStep::Framebuffer(732),
            ReleaseStep::ImageView(720),
            ReleaseStep::ImageView(721),
            ReleaseStep::ImageView(722),
            ReleaseStep::Swapchain(700),
            ReleaseStep::RenderPass(701),
            // Then the fixed objects, each buffer before its memory.
            ReleaseStep::Pipeline(400),
            ReleaseStep::PipelineLayout(401),
            ReleaseStep::Buffer(500),
            ReleaseStep::Memory(501),
            ReleaseStep::Buffer(502),
            ReleaseStep::Memory(503),
            ReleaseStep::CommandPool(800),
        ]
    );
}

#[test]
fn shutdown_with_plain_payload_releases_one_buffer() {
    let sync_sets = vec![
        SyncSet { image_available: 101, render_done: 102, in_flight: 103 },
        SyncSet { image_available: 201, render_done: 202, in_flight: 203 },
    ];
    let recorder = FrameRecorder {
        pipeline: 400,
        pipeline_layout: 401,
        payload: DrawPayload::Plain {
            vertices: GpuBuffer { buffer: 500, memory: 501 },
            vertex_count: 3,
        },
    };
    let mut e = PresentationEngine::new(sync_sets, vec![301, 302], recorder, built_manager(), 800);
    let steps = e.shutdown();
    let tail: Vec<ReleaseStep> = steps[steps.len() - 5..].to_vec();
    assert_eq!(
        tail,
        vec![
            ReleaseStep::Pipeline(400),
            ReleaseStep::PipelineLayout(401),
            ReleaseStep::Buffer(500),
            ReleaseStep::Memory(501),
            ReleaseStep::CommandPool(800),
        ]
    );
}
