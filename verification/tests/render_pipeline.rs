//! Render pipeline behavior: images, the renderer registry, dispatch, task
//! execution, decode-session serialization, and result application.

use lunaris_core::orchestrator::Orchestrator;
use lunaris_core::plugin::Plugin;
use lunaris_core::render::{
    apply_render_result, dispatch_render_requests, run_render_task, AvailableRenderers,
    PixelFormat, PropertyValue, RawImage, RenderJob, RenderKind, RenderRequest, RenderWork,
    Renderer, RendererSlot,
};
use lunaris_core::triangle::TriangleRenderer;
use lunaris_core::video::{Decoder, DecoderCache, VideoPlugin};
use lunaris_core::world::WorldState;
use lunaris_core::{PoolFamily, Priority};

#[test]
fn image_buffers_must_match_their_dimensions() {
    let ok = RawImage::from_bytes(PixelFormat::Rgba8Unorm, 2, 2, vec![0u8; 16]);
    assert!(ok.is_ok());
    let img = ok.unwrap();
    assert_eq!(img.width(), 2);
    assert_eq!(img.height(), 2);
    assert_eq!(img.as_bytes().len(), 16);
    let bad = RawImage::from_bytes(PixelFormat::Rgba8Unorm, 2, 2, vec![0u8; 15]);
    assert!(matches!(bad, Err(e) if e.is_validation()));
    let bad_rgba = RawImage::from_rgba8(3, 1, vec![0u8; 11]);
    assert!(bad_rgba.is_err());
}

#[test]
fn the_mock_decoder_paints_the_timestamp_color() {
    let mut dec = Decoder::new(&String::from("clip.mp4")).unwrap();
    let img = dec.decode_frame(100).unwrap();
    assert_eq!(img.width(), 1920);
    assert_eq!(img.height(), 1080);
    let bytes = img.as_bytes();
    assert_eq!(bytes.len(), 1920 * 1080 * 4);
    // 100 % 255, (100 / 2) % 255, (100 / 3) % 255, opaque alpha
    assert_eq!(&bytes[0..4], &[100, 50, 33, 255]);
    assert_eq!(&bytes[4..8], &[100, 50, 33, 255]);
    assert_eq!(&bytes[bytes.len() - 4..], &[100, 50, 33, 255]);
}

#[test]
fn video_jobs_without_a_path_fail_validation() {
    let mut video = VideoPlugin::new();
    let job = RenderJob { target: 1, frame: 0, params: vec![], renderer_override: None };
    let r = video.schedule_render(job);
    assert!(matches!(r, Err(e) if e.is_validation()));
}

#[test]
fn video_jobs_with_a_mistyped_path_fail_validation() {
    let mut video = VideoPlugin::new();
    let job = RenderJob {
        target: 1,
        frame: 0,
        params: vec![(String::from("path"), PropertyValue::Number(3))],
        renderer_override: None,
    };
    let r = video.schedule_render(job);
    assert!(matches!(r, Err(e) if e.is_validation()));
}

#[test]
fn video_jobs_map_frames_to_timestamps() {
    let mut video = VideoPlugin::new();
    let job = RenderJob {
        target: 9,
        frame: 6,
        params: vec![(String::from("path"), PropertyValue::Text(String::from("a.mp4")))],
        renderer_override: None,
    };
    let task = video.schedule_render(job).unwrap();
    assert_eq!(task.target, 9);
    assert_eq!(task.kind, RenderKind::Video);
    match task.work {
        RenderWork::Decode { source, timestamp_ms } => {
            assert_eq!(source, "a.mp4");
            // frame 6 at 60 frames per second is 100 ms
            assert_eq!(timestamp_ms, 100);
        }
        RenderWork::Fill { .. } => panic!("a video job must decode"),
    }
}

#[test]
fn the_first_registered_renderer_becomes_active() {
    // Register exactly one renderer named "X": it becomes the active
    // renderer.
    let mut reg = AvailableRenderers::new();
    reg.register(
        String::from("X"),
        RendererSlot::Triangle(<TriangleRenderer as Plugin>::new()),
    );
    assert_eq!(reg.active_name().unwrap().as_str(), "X");
    assert_eq!(reg.len(), 1);
}

#[test]
fn unknown_override_names_are_validation_errors() {
    let mut reg = AvailableRenderers::new();
    reg.register(
        String::from("X"),
        RendererSlot::Triangle(<TriangleRenderer as Plugin>::new()),
    );
    let unknown = reg.resolve(&Some(String::from("Y")));
    assert!(matches!(unknown, Err(e) if e.is_validation()));
    let known = reg.resolve(&Some(String::from("X")));
    assert!(known.is_ok());
    let active = reg.resolve(&None);
    assert!(active.is_ok());
}

#[test]
fn an_empty_registry_resolves_nothing() {
    let reg = AvailableRenderers::new();
    let r = reg.resolve(&None);
    assert!(matches!(r, Err(e) if e.is_validation()));
}

#[test]
fn dispatch_consumes_requests_and_submits_frame_work() {
    let mut world = WorldState::new();
    let e = world.spawn();
    world.insert_request(e, RenderRequest { frame: 10, renderer_name: None });
    let mut reg = AvailableRenderers::new();
    reg.register(
        String::from("X"),
        RendererSlot::Triangle(<TriangleRenderer as Plugin>::new()),
    );
    let mut orch = Orchestrator::new(1, 1, 1);
    let tasks = dispatch_render_requests(&mut world, &mut reg, &mut orch);
    assert_eq!(tasks.len(), 1);
    assert_eq!(tasks[0].task.target, e);
    // the request is consumed, so it cannot be dispatched twice
    assert!(world.request_of(e).is_none());
    let again = dispatch_render_requests(&mut world, &mut reg, &mut orch);
    assert_eq!(again.len(), 0);
    // the task was submitted at Frame priority on the frame pool
    assert_eq!(orch.profile().frame, 1);
    assert_eq!(orch.take_next(PoolFamily::FramePool), Some(tasks[0].handle));
}

#[test]
fn requests_with_unknown_overrides_are_dropped_without_retry() {
    let mut world = WorldState::new();
    let e = world.spawn();
    world.insert_request(
        e,
        RenderRequest { frame: 1, renderer_name: Some(String::from("nope")) },
    );
    let mut reg = AvailableRenderers::new();
    reg.register(
        String::from("X"),
        RendererSlot::Triangle(<TriangleRenderer as Plugin>::new()),
    );
    let mut orch = Orchestrator::new(1, 1, 1);
    let tasks = dispatch_render_requests(&mut world, &mut reg, &mut orch);
    assert_eq!(tasks.len(), 0);
    assert!(world.request_of(e).is_none());
    assert_eq!(orch.profile().frame, 0);
}

#[test]
fn completed_tasks_write_the_target_entitys_output() {
    // Register one renderer "X", attach a request with no override to
    // entity E at frame 10: E's render output eventually holds a valid
    // image.
    let mut world = WorldState::new();
    let e = world.spawn();
    world.insert_request(e, RenderRequest { frame: 10, renderer_name: None });
    let mut reg = AvailableRenderers::new();
    reg.register(
        String::from("X"),
        RendererSlot::Triangle(<TriangleRenderer as Plugin>::new()),
    );
    assert_eq!(reg.active_name().unwrap().as_str(), "X");
    let mut orch = Orchestrator::new(1, 1, 1);
    let tasks = dispatch_render_requests(&mut world, &mut reg, &mut orch);
    assert_eq!(tasks.len(), 1);
    let mut cache = DecoderCache::new();
    let result = run_render_task(&tasks[0].task, &mut cache);
    let wrote = apply_render_result(&mut world, e, result);
    assert!(wrote);
    let out = world.output_of(e).expect("output must be written");
    assert_eq!(out.width(), 128);
    assert_eq!(out.height(), 128);
    assert_eq!(out.as_bytes().len(), 128 * 128 * 4);
    assert_eq!(&out.as_bytes()[0..4], &[51, 76, 229, 255]);
}

#[test]
fn results_for_removed_entities_are_discarded_silently() {
    // If an entity is removed before its in-flight task completes, no
    // output write occurs and no error is raised.
    let mut world = WorldState::new();
    let e = world.spawn();
    let survivor = world.spawn();
    world.insert_request(e, RenderRequest { frame: 1, renderer_name: None });
    let mut reg = AvailableRenderers::new();
    reg.register(
        String::from("X"),
        RendererSlot::Triangle(<TriangleRenderer as Plugin>::new()),
    );
    let mut orch = Orchestrator::new(1, 1, 1);
    let tasks = dispatch_render_requests(&mut world, &mut reg, &mut orch);
    assert_eq!(tasks.len(), 1);
    // the entity goes away while its render is in flight
    assert!(world.despawn(e));
    let mut cache = DecoderCache::new();
    let result = run_render_task(&tasks[0].task, &mut cache);
    let wrote = apply_render_result(&mut world, e, result);
    assert!(!wrote, "no write for a removed entity");
    assert!(!world.contains(e));
    assert!(world.contains(survivor));
    assert!(world.output_of(survivor).is_none());
}

#[test]
fn failed_renders_leave_prior_output_untouched() {
    let mut world = WorldState::new();
    let e = world.spawn();
    let first = RawImage::from_rgba8(1, 1, vec![9, 9, 9, 255]).unwrap();
    apply_render_result(&mut world, e, Ok(first));
    let failure = Err(lunaris_core::error::CoreError::Runtime {
        reason: String::from("decode failed"),
    });
    let wrote = apply_render_result(&mut world, e, failure);
    assert!(!wrote);
    let out = world.output_of(e).unwrap();
    assert_eq!(out.as_bytes(), &vec![9, 9, 9, 255]);
}

#[test]
fn same_source_decodes_serialize_through_the_entry_guard() {
    // Two jobs against the identical source identifier are observably
    // serialized; jobs against distinct sources make independent progress.
    let mut cache = DecoderCache::new();
    let a = String::from("a.mp4");
    let b = String::from("b.mp4");
    cache.ensure_entry(&a);
    cache.ensure_entry(&b);
    let held_a = cache.acquire(&a).expect("a free entry can be taken");
    // a second render against the same source must wait
    assert_eq!(cache.acquire(&a), None);
    // a render against a different source proceeds concurrently
    let held_b = cache.acquire(&b).expect("distinct sources are independent");
    cache.release(held_b);
    // once the first render is done, the same source is available again
    cache.release(held_a);
    assert!(cache.acquire(&a).is_some());
}

#[test]
fn a_busy_source_fails_the_task_with_a_resource_error() {
    let mut cache = DecoderCache::new();
    let a = String::from("a.mp4");
    cache.ensure_entry(&a);
    let held = cache.acquire(&a).unwrap();
    let task = lunaris_core::render::RenderTask {
        target: 1,
        kind: RenderKind::Video,
        work: RenderWork::Decode { source: String::from("a.mp4"), timestamp_ms: 0 },
    };
    let r = run_render_task(&task, &mut cache);
    assert!(matches!(r, Err(lunaris_core::error::CoreError::Resource { .. })));
    cache.release(held);
    let r2 = run_render_task(&task, &mut cache);
    assert!(r2.is_ok());
}

#[test]
fn decode_tasks_produce_the_timestamp_frame() {
    let mut cache = DecoderCache::new();
    let task = lunaris_core::render::RenderTask {
        target: 1,
        kind: RenderKind::Video,
        work: RenderWork::Decode { source: String::from("clip.mp4"), timestamp_ms: 100 },
    };
    let img = run_render_task(&task, &mut cache).unwrap();
    assert_eq!(img.width(), 1920);
    assert_eq!(&img.as_bytes()[0..4], &[100, 50, 33, 255]);
    // the decode session stays cached for the next frame
    assert_eq!(cache.len(), 1);
}

#[test]
fn video_dispatch_uses_the_videoframe_class() {
    let mut world = WorldState::new();
    let e = world.spawn();
    world.insert_request(
        e,
        RenderRequest { frame: 0, renderer_name: Some(String::from("video")) },
    );
    let mut reg = AvailableRenderers::new();
    reg.register(
        String::from("X"),
        RendererSlot::Triangle(<TriangleRenderer as Plugin>::new()),
    );
    reg.register(
        String::from("video"),
        RendererSlot::Video(<VideoPlugin as Plugin>::new()),
    );
    let mut orch = Orchestrator::new(1, 1, 1);
    // the video backend demands a path parameter; a bare request fails its
    // validation and is dropped, submitting nothing
    let tasks = dispatch_render_requests(&mut world, &mut reg, &mut orch);
    assert_eq!(tasks.len(), 0);
    // scheduled directly with a path, the task is a video-frame decode
    let mut video = <VideoPlugin as Plugin>::new();
    let task = video
        .schedule_render(RenderJob {
            target: e,
            frame: 0,
            params: vec![(String::from("path"), PropertyValue::Text(String::from("v.mp4")))],
            renderer_override: None,
        })
        .unwrap();
    assert_eq!(task.kind, RenderKind::Video);
    let h = orch.submit_job(Priority::VideoFrame);
    assert_eq!(orch.take_next(PoolFamily::FramePool), Some(h));
}

#[test]
fn reregistering_a_name_replaces_its_renderer_only() {
    let mut reg = AvailableRenderers::new();
    reg.register(
        String::from("X"),
        RendererSlot::Triangle(<TriangleRenderer as Plugin>::new()),
    );
    reg.register(
        String::from("Y"),
        RendererSlot::Triangle(<TriangleRenderer as Plugin>::new()),
    );
    // replacing an existing name neither adds an entry nor moves the
    // active designation
    reg.register(
        String::from("Y"),
        RendererSlot::Video(<VideoPlugin as Plugin>::new()),
    );
    assert_eq!(reg.len(), 2);
    assert_eq!(reg.active_name().unwrap().as_str(), "X");
}
