use live_wgsl::gpu::backend::Gpu;
use std::sync::Arc;
use live_wgsl::gpu::renderer::{captured, ReloadOutcome, Renderer, ViewportInfo};

const FORMAT: wgpu::TextureFormat = wgpu::TextureFormat::Bgra8UnormSrgb;

const DEFAULT: &str = "
struct ViewportInfo {
    size: vec2<f32>,
    time_from_start_up: f32,
    time_from_update: f32,
}

@group(0) @binding(0) var<uniform> viewport: ViewportInfo;

@fragment
fn fs_main(@builtin(position) position: vec4<f32>) -> @location(0) vec4<f32> {
    let uv = position.xy / viewport.size;
    return vec4<f32>(uv, 0.5 + 0.5 * sin(viewport.time_from_start_up), 1.0);
}
";

const BROKEN: &str = "@fragment fn fs_main( -> vec4<f32> { return ; ";

const RED: &str = "
@fragment
fn fs_main() -> @location(0) vec4<f32> {
    return vec4<f32>(1.0, 0.0, 0.0, 1.0);
}
";

const NO_ENTRY_POINT: &str = "
@fragment
fn main() -> @location(0) vec4<f32> {
    return vec4<f32>(0.0, 1.0, 0.0, 1.0);
}
";

fn gpu() -> Arc<Gpu> {
    Arc::new(Gpu::noop())
}

fn target(gpu: &Gpu, width: u32, height: u32, sample_count: u32) -> wgpu::TextureView {
    gpu.device()
        .create_texture(&wgpu::TextureDescriptor {
            label: None,
            size: wgpu::Extent3d { width, height, depth_or_array_layers: 1 },
            mip_level_count: 1,
            sample_count,
            dimension: wgpu::TextureDimension::D2,
            format: FORMAT,
            usage: wgpu::TextureUsages::RENDER_ATTACHMENT,
            view_formats: &[],
        })
        .create_view(&wgpu::TextureViewDescriptor::default())
}

fn viewport(width: f32, height: f32, seconds: f32) -> ViewportInfo {
    ViewportInfo {
        size: [width.to_bits(), height.to_bits()],
        time_from_start_up: seconds.to_bits(),
        time_from_update: seconds.to_bits(),
    }
}

#[test]
fn new_with_valid_source_is_stable_on_it() {
    let gpu = gpu();
    let renderer = Renderer::new(Arc::clone(&gpu), FORMAT, DEFAULT).unwrap();
    assert!(renderer.is_confirmed());
    assert_eq!(renderer.active_source(), DEFAULT);
}

#[test]
fn new_with_broken_source_is_rejected() {
    let gpu = gpu();
    let made = Renderer::new(Arc::clone(&gpu), FORMAT, BROKEN);
    assert!(made.is_err());
    assert!(!made.err().unwrap().message.is_empty());
}

#[test]
fn broken_source_then_red_source() {
    let gpu = gpu();
    let surface = target(&gpu, 800, 600, 1);
    let multi_sample = target(&gpu, 800, 600, 4);
    let mut renderer = Renderer::new(Arc::clone(&gpu), FORMAT, DEFAULT).unwrap();

    let outcome = renderer.submit_new_source(BROKEN, &surface, &multi_sample, viewport(800.0, 600.0, 1.0));
    assert!(matches!(outcome, ReloadOutcome::Failure(_)));
    assert!(!outcome.is_success());
    assert_eq!(renderer.active_source(), DEFAULT);
    assert!(renderer.render(&surface, &multi_sample, viewport(800.0, 600.0, 1.0)).1.is_ok());

    let outcome = renderer.submit_new_source(RED, &surface, &multi_sample, viewport(800.0, 600.0, 2.0));
    assert!(outcome.is_success());
    assert_eq!(renderer.active_source(), RED);
    assert!(renderer.is_confirmed());
    let small_surface = target(&gpu, 64, 48, 1);
    let small_multi_sample = target(&gpu, 64, 48, 4);
    assert!(renderer.render(&small_surface, &small_multi_sample, viewport(64.0, 48.0, 3.0)).1.is_ok());
    assert_eq!(renderer.active_source(), RED);
}

#[test]
fn missing_entry_point_is_rejected_at_pipeline_creation() {
    let gpu = gpu();
    let mut renderer = Renderer::new(Arc::clone(&gpu), FORMAT, DEFAULT).unwrap();
    let outcome = renderer.update_fragment(NO_ENTRY_POINT);
    assert!(outcome.is_err());
    assert!(renderer.is_confirmed());
    assert_eq!(renderer.active_source(), DEFAULT);
}

#[test]
fn candidate_waits_for_its_first_draw() {
    let gpu = gpu();
    let surface = target(&gpu, 800, 600, 1);
    let multi_sample = target(&gpu, 800, 600, 4);
    let mut renderer = Renderer::new(Arc::clone(&gpu), FORMAT, DEFAULT).unwrap();
    assert!(renderer.update_fragment(RED).is_ok());
    assert!(!renderer.is_confirmed());
    assert_eq!(renderer.active_source(), DEFAULT);
    assert!(renderer.try_render(&surface, &multi_sample, viewport(800.0, 600.0, 0.0)).1.is_ok());
    assert!(renderer.is_confirmed());
    assert_eq!(renderer.active_source(), RED);
}

#[test]
fn failed_trial_draw_keeps_the_fallback() {
    let gpu = gpu();
    let surface = target(&gpu, 800, 600, 1);
    // A target with one sample per pixel does not fit the pipeline.
    let mismatched = target(&gpu, 800, 600, 1);
    let multi_sample = target(&gpu, 800, 600, 4);
    let mut renderer = Renderer::new(Arc::clone(&gpu), FORMAT, DEFAULT).unwrap();
    let outcome = renderer.submit_new_source(RED, &surface, &mismatched, viewport(800.0, 600.0, 0.0));
    assert!(matches!(outcome, ReloadOutcome::Failure(_)));
    assert_eq!(renderer.active_source(), DEFAULT);
    assert!(!renderer.is_confirmed());
    assert!(renderer.render(&surface, &multi_sample, viewport(800.0, 600.0, 0.0)).1.is_ok());
    assert_eq!(renderer.active_source(), DEFAULT);
    // A second reload replaces the unconfirmed candidate; the fallback stays.
    let outcome = renderer.submit_new_source(DEFAULT, &surface, &multi_sample, viewport(800.0, 600.0, 0.0));
    assert!(outcome.is_success());
    assert!(renderer.is_confirmed());
}

#[test]
fn same_source_twice_succeeds_twice() {
    let gpu = gpu();
    let surface = target(&gpu, 800, 600, 1);
    let multi_sample = target(&gpu, 800, 600, 4);
    let mut renderer = Renderer::new(Arc::clone(&gpu), FORMAT, DEFAULT).unwrap();
    for _ in 0..2 {
        let outcome = renderer.submit_new_source(RED, &surface, &multi_sample, viewport(800.0, 600.0, 0.0));
        assert!(outcome.is_success());
        assert!(renderer.is_confirmed());
        assert_eq!(renderer.active_source(), RED);
    }
}

#[test]
fn uniform_bytes_are_the_words_in_machine_order() {
    let info = ViewportInfo { size: [0x4448_0000, 0x4416_0000], time_from_start_up: 0x3f80_0000, time_from_update: 0x0102_0304 };
    let mut expected = Vec::new();
    for word in [0x4448_0000u32, 0x4416_0000, 0x3f80_0000, 0x0102_0304] {
        expected.extend_from_slice(&word.to_ne_bytes());
    }
    assert_eq!(info.to_bytes(), expected);
    assert_eq!(info.to_bytes().len(), 16);
    assert_eq!(ViewportInfo::initial().size, [800.0f32.to_bits(), 600.0f32.to_bits()]);
}

#[test]
fn later_candidate_replaces_an_unconfirmed_one() {
    let gpu = gpu();
    let surface = target(&gpu, 320, 200, 1);
    let multi_sample = target(&gpu, 320, 200, 4);
    let mut renderer = Renderer::new(Arc::clone(&gpu), FORMAT, DEFAULT).unwrap();
    assert!(renderer.update_fragment(RED).is_ok());
    assert!(renderer.update_fragment(BROKEN).is_err());
    // The rejected source leaves the pending candidate and the fallback alone.
    assert!(!renderer.is_confirmed());
    assert_eq!(renderer.active_source(), DEFAULT);
    let second = "@fragment fn fs_main() -> @location(0) vec4<f32> { return vec4<f32>(0.0, 0.0, 1.0, 1.0); }";
    assert!(renderer.update_fragment(second).is_ok());
    assert_eq!(renderer.active_source(), DEFAULT);
    assert!(renderer.try_render(&surface, &multi_sample, viewport(320.0, 200.0, 0.5)).1.is_ok());
    assert_eq!(renderer.active_source(), second);
    assert!(renderer.is_confirmed());
}

#[test]
fn failed_frame_is_reported_and_changes_nothing() {
    let gpu = gpu();
    let surface = target(&gpu, 320, 200, 1);
    let multi_sample = target(&gpu, 320, 200, 4);
    let renderer = Renderer::new(Arc::clone(&gpu), FORMAT, DEFAULT).unwrap();
    // Drawing into a target without multisampling does not fit the pipeline.
    let (_, outcome) = renderer.render(&surface, &surface, viewport(320.0, 200.0, 0.0));
    assert!(outcome.is_err());
    assert!(!outcome.err().unwrap().message.is_empty());
    assert!(renderer.is_confirmed());
    assert_eq!(renderer.active_source(), DEFAULT);
    assert!(renderer.render(&surface, &multi_sample, viewport(320.0, 200.0, 0.0)).1.is_ok());
}

#[test]
fn trial_without_candidate_draws_the_active_program() {
    let gpu = gpu();
    let surface = target(&gpu, 320, 200, 1);
    let multi_sample = target(&gpu, 320, 200, 4);
    let mut renderer = Renderer::new(Arc::clone(&gpu), FORMAT, RED).unwrap();
    assert!(renderer.try_render(&surface, &multi_sample, viewport(320.0, 200.0, 0.0)).1.is_ok());
    assert!(renderer.is_confirmed());
    assert_eq!(renderer.active_source(), RED);
}

#[test]
fn failure_carries_the_report() {
    let gpu = gpu();
    let surface = target(&gpu, 320, 200, 1);
    let multi_sample = target(&gpu, 320, 200, 4);
    let mut renderer = Renderer::new(Arc::clone(&gpu), FORMAT, DEFAULT).unwrap();
    match renderer.submit_new_source(NO_ENTRY_POINT, &surface, &multi_sample, viewport(320.0, 200.0, 0.0)) {
        ReloadOutcome::Failure(report) => assert!(!report.is_empty()),
        ReloadOutcome::Success => panic!("a source without the entry point was accepted"),
    }
    assert!(renderer.is_confirmed());
}

#[test]
fn capture_without_report_hands_on_what_was_made() {
    assert_eq!(captured(5u32, None).unwrap(), 5);
    assert_eq!(captured(String::from("made"), None).unwrap(), "made");
}

#[test]
fn capture_with_report_is_a_rejection_that_carries_it() {
    let outcome = captured(5u32, Some(String::from("no entry point")));
    assert_eq!(outcome.unwrap_err().message, "no entry point");
    let outcome = captured((), Some(String::new()));
    assert_eq!(outcome.unwrap_err().message, "");
}

#[test]
fn outcome_of_a_passed_stage_is_success() {
    assert!(matches!(ReloadOutcome::of(Ok(())), ReloadOutcome::Success));
    assert!(ReloadOutcome::of(Ok(())).is_success());
}

#[test]
fn outcome_of_a_failed_stage_carries_its_report() {
    let rejected = captured((), Some(String::from("type mismatch"))).unwrap_err();
    match ReloadOutcome::of(Err(rejected)) {
        ReloadOutcome::Failure(report) => assert_eq!(report, "type mismatch"),
        ReloadOutcome::Success => panic!("a failed stage gave success"),
    }
}

#[test]
fn failure_report_is_the_one_the_stage_returned() {
    let gpu = gpu();
    let surface = target(&gpu, 320, 200, 1);
    let multi_sample = target(&gpu, 320, 200, 4);
    let mut renderer = Renderer::new(Arc::clone(&gpu), FORMAT, DEFAULT).unwrap();
    let staged = renderer.update_fragment(BROKEN).unwrap_err().message;
    match renderer.submit_new_source(BROKEN, &surface, &multi_sample, viewport(320.0, 200.0, 0.0)) {
        ReloadOutcome::Failure(report) => assert_eq!(report, staged),
        ReloadOutcome::Success => panic!("a broken source was accepted"),
    }
}

fn bytes_of(info: ViewportInfo) -> Vec<u8> {
    let mut bytes = Vec::new();
    for word in [info.size[0], info.size[1], info.time_from_start_up, info.time_from_update] {
        bytes.extend_from_slice(&word.to_ne_bytes());
    }
    bytes
}

#[test]
fn frame_after_a_rejected_build_is_drawn_from_the_default_program() {
    let gpu = gpu();
    let surface = target(&gpu, 800, 600, 1);
    let multi_sample = target(&gpu, 800, 600, 4);
    let mut renderer = Renderer::new(Arc::clone(&gpu), FORMAT, DEFAULT).unwrap();
    let info = viewport(800.0, 600.0, 1.0);
    let (before, outcome) = renderer.render(&surface, &multi_sample, info);
    assert!(outcome.is_ok());
    assert!(renderer.update_fragment(BROKEN).is_err());
    let (after, outcome) = renderer.render(&surface, &multi_sample, info);
    assert!(outcome.is_ok());
    assert_eq!(after.source, DEFAULT);
    assert_eq!(after.uniform, bytes_of(info));
    assert_eq!(after.source, before.source);
    assert_eq!(after.uniform, before.uniform);
}

#[test]
fn frame_is_never_drawn_from_a_pending_candidate() {
    let gpu = gpu();
    let surface = target(&gpu, 320, 200, 1);
    let multi_sample = target(&gpu, 320, 200, 4);
    let mut renderer = Renderer::new(Arc::clone(&gpu), FORMAT, DEFAULT).unwrap();
    assert!(renderer.update_fragment(RED).is_ok());
    let info = viewport(320.0, 200.0, 2.5);
    let (drawn, outcome) = renderer.render(&surface, &multi_sample, info);
    assert!(outcome.is_ok());
    assert_eq!(drawn.source, DEFAULT);
    assert_eq!(drawn.uniform, bytes_of(info));
}

#[test]
fn trial_is_drawn_from_the_candidate() {
    let gpu = gpu();
    let surface = target(&gpu, 320, 200, 1);
    let multi_sample = target(&gpu, 320, 200, 4);
    let mut renderer = Renderer::new(Arc::clone(&gpu), FORMAT, DEFAULT).unwrap();
    assert!(renderer.update_fragment(RED).is_ok());
    let info = viewport(320.0, 200.0, 0.25);
    // A failed trial was still a draw of the candidate.
    let (drawn, outcome) = renderer.try_render(&surface, &surface, info);
    assert!(outcome.is_err());
    assert_eq!(drawn.source, RED);
    assert_eq!(renderer.active_source(), DEFAULT);
    let (drawn, outcome) = renderer.try_render(&surface, &multi_sample, info);
    assert!(outcome.is_ok());
    assert_eq!(drawn.source, RED);
    assert_eq!(drawn.uniform, bytes_of(info));
    assert_eq!(renderer.active_source(), RED);
}

#[test]
fn renderer_draws_through_the_gpu_it_was_made_with() {
    let gpu = gpu();
    let surface = target(&gpu, 320, 200, 1);
    let multi_sample = target(&gpu, 320, 200, 4);
    let mut renderer = Renderer::new(Arc::clone(&gpu), FORMAT, DEFAULT).unwrap();
    // The caller's own handle may go; the renderer keeps its device and queue.
    drop(gpu);
    assert!(renderer.render(&surface, &multi_sample, viewport(320.0, 200.0, 0.0)).1.is_ok());
    assert!(renderer.submit_new_source(RED, &surface, &multi_sample, viewport(320.0, 200.0, 0.0)).is_success());
}
