use particle_field::context::{
    bundle_matches_target, build_bundle, BundleKind, ComputeKind, Context, MSAA_SAMPLE_COUNT,
};
use particle_field::surface::{surface_error_recovery, FrameRecovery, SurfaceError};

const FORMAT: u32 = 7;

fn camera_words(fill: u32) -> [u32; 16] {
    [fill; 16]
}

fn fresh_context() -> Context {
    Context::new(800, 600, FORMAT, 4, camera_words(0), 9)
}

#[test]
fn startup_state() {
    let c = fresh_context();
    assert_eq!(c.width, 800);
    assert_eq!(c.height, 600);
    assert_eq!(c.sample_count, MSAA_SAMPLE_COUNT);
    assert_eq!(c.depth_target.width, 800);
    assert_eq!(c.depth_target.height, 600);
    assert_eq!(c.depth_target.samples, MSAA_SAMPLE_COUNT);
    assert_eq!(c.multisample_target, c.depth_target);
    assert_eq!(c.aspect.width, 800);
    assert_eq!(c.aspect.height, 600);
    assert_eq!(c.particle_count, 4);
    assert_eq!(c.uniform, camera_words(0));
    assert_eq!(c.field_volume.width, 64);
    assert_eq!(c.wireframe_bundle.kind, BundleKind::Wireframe);
    assert_eq!(c.wireframe_bundle.samples, MSAA_SAMPLE_COUNT);
    assert_eq!(c.wireframe_bundle.format, FORMAT);
    assert_eq!(c.particles_bundle.kind, BundleKind::Particles);
}

#[test]
fn seeding_covers_store_and_is_deterministic() {
    let c = fresh_context();
    let p = c.seeding_plan();
    assert_eq!(p.dispatch.kind, ComputeKind::Seed);
    assert_eq!(p.dispatch.groups, 1);
    assert_eq!(p.seed, 9);
    // A context differing in everything but (N, seed) seeds identically.
    let other = Context::new(33, 44, 1, 4, camera_words(5), 9);
    assert_eq!(other.seeding_plan(), p);
}

#[test]
fn resize_regenerates_targets() {
    let mut c = fresh_context();
    let e = c.resize(1024, 768);
    assert!(e.rebuilt_depth_target);
    assert!(e.rebuilt_multisample_target);
    assert!(e.reconfigured_surface);
    assert!(e.updated_aspect);
    assert!(!e.rebuilt_particle_store);
    assert!(!e.rebuilt_bundles);
    assert_eq!(c.width, 1024);
    assert_eq!(c.depth_target.width, 1024);
    assert_eq!(c.depth_target.height, 768);
    assert_eq!(c.multisample_target.width, 1024);
    assert_eq!(c.aspect.width, 1024);
    assert_eq!(c.aspect.height, 768);
}

#[test]
fn resize_repeated_leaves_dimensions_alone() {
    let mut c = fresh_context();
    let e1 = c.resize(1024, 768);
    let depth_after_first = c.depth_target;
    let msaa_after_first = c.multisample_target;
    let e2 = c.resize(1024, 768);
    assert_eq!(c.depth_target, depth_after_first);
    assert_eq!(c.multisample_target, msaa_after_first);
    assert!(!e1.rebuilt_particle_store && !e2.rebuilt_particle_store);
    assert!(!e1.rebuilt_bundles && !e2.rebuilt_bundles);
    assert_eq!(c.particle_count, 4);
    assert_eq!(c.wireframe_bundle, fresh_context().wireframe_bundle);
    assert_eq!(c.particles_bundle, fresh_context().particles_bundle);
}

#[test]
fn resize_with_zero_dimension_is_a_no_op() {
    let mut c = fresh_context();
    for (w, h) in [(0u32, 600u32), (800, 0), (0, 0)] {
        let e = c.resize(w, h);
        assert!(!e.rebuilt_depth_target);
        assert!(!e.rebuilt_multisample_target);
        assert!(!e.reconfigured_surface);
        assert!(!e.updated_aspect);
        assert!(!e.rebuilt_particle_store);
        assert!(!e.rebuilt_bundles);
        assert_eq!(c.width, 800);
        assert_eq!(c.height, 600);
        assert_eq!(c.depth_target.width, 800);
        assert_eq!(c.depth_target.height, 600);
        assert_eq!(c.aspect.width, 800);
        assert_eq!(c.aspect.height, 600);
    }
}

#[test]
fn update_overwrites_uniform_in_full() {
    let mut c = fresh_context();
    c.set_camera(camera_words(0xDEAD));
    c.update();
    assert_eq!(c.uniform, camera_words(0xDEAD));
}

#[test]
fn uniform_identical_across_frames_with_camera_unchanged() {
    let mut c = fresh_context();
    c.set_camera(camera_words(0xBEEF));
    c.update();
    let first = c.uniform;
    let _ = c.simulate(0);
    let _ = c.render(Ok(())).unwrap();
    c.update();
    let second = c.uniform;
    assert_eq!(first, second);
    assert_eq!(first, camera_words(0xBEEF));
}

#[test]
fn simulation_phases_in_order() {
    let mut c = fresh_context();
    let dt = 0.016f32.to_bits();
    let plan = c.simulate(dt);
    assert_eq!(plan.dispatches.len(), 2);
    assert_eq!(plan.dispatches[0].kind, ComputeKind::SampleField);
    assert_eq!(plan.dispatches[1].kind, ComputeKind::Integrate);
    assert_eq!(plan.dispatches[0].groups, 1);
    assert_eq!(plan.dispatches[1].groups, 1);
    assert_eq!(plan.seed, 9);
    assert_eq!(plan.dt_bits, dt);
}

#[test]
fn render_pass_composition() {
    let mut c = fresh_context();
    let plan = c.render(Ok(())).unwrap();
    assert_eq!(plan.width, 800);
    assert_eq!(plan.height, 600);
    assert_eq!(plan.color_samples, MSAA_SAMPLE_COUNT);
    assert_eq!(plan.color_format, FORMAT);
    assert!(plan.resolve_to_surface);
    assert!(plan.clear_depth_to_far);
    assert_eq!(plan.bundles, vec![BundleKind::Wireframe, BundleKind::Particles]);
    assert_eq!(plan.color_samples, c.wireframe_bundle.samples);
    assert_eq!(plan.color_format, c.particles_bundle.format);
}

#[test]
fn render_hands_acquisition_failures_back() {
    let mut c = fresh_context();
    let before_width = c.width;
    let r = c.render(Err(SurfaceError::Lost));
    assert_eq!(r.unwrap_err(), SurfaceError::Lost);
    assert_eq!(c.width, before_width);
    let r = c.render(Err(SurfaceError::OutOfMemory));
    assert_eq!(r.unwrap_err(), SurfaceError::OutOfMemory);
}

#[test]
fn population_invariant_across_many_frames() {
    let mut c = fresh_context();
    for i in 0..100u32 {
        c.update();
        let _ = c.simulate(0);
        let acquired = if i % 7 == 3 { Err(SurfaceError::Timeout) } else { Ok(()) };
        let _ = c.render(acquired);
        assert_eq!(c.particle_count, 4);
        assert_eq!(c.field_volume.width, 64);
        assert_eq!(c.wireframe_bundle.samples, MSAA_SAMPLE_COUNT);
    }
    assert_eq!(c.simulated_frames, 100);
}

#[test]
fn recovery_policy() {
    assert_eq!(surface_error_recovery(SurfaceError::Lost), FrameRecovery::ResizeAndRetry);
    assert_eq!(surface_error_recovery(SurfaceError::OutOfMemory), FrameRecovery::Stop);
    assert_eq!(surface_error_recovery(SurfaceError::Outdated), FrameRecovery::RetryNextFrame);
    assert_eq!(surface_error_recovery(SurfaceError::Timeout), FrameRecovery::RetryNextFrame);
    assert_eq!(surface_error_recovery(SurfaceError::Other), FrameRecovery::RetryNextFrame);
}

#[test]
fn bundle_agreement_checked_at_build_time() {
    let b = build_bundle(BundleKind::Particles, MSAA_SAMPLE_COUNT, FORMAT);
    assert!(bundle_matches_target(&b, MSAA_SAMPLE_COUNT, FORMAT));
    assert!(!bundle_matches_target(&b, 1, FORMAT));
    assert!(!bundle_matches_target(&b, MSAA_SAMPLE_COUNT, FORMAT + 1));
}
