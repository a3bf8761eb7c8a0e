//! The top-level state object and its per-frame protocol.
//!
//! The context owns every GPU resource of the pipeline. Here it is modeled
//! by the data that the per-frame decisions depend on: surface and target
//! dimensions, the fixed multisample count, the surface color format, the
//! particle population, the configurations the two draw bundles were
//! compiled against, the field-volume dimensions, the camera uniform words
//! and the per-frame random seed. Each call either mutates this state or
//! returns a plan — an ordered description of the dispatches or render
//! pass to submit — which the unverified edge executes against the real
//! device. Floating-point values (camera matrix entries, the time step)
//! cross this boundary as their IEEE-754 bit patterns, so the contracts
//! can speak of byte-exact contents.

use crate::dispatch::{dispatch_size, spec_dispatch_count, WORKGROUP_SIZE};
use crate::field::FIELD_GRID_SIDE;
use crate::surface::SurfaceError;
use vstd::prelude::*;

verus! {

/// Multisample count of the color target, fixed for the process lifetime.
pub const MSAA_SAMPLE_COUNT: u32 = 4;

/// Particle records a context allocates by default: about one million.
pub const DEFAULT_PARTICLE_COUNT: u32 = 1000000;

/// A screen-size-dependent render target: its extent and sample count.
#[derive(Clone, Copy, Debug, PartialEq, Eq, Structural)]
pub struct TargetSpec {
    pub width: u32,
    pub height: u32,
    pub samples: u32,
}

/// Dimensions feeding the external camera's aspect ratio: the camera
/// evaluates `width / height` in floating point outside the core.
#[derive(Clone, Copy, Debug, PartialEq, Eq, Structural)]
pub struct AspectSource {
    pub width: u32,
    pub height: u32,
}

/// Dimensions of the baked field volume; it holds one sample per cell.
#[derive(Clone, Copy, Debug, PartialEq, Eq, Structural)]
pub struct FieldVolumeSpec {
    pub width: u32,
    pub height: u32,
    pub depth: u32,
}

/// The two precompiled draw bundles, in their fixed draw order.
#[derive(Clone, Copy, Debug, PartialEq, Eq, Structural)]
pub enum BundleKind {
    /// Opaque depth-tested line rendering of the reference cell.
    Wireframe,
    /// Alpha-blended point rendering of the particle store.
    Particles,
}

/// The fixed configuration a draw bundle was compiled against. A bundle
/// may only be replayed into a pass whose sample count and color format
/// agree with it.
#[derive(Clone, Copy, Debug, PartialEq, Eq, Structural)]
pub struct BundleSpec {
    pub kind: BundleKind,
    pub samples: u32,
    pub format: u32,
}

/// The compute entry points of the GPU programs, a closed set.
#[derive(Clone, Copy, Debug, PartialEq, Eq, Structural)]
pub enum ComputeKind {
    /// One-shot deterministic initialization of every particle record.
    Seed,
    /// Fold a trilinear field sample into each particle's velocity.
    SampleField,
    /// Advance positions, age lifetimes, respawn expired particles.
    Integrate,
}

/// One compute dispatch: an entry point and its workgroup count.
#[derive(Clone, Copy, Debug, PartialEq, Eq, Structural)]
pub struct ComputeDispatch {
    pub kind: ComputeKind,
    pub groups: u32,
}

/// The one-shot seeding submission issued at startup.
#[derive(Clone, Copy, Debug, PartialEq, Eq, Structural)]
pub struct SeedingPlan {
    pub dispatch: ComputeDispatch,
    /// Seed bound to the hash when the records are initialized.
    pub seed: u32,
}

/// The compute submission of one frame: its dispatches in submission
/// order, and the uniforms they observe.
#[derive(Clone, Debug, PartialEq, Eq)]
pub struct SimulationPlan {
    pub dispatches: Vec<ComputeDispatch>,
    /// Seed the integrate phase respawns expired particles with.
    pub seed: u32,
    /// IEEE-754 bits of the time step handed to the integrate phase.
    pub dt_bits: u32,
}

/// The render pass of one frame: its attachments and the bundles it
/// replays, in draw order.
#[derive(Clone, Debug, PartialEq, Eq)]
pub struct RenderPassPlan {
    /// Extent of the color and depth attachments.
    pub width: u32,
    pub height: u32,
    /// Sample count of the multisampled color attachment.
    pub color_samples: u32,
    /// Color format shared by the attachment and the bundles.
    pub color_format: u32,
    /// The multisampled color target resolves into the acquired surface
    /// image.
    pub resolve_to_surface: bool,
    /// The depth attachment is cleared to the far value every frame.
    pub clear_depth_to_far: bool,
    pub bundles: Vec<BundleKind>,
}

/// What one resize call recreated.
#[derive(Clone, Copy, Debug, PartialEq, Eq, Structural)]
pub struct ResizeEffect {
    pub rebuilt_depth_target: bool,
    pub rebuilt_multisample_target: bool,
    pub reconfigured_surface: bool,
    pub updated_aspect: bool,
    pub rebuilt_particle_store: bool,
    pub rebuilt_bundles: bool,
}

/// The state the per-frame decisions depend on. The embedder owns the
/// matching GPU resources and keeps them in step by executing the plans
/// and effects the methods return.
#[derive(Clone, Copy, Debug)]
pub struct Context {
    /// Current surface configuration extent.
    pub width: u32,
    pub height: u32,
    /// Opaque identifier of the surface color format; only equality with
    /// the bundles' format matters here.
    pub format: u32,
    /// Multisample count shared by the color target, depth target and
    /// bundles.
    pub sample_count: u32,
    pub depth_target: TargetSpec,
    pub multisample_target: TargetSpec,
    pub aspect: AspectSource,
    /// Capacity of the particle store, fixed at startup.
    pub particle_count: u32,
    pub wireframe_bundle: BundleSpec,
    pub particles_bundle: BundleSpec,
    pub field_volume: FieldVolumeSpec,
    /// IEEE-754 bits of the camera's current view-projection matrix, set
    /// by the embedder whenever the external camera state changes.
    pub camera: [u32; 16],
    /// Contents of the camera uniform as of its last full overwrite.
    pub uniform: [u32; 16],
    /// Seed the GPU hash observes, refreshed once per update.
    pub seed: u32,
    pub simulated_frames: u64,
    pub rendered_frames: u64,
}

impl Context {
    /// Well-formedness: targets and bundles agree with the surface
    /// configuration, and the aspect source tracks it.
    pub open spec fn wf(self) -> bool {
        &&& self.width > 0
        &&& self.height > 0
        &&& self.sample_count == MSAA_SAMPLE_COUNT
        &&& self.depth_target == (TargetSpec {
            width: self.width,
            height: self.height,
            samples: self.sample_count,
        })
        &&& self.multisample_target == (TargetSpec {
            width: self.width,
            height: self.height,
            samples: self.sample_count,
        })
        &&& self.aspect == (AspectSource { width: self.width, height: self.height })
        &&& self.wireframe_bundle == (BundleSpec {
            kind: BundleKind::Wireframe,
            samples: self.sample_count,
            format: self.format,
        })
        &&& self.particles_bundle == (BundleSpec {
            kind: BundleKind::Particles,
            samples: self.sample_count,
            format: self.format,
        })
    }
}

/// Saturating frame counter step.
pub open spec fn spec_bump(n: u64) -> u64 {
    if n == u64::MAX { n } else { (n + 1) as u64 }
}

/// Workgroups covering the whole particle store.
pub open spec fn spec_store_groups(particle_count: u32) -> int {
    spec_dispatch_count(particle_count as int, WORKGROUP_SIZE as int)
}

/// State after `resize(w, h)`: with two positive dimensions the surface
/// extent, both screen-size-dependent targets and the aspect source move
/// to them; everything else — particle store, field volume, bundles,
/// camera, uniform, seed — is untouched. Otherwise the call is a no-op.
pub open spec fn spec_resize(c: Context, w: u32, h: u32) -> Context {
    if w > 0 && h > 0 {
        Context {
            width: w,
            height: h,
            depth_target: TargetSpec { width: w, height: h, samples: c.sample_count },
            multisample_target: TargetSpec { width: w, height: h, samples: c.sample_count },
            aspect: AspectSource { width: w, height: h },
            ..c
        }
    } else {
        c
    }
}

/// What `resize(w, h)` recreates: both screen-size-dependent targets and
/// the surface configuration when the dimensions are positive, never the
/// particle store or the draw bundles; nothing otherwise.
pub open spec fn spec_resize_effect(w: u32, h: u32) -> ResizeEffect {
    if w > 0 && h > 0 {
        ResizeEffect {
            rebuilt_depth_target: true,
            rebuilt_multisample_target: true,
            reconfigured_surface: true,
            updated_aspect: true,
            rebuilt_particle_store: false,
            rebuilt_bundles: false,
        }
    } else {
        ResizeEffect {
            rebuilt_depth_target: false,
            rebuilt_multisample_target: false,
            reconfigured_surface: false,
            updated_aspect: false,
            rebuilt_particle_store: false,
            rebuilt_bundles: false,
        }
    }
}

/// State after `update()` drew `seed`: the camera uniform is overwritten
/// in full with the current camera words and the seed is refreshed;
/// nothing else moves.
pub open spec fn spec_update(c: Context, seed: u32) -> Context {
    Context { uniform: c.camera, seed, ..c }
}

/// State after `set_camera(camera)`.
pub open spec fn spec_set_camera(c: Context, camera: [u32; 16]) -> Context {
    Context { camera, ..c }
}

/// State after `simulate()`: only the frame counter moves.
pub open spec fn spec_simulate(c: Context) -> Context {
    Context { simulated_frames: spec_bump(c.simulated_frames), ..c }
}

/// State after a presented `render()`: only the frame counter moves.
pub open spec fn spec_render(c: Context) -> Context {
    Context { rendered_frames: spec_bump(c.rendered_frames), ..c }
}

/// The seeding submission a context issues: one `Seed` dispatch covering
/// the whole store, bound to the context's seed.
pub open spec fn spec_seeding_plan(c: Context) -> SeedingPlan {
    SeedingPlan {
        dispatch: ComputeDispatch {
            kind: ComputeKind::Seed,
            groups: spec_store_groups(c.particle_count) as u32,
        },
        seed: c.seed,
    }
}

/// Relies on rand::random: one fresh scalar drawn per frame from the
/// process-level random source, feeding the GPU-side respawn hash.
/// Nothing is promised of the value.
#[verifier::external_body]
fn fresh_seed() -> u32 {
    rand::random::<u32>()
}

/// Compiles (a model of) one draw bundle against the pass configuration
/// it will be replayed into.
pub fn build_bundle(kind: BundleKind, samples: u32, format: u32) -> (b: BundleSpec)
    ensures
        b == (BundleSpec { kind, samples, format }),
{
    BundleSpec { kind, samples, format }
}

/// Build-time agreement check: a bundle may be replayed only into a pass
/// whose sample count and color format it was compiled against. A
/// mismatch is a programming error caught here, never at draw time.
pub fn bundle_matches_target(b: &BundleSpec, samples: u32, format: u32) -> (ok: bool)
    ensures
        ok == (b.samples == samples && b.format == format),
{
    b.samples == samples && b.format == format
}

impl Context {
    /// Creates the context: surface configured at `width x height` in
    /// `format`, both screen-size-dependent targets at the same extent
    /// and the fixed sample count, a particle store of `particle_count`
    /// records, both draw bundles compiled against the surface
    /// configuration, a cubic field volume, and the camera uniform
    /// initialized from the camera words. The embedder executes the
    /// seeding plan once before the first frame.
    pub fn new(
        width: u32,
        height: u32,
        format: u32,
        particle_count: u32,
        camera: [u32; 16],
        seed: u32,
    ) -> (c: Context)
        requires
            width > 0,
            height > 0,
        ensures
            c.wf(),
            c.width == width,
            c.height == height,
            c.format == format,
            c.particle_count == particle_count,
            c.camera == camera,
            c.uniform == camera,
            c.seed == seed,
            c.field_volume == (FieldVolumeSpec {
                width: FIELD_GRID_SIDE,
                height: FIELD_GRID_SIDE,
                depth: FIELD_GRID_SIDE,
            }),
            c.simulated_frames == 0,
            c.rendered_frames == 0,
    {
        let depth_target = TargetSpec { width, height, samples: MSAA_SAMPLE_COUNT };
        let multisample_target = TargetSpec { width, height, samples: MSAA_SAMPLE_COUNT };
        let wireframe_bundle = build_bundle(BundleKind::Wireframe, MSAA_SAMPLE_COUNT, format);
        let particles_bundle = build_bundle(BundleKind::Particles, MSAA_SAMPLE_COUNT, format);
        Context {
            width,
            height,
            format,
            sample_count: MSAA_SAMPLE_COUNT,
            depth_target,
            multisample_target,
            aspect: AspectSource { width, height },
            particle_count,
            wireframe_bundle,
            particles_bundle,
            field_volume: FieldVolumeSpec {
                width: FIELD_GRID_SIDE,
                height: FIELD_GRID_SIDE,
                depth: FIELD_GRID_SIDE,
            },
            camera,
            uniform: camera,
            seed,
            simulated_frames: 0,
            rendered_frames: 0,
        }
    }

    /// The one-shot seeding submission: one `Seed` dispatch whose
    /// workgroups cover every record of the store, bound to the current
    /// seed. Identical population and seed give the identical plan.
    pub fn seeding_plan(&self) -> (p: SeedingPlan)
        ensures
            p == spec_seeding_plan(*self),
            p.dispatch.groups * WORKGROUP_SIZE >= self.particle_count,
    {
        let groups = dispatch_size(self.particle_count);
        SeedingPlan {
            dispatch: ComputeDispatch { kind: ComputeKind::Seed, groups },
            seed: self.seed,
        }
    }

    /// Regenerates the screen-size-dependent resources at `w x h` and
    /// updates the aspect source; with either dimension zero the call is
    /// a complete no-op. The particle store, field volume and draw
    /// bundles never depend on screen dimensions and are never touched.
    pub fn resize(&mut self, new_width: u32, new_height: u32) -> (effect: ResizeEffect)
        ensures
            *final(self) == spec_resize(*old(self), new_width, new_height),
            effect == spec_resize_effect(new_width, new_height),
            !(new_width > 0 && new_height > 0) ==> *final(self) == *old(self),
            old(self).wf() ==> final(self).wf(),
    {
        if new_width > 0 && new_height > 0 {
            self.width = new_width;
            self.height = new_height;
            self.depth_target = TargetSpec {
                width: new_width,
                height: new_height,
                samples: self.sample_count,
            };
            self.multisample_target = TargetSpec {
                width: new_width,
                height: new_height,
                samples: self.sample_count,
            };
            self.aspect = AspectSource { width: new_width, height: new_height };
            ResizeEffect {
                rebuilt_depth_target: true,
                rebuilt_multisample_target: true,
                reconfigured_surface: true,
                updated_aspect: true,
                rebuilt_particle_store: false,
                rebuilt_bundles: false,
            }
        } else {
            ResizeEffect {
                rebuilt_depth_target: false,
                rebuilt_multisample_target: false,
                reconfigured_surface: false,
                updated_aspect: false,
                rebuilt_particle_store: false,
                rebuilt_bundles: false,
            }
        }
    }

    /// Records the camera's current view-projection words; the next
    /// update folds them into the uniform.
    pub fn set_camera(&mut self, camera: [u32; 16])
        ensures
            *final(self) == spec_set_camera(*old(self), camera),
            old(self).wf() ==> final(self).wf(),
    {
        self.camera = camera;
    }

    /// Per-frame uniform refresh: overwrites the camera uniform in full
    /// with the current camera words — never a partial patch — and draws
    /// a fresh random seed for the GPU hash.
    pub fn update(&mut self)
        ensures
            *final(self) == spec_update(*old(self), final(self).seed),
            final(self).uniform == old(self).camera,
            old(self).wf() ==> final(self).wf(),
    {
        self.uniform = self.camera;
        self.seed = fresh_seed();
    }

    /// The compute submission of one frame: the field-sampling dispatch
    /// first, the integrate dispatch second, strictly in that order
    /// within one submission, each covering the whole store; the
    /// integrate phase observes the current seed and the caller's time
    /// step. Only the frame counter of the context moves.
    pub fn simulate(&mut self, dt_bits: u32) -> (plan: SimulationPlan)
        ensures
            *final(self) == spec_simulate(*old(self)),
            old(self).wf() ==> final(self).wf(),
            plan.dispatches@.len() == 2,
            plan.dispatches@[0].kind == ComputeKind::SampleField,
            plan.dispatches@[1].kind == ComputeKind::Integrate,
            plan.dispatches@[0].groups == spec_store_groups(old(self).particle_count),
            plan.dispatches@[1].groups == spec_store_groups(old(self).particle_count),
            plan.dispatches@[0].groups * WORKGROUP_SIZE >= old(self).particle_count,
            plan.seed == old(self).seed,
            plan.dt_bits == dt_bits,
    {
        let groups = dispatch_size(self.particle_count);
        let mut dispatches: Vec<ComputeDispatch> = Vec::new();
        dispatches.push(ComputeDispatch { kind: ComputeKind::SampleField, groups });
        dispatches.push(ComputeDispatch { kind: ComputeKind::Integrate, groups });
        if self.simulated_frames < u64::MAX {
            self.simulated_frames = self.simulated_frames + 1;
        }
        SimulationPlan { dispatches, seed: self.seed, dt_bits }
    }

    /// The render pass of one frame, built only when the embedder did
    /// acquire a surface image: both bundles replayed in fixed order —
    /// wireframe first, particle cloud second — into the multisampled
    /// color target resolved into the surface image, over a depth target
    /// cleared to the far value. A failed acquisition is handed back
    /// unchanged with the state untouched; `surface_error_recovery`
    /// decides what the frame loop does about it.
    pub fn render(&mut self, acquired: Result<(), SurfaceError>) -> (r: Result<
        RenderPassPlan,
        SurfaceError,
    >)
        ensures
            acquired is Ok <==> r is Ok,
            acquired is Err ==> r == Err::<RenderPassPlan, SurfaceError>(acquired->Err_0)
                && *final(self) == *old(self),
            acquired is Ok ==> *final(self) == spec_render(*old(self)),
            old(self).wf() ==> final(self).wf(),
            r is Ok ==> ({
                let plan = r->Ok_0;
                &&& plan.width == old(self).width
                &&& plan.height == old(self).height
                &&& plan.color_samples == old(self).sample_count
                &&& plan.color_format == old(self).format
                &&& plan.resolve_to_surface
                &&& plan.clear_depth_to_far
                &&& plan.bundles@ == seq![BundleKind::Wireframe, BundleKind::Particles]
            }),
            r is Ok && old(self).wf() ==> ({
                let plan = r->Ok_0;
                &&& plan.color_samples == old(self).wireframe_bundle.samples
                &&& plan.color_samples == old(self).particles_bundle.samples
                &&& plan.color_format == old(self).wireframe_bundle.format
                &&& plan.color_format == old(self).particles_bundle.format
            }),
    {
        match acquired {
            Err(e) => Err(e),
            Ok(()) => {
                let mut bundles: Vec<BundleKind> = Vec::new();
                bundles.push(BundleKind::Wireframe);
                bundles.push(BundleKind::Particles);
                proof {
                    assert(bundles@ =~= seq![BundleKind::Wireframe, BundleKind::Particles]);
                }
                let plan = RenderPassPlan {
                    width: self.width,
                    height: self.height,
                    color_samples: self.sample_count,
                    color_format: self.format,
                    resolve_to_surface: true,
                    clear_depth_to_far: true,
                    bundles,
                };
                if self.rendered_frames < u64::MAX {
                    self.rendered_frames = self.rendered_frames + 1;
                }
                Ok(plan)
            },
        }
    }
}

/// One core call of the per-frame protocol, for stating invariants over
/// arbitrary call sequences.
pub enum FrameOp {
    Simulate,
    Render,
}

/// State after one simulate or presented render call.
pub open spec fn spec_step(c: Context, op: FrameOp) -> Context {
    match op {
        FrameOp::Simulate => spec_simulate(c),
        FrameOp::Render => spec_render(c),
    }
}

/// State after a sequence of simulate and render calls.
pub open spec fn spec_steps(c: Context, ops: Seq<FrameOp>) -> Context
    decreases ops.len(),
{
    if ops.len() == 0 {
        c
    } else {
        spec_steps(spec_step(c, ops[0]), ops.skip(1))
    }
}

/// The particle population is invariant across any number of simulate and
/// render calls — and so are the field volume, the draw bundles and the
/// whole surface configuration: after startup, only resize and the
/// per-frame uniform refresh move anything besides the frame counters.
pub proof fn lemma_population_invariant(c: Context, ops: Seq<FrameOp>)
    ensures
        spec_steps(c, ops).particle_count == c.particle_count,
        spec_steps(c, ops).field_volume == c.field_volume,
        spec_steps(c, ops).wireframe_bundle == c.wireframe_bundle,
        spec_steps(c, ops).particles_bundle == c.particles_bundle,
        spec_steps(c, ops).depth_target == c.depth_target,
        spec_steps(c, ops).multisample_target == c.multisample_target,
    decreases ops.len(),
{
    if ops.len() > 0 {
        lemma_population_invariant(spec_step(c, ops[0]), ops.skip(1));
    }
}

/// Seeding is deterministic: contexts with the same population and the
/// same seed issue the identical seeding plan, so identical `(N, seed)`
/// pairs reproduce bit-identical initial particle state under the
/// deterministic GPU hash.
pub proof fn lemma_seeding_deterministic(c1: Context, c2: Context)
    requires
        c1.particle_count == c2.particle_count,
        c1.seed == c2.seed,
    ensures
        spec_seeding_plan(c1) == spec_seeding_plan(c2),
{
}

/// Repeating `resize` with the same dimensions leaves the dimensions of
/// the depth and multisample targets unchanged, and neither call rebuilds
/// the particle store or the draw bundles.
pub proof fn lemma_resize_repeat(c: Context, w: u32, h: u32)
    ensures
        ({
            let once = spec_resize(c, w, h);
            let twice = spec_resize(once, w, h);
            &&& twice.depth_target == once.depth_target
            &&& twice.multisample_target == once.multisample_target
            &&& twice.particle_count == c.particle_count
            &&& twice.field_volume == c.field_volume
            &&& twice.wireframe_bundle == c.wireframe_bundle
            &&& twice.particles_bundle == c.particles_bundle
        }),
        !spec_resize_effect(w, h).rebuilt_particle_store,
        !spec_resize_effect(w, h).rebuilt_bundles,
{
}

/// Two consecutive frames between which the camera words do not change
/// upload byte-identical camera uniform contents, whatever seeds the two
/// updates draw and whether or not a frame was simulated and presented in
/// between.
pub proof fn lemma_uniform_stable_when_camera_unchanged(c: Context, s1: u32, s2: u32)
    ensures
        ({
            let first = spec_update(c, s1);
            let second = spec_update(spec_render(spec_simulate(first)), s2);
            &&& second.uniform == first.uniform
            &&& first.uniform == c.camera
        }),
{
}

} // verus!
