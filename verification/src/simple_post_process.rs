//! The effect contract and the per-effect-type render resources.
//!
//! An effect type supplies its settings-record encoding, its shader identity,
//! its bind-group layout, its shader configuration flags and its auxiliary
//! texture inputs; the framework supplies everything else. The minimal effect
//! only encodes its settings and names its shader — layout, flags and
//! textures have canonical defaults (one dynamic uniform slot, no flags, no
//! textures).

use vstd::prelude::*;
use core::marker::PhantomData;
use crate::bind_group::{
    build_bind_group, build_bind_group_spec, layout_wf, texture_handles_of, texture_slots,
};
use crate::chain::PostProcessLabel;
use crate::host::{
    duplicate_layouts, duplicate_shader_defs, AssetStore, BindEntry, BindGroupLayout, GlobalsBuffer,
    GpuImage, Image, LayoutEntry, PipelineCache, RenderDevice, RenderPipelineDescriptor,
    ShaderDefVal, VertexState, ViewTarget,
};
use crate::uniforms::SettingsUniforms;

verus! {

/// The auxiliary textures an effect needs beyond the screen color buffer:
/// none, one, or several, supplied as main-world image-asset handles.
#[derive(Clone, PartialEq, Eq, Debug)]
pub enum TextureInputs {
    /// No auxiliary texture.
    Empty,
    /// One auxiliary texture.
    Single(u64),
    /// Several auxiliary textures, bound in this order.
    Multiple(Vec<u64>),
}

/// The slots of the shared screen bind group every effect pipeline sees at
/// group 0: the screen texture, the sampler for it, and the per-frame globals
/// uniform.
pub open spec fn shared_layout_spec() -> Seq<LayoutEntry> {
    seq![
        LayoutEntry::Texture2d,
        LayoutEntry::Sampler,
        LayoutEntry::UniformBuffer { dynamic: false },
    ]
}

/// Builds the shared screen bind-group layout.
pub fn shared_layout() -> (r: BindGroupLayout)
    ensures
        r.entries@ == shared_layout_spec(),
{
    let mut entries: Vec<LayoutEntry> = Vec::new();
    entries.push(LayoutEntry::Texture2d);
    entries.push(LayoutEntry::Sampler);
    entries.push(LayoutEntry::UniformBuffer { dynamic: false });
    proof {
        assert(entries@ =~= shared_layout_spec());
    }
    BindGroupLayout { entries }
}

/// The contract an effect type satisfies to participate in the framework.
///
/// The settings record is a plain sequence of 32-bit words — the exact bits
/// uploaded to the per-frame uniform buffer; the framework transports them
/// without interpreting them. `decode_spec` inverts the encoding, so what a
/// draw reads back at its uniform offset is exactly the record that was
/// extracted from the view.
pub trait SimplePostProcess: Sized + Copy {
    /// The settings record, encoded as the words written to the uniform buffer.
    spec fn words(self) -> Seq<u32>;

    /// How many words the encoded record occupies.
    spec fn size_words() -> nat;

    /// Decodes a word span back into a settings record.
    spec fn decode_spec(w: Seq<u32>) -> Option<Self>;

    /// The asset path of the effect's shader program.
    spec fn shader_path_spec() -> Seq<char>;

    /// The effect's node label.
    spec fn label() -> PostProcessLabel;

    /// The effect's bind-group layout (group 1), in slot order.
    spec fn layout_spec() -> Seq<LayoutEntry>;

    /// Recognizes the effect's initial shader configuration flags. (The
    /// flags carry `String` keys, which specifications can only describe by
    /// their views, so the initial flags are pinned by this predicate rather
    /// than by a spec-level value.)
    spec fn shader_defs_ok(defs: Seq<ShaderDefVal>) -> bool;

    /// What `textures` does to the main-world image assets and what it returns.
    spec fn textures_post(pre: AssetStore<Image>, post: AssetStore<Image>, r: TextureInputs) -> bool;

    /// The encoding is non-empty and fits a uniform binding.
    proof fn lemma_size_bounds()
        ensures
            0 < Self::size_words() <= 1024,
    ;

    /// The encoding has the declared size and decodes back to the record.
    proof fn lemma_words(self)
        ensures
            self.words().len() == Self::size_words(),
            Self::decode_spec(self.words()) == Some(self),
    ;

    /// The declared layout is one the frame builder can serve.
    proof fn lemma_layout_wf()
        ensures
            layout_wf(Self::layout_spec()),
    ;

    /// The encoded size, as a runtime value.
    fn word_count() -> (n: usize)
        ensures
            n == Self::size_words(),
    ;

    /// Encodes the settings record.
    fn to_words(&self) -> (r: Vec<u32>)
        ensures
            r@ == self.words(),
    ;

    /// Decodes a word span; `None` when the span is not an encoding.
    fn from_words(w: &Vec<u32>) -> (r: Option<Self>)
        ensures
            r == Self::decode_spec(w@),
    ;

    /// The asset path of the effect's shader program.
    fn shader_path() -> (r: String)
        ensures
            r@ == Self::shader_path_spec(),
    ;

    /// The effect's node label.
    fn node_label() -> (r: PostProcessLabel)
        ensures
            r == Self::label(),
    ;

    /// Builds the effect's bind-group layout (group 1).
    fn layout() -> (r: BindGroupLayout)
        ensures
            r.entries@ == Self::layout_spec(),
    ;

    /// The effect's initial shader configuration flags.
    fn shader_defs() -> (r: Vec<ShaderDefVal>)
        ensures
            Self::shader_defs_ok(r@),
    ;

    /// Supplies the effect's auxiliary textures at initialization, possibly
    /// seeding the main-world image assets. The inputs fill exactly the
    /// texture slots the layout declares.
    fn textures(assets: &mut AssetStore<Image>) -> (r: TextureInputs)
        requires
            old(assets).next_handle < u64::MAX,
        ensures
            Self::textures_post(*old(assets), *final(assets), r),
            texture_handles_of(r).len() == texture_slots(Self::layout_spec()),
    ;
}

/// The per-effect-type shader-configuration resource. Changing the flags
/// marks the resource dirty; the scheduling step that notices the dirty mark
/// rebuilds the pipeline and clears it.
pub struct PostProcessShaderDef<T: SimplePostProcess> {
    shaderdefs: Vec<ShaderDefVal>,
    changed: bool,
    _marker: PhantomData<T>,
}

impl<T: SimplePostProcess> PostProcessShaderDef<T> {
    /// The current flags.
    pub closed spec fn spec_shader_defs(self) -> Seq<ShaderDefVal> {
        self.shaderdefs@
    }

    /// Whether the flags changed since the pipeline was last built: the
    /// pipeline cache's "stale" condition.
    pub closed spec fn spec_changed(self) -> bool {
        self.changed
    }

    /// Replaces the flags and marks the pipeline for this effect type stale.
    pub fn set_shader_defs(&mut self, shaderdefs: Vec<ShaderDefVal>)
        ensures
            final(self).spec_shader_defs() == shaderdefs@,
            final(self).spec_changed(),
    {
        self.shaderdefs = shaderdefs;
        self.changed = true;
    }

    /// The current flags.
    pub fn shader_defs(&self) -> (r: &Vec<ShaderDefVal>)
        ensures
            r@ == self.spec_shader_defs(),
    {
        &self.shaderdefs
    }

    /// Whether a rebuild is pending.
    pub fn changed(&self) -> (r: bool)
        ensures
            r == self.spec_changed(),
    {
        self.changed
    }

    /// Marks the pending rebuild as done.
    pub fn clear_changed(&mut self)
        ensures
            final(self).spec_shader_defs() == old(self).spec_shader_defs(),
            !final(self).spec_changed(),
    {
        self.changed = false;
    }
}

impl<T: SimplePostProcess> Default for PostProcessShaderDef<T> {
    /// Starts with the effect's declared flags and no pending rebuild.
    fn default() -> (r: Self)
        ensures
            T::shader_defs_ok(r.spec_shader_defs()),
            !r.spec_changed(),
    {
        PostProcessShaderDef { shaderdefs: T::shader_defs(), changed: false, _marker: PhantomData }
    }
}

/// The per-effect-type texture-inputs resource, created once at effect-type
/// initialization.
pub struct PostProcessImage<T: SimplePostProcess> {
    texture_inputs: TextureInputs,
    _marker: PhantomData<T>,
}

impl<T: SimplePostProcess> PostProcessImage<T> {
    /// The declared texture inputs.
    pub closed spec fn spec_texture_inputs(self) -> TextureInputs {
        self.texture_inputs
    }

    /// The inputs fill exactly the texture slots the effect's layout declares.
    pub open spec fn wf(self) -> bool {
        texture_handles_of(self.spec_texture_inputs()).len() == texture_slots(T::layout_spec())
    }

    /// Asks the effect type for its texture inputs, seeding the main-world
    /// image assets where the effect brings its own textures.
    pub fn new(assets: &mut AssetStore<Image>) -> (r: Self)
        requires
            old(assets).next_handle < u64::MAX,
        ensures
            r.wf(),
            T::textures_post(*old(assets), *final(assets), r.spec_texture_inputs()),
    {
        let texture_inputs = T::textures(assets);
        PostProcessImage { texture_inputs, _marker: PhantomData }
    }

    /// The declared texture inputs.
    pub fn texture_inputs(&self) -> (r: &TextureInputs)
        ensures
            *r == self.spec_texture_inputs(),
    {
        &self.texture_inputs
    }
}

/// What the framework queues for an effect: its two bind-group layouts, its
/// shader, the given configuration flags, and the fixed full-screen vertex
/// stage.
pub open spec fn descriptor_matches(
    d: RenderPipelineDescriptor,
    shader: PostProcessLabel,
    l0: Seq<LayoutEntry>,
    l1: Seq<LayoutEntry>,
) -> bool {
    &&& d.shader == shader
    &&& d.vertex == VertexState::FullscreenTriangle
    &&& d.layout@.len() == 2
    &&& d.layout@[0].entries@ == l0
    &&& d.layout@[1].entries@ == l1
}

/// The per-effect-type pipeline resource: the compiled pipeline's id, the two
/// bind-group layouts it was built with, and the effect's sampler. Created
/// once at startup; exactly one pipeline id is held per effect type, and only
/// a shader-configuration change replaces it.
///
/// The lifecycle: the resource does not exist until `new` builds it; it is
/// built while the effect's configuration is clean; a configuration change
/// marks it stale (the dirty flag of [`PostProcessShaderDef`]) until the next
/// run of [`post_process_shader_def_system`] requeues the pipeline and swaps
/// the held id atomically.
pub struct PostProcessPipeline<T: SimplePostProcess> {
    layouts: Vec<BindGroupLayout>,
    sampler: u64,
    pipeline_id: usize,
    _marker: PhantomData<T>,
}

impl<T: SimplePostProcess> PostProcessPipeline<T> {
    /// The held pipeline id.
    pub closed spec fn spec_pipeline_id(self) -> usize {
        self.pipeline_id
    }

    /// The sampler created for the effect.
    pub closed spec fn spec_sampler(self) -> u64 {
        self.sampler
    }

    /// The resource holds the shared screen layout at group 0 and the
    /// effect's declared layout at group 1.
    pub closed spec fn layouts_wf(self) -> bool {
        &&& self.layouts@.len() == 2
        &&& self.layouts@[0].entries@ == shared_layout_spec()
        &&& self.layouts@[1].entries@ == T::layout_spec()
    }

    /// Well-formed against a cache: the layouts are right and the held id was
    /// issued by that cache.
    pub open spec fn wf(self, cache: PipelineCache) -> bool {
        &&& self.layouts_wf()
        &&& cache.issued(self.spec_pipeline_id())
    }

    /// The held pipeline id.
    pub fn pipeline_id(&self) -> (r: usize)
        ensures
            r == self.spec_pipeline_id(),
    {
        self.pipeline_id
    }

    /// The sampler created for the effect.
    pub fn sampler(&self) -> (r: u64)
        ensures
            r == self.spec_sampler(),
    {
        self.sampler
    }

    /// The effect's bind-group layout (group 1).
    pub fn effect_layout(&self) -> (r: &BindGroupLayout)
        requires
            self.layouts_wf(),
        ensures
            r.entries@ == T::layout_spec(),
    {
        &self.layouts[1]
    }

    /// First use of the effect type: builds the shared and effect bind-group
    /// layouts, creates the sampler, and queues the pipeline with the
    /// effect's declared shader configuration. The queued pipeline compiles
    /// asynchronously: it is not ready until the host reports so, and nodes
    /// skip their draw until then.
    pub fn new(device: &mut RenderDevice, cache: &mut PipelineCache) -> (r: Self)
        requires
            old(device).samplers_created < u64::MAX,
            old(cache).wf(),
        ensures
            final(cache).wf(),
            r.wf(*final(cache)),
            r.spec_pipeline_id() == old(cache).descriptors@.len(),
            final(cache).descriptors@.len() == old(cache).descriptors@.len() + 1,
            final(cache).descriptors@.subrange(0, old(cache).descriptors@.len() as int) == old(
                cache,
            ).descriptors@,
            descriptor_matches(
                final(cache).descriptors@.last(),
                T::label(),
                shared_layout_spec(),
                T::layout_spec(),
            ),
            T::shader_defs_ok(final(cache).descriptors@.last().shader_defs@),
            final(cache).compiled@ == old(cache).compiled@.push(false),
            !final(cache).is_ready(r.spec_pipeline_id()),
            r.spec_sampler() == old(device).samplers_created,
            final(device).samplers_created == old(device).samplers_created + 1,
    {
        let mut layouts: Vec<BindGroupLayout> = Vec::new();
        layouts.push(shared_layout());
        layouts.push(T::layout());
        let sampler = device.create_sampler();
        let mut descriptor_layouts: Vec<BindGroupLayout> = Vec::new();
        descriptor_layouts.push(shared_layout());
        descriptor_layouts.push(T::layout());
        let descriptor = RenderPipelineDescriptor {
            layout: descriptor_layouts,
            shader: T::node_label(),
            shader_defs: T::shader_defs(),
            vertex: VertexState::FullscreenTriangle,
        };
        let pipeline_id = cache.queue_render_pipeline(descriptor);
        proof {
            assert(final(cache).descriptors@.subrange(0, old(cache).descriptors@.len() as int)
                =~= old(cache).descriptors@);
        }
        PostProcessPipeline { layouts, sampler, pipeline_id, _marker: PhantomData }
    }
}

/// The pipeline id the scheduling step leaves in place: with a pending
/// configuration change it is the fresh id the cache issues next; otherwise
/// the held id is kept.
pub open spec fn prepared_pipeline_id(changed: bool, held_id: usize, queued: nat) -> int {
    if changed {
        queued as int
    } else {
        held_id as int
    }
}

/// The scheduling step that runs once per frame before the nodes: when the
/// effect's shader configuration changed, requeue the pipeline with the new
/// flags and swap the held id atomically; otherwise leave everything alone.
/// The previously held id stays issued and keeps its readiness, so in-flight
/// frames never see a gap between pipelines.
pub fn post_process_shader_def_system<T: SimplePostProcess>(
    shader_def: &mut PostProcessShaderDef<T>,
    pipeline: &mut PostProcessPipeline<T>,
    pipeline_cache: &mut PipelineCache,
)
    requires
        old(pipeline_cache).wf(),
        old(pipeline).wf(*old(pipeline_cache)),
    ensures
        final(pipeline_cache).wf(),
        final(pipeline).wf(*final(pipeline_cache)),
        !final(shader_def).spec_changed(),
        final(shader_def).spec_shader_defs() == old(shader_def).spec_shader_defs(),
        final(pipeline).spec_pipeline_id() as int == prepared_pipeline_id(
            old(shader_def).spec_changed(),
            old(pipeline).spec_pipeline_id(),
            old(pipeline_cache).descriptors@.len(),
        ),
        final(pipeline).spec_sampler() == old(pipeline).spec_sampler(),
        !old(shader_def).spec_changed() ==> {
            &&& *final(pipeline) == *old(pipeline)
            &&& *final(pipeline_cache) == *old(pipeline_cache)
            &&& *final(shader_def) == *old(shader_def)
        },
        old(shader_def).spec_changed() ==> {
            &&& final(pipeline).spec_pipeline_id() != old(pipeline).spec_pipeline_id()
            &&& final(pipeline_cache).descriptors@.len() == old(
                pipeline_cache,
            ).descriptors@.len() + 1
            &&& final(pipeline_cache).descriptors@.subrange(
                0,
                old(pipeline_cache).descriptors@.len() as int,
            ) == old(pipeline_cache).descriptors@
            &&& descriptor_matches(
                final(pipeline_cache).descriptors@.last(),
                T::label(),
                shared_layout_spec(),
                T::layout_spec(),
            )
            &&& final(pipeline_cache).descriptors@.last().shader_defs@ == old(
                shader_def,
            ).spec_shader_defs()
            &&& !final(pipeline_cache).is_ready(final(pipeline).spec_pipeline_id())
        },
        forall|id: usize|
            old(pipeline_cache).issued(id) ==> final(pipeline_cache).is_ready(id) == old(
                pipeline_cache,
            ).is_ready(id),
{
    if shader_def.changed() {
        let defs = duplicate_shader_defs(shader_def.shader_defs());
        let descriptor = RenderPipelineDescriptor {
            layout: duplicate_layouts(&pipeline.layouts),
            shader: T::node_label(),
            shader_defs: defs,
            vertex: VertexState::FullscreenTriangle,
        };
        let id = pipeline_cache.queue_render_pipeline(descriptor);
        pipeline.pipeline_id = id;
        shader_def.clear_changed();
        proof {
            assert(final(pipeline_cache).descriptors@.subrange(
                0,
                old(pipeline_cache).descriptors@.len() as int,
            ) =~= old(pipeline_cache).descriptors@);
        }
    }
}

/// Once the configuration is clean, running the scheduling step again keeps
/// the pipeline id: preparing twice with unchanged configuration yields the
/// same pipeline, with no redundant rebuild.
pub proof fn lemma_prepare_idempotent(held_id: usize, queued: nat)
    ensures
        prepared_pipeline_id(false, held_id, queued) == held_id as int,
{
}

/// A configuration change always swaps to a pipeline id the cache has never
/// handed out before, so the rebuilt pipeline is distinct from the one any
/// earlier frame used.
pub proof fn lemma_config_change_rebuilds(held_id: usize, queued: nat)
    requires
        held_id < queued,
    ensures
        prepared_pipeline_id(true, held_id, queued) != held_id as int,
{
}

/// Why a node skipped its draw this frame. All of these are expected
/// transient states, absorbed locally: the view simply keeps the previous
/// stage's output for one frame.
#[derive(Clone, Copy, PartialEq, Eq, Structural, Debug)]
pub enum SkipReason {
    /// The cached pipeline has not finished compiling.
    PipelineNotReady,
    /// The per-frame globals uniform is not bound yet.
    GlobalsMissing,
    /// An auxiliary texture has no GPU image yet.
    TextureNotReady,
}

/// The draw a node issues: bind the cached pipeline, bind the shared screen
/// group at slot 0 and the effect group at slot 1, and draw one full-screen
/// triangle into the destination texture.
#[derive(PartialEq, Eq, Debug)]
pub struct DrawCommand {
    /// The cached pipeline to bind.
    pub pipeline_id: usize,
    /// Slot 0: source texture, the effect's sampler, the globals uniform.
    pub group0: Vec<BindEntry>,
    /// Slot 1: the effect's bind group.
    pub group1: Vec<BindEntry>,
    /// The dynamic word offset of this view's settings record, where the
    /// effect's layout binds the settings uniform dynamically.
    pub settings_offset: Option<usize>,
    /// The texture the draw writes: the destination half of the ping-pong pair.
    pub destination: u64,
    /// Vertex count: one full-screen triangle.
    pub vertices: u32,
    /// Instance count.
    pub instances: u32,
}

/// What one node execution did this frame.
#[derive(PartialEq, Eq, Debug)]
pub enum NodeOutcome {
    /// The node drew; the view's main texture advanced to the destination.
    Drawn(DrawCommand),
    /// The node skipped its draw and left the view target untouched.
    Skipped(SkipReason),
}

/// When a node draws: its pipeline is compiled, the globals uniform is bound,
/// and the effect bind group can be built from what the host has uploaded.
pub open spec fn node_draws<T: SimplePostProcess>(
    pipeline: PostProcessPipeline<T>,
    cache: PipelineCache,
    globals: GlobalsBuffer,
    images: AssetStore<GpuImage>,
    image: PostProcessImage<T>,
    uniforms: SettingsUniforms<T>,
) -> bool {
    &&& cache.is_ready(pipeline.spec_pipeline_id())
    &&& globals.buffer is Some
    &&& build_bind_group_spec(
        T::layout_spec(),
        images.entries@,
        uniforms.spec_buffer_id(),
        texture_handles_of(image.spec_texture_inputs()),
    ) is Ok
}

/// One effect's node in the render graph.
pub struct PostProcessNode<T: SimplePostProcess> {
    _marker: PhantomData<T>,
}

impl<T: SimplePostProcess> PostProcessNode<T> {
    pub fn new() -> (r: Self) {
        PostProcessNode { _marker: PhantomData }
    }

    /// Executes the node for one view: look the cached pipeline up, check the
    /// globals, build the effect bind group, and only then start the
    /// post-process write — a node that flips the view's ping-pong pair must
    /// draw into the destination, so every check precedes the flip. A skipped
    /// draw leaves the view target untouched and is no error.
    pub fn run(
        &self,
        view_target: &mut ViewTarget,
        settings_index: usize,
        pipeline: &PostProcessPipeline<T>,
        image: &PostProcessImage<T>,
        cache: &PipelineCache,
        uniforms: &SettingsUniforms<T>,
        globals: &GlobalsBuffer,
        images: &AssetStore<GpuImage>,
    ) -> (r: NodeOutcome)
        requires
            pipeline.layouts_wf(),
            image.wf(),
            uniforms.wf(),
            settings_index < uniforms.spec_count(),
        ensures
            r is Drawn <==> node_draws(*pipeline, *cache, *globals, *images, *image, *uniforms),
            r matches NodeOutcome::Skipped(reason) ==> {
                &&& *final(view_target) == *old(view_target)
                &&& reason == (if !cache.is_ready(pipeline.spec_pipeline_id()) {
                    SkipReason::PipelineNotReady
                } else if globals.buffer is None {
                    SkipReason::GlobalsMissing
                } else {
                    SkipReason::TextureNotReady
                })
            },
            r matches NodeOutcome::Drawn(cmd) ==> {
                &&& cmd.pipeline_id == pipeline.spec_pipeline_id()
                &&& cmd.group0@ == seq![
                    BindEntry::TextureView(old(view_target).spec_main()),
                    BindEntry::Sampler(pipeline.spec_sampler()),
                    BindEntry::Buffer(globals.buffer->Some_0),
                ]
                &&& build_bind_group_spec(
                    T::layout_spec(),
                    images.entries@,
                    uniforms.spec_buffer_id(),
                    texture_handles_of(image.spec_texture_inputs()),
                ) == Ok::<Seq<BindEntry>, crate::bind_group::BindGroupError>(cmd.group1@)
                &&& cmd.settings_offset matches Some(o) && o == settings_index * SettingsUniforms::<
                    T,
                >::stride()
                &&& cmd.destination == old(view_target).spec_other()
                &&& final(view_target).spec_main() == cmd.destination
                &&& final(view_target).main_is_a == !old(view_target).main_is_a
                &&& final(view_target).texture_a == old(view_target).texture_a
                &&& final(view_target).texture_b == old(view_target).texture_b
                &&& cmd.vertices == 3
                &&& cmd.instances == 1
            },
    {
        let ready = cache.get_render_pipeline(pipeline.pipeline_id());
        if ready.is_none() {
            return NodeOutcome::Skipped(SkipReason::PipelineNotReady);
        }
        let globals_binding = globals.binding();
        let g = match globals_binding {
            Some(g) => g,
            None => {
                return NodeOutcome::Skipped(SkipReason::GlobalsMissing);
            },
        };
        let group1 = match build_bind_group(
            pipeline.effect_layout(),
            images,
            uniforms.buffer(),
            image.texture_inputs(),
        ) {
            Ok(v) => v,
            Err(_) => {
                return NodeOutcome::Skipped(SkipReason::TextureNotReady);
            },
        };
        let write = view_target.post_process_write();
        let mut group0: Vec<BindEntry> = Vec::new();
        group0.push(BindEntry::TextureView(write.source));
        group0.push(BindEntry::Sampler(pipeline.sampler()));
        group0.push(BindEntry::Buffer(g));
        let stride = SettingsUniforms::<T>::stride_len();
        proof {
            assert(settings_index * stride <= 0x10000 * 1088) by (nonlinear_arith)
                requires
                    0 <= settings_index <= 0x10000,
                    0 <= stride <= 1088,
            ;
            assert(group0@ =~= seq![
                BindEntry::TextureView(old(view_target).spec_main()),
                BindEntry::Sampler(pipeline.spec_sampler()),
                BindEntry::Buffer(globals.buffer->Some_0),
            ]);
        }
        let offset = settings_index * stride;
        NodeOutcome::Drawn(
            DrawCommand {
                pipeline_id: pipeline.pipeline_id(),
                group0,
                group1,
                settings_offset: Some(offset),
                destination: write.destination,
                vertices: 3,
                instances: 1,
            },
        )
    }
}

} // verus!
