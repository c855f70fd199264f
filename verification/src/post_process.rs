//! The handle-based effect contract: an effect whose bind-group inputs live
//! in an asset (for example a look-up texture chosen at runtime). The asset
//! is prepared into a render-side bind group plus pipeline once; preparation
//! that cannot complete this frame — the shader or a texture not yet loaded —
//! reports a retry condition and runs again on a later frame.

use vstd::prelude::*;
use core::marker::PhantomData;
use crate::bind_group::{
    build_bind_group, build_bind_group_spec, layout_wf, texture_handles_of, texture_slots,
};
use crate::chain::PostProcessLabel;
use crate::host::{
    AssetStore, BindEntry, BindGroupLayout, GlobalsBuffer, GpuImage, Image, LayoutEntry,
    PipelineCache, RenderDevice, RenderPipelineDescriptor, ShaderAssets, ShaderDefVal, VertexState,
    ViewTarget,
};
use crate::simple_post_process::{
    descriptor_matches, shared_layout, shared_layout_spec, DrawCommand, NodeOutcome, SkipReason,
    TextureInputs,
};

verus! {

/// Supplies the shader configuration flags a bind-group asset selects.
pub trait GetShaderDefs {
    /// Recognizes the flags this asset supplies. (The flags carry `String`
    /// keys, which specifications can only describe by their views.)
    spec fn shader_defs_ok(&self, defs: Seq<ShaderDefVal>) -> bool;

    /// The flags this asset supplies.
    fn shader_defs(&self) -> (r: Vec<ShaderDefVal>)
        ensures
            self.shader_defs_ok(r@),
    ;
}

/// The contract a bind-group asset satisfies: a declared layout and the
/// texture handles that fill its texture slots, in slot order.
pub trait AsBindGroup: Sized {
    /// The asset's bind-group layout (group 1), in slot order.
    spec fn layout_spec() -> Seq<LayoutEntry>;

    /// The texture handles the asset binds, in declared order.
    spec fn texture_handles(&self) -> Seq<u64>;

    /// The declared layout is one the frame builder can serve, and the
    /// asset's handles fill exactly its texture slots.
    proof fn lemma_layout_wf(&self)
        ensures
            layout_wf(Self::layout_spec()),
            self.texture_handles().len() == texture_slots(Self::layout_spec()),
    ;

    /// Builds the asset's bind-group layout.
    fn bind_group_layout() -> (r: BindGroupLayout)
        ensures
            r.entries@ == Self::layout_spec(),
    ;

    /// The asset's texture inputs, in declared order.
    fn texture_inputs(&self) -> (r: TextureInputs)
        ensures
            texture_handles_of(r) == self.texture_handles(),
    ;
}

/// The contract an effect with an asset-held bind group satisfies.
pub trait PostProcess: Sized {
    /// The asset type holding the effect's bind-group inputs.
    type BindGroup: AsBindGroup + GetShaderDefs;

    /// The asset path of the effect's shader program.
    spec fn shader_path_spec() -> Seq<char>;

    /// The effect's node label.
    spec fn label() -> PostProcessLabel;

    /// The handle of this view's bind-group asset.
    spec fn handle_spec(&self) -> u64;

    /// What effect-type initialization does to the main-world image assets.
    spec fn init_post(pre: AssetStore<Image>, post: AssetStore<Image>) -> bool;

    /// The asset path of the effect's shader program.
    fn shader_path() -> (r: String)
        ensures
            r@ == Self::shader_path_spec(),
    ;

    /// The effect's node label.
    fn node_label() -> (r: PostProcessLabel)
        ensures
            r == Self::label(),
    ;

    /// The handle of this view's bind-group asset.
    fn handle(&self) -> (r: u64)
        ensures
            r == self.handle_spec(),
    ;

    /// One-time effect-type initialization, seeding the main-world image
    /// assets where the effect brings fixed textures.
    fn init(images: &mut AssetStore<Image>)
        ensures
            Self::init_post(*old(images), *final(images)),
    ;
}

/// Why an asset could not be prepared this frame.
#[derive(Clone, Copy, PartialEq, Eq, Structural, Debug)]
pub enum PrepareAssetError {
    /// A dependent asset — the shader, or a texture the bind group needs —
    /// is not loaded yet; preparation is deferred and retried on a later
    /// frame, never failed permanently.
    RetryNextUpdate,
}

/// The prepared render-side state of one bind-group asset: the built bind
/// group, the pipeline queued for it, the layouts it was built with, and a
/// sampler.
pub struct PreparedPostProcessBindGroup<T: PostProcess> {
    bind_group: Vec<BindEntry>,
    pipeline_id: usize,
    layouts: Vec<BindGroupLayout>,
    sampler: u64,
    _marker: PhantomData<T>,
}

impl<T: PostProcess> PreparedPostProcessBindGroup<T> {
    /// The built bind group (group 1), in slot order.
    pub closed spec fn spec_bind_group(self) -> Seq<BindEntry> {
        self.bind_group@
    }

    /// The queued pipeline's id.
    pub closed spec fn spec_pipeline_id(self) -> usize {
        self.pipeline_id
    }

    /// The sampler created for the effect.
    pub closed spec fn spec_sampler(self) -> u64 {
        self.sampler
    }

    /// The resource holds the shared screen layout at group 0 and the
    /// asset's declared layout at group 1.
    pub closed spec fn layouts_wf(self) -> bool {
        &&& self.layouts@.len() == 2
        &&& self.layouts@[0].entries@ == shared_layout_spec()
        &&& self.layouts@[1].entries@ == T::BindGroup::layout_spec()
    }

    /// The queued pipeline's id.
    pub fn pipeline_id(&self) -> (r: usize)
        ensures
            r == self.spec_pipeline_id(),
    {
        self.pipeline_id
    }

    /// A copy of the built bind group.
    pub fn bind_group_entries(&self) -> (r: Vec<BindEntry>)
        ensures
            r@ == self.spec_bind_group(),
    {
        let mut out: Vec<BindEntry> = Vec::new();
        let mut i: usize = 0;
        while i < self.bind_group.len()
            invariant
                i <= self.bind_group@.len(),
                out@.len() == i,
                forall|j: int| 0 <= j < i ==> out@[j] == self.bind_group@[j],
            decreases self.bind_group@.len() - i,
        {
            out.push(self.bind_group[i]);
            i = i + 1;
        }
        proof {
            assert(out@ =~= self.bind_group@);
        }
        out
    }

    /// Prepares one bind-group asset: if the effect's shader is not loaded
    /// yet, or a texture the asset binds has no GPU image yet, report the
    /// retry condition and change nothing; otherwise build the bind group,
    /// create a sampler, and queue the pipeline with the asset's flags.
    /// Success comes exactly when the shader is loaded and every declared
    /// texture is uploaded.
    pub fn prepare_asset(
        asset: &T::BindGroup,
        shaders: &ShaderAssets,
        gpu_images: &AssetStore<GpuImage>,
        device: &mut RenderDevice,
        cache: &mut PipelineCache,
    ) -> (r: Result<Self, PrepareAssetError>)
        requires
            old(device).samplers_created < u64::MAX,
            old(cache).wf(),
        ensures
            final(cache).wf(),
            r is Ok <==> shaders.is_loaded_spec(T::label()) && build_bind_group_spec(
                T::BindGroup::layout_spec(),
                gpu_images.entries@,
                0,
                asset.texture_handles(),
            ) is Ok,
            r is Err ==> {
                &&& r == Err::<Self, PrepareAssetError>(PrepareAssetError::RetryNextUpdate)
                &&& *final(cache) == *old(cache)
                &&& *final(device) == *old(device)
            },
            r matches Ok(p) ==> {
                &&& p.layouts_wf()
                &&& build_bind_group_spec(
                    T::BindGroup::layout_spec(),
                    gpu_images.entries@,
                    0,
                    asset.texture_handles(),
                ) == Ok::<Seq<BindEntry>, crate::bind_group::BindGroupError>(p.spec_bind_group())
                &&& p.spec_pipeline_id() == old(cache).descriptors@.len()
                &&& final(cache).descriptors@.len() == old(cache).descriptors@.len() + 1
                &&& final(cache).descriptors@.subrange(0, old(cache).descriptors@.len() as int)
                    == old(cache).descriptors@
                &&& descriptor_matches(
                    final(cache).descriptors@.last(),
                    T::label(),
                    shared_layout_spec(),
                    T::BindGroup::layout_spec(),
                )
                &&& asset.shader_defs_ok(final(cache).descriptors@.last().shader_defs@)
                &&& !final(cache).is_ready(p.spec_pipeline_id())
                &&& p.spec_sampler() == old(device).samplers_created
                &&& final(device).samplers_created == old(device).samplers_created + 1
            },
    {
        if !shaders.is_loaded(T::node_label()) {
            return Err(PrepareAssetError::RetryNextUpdate);
        }
        let bind_group_layout = T::BindGroup::bind_group_layout();
        let textures = asset.texture_inputs();
        let bind_group = match build_bind_group(&bind_group_layout, gpu_images, 0, &textures) {
            Ok(g) => g,
            Err(_) => {
                return Err(PrepareAssetError::RetryNextUpdate);
            },
        };
        let sampler = device.create_sampler();
        let mut layouts: Vec<BindGroupLayout> = Vec::new();
        layouts.push(shared_layout());
        layouts.push(T::BindGroup::bind_group_layout());
        let mut descriptor_layouts: Vec<BindGroupLayout> = Vec::new();
        descriptor_layouts.push(shared_layout());
        descriptor_layouts.push(T::BindGroup::bind_group_layout());
        let descriptor = RenderPipelineDescriptor {
            layout: descriptor_layouts,
            shader: T::node_label(),
            shader_defs: asset.shader_defs(),
            vertex: VertexState::FullscreenTriangle,
        };
        let pipeline_id = cache.queue_render_pipeline(descriptor);
        proof {
            assert(final(cache).descriptors@.subrange(0, old(cache).descriptors@.len() as int)
                =~= old(cache).descriptors@);
        }
        Ok(
            PreparedPostProcessBindGroup {
                bind_group,
                pipeline_id,
                layouts,
                sampler,
                _marker: PhantomData,
            },
        )
    }
}

/// One handle-based effect's node in the render graph.
pub struct PostProcessNode<T: PostProcess> {
    _marker: PhantomData<T>,
}

impl<T: PostProcess> PostProcessNode<T> {
    pub fn new() -> (r: Self) {
        PostProcessNode { _marker: PhantomData }
    }

    /// Executes the node for one view: look the prepared bind group up by the
    /// view's asset handle, check the pipeline and the globals, and only then
    /// start the post-process write. The prepared state must exist — an
    /// unprepared handle reaching a node is a programming error, not a
    /// transient state.
    pub fn run(
        &self,
        view_target: &mut ViewTarget,
        component: &T,
        prepared: &AssetStore<PreparedPostProcessBindGroup<T>>,
        cache: &PipelineCache,
        globals: &GlobalsBuffer,
    ) -> (r: NodeOutcome)
        requires
            prepared.spec_get(component.handle_spec()) is Some,
        ensures
            ({
                let p = prepared.spec_get(component.handle_spec())->Some_0;
                &&& (r is Drawn <==> cache.is_ready(p.spec_pipeline_id()) && globals.buffer
                    is Some)
                &&& (r matches NodeOutcome::Skipped(reason) ==> {
                    &&& *final(view_target) == *old(view_target)
                    &&& reason == (if !cache.is_ready(p.spec_pipeline_id()) {
                        SkipReason::PipelineNotReady
                    } else {
                        SkipReason::GlobalsMissing
                    })
                })
                &&& (r matches NodeOutcome::Drawn(cmd) ==> {
                    &&& cmd.pipeline_id == p.spec_pipeline_id()
                    &&& cmd.group0@ == seq![
                        BindEntry::TextureView(old(view_target).spec_main()),
                        BindEntry::Sampler(p.spec_sampler()),
                        BindEntry::Buffer(globals.buffer->Some_0),
                    ]
                    &&& cmd.group1@ == p.spec_bind_group()
                    &&& cmd.settings_offset is None
                    &&& cmd.destination == old(view_target).spec_other()
                    &&& final(view_target).spec_main() == cmd.destination
                    &&& final(view_target).main_is_a == !old(view_target).main_is_a
                    &&& final(view_target).texture_a == old(view_target).texture_a
                    &&& final(view_target).texture_b == old(view_target).texture_b
                    &&& cmd.vertices == 3
                    &&& cmd.instances == 1
                })
            }),
    {
        let p = match prepared.get(component.handle()) {
            Some(p) => p,
            None => {
                proof {
                    assert(false);
                }
                return NodeOutcome::Skipped(SkipReason::PipelineNotReady);
            },
        };
        let ready = cache.get_render_pipeline(p.pipeline_id());
        if ready.is_none() {
            return NodeOutcome::Skipped(SkipReason::PipelineNotReady);
        }
        let g = match globals.binding() {
            Some(g) => g,
            None => {
                return NodeOutcome::Skipped(SkipReason::GlobalsMissing);
            },
        };
        let group1 = p.bind_group_entries();
        let write = view_target.post_process_write();
        let mut group0: Vec<BindEntry> = Vec::new();
        group0.push(BindEntry::TextureView(write.source));
        group0.push(BindEntry::Sampler(p.sampler));
        group0.push(BindEntry::Buffer(g));
        proof {
            assert(group0@ =~= seq![
                BindEntry::TextureView(old(view_target).spec_main()),
                BindEntry::Sampler(p.spec_sampler()),
                BindEntry::Buffer(globals.buffer->Some_0),
            ]);
        }
        NodeOutcome::Drawn(
            DrawCommand {
                pipeline_id: p.pipeline_id(),
                group0,
                group1,
                settings_offset: None,
                destination: write.destination,
                vertices: 3,
                instances: 1,
            },
        )
    }
}

} // verus!
