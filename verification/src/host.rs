//! Models of the primitives the host renderer supplies: the pipeline cache,
//! the render device, asset stores, the globals buffer and the per-view
//! ping-pong color target. The framework is specified against these explicit
//! context objects; the host performs the actual GPU work and drives the
//! transitions (finishing a queued compilation, uploading an image) that the
//! model exposes as plain state changes.

use vstd::prelude::*;
use crate::chain::PostProcessLabel;

verus! {

/// One entry of a bind-group layout, in slot order.
#[derive(Clone, Copy, PartialEq, Eq, Structural, Debug)]
pub enum LayoutEntry {
    /// A filterable two-dimensional texture binding.
    Texture2d,
    /// A three-dimensional texture binding.
    Texture3d,
    /// A filtering sampler binding.
    Sampler,
    /// A uniform-buffer binding; `dynamic` means it is bound with a per-draw
    /// dynamic offset.
    UniformBuffer { dynamic: bool },
}

/// A bind-group layout: the slots a bind group must fill, in order.
#[derive(PartialEq, Eq, Debug)]
pub struct BindGroupLayout {
    pub entries: Vec<LayoutEntry>,
}

impl BindGroupLayout {
    /// A copy with the same slots.
    pub fn duplicate(&self) -> (r: BindGroupLayout)
        ensures
            r.entries@ == self.entries@,
    {
        let mut entries: Vec<LayoutEntry> = Vec::new();
        let mut i: usize = 0;
        while i < self.entries.len()
            invariant
                i <= self.entries@.len(),
                entries@.len() == i,
                forall|j: int| 0 <= j < i ==> entries@[j] == self.entries@[j],
            decreases self.entries@.len() - i,
        {
            entries.push(self.entries[i]);
            i = i + 1;
        }
        proof {
            assert(entries@ =~= self.entries@);
        }
        BindGroupLayout { entries }
    }
}

/// A copy of a layout list whose elements have the same slots.
pub fn duplicate_layouts(v: &Vec<BindGroupLayout>) -> (r: Vec<BindGroupLayout>)
    ensures
        r@.len() == v@.len(),
        forall|i: int| 0 <= i < v@.len() ==> (#[trigger] r@[i]).entries@ == v@[i].entries@,
{
    let mut out: Vec<BindGroupLayout> = Vec::new();
    let mut i: usize = 0;
    while i < v.len()
        invariant
            i <= v@.len(),
            out@.len() == i,
            forall|j: int| 0 <= j < i ==> (#[trigger] out@[j]).entries@ == v@[j].entries@,
        decreases v@.len() - i,
    {
        out.push(v[i].duplicate());
        i = i + 1;
    }
    out
}

/// One resource bound into a bind-group slot. The `u64` values are the host's
/// opaque resource identifiers.
#[derive(Clone, Copy, PartialEq, Eq, Structural, Debug)]
pub enum BindEntry {
    /// A texture view.
    TextureView(u64),
    /// A sampler.
    Sampler(u64),
    /// A whole buffer binding.
    Buffer(u64),
}

/// A named switch selecting among shader source variants at pipeline
/// compilation time.
#[derive(PartialEq, Eq, Debug)]
pub enum ShaderDefVal {
    Bool(String, bool),
    Int(String, i32),
    UInt(String, u32),
}

impl ShaderDefVal {
    /// A value-equal copy.
    pub fn duplicate(&self) -> (r: ShaderDefVal)
        ensures
            r == *self,
    {
        match self {
            ShaderDefVal::Bool(k, v) => ShaderDefVal::Bool(k.clone(), *v),
            ShaderDefVal::Int(k, v) => ShaderDefVal::Int(k.clone(), *v),
            ShaderDefVal::UInt(k, v) => ShaderDefVal::UInt(k.clone(), *v),
        }
    }
}

/// A view-equal copy of a flag list.
pub fn duplicate_shader_defs(v: &Vec<ShaderDefVal>) -> (r: Vec<ShaderDefVal>)
    ensures
        r@ == v@,
{
    let mut out: Vec<ShaderDefVal> = Vec::new();
    let mut i: usize = 0;
    while i < v.len()
        invariant
            i <= v@.len(),
            out@.len() == i,
            forall|j: int| 0 <= j < i ==> out@[j] == v@[j],
        decreases v@.len() - i,
    {
        out.push(v[i].duplicate());
        i = i + 1;
    }
    proof {
        assert(out@ =~= v@);
    }
    out
}

/// The vertex stage every effect pipeline uses: a single full-screen triangle.
#[derive(Clone, Copy, PartialEq, Eq, Structural, Debug)]
pub enum VertexState {
    FullscreenTriangle,
}

/// What the framework hands the host's pipeline cache to compile: the
/// bind-group layouts, the shader (identified by effect label), the shader
/// configuration it was compiled with, and the fixed vertex stage.
#[derive(PartialEq, Eq, Debug)]
pub struct RenderPipelineDescriptor {
    pub layout: Vec<BindGroupLayout>,
    pub shader: PostProcessLabel,
    pub shader_defs: Vec<ShaderDefVal>,
    pub vertex: VertexState,
}

/// The host's pipeline cache: queueing returns an opaque pipeline id (here:
/// the index of the queued descriptor), and a queued pipeline becomes usable
/// once the host reports its compilation finished. The descriptors and the
/// compiled flags are two vectors of equal length, indexed by pipeline id.
pub struct PipelineCache {
    pub descriptors: Vec<RenderPipelineDescriptor>,
    pub compiled: Vec<bool>,
}

impl PipelineCache {
    /// The two vectors walk in step.
    pub open spec fn wf(self) -> bool {
        self.descriptors@.len() == self.compiled@.len()
    }

    /// Whether `id` was ever issued by this cache.
    pub open spec fn issued(self, id: usize) -> bool {
        id < self.descriptors@.len()
    }

    /// Whether the pipeline behind `id` is compiled and ready to bind.
    pub open spec fn is_ready(self, id: usize) -> bool {
        id < self.compiled@.len() && self.compiled@[id as int]
    }

    pub fn new() -> (r: Self)
        ensures
            r.wf(),
            r.descriptors@.len() == 0,
    {
        PipelineCache { descriptors: Vec::new(), compiled: Vec::new() }
    }

    /// Accepts a descriptor and returns a fresh pipeline id. The new pipeline
    /// is not ready until the host finishes compiling it.
    pub fn queue_render_pipeline(&mut self, descriptor: RenderPipelineDescriptor) -> (id: usize)
        requires
            old(self).wf(),
        ensures
            final(self).wf(),
            id == old(self).descriptors@.len(),
            final(self).descriptors@ == old(self).descriptors@.push(descriptor),
            final(self).compiled@ == old(self).compiled@.push(false),
            !old(self).issued(id),
            final(self).issued(id),
            !final(self).is_ready(id),
    {
        let id = self.descriptors.len();
        self.descriptors.push(descriptor);
        self.compiled.push(false);
        id
    }

    /// Looks a pipeline up; the host can only bind it once it is compiled.
    pub fn get_render_pipeline(&self, id: usize) -> (r: Option<usize>)
        ensures
            r == if self.is_ready(id) {
                Some(id)
            } else {
                None::<usize>
            },
    {
        if id < self.compiled.len() && self.compiled[id] {
            Some(id)
        } else {
            None
        }
    }

    /// Host-side event: the asynchronous compilation of `id` finished.
    pub fn finish_compilation(&mut self, id: usize)
        requires
            old(self).wf(),
            old(self).issued(id),
        ensures
            final(self).wf(),
            final(self).descriptors@ == old(self).descriptors@,
            final(self).compiled@ == old(self).compiled@.update(id as int, true),
            final(self).is_ready(id),
    {
        self.compiled.set(id, true);
    }
}

/// The host's render device, reduced to what the framework asks of it in this
/// model: allocating samplers with fresh identifiers.
pub struct RenderDevice {
    pub samplers_created: u64,
}

impl RenderDevice {
    pub fn new() -> (r: Self)
        ensures
            r.samplers_created == 0,
    {
        RenderDevice { samplers_created: 0 }
    }

    /// Creates a sampler and returns its fresh identifier.
    pub fn create_sampler(&mut self) -> (r: u64)
        requires
            old(self).samplers_created < u64::MAX,
        ensures
            r == old(self).samplers_created,
            final(self).samplers_created == old(self).samplers_created + 1,
    {
        let r = self.samplers_created;
        self.samplers_created = self.samplers_created + 1;
        r
    }
}

/// First match for `h` in an association list, front to back.
pub open spec fn assoc_lookup<A>(s: Seq<(u64, A)>, h: u64) -> Option<A>
    decreases s.len(),
{
    if s.len() == 0 {
        None
    } else if s[0].0 == h {
        Some(s[0].1)
    } else {
        assoc_lookup(s.drop_first(), h)
    }
}

/// A handle-keyed asset store: the host's reference-counted stores reduced to
/// an association list with a fresh-handle allocator. Entries inserted at the
/// front shadow older ones with the same handle.
pub struct AssetStore<A> {
    pub next_handle: u64,
    pub entries: Vec<(u64, A)>,
}

impl<A> AssetStore<A> {
    /// What the store associates with `h`.
    pub open spec fn spec_get(self, h: u64) -> Option<A> {
        assoc_lookup(self.entries@, h)
    }

    pub open spec fn contains(self, h: u64) -> bool {
        self.spec_get(h) is Some
    }

    pub fn new() -> (r: Self)
        ensures
            r.entries@.len() == 0,
            r.next_handle == 0,
    {
        AssetStore { next_handle: 0, entries: Vec::new() }
    }

    /// Adds an asset under a freshly allocated handle.
    pub fn add(&mut self, asset: A) -> (h: u64)
        requires
            old(self).next_handle < u64::MAX,
        ensures
            h == old(self).next_handle,
            final(self).next_handle == old(self).next_handle + 1,
            final(self).entries@ == seq![(h, asset)] + old(self).entries@,
            final(self).spec_get(h) == Some(asset),
    {
        let h = self.next_handle;
        self.next_handle = self.next_handle + 1;
        self.entries.insert(0, (h, asset));
        proof {
            assert(final(self).entries@ =~= seq![(h, asset)] + old(self).entries@);
            assert(final(self).entries@.drop_first() =~= old(self).entries@);
        }
        h
    }

    /// Inserts an asset under a caller-chosen handle, shadowing any older
    /// entry with that handle.
    pub fn insert(&mut self, h: u64, asset: A)
        ensures
            final(self).next_handle == old(self).next_handle,
            final(self).entries@ == seq![(h, asset)] + old(self).entries@,
            final(self).spec_get(h) == Some(asset),
            forall|g: u64| g != h ==> final(self).spec_get(g) == old(self).spec_get(g),
    {
        self.entries.insert(0, (h, asset));
        proof {
            assert(final(self).entries@ =~= seq![(h, asset)] + old(self).entries@);
            assert(final(self).entries@.drop_first() =~= old(self).entries@);
            assert forall|g: u64| g != h implies final(self).spec_get(g) == old(self).spec_get(g) by {
                assert(final(self).entries@.drop_first() =~= old(self).entries@);
            }
        }
    }

    /// Looks an asset up by handle.
    pub fn get(&self, h: u64) -> (r: Option<&A>)
        ensures
            match r {
                Some(a) => self.spec_get(h) == Some(*a),
                None => self.spec_get(h) is None,
            },
    {
        proof {
            assert(self.entries@.skip(0) =~= self.entries@);
        }
        let mut i: usize = 0;
        while i < self.entries.len()
            invariant
                i <= self.entries@.len(),
                assoc_lookup(self.entries@, h) == assoc_lookup(self.entries@.skip(i as int), h),
            decreases self.entries@.len() - i,
        {
            proof {
                assert(self.entries@.skip(i as int)[0] == self.entries@[i as int]);
                assert(self.entries@.skip(i as int).drop_first() =~= self.entries@.skip(i as int + 1));
            }
            if self.entries[i].0 == h {
                return Some(&self.entries[i].1);
            }
            i = i + 1;
        }
        proof {
            assert(self.entries@.skip(i as int).len() == 0);
        }
        None
    }
}

/// A GPU-side image: the texture view and the sampler the host created for it.
#[derive(Clone, Copy, PartialEq, Eq, Structural, Debug)]
pub struct GpuImage {
    pub texture_view: u64,
    pub sampler: u64,
}

/// The dimensions of an image.
#[derive(Clone, Copy, PartialEq, Eq, Structural, Debug)]
pub struct Extent3d {
    pub width: u32,
    pub height: u32,
    pub depth_or_array_layers: u32,
}

#[derive(Clone, Copy, PartialEq, Eq, Structural, Debug)]
pub enum TextureDimension {
    D2,
    D3,
}

#[derive(Clone, Copy, PartialEq, Eq, Structural, Debug)]
pub enum TextureFormat {
    /// The host's default color-target format.
    ScreenDefault,
    /// Four unsigned normalized 8-bit channels.
    Rgba8Unorm,
}

/// A main-world image asset: an opaque pixel payload (`data` tags which
/// payload the host decoded) plus the descriptor fields the framework reads
/// and rewrites. The decoded pixel size is the host's business; a zero extent
/// stands for "as decoded".
#[derive(Clone, Copy, PartialEq, Eq, Structural, Debug)]
pub struct Image {
    pub data: u64,
    pub size: Extent3d,
    pub dimension: TextureDimension,
    pub format: TextureFormat,
}

/// The shader assets the host has finished loading, by effect.
pub struct ShaderAssets {
    pub loaded: Vec<PostProcessLabel>,
}

impl ShaderAssets {
    pub open spec fn is_loaded_spec(self, l: PostProcessLabel) -> bool {
        self.loaded@.contains(l)
    }

    pub fn new() -> (r: Self)
        ensures
            r.loaded@.len() == 0,
            forall|l: PostProcessLabel| !r.is_loaded_spec(l),
    {
        ShaderAssets { loaded: Vec::new() }
    }

    /// Whether the shader for effect `l` is loaded.
    pub fn is_loaded(&self, l: PostProcessLabel) -> (r: bool)
        ensures
            r == self.is_loaded_spec(l),
    {
        let mut i: usize = 0;
        while i < self.loaded.len()
            invariant
                i <= self.loaded@.len(),
                forall|j: int| 0 <= j < i ==> self.loaded@[j] != l,
            decreases self.loaded@.len() - i,
        {
            if self.loaded[i] == l {
                return true;
            }
            i = i + 1;
        }
        false
    }

    /// Host-side event: the shader for effect `l` finished loading.
    pub fn mark_loaded(&mut self, l: PostProcessLabel)
        ensures
            final(self).loaded@ == old(self).loaded@.push(l),
            final(self).is_loaded_spec(l),
    {
        self.loaded.push(l);
        proof {
            assert(final(self).loaded@[old(self).loaded@.len() as int] == l);
        }
    }
}

/// The per-frame globals uniform buffer; absent until the host has bound it.
#[derive(Clone, Copy, PartialEq, Eq, Structural, Debug)]
pub struct GlobalsBuffer {
    pub buffer: Option<u64>,
}

impl GlobalsBuffer {
    /// The buffer binding, if the host has one this frame.
    pub fn binding(&self) -> (r: Option<u64>)
        ensures
            r == self.buffer,
    {
        self.buffer
    }
}

/// What a post-process write hands a node: the texture to sample and the
/// texture it must write.
#[derive(Clone, Copy, PartialEq, Eq, Structural, Debug)]
pub struct PostProcessWrite {
    pub source: u64,
    pub destination: u64,
}

/// A view's ping-pong color-target pair. One of the two textures is the
/// view's current main texture; each post-process write flips which.
#[derive(Clone, Copy, PartialEq, Eq, Structural, Debug)]
pub struct ViewTarget {
    pub texture_a: u64,
    pub texture_b: u64,
    pub main_is_a: bool,
}

impl ViewTarget {
    /// The view's current main texture.
    pub open spec fn spec_main(self) -> u64 {
        if self.main_is_a {
            self.texture_a
        } else {
            self.texture_b
        }
    }

    /// The other half of the pair.
    pub open spec fn spec_other(self) -> u64 {
        if self.main_is_a {
            self.texture_b
        } else {
            self.texture_a
        }
    }

    /// Starts a post-process write. The caller receives the current main
    /// texture as `source` and the other half as `destination` — and, as a
    /// restated side effect of this call, the view's notion of "current"
    /// advances to `destination`. A caller that then fails to write
    /// `destination` leaves the view's main texture detached, so a node must
    /// only call this once it is certain to draw.
    pub fn post_process_write(&mut self) -> (r: PostProcessWrite)
        ensures
            r.source == old(self).spec_main(),
            r.destination == old(self).spec_other(),
            final(self).texture_a == old(self).texture_a,
            final(self).texture_b == old(self).texture_b,
            final(self).main_is_a == !old(self).main_is_a,
            final(self).spec_main() == r.destination,
    {
        let r = if self.main_is_a {
            PostProcessWrite { source: self.texture_a, destination: self.texture_b }
        } else {
            PostProcessWrite { source: self.texture_b, destination: self.texture_a }
        };
        self.main_is_a = !self.main_is_a;
        r
    }
}

} // verus!
