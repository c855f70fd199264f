//! A look-up-table remap: colors are mapped through a 64×64×64 3-D look-up
//! texture chosen at runtime. The look-up texture is the effect's bind-group
//! asset; three color schemes ship with the framework under fixed handles.

use vstd::prelude::*;
use vstd::string::StringExecFns;
use crate::bind_group::{layout_wf_from, texture_handles_of, texture_slots};
use crate::chain::PostProcessLabel;
use crate::host::{
    AssetStore, BindGroupLayout, Extent3d, Image, LayoutEntry, ShaderDefVal, TextureDimension,
    TextureFormat,
};
use crate::post_process::{AsBindGroup, GetShaderDefs, PostProcess};
use crate::simple_post_process::TextureInputs;

verus! {

/// The fixed handle of the arctic color-scheme look-up image.
pub const LUT_ARCTIC_IMAGE_HANDLE: u64 = 11514769687270273032;

/// The fixed handle of the neo color-scheme look-up image.
pub const LUT_NEO_IMAGE_HANDLE: u64 = 18411885151390434307;

/// The fixed handle of the slate color-scheme look-up image.
pub const LUT_SLATE_IMAGE_HANDLE: u64 = 8809687374954616573;

/// The opaque payload tag of the embedded neo look-up image.
pub const LUT_NEO_IMAGE_DATA: u64 = 2;

/// The opaque payload tag of the embedded slate look-up image.
pub const LUT_SLATE_IMAGE_DATA: u64 = 3;

/// The opaque payload tag of the embedded arctic look-up image.
pub const LUT_ARCTIC_IMAGE_DATA: u64 = 4;

/// Rewrites a decoded image for look-up use: the pixels are reinterpreted as
/// a 64×64×64 three-dimensional texture of plain (non-sRGB) color values.
pub fn adapt_image_for_lut_use(image: Image) -> (r: Image)
    ensures
        r == adapt_image_for_lut_use_spec(image),
{
    Image {
        data: image.data,
        size: Extent3d { width: 64, height: 64, depth_or_array_layers: 64 },
        dimension: TextureDimension::D3,
        format: TextureFormat::Rgba8Unorm,
    }
}

/// What adapting an image for look-up use keeps and rewrites: the payload
/// stays, the descriptor becomes a 64×64×64 3-D `Rgba8Unorm` texture.
pub open spec fn adapt_image_for_lut_use_spec(image: Image) -> Image {
    Image {
        data: image.data,
        size: (Extent3d { width: 64, height: 64, depth_or_array_layers: 64 }),
        dimension: TextureDimension::D3,
        format: TextureFormat::Rgba8Unorm,
    }
}

/// The look-up bind-group asset: one 3-D texture handle.
#[derive(Clone, Copy, PartialEq, Eq, Structural, Debug)]
pub struct LutPostProcessBindGroup {
    /// The 3-D look-up texture.
    pub texture: u64,
}

impl GetShaderDefs for LutPostProcessBindGroup {
    open spec fn shader_defs_ok(&self, defs: Seq<ShaderDefVal>) -> bool {
        defs.len() == 0
    }

    fn shader_defs(&self) -> (r: Vec<ShaderDefVal>) {
        Vec::new()
    }
}

impl AsBindGroup for LutPostProcessBindGroup {
    open spec fn layout_spec() -> Seq<LayoutEntry> {
        seq![LayoutEntry::Texture3d, LayoutEntry::Sampler]
    }

    open spec fn texture_handles(&self) -> Seq<u64> {
        seq![self.texture]
    }

    proof fn lemma_layout_wf(&self) {
        reveal_with_fuel(layout_wf_from, 4);
        reveal_with_fuel(texture_slots, 4);
    }

    fn bind_group_layout() -> (r: BindGroupLayout) {
        let mut entries: Vec<LayoutEntry> = Vec::new();
        entries.push(LayoutEntry::Texture3d);
        entries.push(LayoutEntry::Sampler);
        proof {
            assert(entries@ =~= Self::layout_spec());
        }
        BindGroupLayout { entries }
    }

    fn texture_inputs(&self) -> (r: TextureInputs) {
        proof {
            assert(texture_handles_of(TextureInputs::Single(self.texture)) =~= seq![self.texture]);
        }
        TextureInputs::Single(self.texture)
    }
}

/// A look-up texture component: maps colors to colors, useful for color
/// schemes. Holds the handle of its bind-group asset.
#[derive(Clone, Copy, PartialEq, Eq, Structural, Debug)]
pub struct Lut {
    handle: u64,
}

impl Default for Lut {
    fn default() -> (r: Self)
        ensures
            r.handle_spec() == 0,
    {
        Lut { handle: 0 }
    }
}

impl Lut {
    /// Creates a look-up component over a fresh bind-group asset around the
    /// given image. The image should be a 64×64×64 3-D texture.
    pub fn new(assets: &mut AssetStore<LutPostProcessBindGroup>, image_handle: u64) -> (r: Self)
        requires
            old(assets).next_handle < u64::MAX,
        ensures
            r.handle_spec() == old(assets).next_handle,
            final(assets).next_handle == old(assets).next_handle + 1,
            final(assets).entries@ == seq![
                (old(assets).next_handle, (LutPostProcessBindGroup { texture: image_handle })),
            ] + old(assets).entries@,
            final(assets).spec_get(r.handle_spec()) == Some(
                (LutPostProcessBindGroup { texture: image_handle }),
            ),
    {
        let handle = assets.add(LutPostProcessBindGroup { texture: image_handle });
        Lut { handle }
    }

    /// The arctic color-scheme look-up.
    pub fn arctic(assets: &mut AssetStore<LutPostProcessBindGroup>) -> (r: Self)
        requires
            old(assets).next_handle < u64::MAX,
        ensures
            r.handle_spec() == old(assets).next_handle,
            final(assets).spec_get(r.handle_spec()) == Some(
                (LutPostProcessBindGroup { texture: LUT_ARCTIC_IMAGE_HANDLE }),
            ),
    {
        Self::new(assets, LUT_ARCTIC_IMAGE_HANDLE)
    }

    /// The neo color-scheme look-up.
    pub fn neo(assets: &mut AssetStore<LutPostProcessBindGroup>) -> (r: Self)
        requires
            old(assets).next_handle < u64::MAX,
        ensures
            r.handle_spec() == old(assets).next_handle,
            final(assets).spec_get(r.handle_spec()) == Some(
                (LutPostProcessBindGroup { texture: LUT_NEO_IMAGE_HANDLE }),
            ),
    {
        Self::new(assets, LUT_NEO_IMAGE_HANDLE)
    }

    /// The slate color-scheme look-up.
    pub fn slate(assets: &mut AssetStore<LutPostProcessBindGroup>) -> (r: Self)
        requires
            old(assets).next_handle < u64::MAX,
        ensures
            r.handle_spec() == old(assets).next_handle,
            final(assets).spec_get(r.handle_spec()) == Some(
                (LutPostProcessBindGroup { texture: LUT_SLATE_IMAGE_HANDLE }),
            ),
    {
        Self::new(assets, LUT_SLATE_IMAGE_HANDLE)
    }
}

/// The look-up image registered under a fixed handle: the embedded payload,
/// adapted for look-up use.
pub open spec fn lut_image(data: u64) -> Image {
    Image {
        data,
        size: (Extent3d { width: 64, height: 64, depth_or_array_layers: 64 }),
        dimension: TextureDimension::D3,
        format: TextureFormat::Rgba8Unorm,
    }
}

impl PostProcess for Lut {
    type BindGroup = LutPostProcessBindGroup;

    open spec fn shader_path_spec() -> Seq<char> {
        "assets/shaders/lut.wgsl"@
    }

    open spec fn label() -> PostProcessLabel {
        PostProcessLabel::Lut
    }

    closed spec fn handle_spec(&self) -> u64 {
        self.handle
    }

    /// Initialization registers the three shipped look-up images, adapted for
    /// look-up use, under their fixed handles.
    open spec fn init_post(pre: AssetStore<Image>, post: AssetStore<Image>) -> bool {
        &&& post.next_handle == pre.next_handle
        &&& post.entries@ == seq![
            (LUT_ARCTIC_IMAGE_HANDLE, lut_image(LUT_ARCTIC_IMAGE_DATA)),
            (LUT_SLATE_IMAGE_HANDLE, lut_image(LUT_SLATE_IMAGE_DATA)),
            (LUT_NEO_IMAGE_HANDLE, lut_image(LUT_NEO_IMAGE_DATA)),
        ] + pre.entries@
        &&& post.spec_get(LUT_ARCTIC_IMAGE_HANDLE) == Some(lut_image(LUT_ARCTIC_IMAGE_DATA))
        &&& post.spec_get(LUT_SLATE_IMAGE_HANDLE) == Some(lut_image(LUT_SLATE_IMAGE_DATA))
        &&& post.spec_get(LUT_NEO_IMAGE_HANDLE) == Some(lut_image(LUT_NEO_IMAGE_DATA))
    }

    fn shader_path() -> (r: String) {
        String::from_str("assets/shaders/lut.wgsl")
    }

    fn node_label() -> PostProcessLabel {
        PostProcessLabel::Lut
    }

    fn handle(&self) -> (r: u64) {
        self.handle
    }

    fn init(images: &mut AssetStore<Image>) {
        let neo = adapt_image_for_lut_use(
            Image {
                data: LUT_NEO_IMAGE_DATA,
                size: Extent3d { width: 0, height: 0, depth_or_array_layers: 1 },
                dimension: TextureDimension::D2,
                format: TextureFormat::ScreenDefault,
            },
        );
        images.insert(LUT_NEO_IMAGE_HANDLE, neo);
        let slate = adapt_image_for_lut_use(
            Image {
                data: LUT_SLATE_IMAGE_DATA,
                size: Extent3d { width: 0, height: 0, depth_or_array_layers: 1 },
                dimension: TextureDimension::D2,
                format: TextureFormat::ScreenDefault,
            },
        );
        images.insert(LUT_SLATE_IMAGE_HANDLE, slate);
        let arctic = adapt_image_for_lut_use(
            Image {
                data: LUT_ARCTIC_IMAGE_DATA,
                size: Extent3d { width: 0, height: 0, depth_or_array_layers: 1 },
                dimension: TextureDimension::D2,
                format: TextureFormat::ScreenDefault,
            },
        );
        images.insert(LUT_ARCTIC_IMAGE_HANDLE, arctic);
        proof {
            assert(final(images).entries@ =~= seq![
                (LUT_ARCTIC_IMAGE_HANDLE, lut_image(LUT_ARCTIC_IMAGE_DATA)),
                (LUT_SLATE_IMAGE_HANDLE, lut_image(LUT_SLATE_IMAGE_DATA)),
                (LUT_NEO_IMAGE_HANDLE, lut_image(LUT_NEO_IMAGE_DATA)),
            ] + old(images).entries@);
        }
    }
}

} // verus!
