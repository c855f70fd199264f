//! A raindrops effect: warps the image as if seen through animated drops,
//! using a tiling raindrops texture the effect brings along as its one
//! auxiliary texture input.

use vstd::prelude::*;
use vstd::string::StringExecFns;
use crate::bind_group::{layout_wf_from, texture_handles_of, texture_slots};
use crate::chain::PostProcessLabel;
use crate::host::{
    AssetStore, BindGroupLayout, Extent3d, Image, LayoutEntry, ShaderDefVal, TextureDimension,
    TextureFormat,
};
use crate::simple_post_process::{SimplePostProcess, TextureInputs};

verus! {

/// Bits of the default animation speed, four fifths.
pub const RAINDROPS_DEFAULT_SPEED_BITS: u32 = 0x3F4CCCCD;

/// Bits of the default warping, three hundredths.
pub const RAINDROPS_DEFAULT_WARPING_BITS: u32 = 0x3CF5C28F;

/// Bits of the default zoom, one.
pub const RAINDROPS_DEFAULT_ZOOM_BITS: u32 = 0x3F800000;

/// The opaque payload tag of the embedded raindrops texture; the host decodes
/// the pixels behind it and samples it with repeat addressing on every axis.
pub const RAINDROPS_TEXTURE_DATA: u64 = 1;

/// Raindrops settings. All fields hold IEEE 754 binary32 bit patterns; the
/// framework transports them to the shader without interpreting them.
#[derive(Clone, Copy, PartialEq, Eq, Structural, Debug)]
pub struct Raindrops {
    /// How quickly the raindrops animate.
    pub speed: u32,

    /// How much the raindrops warp the image.
    pub warping: u32,

    /// How zoomed in the raindrops texture is.
    pub zoom: u32,
}

impl Default for Raindrops {
    fn default() -> (r: Self)
        ensures
            r == (Raindrops {
                speed: RAINDROPS_DEFAULT_SPEED_BITS,
                warping: RAINDROPS_DEFAULT_WARPING_BITS,
                zoom: RAINDROPS_DEFAULT_ZOOM_BITS,
            }),
    {
        Raindrops {
            speed: RAINDROPS_DEFAULT_SPEED_BITS,
            warping: RAINDROPS_DEFAULT_WARPING_BITS,
            zoom: RAINDROPS_DEFAULT_ZOOM_BITS,
        }
    }
}

/// The raindrops texture as it enters the main-world image assets; the pixel
/// size is the host decoder's business and not tracked here.
pub open spec fn raindrops_image() -> Image {
    Image {
        data: RAINDROPS_TEXTURE_DATA,
        size: (Extent3d { width: 0, height: 0, depth_or_array_layers: 1 }),
        dimension: TextureDimension::D2,
        format: TextureFormat::ScreenDefault,
    }
}

impl SimplePostProcess for Raindrops {
    open spec fn words(self) -> Seq<u32> {
        seq![self.speed, self.warping, self.zoom]
    }

    open spec fn size_words() -> nat {
        3
    }

    open spec fn decode_spec(w: Seq<u32>) -> Option<Raindrops> {
        if w.len() == 3 {
            Some(Raindrops { speed: w[0], warping: w[1], zoom: w[2] })
        } else {
            None
        }
    }

    open spec fn shader_path_spec() -> Seq<char> {
        "assets/shaders/raindrops.wgsl"@
    }

    open spec fn label() -> PostProcessLabel {
        PostProcessLabel::Raindrops
    }

    open spec fn layout_spec() -> Seq<LayoutEntry> {
        seq![
            LayoutEntry::Texture2d,
            LayoutEntry::Sampler,
            LayoutEntry::UniformBuffer { dynamic: true },
        ]
    }

    open spec fn shader_defs_ok(defs: Seq<ShaderDefVal>) -> bool {
        defs.len() == 0
    }

    open spec fn textures_post(
        pre: AssetStore<Image>,
        post: AssetStore<Image>,
        r: TextureInputs,
    ) -> bool {
        &&& r == TextureInputs::Single(pre.next_handle)
        &&& post.next_handle == pre.next_handle + 1
        &&& post.entries@ == seq![(pre.next_handle, raindrops_image())] + pre.entries@
    }

    proof fn lemma_size_bounds() {
    }

    proof fn lemma_words(self) {
    }

    proof fn lemma_layout_wf() {
        reveal_with_fuel(layout_wf_from, 5);
    }

    fn word_count() -> usize {
        3
    }

    fn to_words(&self) -> (r: Vec<u32>) {
        let mut v: Vec<u32> = Vec::new();
        v.push(self.speed);
        v.push(self.warping);
        v.push(self.zoom);
        proof {
            assert(v@ =~= self.words());
        }
        v
    }

    fn from_words(w: &Vec<u32>) -> (r: Option<Raindrops>) {
        if w.len() == 3 {
            Some(Raindrops { speed: w[0], warping: w[1], zoom: w[2] })
        } else {
            None
        }
    }

    fn shader_path() -> (r: String) {
        String::from_str("assets/shaders/raindrops.wgsl")
    }

    fn node_label() -> PostProcessLabel {
        PostProcessLabel::Raindrops
    }

    fn layout() -> (r: BindGroupLayout) {
        let mut entries: Vec<LayoutEntry> = Vec::new();
        entries.push(LayoutEntry::Texture2d);
        entries.push(LayoutEntry::Sampler);
        entries.push(LayoutEntry::UniformBuffer { dynamic: true });
        proof {
            assert(entries@ =~= Self::layout_spec());
        }
        BindGroupLayout { entries }
    }

    fn shader_defs() -> (r: Vec<ShaderDefVal>) {
        Vec::new()
    }

    /// Registers the embedded raindrops texture and declares it as the one
    /// auxiliary input.
    fn textures(assets: &mut AssetStore<Image>) -> (r: TextureInputs) {
        let image = Image {
            data: RAINDROPS_TEXTURE_DATA,
            size: Extent3d { width: 0, height: 0, depth_or_array_layers: 1 },
            dimension: TextureDimension::D2,
            format: TextureFormat::ScreenDefault,
        };
        let handle = assets.add(image);
        proof {
            reveal_with_fuel(texture_slots, 5);
            assert(texture_handles_of(TextureInputs::Single(handle)) =~= seq![handle]);
        }
        TextureInputs::Single(handle)
    }
}

} // verus!
