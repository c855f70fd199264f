//! A full-screen blur effect: settings only, the shader does the work.

use vstd::prelude::*;
use vstd::string::StringExecFns;
use crate::bind_group::{layout_wf_from, texture_handles_of, texture_slots};
use crate::chain::PostProcessLabel;
use crate::host::{AssetStore, BindGroupLayout, Image, LayoutEntry, ShaderDefVal};
use crate::simple_post_process::{SimplePostProcess, TextureInputs};

verus! {

/// Bits of the default blur amount, one half.
pub const BLUR_DEFAULT_AMOUNT_BITS: u32 = 0x3F000000;

/// Bits of the default kernel radius, one hundredth.
pub const BLUR_DEFAULT_KERNEL_RADIUS_BITS: u32 = 0x3C23D70A;

/// Blur settings. Both fields hold IEEE 754 binary32 bit patterns; the
/// framework transports them to the shader without interpreting them.
#[derive(Clone, Copy, PartialEq, Eq, Structural, Debug)]
pub struct Blur {
    /// How blurry the output image should be. Zero bits mean no blur; the
    /// pattern of one is "fully blurred", and larger values exaggerate it.
    pub amount: u32,

    /// How far away, in UV coordinates, the blur samples points from the
    /// origin point; small positive values are expected.
    pub kernel_radius: u32,
}

impl Default for Blur {
    fn default() -> (r: Self)
        ensures
            r == (Blur {
                amount: BLUR_DEFAULT_AMOUNT_BITS,
                kernel_radius: BLUR_DEFAULT_KERNEL_RADIUS_BITS,
            }),
    {
        Blur { amount: BLUR_DEFAULT_AMOUNT_BITS, kernel_radius: BLUR_DEFAULT_KERNEL_RADIUS_BITS }
    }
}

impl SimplePostProcess for Blur {
    open spec fn words(self) -> Seq<u32> {
        seq![self.amount, self.kernel_radius]
    }

    open spec fn size_words() -> nat {
        2
    }

    open spec fn decode_spec(w: Seq<u32>) -> Option<Blur> {
        if w.len() == 2 {
            Some(Blur { amount: w[0], kernel_radius: w[1] })
        } else {
            None
        }
    }

    open spec fn shader_path_spec() -> Seq<char> {
        "assets/shaders/blur.wgsl"@
    }

    open spec fn label() -> PostProcessLabel {
        PostProcessLabel::Blur
    }

    open spec fn layout_spec() -> Seq<LayoutEntry> {
        seq![LayoutEntry::UniformBuffer { dynamic: true }]
    }

    open spec fn shader_defs_ok(defs: Seq<ShaderDefVal>) -> bool {
        defs.len() == 0
    }

    open spec fn textures_post(
        pre: AssetStore<Image>,
        post: AssetStore<Image>,
        r: TextureInputs,
    ) -> bool {
        post == pre && r == TextureInputs::Empty
    }

    proof fn lemma_size_bounds() {
    }

    proof fn lemma_words(self) {
    }

    proof fn lemma_layout_wf() {
        reveal_with_fuel(layout_wf_from, 3);
    }

    fn word_count() -> usize {
        2
    }

    fn to_words(&self) -> (r: Vec<u32>) {
        let mut v: Vec<u32> = Vec::new();
        v.push(self.amount);
        v.push(self.kernel_radius);
        proof {
            assert(v@ =~= self.words());
        }
        v
    }

    fn from_words(w: &Vec<u32>) -> (r: Option<Blur>) {
        if w.len() == 2 {
            Some(Blur { amount: w[0], kernel_radius: w[1] })
        } else {
            None
        }
    }

    fn shader_path() -> (r: String) {
        String::from_str("assets/shaders/blur.wgsl")
    }

    fn node_label() -> PostProcessLabel {
        PostProcessLabel::Blur
    }

    fn layout() -> (r: BindGroupLayout) {
        let mut entries: Vec<LayoutEntry> = Vec::new();
        entries.push(LayoutEntry::UniformBuffer { dynamic: true });
        proof {
            assert(entries@ =~= Self::layout_spec());
        }
        BindGroupLayout { entries }
    }

    fn shader_defs() -> (r: Vec<ShaderDefVal>) {
        Vec::new()
    }

    fn textures(_assets: &mut AssetStore<Image>) -> (r: TextureInputs) {
        proof {
            reveal_with_fuel(texture_slots, 3);
            assert(texture_handles_of(TextureInputs::Empty) =~= Seq::<u64>::empty());
        }
        TextureInputs::Empty
    }
}

} // verus!
