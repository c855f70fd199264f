//! A pixelation effect: the image is reduced to constant-color blocks.

use vstd::prelude::*;
use vstd::string::StringExecFns;
use crate::bind_group::{layout_wf_from, texture_handles_of, texture_slots};
use crate::chain::PostProcessLabel;
use crate::host::{AssetStore, BindGroupLayout, Image, LayoutEntry, ShaderDefVal};
use crate::simple_post_process::{SimplePostProcess, TextureInputs};

verus! {

/// Bits of the default block size, eight.
pub const PIXELATE_DEFAULT_BLOCK_SIZE_BITS: u32 = 0x41000000;

/// Pixelate settings. The field holds an IEEE 754 binary32 bit pattern; the
/// framework transports it to the shader without interpreting it.
#[derive(Clone, Copy, PartialEq, Eq, Structural, Debug)]
pub struct Pixelate {
    /// How many pixels the width and height of a block cover after
    /// pixelation; one block has a constant color. The shader clamps this to
    /// at least one.
    pub block_size: u32,
}

impl Default for Pixelate {
    fn default() -> (r: Self)
        ensures
            r == (Pixelate { block_size: PIXELATE_DEFAULT_BLOCK_SIZE_BITS }),
    {
        Pixelate { block_size: PIXELATE_DEFAULT_BLOCK_SIZE_BITS }
    }
}

impl SimplePostProcess for Pixelate {
    open spec fn words(self) -> Seq<u32> {
        seq![self.block_size]
    }

    open spec fn size_words() -> nat {
        1
    }

    open spec fn decode_spec(w: Seq<u32>) -> Option<Pixelate> {
        if w.len() == 1 {
            Some(Pixelate { block_size: w[0] })
        } else {
            None
        }
    }

    open spec fn shader_path_spec() -> Seq<char> {
        "assets/shaders/pixelate.wgsl"@
    }

    open spec fn label() -> PostProcessLabel {
        PostProcessLabel::Pixelate
    }

    open spec fn layout_spec() -> Seq<LayoutEntry> {
        seq![LayoutEntry::UniformBuffer { dynamic: true }]
    }

    open spec fn shader_defs_ok(defs: Seq<ShaderDefVal>) -> bool {
        defs.len() == 0
    }

    open spec fn textures_post(
        pre: AssetStore<Image>,
        post: AssetStore<Image>,
        r: TextureInputs,
    ) -> bool {
        post == pre && r == TextureInputs::Empty
    }

    proof fn lemma_size_bounds() {
    }

    proof fn lemma_words(self) {
    }

    proof fn lemma_layout_wf() {
        reveal_with_fuel(layout_wf_from, 3);
    }

    fn word_count() -> usize {
        1
    }

    fn to_words(&self) -> (r: Vec<u32>) {
        let mut v: Vec<u32> = Vec::new();
        v.push(self.block_size);
        proof {
            assert(v@ =~= self.words());
        }
        v
    }

    fn from_words(w: &Vec<u32>) -> (r: Option<Pixelate>) {
        if w.len() == 1 {
            Some(Pixelate { block_size: w[0] })
        } else {
            None
        }
    }

    fn shader_path() -> (r: String) {
        String::from_str("assets/shaders/pixelate.wgsl")
    }

    fn node_label() -> PostProcessLabel {
        PostProcessLabel::Pixelate
    }

    fn layout() -> (r: BindGroupLayout) {
        let mut entries: Vec<LayoutEntry> = Vec::new();
        entries.push(LayoutEntry::UniformBuffer { dynamic: true });
        proof {
            assert(entries@ =~= Self::layout_spec());
        }
        BindGroupLayout { entries }
    }

    fn shader_defs() -> (r: Vec<ShaderDefVal>) {
        Vec::new()
    }

    fn textures(_assets: &mut AssetStore<Image>) -> (r: TextureInputs) {
        proof {
            reveal_with_fuel(texture_slots, 3);
            assert(texture_handles_of(TextureInputs::Empty) =~= Seq::<u64>::empty());
        }
        TextureInputs::Empty
    }
}

} // verus!
