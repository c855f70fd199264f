//! A flip effect: mirrors the image horizontally, vertically, or both.

use vstd::prelude::*;
use vstd::string::StringExecFns;
use crate::bind_group::{layout_wf_from, texture_handles_of, texture_slots};
use crate::chain::PostProcessLabel;
use crate::host::{AssetStore, BindGroupLayout, Image, LayoutEntry, ShaderDefVal};
use crate::simple_post_process::{SimplePostProcess, TextureInputs};

verus! {

/// Bits of one, the UV flip factor for a mirrored axis.
pub const FLIP_UV_ONE_BITS: u32 = 0x3F800000;

/// Which way to flip the texture.
#[derive(Clone, Copy, PartialEq, Eq, Structural, Debug)]
pub enum Flip {
    /// Don't flip.
    NoFlip,
    /// Flip horizontally.
    Horizontal,
    /// Flip vertically.
    Vertical,
    /// Flip both axes.
    HorizontalVertical,
}

impl Default for Flip {
    fn default() -> (r: Self)
        ensures
            r == Flip::Horizontal,
    {
        Flip::Horizontal
    }
}

/// Flip settings as the shader consumes them: a per-axis factor that is the
/// bit pattern of one for a mirrored axis and zero otherwise. The framework
/// transports the patterns without interpreting them.
#[derive(Clone, Copy, PartialEq, Eq, Structural, Debug)]
pub struct FlipUniform {
    /// The x-axis factor.
    pub x: u32,
    /// The y-axis factor.
    pub y: u32,
}

impl Default for FlipUniform {
    fn default() -> (r: Self)
        ensures
            r == (FlipUniform { x: 0, y: 0 }),
    {
        FlipUniform { x: 0, y: 0 }
    }
}

/// The uniform record a flip direction maps to.
pub open spec fn flip_uniform_of(flip: Flip) -> FlipUniform {
    match flip {
        Flip::NoFlip => FlipUniform { x: 0, y: 0 },
        Flip::Horizontal => FlipUniform { x: FLIP_UV_ONE_BITS, y: 0 },
        Flip::Vertical => FlipUniform { x: 0, y: FLIP_UV_ONE_BITS },
        Flip::HorizontalVertical => FlipUniform { x: FLIP_UV_ONE_BITS, y: FLIP_UV_ONE_BITS },
    }
}

impl From<Flip> for FlipUniform {
    fn from(flip: Flip) -> (r: FlipUniform) {
        match flip {
            Flip::NoFlip => FlipUniform { x: 0, y: 0 },
            Flip::Horizontal => FlipUniform { x: FLIP_UV_ONE_BITS, y: 0 },
            Flip::Vertical => FlipUniform { x: 0, y: FLIP_UV_ONE_BITS },
            Flip::HorizontalVertical => FlipUniform {
                x: FLIP_UV_ONE_BITS,
                y: FLIP_UV_ONE_BITS,
            },
        }
    }
}

impl vstd::std_specs::convert::FromSpecImpl<Flip> for FlipUniform {
    open spec fn obeys_from_spec() -> bool {
        true
    }

    open spec fn from_spec(flip: Flip) -> FlipUniform {
        flip_uniform_of(flip)
    }
}

impl SimplePostProcess for FlipUniform {
    open spec fn words(self) -> Seq<u32> {
        seq![self.x, self.y]
    }

    open spec fn size_words() -> nat {
        2
    }

    open spec fn decode_spec(w: Seq<u32>) -> Option<FlipUniform> {
        if w.len() == 2 {
            Some(FlipUniform { x: w[0], y: w[1] })
        } else {
            None
        }
    }

    open spec fn shader_path_spec() -> Seq<char> {
        "assets/shaders/flip.wgsl"@
    }

    open spec fn label() -> PostProcessLabel {
        PostProcessLabel::Flip
    }

    open spec fn layout_spec() -> Seq<LayoutEntry> {
        seq![LayoutEntry::UniformBuffer { dynamic: true }]
    }

    open spec fn shader_defs_ok(defs: Seq<ShaderDefVal>) -> bool {
        defs.len() == 0
    }

    open spec fn textures_post(
        pre: AssetStore<Image>,
        post: AssetStore<Image>,
        r: TextureInputs,
    ) -> bool {
        post == pre && r == TextureInputs::Empty
    }

    proof fn lemma_size_bounds() {
    }

    proof fn lemma_words(self) {
    }

    proof fn lemma_layout_wf() {
        reveal_with_fuel(layout_wf_from, 3);
    }

    fn word_count() -> usize {
        2
    }

    fn to_words(&self) -> (r: Vec<u32>) {
        let mut v: Vec<u32> = Vec::new();
        v.push(self.x);
        v.push(self.y);
        proof {
            assert(v@ =~= self.words());
        }
        v
    }

    fn from_words(w: &Vec<u32>) -> (r: Option<FlipUniform>) {
        if w.len() == 2 {
            Some(FlipUniform { x: w[0], y: w[1] })
        } else {
            None
        }
    }

    fn shader_path() -> (r: String) {
        String::from_str("assets/shaders/flip.wgsl")
    }

    fn node_label() -> PostProcessLabel {
        PostProcessLabel::Flip
    }

    fn layout() -> (r: BindGroupLayout) {
        let mut entries: Vec<LayoutEntry> = Vec::new();
        entries.push(LayoutEntry::UniformBuffer { dynamic: true });
        proof {
            assert(entries@ =~= Self::layout_spec());
        }
        BindGroupLayout { entries }
    }

    fn shader_defs() -> (r: Vec<ShaderDefVal>) {
        Vec::new()
    }

    fn textures(_assets: &mut AssetStore<Image>) -> (r: TextureInputs) {
        proof {
            reveal_with_fuel(texture_slots, 3);
            assert(texture_handles_of(TextureInputs::Empty) =~= Seq::<u64>::empty());
        }
        TextureInputs::Empty
    }
}

} // verus!
