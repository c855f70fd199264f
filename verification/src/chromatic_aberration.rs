//! A chromatic-aberration effect: offsets the three color channels in
//! separate directions.

use vstd::prelude::*;
use vstd::string::StringExecFns;
use crate::bind_group::{layout_wf_from, texture_handles_of, texture_slots};
use crate::chain::PostProcessLabel;
use crate::host::{AssetStore, BindGroupLayout, Image, LayoutEntry, ShaderDefVal};
use crate::simple_post_process::{SimplePostProcess, TextureInputs};

verus! {

/// Bits of one.
pub const CA_ONE_BITS: u32 = 0x3F800000;

/// Bits of minus one half.
pub const CA_MINUS_HALF_BITS: u32 = 0xBF000000;

/// Bits of half the square root of three, the sine of a third of a turn.
pub const CA_HALF_SQRT3_BITS: u32 = 0x3F5DB3D7;

/// Bits of minus half the square root of three.
pub const CA_MINUS_HALF_SQRT3_BITS: u32 = 0xBF5DB3D7;

/// Bits of the default channel displacement, one hundredth.
pub const CA_DEFAULT_MAGNITUDE_BITS: u32 = 0x3C23D70A;

/// A two-component direction in UV space, as binary32 bit patterns.
#[derive(Clone, Copy, PartialEq, Eq, Structural, Debug)]
pub struct Vec2Bits {
    pub x: u32,
    pub y: u32,
}

/// Chromatic-aberration settings. All fields hold IEEE 754 binary32 bit
/// patterns; the framework transports them to the shader without
/// interpreting them. The defaults point the three channels at unit vectors a
/// third of a turn apart.
#[derive(Clone, Copy, PartialEq, Eq, Structural, Debug)]
pub struct ChromaticAberration {
    /// The direction (in UV space) the red channel is offset in.
    pub dir_r: Vec2Bits,

    /// How far (in UV space) the red channel is displaced.
    pub magnitude_r: u32,

    /// The direction (in UV space) the green channel is offset in.
    pub dir_g: Vec2Bits,

    /// How far (in UV space) the green channel is displaced.
    pub magnitude_g: u32,

    /// The direction (in UV space) the blue channel is offset in.
    pub dir_b: Vec2Bits,

    /// How far (in UV space) the blue channel is displaced.
    pub magnitude_b: u32,
}

impl Default for ChromaticAberration {
    fn default() -> (r: Self)
        ensures
            r == (ChromaticAberration {
                dir_r: (Vec2Bits { x: CA_ONE_BITS, y: 0 }),
                magnitude_r: CA_DEFAULT_MAGNITUDE_BITS,
                dir_g: (Vec2Bits { x: CA_MINUS_HALF_BITS, y: CA_HALF_SQRT3_BITS }),
                magnitude_g: CA_DEFAULT_MAGNITUDE_BITS,
                dir_b: (Vec2Bits { x: CA_MINUS_HALF_BITS, y: CA_MINUS_HALF_SQRT3_BITS }),
                magnitude_b: CA_DEFAULT_MAGNITUDE_BITS,
            }),
    {
        ChromaticAberration {
            dir_r: Vec2Bits { x: CA_ONE_BITS, y: 0 },
            magnitude_r: CA_DEFAULT_MAGNITUDE_BITS,
            dir_g: Vec2Bits { x: CA_MINUS_HALF_BITS, y: CA_HALF_SQRT3_BITS },
            magnitude_g: CA_DEFAULT_MAGNITUDE_BITS,
            dir_b: Vec2Bits { x: CA_MINUS_HALF_BITS, y: CA_MINUS_HALF_SQRT3_BITS },
            magnitude_b: CA_DEFAULT_MAGNITUDE_BITS,
        }
    }
}

impl SimplePostProcess for ChromaticAberration {
    open spec fn words(self) -> Seq<u32> {
        seq![
            self.dir_r.x,
            self.dir_r.y,
            self.magnitude_r,
            self.dir_g.x,
            self.dir_g.y,
            self.magnitude_g,
            self.dir_b.x,
            self.dir_b.y,
            self.magnitude_b,
        ]
    }

    open spec fn size_words() -> nat {
        9
    }

    open spec fn decode_spec(w: Seq<u32>) -> Option<ChromaticAberration> {
        if w.len() == 9 {
            Some(
                ChromaticAberration {
                    dir_r: Vec2Bits { x: w[0], y: w[1] },
                    magnitude_r: w[2],
                    dir_g: Vec2Bits { x: w[3], y: w[4] },
                    magnitude_g: w[5],
                    dir_b: Vec2Bits { x: w[6], y: w[7] },
                    magnitude_b: w[8],
                },
            )
        } else {
            None
        }
    }

    open spec fn shader_path_spec() -> Seq<char> {
        "assets/shaders/chromatic-aberration.wgsl"@
    }

    open spec fn label() -> PostProcessLabel {
        PostProcessLabel::ChromaticAberration
    }

    open spec fn layout_spec() -> Seq<LayoutEntry> {
        seq![LayoutEntry::UniformBuffer { dynamic: true }]
    }

    open spec fn shader_defs_ok(defs: Seq<ShaderDefVal>) -> bool {
        defs.len() == 0
    }

    open spec fn textures_post(
        pre: AssetStore<Image>,
        post: AssetStore<Image>,
        r: TextureInputs,
    ) -> bool {
        post == pre && r == TextureInputs::Empty
    }

    proof fn lemma_size_bounds() {
    }

    proof fn lemma_words(self) {
    }

    proof fn lemma_layout_wf() {
        reveal_with_fuel(layout_wf_from, 3);
    }

    fn word_count() -> usize {
        9
    }

    fn to_words(&self) -> (r: Vec<u32>) {
        let mut v: Vec<u32> = Vec::new();
        v.push(self.dir_r.x);
        v.push(self.dir_r.y);
        v.push(self.magnitude_r);
        v.push(self.dir_g.x);
        v.push(self.dir_g.y);
        v.push(self.magnitude_g);
        v.push(self.dir_b.x);
        v.push(self.dir_b.y);
        v.push(self.magnitude_b);
        proof {
            assert(v@ =~= self.words());
        }
        v
    }

    fn from_words(w: &Vec<u32>) -> (r: Option<ChromaticAberration>) {
        if w.len() == 9 {
            Some(
                ChromaticAberration {
                    dir_r: Vec2Bits { x: w[0], y: w[1] },
                    magnitude_r: w[2],
                    dir_g: Vec2Bits { x: w[3], y: w[4] },
                    magnitude_g: w[5],
                    dir_b: Vec2Bits { x: w[6], y: w[7] },
                    magnitude_b: w[8],
                },
            )
        } else {
            None
        }
    }

    fn shader_path() -> (r: String) {
        String::from_str("assets/shaders/chromatic-aberration.wgsl")
    }

    fn node_label() -> PostProcessLabel {
        PostProcessLabel::ChromaticAberration
    }

    fn layout() -> (r: BindGroupLayout) {
        let mut entries: Vec<LayoutEntry> = Vec::new();
        entries.push(LayoutEntry::UniformBuffer { dynamic: true });
        proof {
            assert(entries@ =~= Self::layout_spec());
        }
        BindGroupLayout { entries }
    }

    fn shader_defs() -> (r: Vec<ShaderDefVal>) {
        Vec::new()
    }

    fn textures(_assets: &mut AssetStore<Image>) -> (r: TextureInputs) {
        proof {
            reveal_with_fuel(texture_slots, 3);
            assert(texture_handles_of(TextureInputs::Empty) =~= Seq::<u64>::empty());
        }
        TextureInputs::Empty
    }
}

} // verus!
