//! A wave-displacement effect: sinusoidal offsets in both screen axes.

use vstd::prelude::*;
use vstd::string::StringExecFns;
use crate::bind_group::{layout_wf_from, texture_handles_of, texture_slots};
use crate::chain::PostProcessLabel;
use crate::host::{AssetStore, BindGroupLayout, Image, LayoutEntry, ShaderDefVal};
use crate::simple_post_process::{SimplePostProcess, TextureInputs};

verus! {

/// Wave settings. All fields hold IEEE 754 binary32 bit patterns; the
/// framework transports them to the shader without interpreting them.
#[derive(Clone, Copy, PartialEq, Eq, Structural, Debug)]
pub struct Wave {
    /// How many waves along the x axis.
    pub waves_x: u32,

    /// How many waves along the y axis.
    pub waves_y: u32,

    /// How fast the x-axis waves oscillate.
    pub speed_x: u32,

    /// How fast the y-axis waves oscillate.
    pub speed_y: u32,

    /// How much displacement the x-axis waves cause.
    pub amplitude_x: u32,

    /// How much displacement the y-axis waves cause.
    pub amplitude_y: u32,
}

impl Default for Wave {
    fn default() -> (r: Self)
        ensures
            r == (Wave {
                waves_x: 0,
                waves_y: 0,
                speed_x: 0,
                speed_y: 0,
                amplitude_x: 0,
                amplitude_y: 0,
            }),
    {
        Wave { waves_x: 0, waves_y: 0, speed_x: 0, speed_y: 0, amplitude_x: 0, amplitude_y: 0 }
    }
}

impl SimplePostProcess for Wave {
    open spec fn words(self) -> Seq<u32> {
        seq![
            self.waves_x,
            self.waves_y,
            self.speed_x,
            self.speed_y,
            self.amplitude_x,
            self.amplitude_y,
        ]
    }

    open spec fn size_words() -> nat {
        6
    }

    open spec fn decode_spec(w: Seq<u32>) -> Option<Wave> {
        if w.len() == 6 {
            Some(
                Wave {
                    waves_x: w[0],
                    waves_y: w[1],
                    speed_x: w[2],
                    speed_y: w[3],
                    amplitude_x: w[4],
                    amplitude_y: w[5],
                },
            )
        } else {
            None
        }
    }

    open spec fn shader_path_spec() -> Seq<char> {
        "assets/shaders/wave.wgsl"@
    }

    open spec fn label() -> PostProcessLabel {
        PostProcessLabel::Wave
    }

    open spec fn layout_spec() -> Seq<LayoutEntry> {
        seq![LayoutEntry::UniformBuffer { dynamic: true }]
    }

    open spec fn shader_defs_ok(defs: Seq<ShaderDefVal>) -> bool {
        defs.len() == 0
    }

    open spec fn textures_post(
        pre: AssetStore<Image>,
        post: AssetStore<Image>,
        r: TextureInputs,
    ) -> bool {
        post == pre && r == TextureInputs::Empty
    }

    proof fn lemma_size_bounds() {
    }

    proof fn lemma_words(self) {
    }

    proof fn lemma_layout_wf() {
        reveal_with_fuel(layout_wf_from, 3);
    }

    fn word_count() -> usize {
        6
    }

    fn to_words(&self) -> (r: Vec<u32>) {
        let mut v: Vec<u32> = Vec::new();
        v.push(self.waves_x);
        v.push(self.waves_y);
        v.push(self.speed_x);
        v.push(self.speed_y);
        v.push(self.amplitude_x);
        v.push(self.amplitude_y);
        proof {
            assert(v@ =~= self.words());
        }
        v
    }

    fn from_words(w: &Vec<u32>) -> (r: Option<Wave>) {
        if w.len() == 6 {
            Some(
                Wave {
                    waves_x: w[0],
                    waves_y: w[1],
                    speed_x: w[2],
                    speed_y: w[3],
                    amplitude_x: w[4],
                    amplitude_y: w[5],
                },
            )
        } else {
            None
        }
    }

    fn shader_path() -> (r: String) {
        String::from_str("assets/shaders/wave.wgsl")
    }

    fn node_label() -> PostProcessLabel {
        PostProcessLabel::Wave
    }

    fn layout() -> (r: BindGroupLayout) {
        let mut entries: Vec<LayoutEntry> = Vec::new();
        entries.push(LayoutEntry::UniformBuffer { dynamic: true });
        proof {
            assert(entries@ =~= Self::layout_spec());
        }
        BindGroupLayout { entries }
    }

    fn shader_defs() -> (r: Vec<ShaderDefVal>) {
        Vec::new()
    }

    fn textures(_assets: &mut AssetStore<Image>) -> (r: TextureInputs) {
        proof {
            reveal_with_fuel(texture_slots, 3);
            assert(texture_handles_of(TextureInputs::Empty) =~= Seq::<u64>::empty());
        }
        TextureInputs::Empty
    }
}

} // verus!
