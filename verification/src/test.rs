//! The base test effect: a single intensity parameter, useful to exercise
//! the whole framework with the simplest possible settings record.

use vstd::prelude::*;
use vstd::string::StringExecFns;
use crate::bind_group::{layout_wf_from, texture_handles_of, texture_slots};
use crate::chain::PostProcessLabel;
use crate::host::{AssetStore, BindGroupLayout, Image, LayoutEntry, ShaderDefVal};
use crate::simple_post_process::{SimplePostProcess, TextureInputs};

verus! {

/// Test effect settings. The field holds an IEEE 754 binary32 bit pattern;
/// the framework transports it to the shader without interpreting it.
#[derive(Clone, Copy, PartialEq, Eq, Structural, Debug)]
pub struct TestPostProcessSettings {
    /// The effect's intensity.
    pub intensity: u32,
}

impl Default for TestPostProcessSettings {
    fn default() -> (r: Self)
        ensures
            r == (TestPostProcessSettings { intensity: 0 }),
    {
        TestPostProcessSettings { intensity: 0 }
    }
}

impl SimplePostProcess for TestPostProcessSettings {
    open spec fn words(self) -> Seq<u32> {
        seq![self.intensity]
    }

    open spec fn size_words() -> nat {
        1
    }

    open spec fn decode_spec(w: Seq<u32>) -> Option<TestPostProcessSettings> {
        if w.len() == 1 {
            Some(TestPostProcessSettings { intensity: w[0] })
        } else {
            None
        }
    }

    open spec fn shader_path_spec() -> Seq<char> {
        "assets/shaders/post_processing.wgsl"@
    }

    open spec fn label() -> PostProcessLabel {
        PostProcessLabel::Test
    }

    open spec fn layout_spec() -> Seq<LayoutEntry> {
        seq![LayoutEntry::UniformBuffer { dynamic: true }]
    }

    open spec fn shader_defs_ok(defs: Seq<ShaderDefVal>) -> bool {
        defs.len() == 0
    }

    open spec fn textures_post(
        pre: AssetStore<Image>,
        post: AssetStore<Image>,
        r: TextureInputs,
    ) -> bool {
        post == pre && r == TextureInputs::Empty
    }

    proof fn lemma_size_bounds() {
    }

    proof fn lemma_words(self) {
    }

    proof fn lemma_layout_wf() {
        reveal_with_fuel(layout_wf_from, 3);
    }

    fn word_count() -> usize {
        1
    }

    fn to_words(&self) -> (r: Vec<u32>) {
        let mut v: Vec<u32> = Vec::new();
        v.push(self.intensity);
        proof {
            assert(v@ =~= self.words());
        }
        v
    }

    fn from_words(w: &Vec<u32>) -> (r: Option<TestPostProcessSettings>) {
        if w.len() == 1 {
            Some(TestPostProcessSettings { intensity: w[0] })
        } else {
            None
        }
    }

    fn shader_path() -> (r: String) {
        String::from_str("assets/shaders/post_processing.wgsl")
    }

    fn node_label() -> PostProcessLabel {
        PostProcessLabel::Test
    }

    fn layout() -> (r: BindGroupLayout) {
        let mut entries: Vec<LayoutEntry> = Vec::new();
        entries.push(LayoutEntry::UniformBuffer { dynamic: true });
        proof {
            assert(entries@ =~= Self::layout_spec());
        }
        BindGroupLayout { entries }
    }

    fn shader_defs() -> (r: Vec<ShaderDefVal>) {
        Vec::new()
    }

    fn textures(_assets: &mut AssetStore<Image>) -> (r: TextureInputs) {
        proof {
            reveal_with_fuel(texture_slots, 3);
            assert(texture_handles_of(TextureInputs::Empty) =~= Seq::<u64>::empty());
        }
        TextureInputs::Empty
    }
}

} // verus!
