//! A darkening mask on the outer edges of the image, in three shapes; the
//! shape is a shader configuration flag, so changing it rebuilds the mask
//! pipeline.

use vstd::prelude::*;
use vstd::string::StringExecFns;
use crate::bind_group::{layout_wf_from, texture_handles_of, texture_slots};
use crate::chain::PostProcessLabel;
use crate::host::{AssetStore, BindGroupLayout, Image, LayoutEntry, ShaderDefVal};
use crate::simple_post_process::{SimplePostProcess, TextureInputs};

verus! {

/// Bits of the reasonable square-mask strength, twenty.
pub const MASK_SQUARE_STRENGTH_BITS: u32 = 0x41A00000;

/// Bits of the reasonable CRT-mask strength, eighty thousand.
pub const MASK_CRT_STRENGTH_BITS: u32 = 0x479C4000;

/// Bits of the reasonable vignette strength, sixty-six hundredths.
pub const MASK_VIGNETTE_STRENGTH_BITS: u32 = 0x3F28F5C3;

/// Which mask shape the shader applies. The shape selects a shader variant:
/// it travels as a configuration flag, not as a uniform value.
#[derive(Clone, Copy, PartialEq, Eq, Structural, Debug, Hash)]
pub enum MaskVariant {
    /// A rounded-square mask; one use is to attenuate other effects'
    /// edge artifacts.
    Square,
    /// A rounded square more oval like a CRT television.
    Crt,
    /// The classic photographic vignette.
    Vignette,
}

/// The flag key that selects a mask shape.
pub open spec fn mask_variant_key(v: MaskVariant) -> Seq<char> {
    match v {
        MaskVariant::Square => "SQUARE"@,
        MaskVariant::Crt => "CRT"@,
        MaskVariant::Vignette => "VIGNETTE"@,
    }
}

/// Whether a configuration flag selects the given mask shape.
pub open spec fn shader_def_names_variant(def: ShaderDefVal, v: MaskVariant) -> bool {
    def matches ShaderDefVal::Bool(k, _) && k@ == mask_variant_key(v)
}

/// Whether the mask decoding logic recognizes a configuration flag. A flag
/// outside this set is a programming error — a mismatch between effect author
/// code and the framework — and has no decoding.
pub open spec fn recognized_mask_def(def: ShaderDefVal) -> bool {
    exists|v: MaskVariant| shader_def_names_variant(def, v)
}

/// The mask shape a recognized configuration flag selects.
pub open spec fn mask_variant_of(def: ShaderDefVal) -> MaskVariant {
    if shader_def_names_variant(def, MaskVariant::Square) {
        MaskVariant::Square
    } else if shader_def_names_variant(def, MaskVariant::Crt) {
        MaskVariant::Crt
    } else {
        MaskVariant::Vignette
    }
}

impl MaskVariant {
    /// The configuration flag that selects this shape.
    pub fn to_shader_def(&self) -> (r: ShaderDefVal)
        ensures
            shader_def_names_variant(r, *self),
            r matches ShaderDefVal::Bool(_, v) && v == true,
    {
        match self {
            MaskVariant::Square => ShaderDefVal::Bool(String::from_str("SQUARE"), true),
            MaskVariant::Crt => ShaderDefVal::Bool(String::from_str("CRT"), true),
            MaskVariant::Vignette => ShaderDefVal::Bool(String::from_str("VIGNETTE"), true),
        }
    }

    /// Decodes a configuration flag; `None` for a flag the mask logic does
    /// not recognize, which callers treat as a fatal programming error.
    pub fn try_from_shader_def(def: &ShaderDefVal) -> (r: Option<MaskVariant>)
        ensures
            r == if recognized_mask_def(*def) {
                Some(mask_variant_of(*def))
            } else {
                None::<MaskVariant>
            },
    {
        match def {
            ShaderDefVal::Bool(k, _) => {
                let square = String::from_str("SQUARE");
                let crt = String::from_str("CRT");
                let vignette = String::from_str("VIGNETTE");
                if *k == square {
                    proof {
                        assert(shader_def_names_variant(*def, MaskVariant::Square));
                    }
                    Some(MaskVariant::Square)
                } else if *k == crt {
                    proof {
                        assert(shader_def_names_variant(*def, MaskVariant::Crt));
                    }
                    Some(MaskVariant::Crt)
                } else if *k == vignette {
                    proof {
                        assert(shader_def_names_variant(*def, MaskVariant::Vignette));
                    }
                    Some(MaskVariant::Vignette)
                } else {
                    proof {
                        assert forall|v: MaskVariant| !shader_def_names_variant(*def, v) by {
                            assert(!shader_def_names_variant(*def, MaskVariant::Square));
                            assert(!shader_def_names_variant(*def, MaskVariant::Crt));
                            assert(!shader_def_names_variant(*def, MaskVariant::Vignette));
                        }
                    }
                    None
                }
            },
            _ => {
                proof {
                    assert forall|v: MaskVariant| !shader_def_names_variant(*def, v) by {
                        assert(!(*def matches ShaderDefVal::Bool(k, _)));
                    }
                }
                None
            },
        }
    }

    /// Decodes a flag known to be recognized.
    pub fn from_shader_def(def: &ShaderDefVal) -> (r: MaskVariant)
        requires
            recognized_mask_def(*def),
        ensures
            r == mask_variant_of(*def),
            shader_def_names_variant(*def, r),
    {
        let r = Self::try_from_shader_def(def);
        match r {
            Some(v) => v,
            None => MaskVariant::Vignette,
        }
    }
}

/// Mask settings. Both fields hold IEEE 754 binary32 bit patterns; the
/// framework transports them to the shader without interpreting them.
#[derive(Clone, Copy, PartialEq, Eq, Structural, Debug)]
pub struct Mask {
    /// The strength of the mask shape in use; sensible ranges differ per
    /// shape by orders of magnitude.
    pub strength: u32,

    /// How much the mask is faded: the pattern of one disables the mask, zero
    /// applies it fully.
    pub fade: u32,
}

impl Mask {
    /// A square mask with a reasonable strength.
    pub fn square() -> (r: Self)
        ensures
            r == (Mask { strength: MASK_SQUARE_STRENGTH_BITS, fade: 0 }),
    {
        Mask { strength: MASK_SQUARE_STRENGTH_BITS, fade: 0 }
    }

    /// A CRT mask with a reasonable strength.
    pub fn crt() -> (r: Self)
        ensures
            r == (Mask { strength: MASK_CRT_STRENGTH_BITS, fade: 0 }),
    {
        Mask { strength: MASK_CRT_STRENGTH_BITS, fade: 0 }
    }

    /// A vignette with a reasonable strength.
    pub fn vignette() -> (r: Self)
        ensures
            r == (Mask { strength: MASK_VIGNETTE_STRENGTH_BITS, fade: 0 }),
    {
        Mask { strength: MASK_VIGNETTE_STRENGTH_BITS, fade: 0 }
    }
}

impl Default for Mask {
    fn default() -> (r: Self)
        ensures
            r == (Mask { strength: MASK_VIGNETTE_STRENGTH_BITS, fade: 0 }),
    {
        Mask::vignette()
    }
}

impl SimplePostProcess for Mask {
    open spec fn words(self) -> Seq<u32> {
        seq![self.strength, self.fade]
    }

    open spec fn size_words() -> nat {
        2
    }

    open spec fn decode_spec(w: Seq<u32>) -> Option<Mask> {
        if w.len() == 2 {
            Some(Mask { strength: w[0], fade: w[1] })
        } else {
            None
        }
    }

    open spec fn shader_path_spec() -> Seq<char> {
        "assets/shaders/masks.wgsl"@
    }

    open spec fn label() -> PostProcessLabel {
        PostProcessLabel::Mask
    }

    open spec fn layout_spec() -> Seq<LayoutEntry> {
        seq![LayoutEntry::UniformBuffer { dynamic: true }]
    }

    /// The mask starts as a vignette.
    open spec fn shader_defs_ok(defs: Seq<ShaderDefVal>) -> bool {
        &&& defs.len() == 1
        &&& shader_def_names_variant(defs[0], MaskVariant::Vignette)
    }

    open spec fn textures_post(
        pre: AssetStore<Image>,
        post: AssetStore<Image>,
        r: TextureInputs,
    ) -> bool {
        post == pre && r == TextureInputs::Empty
    }

    proof fn lemma_size_bounds() {
    }

    proof fn lemma_words(self) {
    }

    proof fn lemma_layout_wf() {
        reveal_with_fuel(layout_wf_from, 3);
    }

    fn word_count() -> usize {
        2
    }

    fn to_words(&self) -> (r: Vec<u32>) {
        let mut v: Vec<u32> = Vec::new();
        v.push(self.strength);
        v.push(self.fade);
        proof {
            assert(v@ =~= self.words());
        }
        v
    }

    fn from_words(w: &Vec<u32>) -> (r: Option<Mask>) {
        if w.len() == 2 {
            Some(Mask { strength: w[0], fade: w[1] })
        } else {
            None
        }
    }

    fn shader_path() -> (r: String) {
        String::from_str("assets/shaders/masks.wgsl")
    }

    fn node_label() -> PostProcessLabel {
        PostProcessLabel::Mask
    }

    fn layout() -> (r: BindGroupLayout) {
        let mut entries: Vec<LayoutEntry> = Vec::new();
        entries.push(LayoutEntry::UniformBuffer { dynamic: true });
        proof {
            assert(entries@ =~= Self::layout_spec());
        }
        BindGroupLayout { entries }
    }

    fn shader_defs() -> (r: Vec<ShaderDefVal>) {
        let variant = MaskVariant::Vignette;
        let mut v: Vec<ShaderDefVal> = Vec::new();
        v.push(variant.to_shader_def());
        v
    }

    fn textures(_assets: &mut AssetStore<Image>) -> (r: TextureInputs) {
        proof {
            reveal_with_fuel(texture_slots, 3);
            assert(texture_handles_of(TextureInputs::Empty) =~= Seq::<u64>::empty());
        }
        TextureInputs::Empty
    }
}

} // verus!
