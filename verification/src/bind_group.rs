//! The frame bind-group builder: for the current frame and view, produce the
//! list of resources to bind, in the slot order the effect's layout declares.
//! Construction fails fast — a texture whose GPU image the host has not
//! uploaded yet yields an error and the caller skips the draw for this frame —
//! rather than binding an absent resource.

use vstd::prelude::*;
use crate::host::{AssetStore, BindEntry, BindGroupLayout, GpuImage, LayoutEntry, assoc_lookup};
use crate::simple_post_process::TextureInputs;

verus! {

/// Why a bind group could not be built this frame.
#[derive(Clone, Copy, PartialEq, Eq, Structural, Debug)]
pub enum BindGroupError {
    /// A declared texture input has no GPU image yet; retry on a later frame.
    TextureNotReady,
}

/// The texture handles an effect declares, in declared order.
pub open spec fn texture_handles_of(t: TextureInputs) -> Seq<u64> {
    match t {
        TextureInputs::Empty => Seq::empty(),
        TextureInputs::Single(h) => seq![h],
        TextureInputs::Multiple(hs) => hs@,
    }
}

/// How many texture slots a layout declares.
pub open spec fn texture_slots(entries: Seq<LayoutEntry>) -> nat
    decreases entries.len(),
{
    if entries.len() == 0 {
        0
    } else {
        (if entries[0] is Texture2d || entries[0] is Texture3d {
            1nat
        } else {
            0nat
        }) + texture_slots(entries.drop_first())
    }
}

/// A sampler slot always follows some texture slot: walking the entries from
/// position `i` on, with `have` saying whether a texture slot was already
/// seen, every sampler slot is preceded by a texture slot.
pub open spec fn layout_wf_from(entries: Seq<LayoutEntry>, i: int, have: bool) -> bool
    decreases entries.len() - i,
{
    if i < 0 || i >= entries.len() {
        true
    } else {
        match entries[i] {
            LayoutEntry::Sampler => have && layout_wf_from(entries, i + 1, have),
            LayoutEntry::Texture2d => layout_wf_from(entries, i + 1, true),
            LayoutEntry::Texture3d => layout_wf_from(entries, i + 1, true),
            LayoutEntry::UniformBuffer { dynamic: _ } => layout_wf_from(entries, i + 1, have),
        }
    }
}

/// A layout the builder can serve: every sampler slot follows a texture slot,
/// whose image supplies the sampler.
pub open spec fn layout_wf(entries: Seq<LayoutEntry>) -> bool {
    layout_wf_from(entries, 0, false)
}

/// What the builder produces from position `i` of the layout on, given that
/// `hi` texture inputs are already consumed and `cur` is the GPU image of the
/// most recently bound texture.
pub open spec fn build_from(
    entries: Seq<LayoutEntry>,
    i: int,
    images: Seq<(u64, GpuImage)>,
    buffer: u64,
    handles: Seq<u64>,
    hi: int,
    cur: Option<GpuImage>,
) -> Result<Seq<BindEntry>, BindGroupError>
    decreases entries.len() - i,
{
    if i < 0 || i >= entries.len() {
        Ok(Seq::empty())
    } else {
        match entries[i] {
            LayoutEntry::UniformBuffer { dynamic: _ } => match build_from(
                entries,
                i + 1,
                images,
                buffer,
                handles,
                hi,
                cur,
            ) {
                Ok(rest) => Ok(seq![BindEntry::Buffer(buffer)] + rest),
                Err(e) => Err(e),
            },
            LayoutEntry::Sampler => match cur {
                Some(img) => match build_from(entries, i + 1, images, buffer, handles, hi, cur) {
                    Ok(rest) => Ok(seq![BindEntry::Sampler(img.sampler)] + rest),
                    Err(e) => Err(e),
                },
                None => Err(BindGroupError::TextureNotReady),
            },
            _ => {
                if 0 <= hi < handles.len() {
                    match assoc_lookup(images, handles[hi]) {
                        Some(img) => match build_from(
                            entries,
                            i + 1,
                            images,
                            buffer,
                            handles,
                            hi + 1,
                            Some(img),
                        ) {
                            Ok(rest) => Ok(seq![BindEntry::TextureView(img.texture_view)] + rest),
                            Err(e) => Err(e),
                        },
                        None => Err(BindGroupError::TextureNotReady),
                    }
                } else {
                    Err(BindGroupError::TextureNotReady)
                }
            },
        }
    }
}

/// The bind group a layout, the uploaded GPU images, the effect's settings
/// buffer and its texture inputs determine.
pub open spec fn build_bind_group_spec(
    entries: Seq<LayoutEntry>,
    images: Seq<(u64, GpuImage)>,
    buffer: u64,
    handles: Seq<u64>,
) -> Result<Seq<BindEntry>, BindGroupError> {
    build_from(entries, 0, images, buffer, handles, 0, None)
}

/// The texture views a bind group binds, in slot order.
pub open spec fn texture_views_in(entries: Seq<BindEntry>) -> Seq<u64>
    decreases entries.len(),
{
    if entries.len() == 0 {
        Seq::empty()
    } else {
        match entries[0] {
            BindEntry::TextureView(v) => seq![v] + texture_views_in(entries.drop_first()),
            _ => texture_views_in(entries.drop_first()),
        }
    }
}

/// Whether every declared texture from position `hi` on has an uploaded GPU
/// image.
pub open spec fn textures_ready_from(
    images: Seq<(u64, GpuImage)>,
    handles: Seq<u64>,
    hi: int,
) -> bool {
    forall|k: int|
        hi <= k < handles.len() ==> (#[trigger] assoc_lookup(images, handles[k])) is Some
}

/// Whether every declared texture has an uploaded GPU image.
pub open spec fn all_textures_ready(images: Seq<(u64, GpuImage)>, handles: Seq<u64>) -> bool {
    textures_ready_from(images, handles, 0)
}

proof fn lemma_build_from_textures(
    entries: Seq<LayoutEntry>,
    i: int,
    images: Seq<(u64, GpuImage)>,
    buffer: u64,
    handles: Seq<u64>,
    hi: int,
    cur: Option<GpuImage>,
)
    requires
        0 <= i <= entries.len(),
        0 <= hi <= handles.len(),
        texture_slots(entries.skip(i)) == handles.len() - hi,
        layout_wf_from(entries, i, cur is Some),
    ensures
        build_from(entries, i, images, buffer, handles, hi, cur) is Ok <==> textures_ready_from(
            images,
            handles,
            hi,
        ),
        build_from(entries, i, images, buffer, handles, hi, cur) matches Ok(r) ==> {
            &&& texture_views_in(r).len() == handles.len() - hi
            &&& forall|k: int|
                hi <= k < handles.len() ==> (assoc_lookup(images, #[trigger] handles[k]) matches Some(img)
                    && texture_views_in(r)[k - hi] == img.texture_view)
        },
    decreases entries.len() - i,
{
    if i >= entries.len() {
        assert(entries.skip(i).len() == 0);
        assert(build_from(entries, i, images, buffer, handles, hi, cur) == Ok::<
            Seq<BindEntry>,
            BindGroupError,
        >(Seq::empty()));
        assert(texture_views_in(Seq::<BindEntry>::empty()).len() == 0);
    } else {
        assert(entries.skip(i)[0] == entries[i]);
        assert(entries.skip(i).drop_first() =~= entries.skip(i + 1));
        match entries[i] {
            LayoutEntry::UniformBuffer { dynamic: _ } => {
                lemma_build_from_textures(entries, i + 1, images, buffer, handles, hi, cur);
                let rec = build_from(entries, i + 1, images, buffer, handles, hi, cur);
                if rec is Ok {
                    let rest = rec->Ok_0;
                    let whole = seq![BindEntry::Buffer(buffer)] + rest;
                    assert(whole[0] == BindEntry::Buffer(buffer));
                    assert(whole.drop_first() =~= rest);
                }
            },
            LayoutEntry::Sampler => {
                let img = cur->Some_0;
                lemma_build_from_textures(entries, i + 1, images, buffer, handles, hi, cur);
                let rec = build_from(entries, i + 1, images, buffer, handles, hi, cur);
                if rec is Ok {
                    let rest = rec->Ok_0;
                    let whole = seq![BindEntry::Sampler(img.sampler)] + rest;
                    assert(whole[0] == BindEntry::Sampler(img.sampler));
                    assert(whole.drop_first() =~= rest);
                }
            },
            _ => {
                assert(handles.len() - hi >= 1);
                match assoc_lookup(images, handles[hi]) {
                    Some(img) => {
                        lemma_build_from_textures(
                            entries,
                            i + 1,
                            images,
                            buffer,
                            handles,
                            hi + 1,
                            Some(img),
                        );
                        let rec = build_from(
                            entries,
                            i + 1,
                            images,
                            buffer,
                            handles,
                            hi + 1,
                            Some(img),
                        );
                        if rec is Ok {
                            let rest = rec->Ok_0;
                            let whole = seq![BindEntry::TextureView(img.texture_view)] + rest;
                            assert(whole[0] == BindEntry::TextureView(img.texture_view));
                            assert(whole.drop_first() =~= rest);
                            assert forall|k: int| hi <= k < handles.len() implies (
                            assoc_lookup(images, #[trigger] handles[k]) matches Some(im)
                                && texture_views_in(whole)[k - hi] == im.texture_view) by {
                                if k == hi {
                                    assert(texture_views_in(whole)[0] == img.texture_view);
                                } else {
                                    assert(texture_views_in(rest)[k - (hi + 1)]
                                        == assoc_lookup(images, handles[k])->Some_0.texture_view);
                                }
                            }
                        }
                    },
                    None => {
                        assert(!textures_ready_from(images, handles, hi));
                    },
                }
            },
        }
    }
}

/// Boundary law: an effect with no texture inputs gets a bind group that
/// binds no texture slot at all, and an effect with texture inputs gets
/// exactly its declared textures bound, in declared order. Construction
/// succeeds precisely when every declared texture has an uploaded GPU image.
pub proof fn lemma_bind_group_textures(
    entries: Seq<LayoutEntry>,
    images: Seq<(u64, GpuImage)>,
    buffer: u64,
    handles: Seq<u64>,
)
    requires
        layout_wf(entries),
        texture_slots(entries) == handles.len(),
    ensures
        build_bind_group_spec(entries, images, buffer, handles) is Ok <==> all_textures_ready(
            images,
            handles,
        ),
        build_bind_group_spec(entries, images, buffer, handles) matches Ok(r) ==> {
            &&& texture_views_in(r).len() == handles.len()
            &&& forall|k: int|
                0 <= k < handles.len() ==> (assoc_lookup(images, #[trigger] handles[k]) matches Some(img)
                    && texture_views_in(r)[k] == img.texture_view)
        },
{
    assert(entries.skip(0) =~= entries);
    lemma_build_from_textures(entries, 0, images, buffer, handles, 0, None);
}

/// How many texture inputs an effect supplies.
pub fn texture_handle_count(t: &TextureInputs) -> (n: usize)
    ensures
        n == texture_handles_of(*t).len(),
{
    match t {
        TextureInputs::Empty => 0,
        TextureInputs::Single(_) => 1,
        TextureInputs::Multiple(hs) => hs.len(),
    }
}

/// The `i`-th declared texture input.
pub fn texture_handle_at(t: &TextureInputs, i: usize) -> (h: u64)
    requires
        i < texture_handles_of(*t).len(),
    ensures
        h == texture_handles_of(*t)[i as int],
{
    match t {
        TextureInputs::Empty => 0,
        TextureInputs::Single(h) => *h,
        TextureInputs::Multiple(hs) => hs[i],
    }
}

/// Builds the bind group for one effect and frame: one bind entry per layout
/// slot, in slot order. Texture slots consume the declared texture inputs in
/// order; a sampler slot binds the sampler of the most recently bound
/// texture; a uniform-buffer slot binds the settings buffer.
pub fn build_bind_group(
    layout: &BindGroupLayout,
    images: &AssetStore<GpuImage>,
    buffer: u64,
    textures: &TextureInputs,
) -> (r: Result<Vec<BindEntry>, BindGroupError>)
    ensures
        match r {
            Ok(v) => build_bind_group_spec(
                layout.entries@,
                images.entries@,
                buffer,
                texture_handles_of(*textures),
            ) == Ok::<Seq<BindEntry>, BindGroupError>(v@),
            Err(e) => build_bind_group_spec(
                layout.entries@,
                images.entries@,
                buffer,
                texture_handles_of(*textures),
            ) == Err::<Seq<BindEntry>, BindGroupError>(e),
        },
{
    let ghost full = build_bind_group_spec(
        layout.entries@,
        images.entries@,
        buffer,
        texture_handles_of(*textures),
    );
    let n_handles = texture_handle_count(textures);
    let mut out: Vec<BindEntry> = Vec::new();
    let mut hi: usize = 0;
    let mut cur: Option<GpuImage> = None;
    let mut i: usize = 0;
    proof {
        if full is Ok {
            assert(Seq::<BindEntry>::empty() + full->Ok_0 =~= full->Ok_0);
        }
    }
    while i < layout.entries.len()
        invariant
            i <= layout.entries@.len(),
            hi <= texture_handles_of(*textures).len(),
            n_handles == texture_handles_of(*textures).len(),
            full == build_bind_group_spec(
                layout.entries@,
                images.entries@,
                buffer,
                texture_handles_of(*textures),
            ),
            match build_from(
                layout.entries@,
                i as int,
                images.entries@,
                buffer,
                texture_handles_of(*textures),
                hi as int,
                cur,
            ) {
                Ok(rest) => full == Ok::<Seq<BindEntry>, BindGroupError>(out@ + rest),
                Err(e) => full == Err::<Seq<BindEntry>, BindGroupError>(e),
            },
        decreases layout.entries@.len() - i,
    {
        let ghost rest_before = build_from(
            layout.entries@,
            i as int,
            images.entries@,
            buffer,
            texture_handles_of(*textures),
            hi as int,
            cur,
        );
        let ghost out_before = out@;
        match layout.entries[i] {
            LayoutEntry::UniformBuffer { dynamic: _ } => {
                out.push(BindEntry::Buffer(buffer));
                proof {
                    let rest_after = build_from(
                        layout.entries@,
                        i as int + 1,
                        images.entries@,
                        buffer,
                        texture_handles_of(*textures),
                        hi as int,
                        cur,
                    );
                    if rest_after is Ok {
                        assert(out@ + rest_after->Ok_0 =~= out_before + rest_before->Ok_0);
                    }
                }
            },
            LayoutEntry::Sampler => {
                match cur {
                    Some(img) => {
                        out.push(BindEntry::Sampler(img.sampler));
                        proof {
                            let rest_after = build_from(
                                layout.entries@,
                                i as int + 1,
                                images.entries@,
                                buffer,
                                texture_handles_of(*textures),
                                hi as int,
                                cur,
                            );
                            if rest_after is Ok {
                                assert(out@ + rest_after->Ok_0 =~= out_before
                                    + rest_before->Ok_0);
                            }
                        }
                    },
                    None => {
                        return Err(BindGroupError::TextureNotReady);
                    },
                }
            },
            _ => {
                if hi >= n_handles {
                    return Err(BindGroupError::TextureNotReady);
                }
                let h = texture_handle_at(textures, hi);
                match images.get(h) {
                    Some(img) => {
                        let img = *img;
                        out.push(BindEntry::TextureView(img.texture_view));
                        cur = Some(img);
                        hi = hi + 1;
                        proof {
                            let rest_after = build_from(
                                layout.entries@,
                                i as int + 1,
                                images.entries@,
                                buffer,
                                texture_handles_of(*textures),
                                hi as int,
                                cur,
                            );
                            if rest_after is Ok {
                                assert(out@ + rest_after->Ok_0 =~= out_before
                                    + rest_before->Ok_0);
                            }
                        }
                    },
                    None => {
                        return Err(BindGroupError::TextureNotReady);
                    },
                }
            },
        }
        i = i + 1;
    }
    proof {
        assert(out@ + Seq::<BindEntry>::empty() =~= out@);
    }
    Ok(out)
}

} // verus!
