//! The chain composer: every effect's render-graph node sits at a fixed
//! position between the host's tonemapping stage and its end-of-post-processing
//! stage. The order is a design decision, not user-configurable; changing it
//! changes the visual composition.

use vstd::prelude::*;

verus! {

/// Identifies one post-processing effect type.
#[derive(Clone, Copy, PartialEq, Eq, Structural, Debug)]
pub enum PostProcessLabel {
    Pixelate,
    Test,
    Flip,
    Raindrops,
    Mask,
    Lut,
    ChromaticAberration,
    Blur,
    Wave,
}

/// A node of the host's render graph that the chain touches: the two host
/// stages the chain is spliced between, and the effect nodes themselves.
#[derive(Clone, Copy, PartialEq, Eq, Structural, Debug)]
pub enum GraphNode {
    /// The host's tonemapping stage; the chain starts right after it.
    Tonemapping,
    /// One effect's node.
    Effect(PostProcessLabel),
    /// The host's end-of-post-processing stage; the chain ends right before it.
    EndMainPassPostProcessing,
}

/// The fixed effect order, outermost to innermost.
pub open spec fn default_chain_spec() -> Seq<PostProcessLabel> {
    seq![
        PostProcessLabel::Pixelate,
        PostProcessLabel::Test,
        PostProcessLabel::Flip,
        PostProcessLabel::Raindrops,
        PostProcessLabel::Mask,
        PostProcessLabel::Lut,
        PostProcessLabel::ChromaticAberration,
        PostProcessLabel::Blur,
        PostProcessLabel::Wave,
    ]
}

/// How often `l` occurs in `s`.
pub open spec fn occurrences(s: Seq<PostProcessLabel>, l: PostProcessLabel) -> nat
    decreases s.len(),
{
    if s.len() == 0 {
        0
    } else {
        occurrences(s.drop_last(), l) + (if s.last() == l {
            1nat
        } else {
            0nat
        })
    }
}

/// The chain, as the composer hands it to the host: the fixed order of
/// `default_chain_spec`, with every registered effect exactly once.
pub fn default_effect_chain() -> (r: Vec<PostProcessLabel>)
    ensures
        r@ == default_chain_spec(),
{
    let mut v: Vec<PostProcessLabel> = Vec::new();
    v.push(PostProcessLabel::Pixelate);
    v.push(PostProcessLabel::Test);
    v.push(PostProcessLabel::Flip);
    v.push(PostProcessLabel::Raindrops);
    v.push(PostProcessLabel::Mask);
    v.push(PostProcessLabel::Lut);
    v.push(PostProcessLabel::ChromaticAberration);
    v.push(PostProcessLabel::Blur);
    v.push(PostProcessLabel::Wave);
    proof {
        assert(v@ =~= default_chain_spec());
    }
    v
}

/// The edge list the composer registers with the host's render graph:
/// tonemapping feeds the first effect, each effect feeds the next, the last
/// effect feeds the end-of-post-processing stage.
pub open spec fn default_graph_edges_spec() -> Seq<(GraphNode, GraphNode)> {
    seq![
        (GraphNode::Tonemapping, GraphNode::Effect(PostProcessLabel::Pixelate)),
        (GraphNode::Effect(PostProcessLabel::Pixelate), GraphNode::Effect(PostProcessLabel::Test)),
        (GraphNode::Effect(PostProcessLabel::Test), GraphNode::Effect(PostProcessLabel::Flip)),
        (GraphNode::Effect(PostProcessLabel::Flip), GraphNode::Effect(PostProcessLabel::Raindrops)),
        (GraphNode::Effect(PostProcessLabel::Raindrops), GraphNode::Effect(PostProcessLabel::Mask)),
        (GraphNode::Effect(PostProcessLabel::Mask), GraphNode::Effect(PostProcessLabel::Lut)),
        (GraphNode::Effect(PostProcessLabel::Lut), GraphNode::Effect(PostProcessLabel::ChromaticAberration)),
        (GraphNode::Effect(PostProcessLabel::ChromaticAberration), GraphNode::Effect(PostProcessLabel::Blur)),
        (GraphNode::Effect(PostProcessLabel::Blur), GraphNode::Effect(PostProcessLabel::Wave)),
        (GraphNode::Effect(PostProcessLabel::Wave), GraphNode::EndMainPassPostProcessing),
    ]
}

/// Builds the edge list of `default_graph_edges_spec`.
pub fn default_graph_edges() -> (r: Vec<(GraphNode, GraphNode)>)
    ensures
        r@ == default_graph_edges_spec(),
{
    let mut v: Vec<(GraphNode, GraphNode)> = Vec::new();
    v.push((GraphNode::Tonemapping, GraphNode::Effect(PostProcessLabel::Pixelate)));
    v.push((GraphNode::Effect(PostProcessLabel::Pixelate), GraphNode::Effect(PostProcessLabel::Test)));
    v.push((GraphNode::Effect(PostProcessLabel::Test), GraphNode::Effect(PostProcessLabel::Flip)));
    v.push((GraphNode::Effect(PostProcessLabel::Flip), GraphNode::Effect(PostProcessLabel::Raindrops)));
    v.push((GraphNode::Effect(PostProcessLabel::Raindrops), GraphNode::Effect(PostProcessLabel::Mask)));
    v.push((GraphNode::Effect(PostProcessLabel::Mask), GraphNode::Effect(PostProcessLabel::Lut)));
    v.push((GraphNode::Effect(PostProcessLabel::Lut), GraphNode::Effect(PostProcessLabel::ChromaticAberration)));
    v.push((GraphNode::Effect(PostProcessLabel::ChromaticAberration), GraphNode::Effect(PostProcessLabel::Blur)));
    v.push((GraphNode::Effect(PostProcessLabel::Blur), GraphNode::Effect(PostProcessLabel::Wave)));
    v.push((GraphNode::Effect(PostProcessLabel::Wave), GraphNode::EndMainPassPostProcessing));
    proof {
        assert(v@ =~= default_graph_edges_spec());
    }
    v
}

/// Every registered effect appears in the default chain exactly once.
pub proof fn lemma_chain_each_effect_once(l: PostProcessLabel)
    ensures
        occurrences(default_chain_spec(), l) == 1,
{
    reveal_with_fuel(occurrences, 11);
}

/// The edge list strings the chain together in order: it has one edge more
/// than the chain has effects, starts at tonemapping, ends at the
/// end-of-post-processing stage, and the edge before and after each effect
/// name that effect.
pub proof fn lemma_edges_cover_chain()
    ensures
        default_graph_edges_spec().len() == default_chain_spec().len() + 1,
        default_graph_edges_spec()[0].0 == GraphNode::Tonemapping,
        default_graph_edges_spec()[default_chain_spec().len() as int].1
            == GraphNode::EndMainPassPostProcessing,
        forall|i: int|
            0 <= i < default_chain_spec().len() ==> (#[trigger] default_graph_edges_spec()[i]).1
                == GraphNode::Effect(default_chain_spec()[i]),
        forall|i: int|
            0 <= i < default_chain_spec().len() ==> (#[trigger] default_graph_edges_spec()[i + 1]).0
                == GraphNode::Effect(default_chain_spec()[i]),
{
}

/// The registration order in which the top-level plugin adds the per-effect
/// plugins. Registration order does not decide the draw order — the graph
/// edges of `default_graph_edges_spec` do — but it covers the same effects.
pub open spec fn registered_effects_spec() -> Seq<PostProcessLabel> {
    seq![
        PostProcessLabel::Test,
        PostProcessLabel::Flip,
        PostProcessLabel::Raindrops,
        PostProcessLabel::Mask,
        PostProcessLabel::Lut,
        PostProcessLabel::ChromaticAberration,
        PostProcessLabel::Blur,
        PostProcessLabel::Wave,
        PostProcessLabel::Pixelate,
    ]
}

/// The top-level plugin: registers every shipped effect type and the default
/// chain order with the host.
pub struct PostProcessingPlugin;

impl PostProcessingPlugin {
    /// The effect types the plugin registers, in registration order.
    pub fn effects() -> (r: Vec<PostProcessLabel>)
        ensures
            r@ == registered_effects_spec(),
    {
        registered_effects()
    }
}

/// The effect types the top-level plugin registers, in registration order.
pub fn registered_effects() -> (r: Vec<PostProcessLabel>)
    ensures
        r@ == registered_effects_spec(),
{
    let mut v: Vec<PostProcessLabel> = Vec::new();
    v.push(PostProcessLabel::Test);
    v.push(PostProcessLabel::Flip);
    v.push(PostProcessLabel::Raindrops);
    v.push(PostProcessLabel::Mask);
    v.push(PostProcessLabel::Lut);
    v.push(PostProcessLabel::ChromaticAberration);
    v.push(PostProcessLabel::Blur);
    v.push(PostProcessLabel::Wave);
    v.push(PostProcessLabel::Pixelate);
    proof {
        assert(v@ =~= registered_effects_spec());
    }
    v
}

/// The plugin registers exactly the effect set that the chain orders: each
/// effect once in either list.
pub proof fn lemma_registration_matches_chain(l: PostProcessLabel)
    ensures
        occurrences(registered_effects_spec(), l) == occurrences(default_chain_spec(), l),
{
    reveal_with_fuel(occurrences, 11);
}

} // verus!
