use post_process_chain::chain::{
    default_effect_chain, default_graph_edges, registered_effects, GraphNode, PostProcessLabel,
    PostProcessingPlugin,
};

fn all_labels() -> Vec<PostProcessLabel> {
    vec![
        PostProcessLabel::Pixelate,
        PostProcessLabel::Test,
        PostProcessLabel::Flip,
        PostProcessLabel::Raindrops,
        PostProcessLabel::Mask,
        PostProcessLabel::Lut,
        PostProcessLabel::ChromaticAberration,
        PostProcessLabel::Blur,
        PostProcessLabel::Wave,
    ]
}

#[test]
fn chain_has_fixed_documented_order() {
    let chain = default_effect_chain();
    assert_eq!(chain, all_labels());
}

#[test]
fn chain_contains_each_effect_exactly_once() {
    let chain = default_effect_chain();
    for label in all_labels() {
        let count = chain.iter().filter(|l| **l == label).count();
        assert_eq!(count, 1, "{:?} should appear exactly once", label);
    }
}

#[test]
fn plugin_registers_same_effect_set_as_chain() {
    let registered = PostProcessingPlugin::effects();
    assert_eq!(registered, registered_effects());
    assert_eq!(registered.len(), 9);
    let chain = default_effect_chain();
    for label in all_labels() {
        let in_registration = registered.iter().filter(|l| **l == label).count();
        let in_chain = chain.iter().filter(|l| **l == label).count();
        assert_eq!(in_registration, 1);
        assert_eq!(in_chain, 1);
    }
}

#[test]
fn graph_edges_span_tonemapping_to_end_in_chain_order() {
    let chain = default_effect_chain();
    let edges = default_graph_edges();
    assert_eq!(edges.len(), chain.len() + 1);
    assert_eq!(edges[0].0, GraphNode::Tonemapping);
    assert_eq!(edges[edges.len() - 1].1, GraphNode::EndMainPassPostProcessing);
    for (i, label) in chain.iter().enumerate() {
        assert_eq!(edges[i].1, GraphNode::Effect(*label));
        assert_eq!(edges[i + 1].0, GraphNode::Effect(*label));
    }
}
