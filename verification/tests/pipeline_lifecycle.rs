use post_process_chain::chain::PostProcessLabel;
use post_process_chain::host::{LayoutEntry, PipelineCache, RenderDevice, ShaderDefVal, VertexState};
use post_process_chain::masks::{Mask, MaskVariant};
use post_process_chain::simple_post_process::{
    post_process_shader_def_system, PostProcessPipeline, PostProcessShaderDef,
};

#[test]
fn first_use_queues_pipeline_with_declared_configuration() {
    let mut device = RenderDevice::new();
    let mut cache = PipelineCache::new();
    let pipeline = PostProcessPipeline::<Mask>::new(&mut device, &mut cache);
    assert_eq!(pipeline.pipeline_id(), 0);
    assert_eq!(cache.descriptors.len(), 1);
    let d = &cache.descriptors[0];
    assert_eq!(d.shader, PostProcessLabel::Mask);
    assert_eq!(d.vertex, VertexState::FullscreenTriangle);
    assert_eq!(
        d.layout[0].entries,
        vec![
            LayoutEntry::Texture2d,
            LayoutEntry::Sampler,
            LayoutEntry::UniformBuffer { dynamic: false },
        ],
    );
    assert_eq!(d.layout[1].entries, vec![LayoutEntry::UniformBuffer { dynamic: true }]);
    // the mask starts as a vignette
    assert_eq!(d.shader_defs.len(), 1);
    match &d.shader_defs[0] {
        ShaderDefVal::Bool(key, value) => {
            assert_eq!(key, "VIGNETTE");
            assert!(*value);
        },
        other => panic!("expected a boolean flag, got {:?}", other),
    }
    // compilation is asynchronous: the fresh pipeline is not ready yet
    assert!(cache.get_render_pipeline(pipeline.pipeline_id()).is_none());
    cache.finish_compilation(pipeline.pipeline_id());
    assert_eq!(cache.get_render_pipeline(pipeline.pipeline_id()), Some(pipeline.pipeline_id()));
}

#[test]
fn preparing_twice_with_unchanged_configuration_keeps_pipeline_id() {
    let mut device = RenderDevice::new();
    let mut cache = PipelineCache::new();
    let mut pipeline = PostProcessPipeline::<Mask>::new(&mut device, &mut cache);
    let mut shader_def = PostProcessShaderDef::<Mask>::default();
    let id0 = pipeline.pipeline_id();
    post_process_shader_def_system(&mut shader_def, &mut pipeline, &mut cache);
    assert_eq!(pipeline.pipeline_id(), id0);
    assert_eq!(cache.descriptors.len(), 1);
    post_process_shader_def_system(&mut shader_def, &mut pipeline, &mut cache);
    assert_eq!(pipeline.pipeline_id(), id0);
    assert_eq!(cache.descriptors.len(), 1);
}

#[test]
fn configuration_change_goes_stale_and_rebuilds_with_fresh_id() {
    let mut device = RenderDevice::new();
    let mut cache = PipelineCache::new();
    let mut pipeline = PostProcessPipeline::<Mask>::new(&mut device, &mut cache);
    let mut shader_def = PostProcessShaderDef::<Mask>::default();
    let id0 = pipeline.pipeline_id();
    cache.finish_compilation(id0);

    // change the mask shape from the square to the vignette variant
    shader_def.set_shader_defs(vec![MaskVariant::Square.to_shader_def()]);
    assert!(shader_def.changed());
    post_process_shader_def_system(&mut shader_def, &mut pipeline, &mut cache);
    let id1 = pipeline.pipeline_id();
    assert_ne!(id1, id0, "a rebuild must swap to a fresh pipeline id");
    assert!(!shader_def.changed(), "the rebuild clears the dirty mark");

    shader_def.set_shader_defs(vec![MaskVariant::Vignette.to_shader_def()]);
    post_process_shader_def_system(&mut shader_def, &mut pipeline, &mut cache);
    let id2 = pipeline.pipeline_id();
    assert_ne!(id2, id1);
    assert_ne!(id2, id0);

    // the requeued descriptor carries exactly the new flags
    let d = &cache.descriptors[id2];
    assert_eq!(d.shader_defs.len(), 1);
    match &d.shader_defs[0] {
        ShaderDefVal::Bool(key, value) => {
            assert_eq!(key, "VIGNETTE");
            assert!(*value);
        },
        other => panic!("expected a boolean flag, got {:?}", other),
    }

    // no gap for in-flight frames: earlier ids keep their readiness
    assert_eq!(cache.get_render_pipeline(id0), Some(id0));
    assert!(cache.get_render_pipeline(id1).is_none());
    assert!(cache.get_render_pipeline(id2).is_none());
    cache.finish_compilation(id2);
    assert_eq!(cache.get_render_pipeline(id2), Some(id2));
}
