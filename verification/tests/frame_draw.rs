use post_process_chain::bind_group::{build_bind_group, BindGroupError};
use post_process_chain::blur::Blur;
use post_process_chain::flip::{Flip, FlipUniform};
use post_process_chain::host::{
    AssetStore, BindEntry, BindGroupLayout, GlobalsBuffer, GpuImage, LayoutEntry, PipelineCache,
    RenderDevice, ViewTarget,
};
use post_process_chain::raindrops::Raindrops;
use post_process_chain::simple_post_process::{
    NodeOutcome, PostProcessImage, PostProcessNode, PostProcessPipeline, SkipReason, TextureInputs,
};
use post_process_chain::uniforms::{extract_settings, SettingsUniforms};

#[test]
fn flip_uniform_round_trips_and_node_draws_once_built() {
    let mut device = RenderDevice::new();
    let mut cache = PipelineCache::new();
    let pipeline = PostProcessPipeline::<FlipUniform>::new(&mut device, &mut cache);
    let mut image_assets = AssetStore::new();
    let image = PostProcessImage::<FlipUniform>::new(&mut image_assets);
    let gpu_images = AssetStore::<GpuImage>::new();
    let globals = GlobalsBuffer { buffer: Some(77) };
    let mut uniforms = SettingsUniforms::<FlipUniform>::new(40);

    // the horizontal flip is {x: 1.0, y: 0.0}
    let main_world = FlipUniform::from(Flip::Horizontal);
    assert_eq!(f32::from_bits(main_world.x), 1.0);
    assert_eq!(f32::from_bits(main_world.y), 0.0);

    // extraction copies by value; the uniform write reads back exactly
    let extracted = extract_settings(&main_world);
    assert_eq!(extracted, main_world);
    let ix = uniforms.push(&extracted);
    assert_eq!(uniforms.read(ix), Some(main_world));

    let node = PostProcessNode::<FlipUniform>::new();
    let mut target = ViewTarget { texture_a: 1, texture_b: 2, main_is_a: true };

    // not compiled yet: the node skips and must not flip the target
    match node.run(&mut target, ix, &pipeline, &image, &cache, &uniforms, &globals, &gpu_images) {
        NodeOutcome::Skipped(reason) => assert_eq!(reason, SkipReason::PipelineNotReady),
        NodeOutcome::Drawn(_) => panic!("the pipeline is not compiled yet"),
    }
    assert!(target.main_is_a);

    // globals absent: still skipped, still no flip
    let no_globals = GlobalsBuffer { buffer: None };
    match node.run(&mut target, ix, &pipeline, &image, &cache, &uniforms, &no_globals, &gpu_images)
    {
        NodeOutcome::Skipped(reason) => assert_eq!(reason, SkipReason::PipelineNotReady),
        NodeOutcome::Drawn(_) => panic!("the pipeline is not compiled yet"),
    }
    cache.finish_compilation(pipeline.pipeline_id());
    match node.run(&mut target, ix, &pipeline, &image, &cache, &uniforms, &no_globals, &gpu_images)
    {
        NodeOutcome::Skipped(reason) => assert_eq!(reason, SkipReason::GlobalsMissing),
        NodeOutcome::Drawn(_) => panic!("the globals buffer is missing"),
    }
    assert!(target.main_is_a);

    // built and bound: the node draws without skipping
    match node.run(&mut target, ix, &pipeline, &image, &cache, &uniforms, &globals, &gpu_images) {
        NodeOutcome::Drawn(cmd) => {
            assert_eq!(cmd.pipeline_id, pipeline.pipeline_id());
            assert_eq!(
                cmd.group0,
                vec![
                    BindEntry::TextureView(1),
                    BindEntry::Sampler(pipeline.sampler()),
                    BindEntry::Buffer(77),
                ],
            );
            assert_eq!(cmd.group1, vec![BindEntry::Buffer(40)]);
            assert_eq!(cmd.settings_offset, Some(0));
            assert_eq!(cmd.destination, 2);
            assert_eq!(cmd.vertices, 3);
            assert_eq!(cmd.instances, 1);
        },
        NodeOutcome::Skipped(reason) => panic!("should draw, but skipped: {:?}", reason),
    }
    // the ping-pong pair flipped: the destination is now the main texture
    assert!(!target.main_is_a);
}

#[test]
fn two_views_get_independent_bind_groups_in_one_frame() {
    let mut device = RenderDevice::new();
    let mut cache = PipelineCache::new();
    let pipeline = PostProcessPipeline::<Blur>::new(&mut device, &mut cache);
    cache.finish_compilation(pipeline.pipeline_id());
    let mut image_assets = AssetStore::new();
    let image = PostProcessImage::<Blur>::new(&mut image_assets);
    let gpu_images = AssetStore::<GpuImage>::new();
    let globals = GlobalsBuffer { buffer: Some(5) };
    let mut uniforms = SettingsUniforms::<Blur>::new(90);

    let strong = Blur { amount: 1.0f32.to_bits(), kernel_radius: 0.02f32.to_bits() };
    let weak = Blur { amount: 0.1f32.to_bits(), kernel_radius: 0.01f32.to_bits() };
    let ix_strong = uniforms.push(&extract_settings(&strong));
    let ix_weak = uniforms.push(&extract_settings(&weak));
    assert_ne!(ix_strong, ix_weak);
    // each view's record reads back its own values
    assert_eq!(uniforms.read(ix_strong), Some(strong));
    assert_eq!(uniforms.read(ix_weak), Some(weak));

    let node = PostProcessNode::<Blur>::new();
    let mut target_one = ViewTarget { texture_a: 11, texture_b: 12, main_is_a: true };
    let mut target_two = ViewTarget { texture_a: 21, texture_b: 22, main_is_a: false };
    let cmd_one = match node.run(
        &mut target_one,
        ix_strong,
        &pipeline,
        &image,
        &cache,
        &uniforms,
        &globals,
        &gpu_images,
    ) {
        NodeOutcome::Drawn(cmd) => cmd,
        NodeOutcome::Skipped(reason) => panic!("should draw, but skipped: {:?}", reason),
    };
    let cmd_two = match node.run(
        &mut target_two,
        ix_weak,
        &pipeline,
        &image,
        &cache,
        &uniforms,
        &globals,
        &gpu_images,
    ) {
        NodeOutcome::Drawn(cmd) => cmd,
        NodeOutcome::Skipped(reason) => panic!("should draw, but skipped: {:?}", reason),
    };
    // a two-word record pads to the 64-word dynamic alignment
    assert_eq!(cmd_one.settings_offset, Some(0));
    assert_eq!(cmd_two.settings_offset, Some(64));
    // each draw reads only its own view's settings at its offset
    assert_eq!(uniforms.read(ix_strong), Some(strong));
    assert_eq!(uniforms.read(ix_weak), Some(weak));
    // and writes only its own view's destination
    assert_eq!(cmd_one.destination, 12);
    assert_eq!(cmd_two.destination, 21);
}

#[test]
fn raindrops_bind_auxiliary_texture_before_sampler_and_uniform() {
    let mut device = RenderDevice::new();
    let mut cache = PipelineCache::new();
    let pipeline = PostProcessPipeline::<Raindrops>::new(&mut device, &mut cache);
    cache.finish_compilation(pipeline.pipeline_id());
    let mut image_assets = AssetStore::new();
    // registers the raindrops texture under a fresh handle
    let image = PostProcessImage::<Raindrops>::new(&mut image_assets);
    assert_eq!(image_assets.entries.len(), 1);
    let raindrops_handle = image_assets.entries[0].0;
    let globals = GlobalsBuffer { buffer: Some(3) };
    let mut uniforms = SettingsUniforms::<Raindrops>::new(50);
    let ix = uniforms.push(&Raindrops::default());
    let node = PostProcessNode::<Raindrops>::new();
    let mut target = ViewTarget { texture_a: 1, texture_b: 2, main_is_a: true };

    // the GPU image is not uploaded yet: fail fast, skip, no flip
    let gpu_images = AssetStore::<GpuImage>::new();
    match node.run(&mut target, ix, &pipeline, &image, &cache, &uniforms, &globals, &gpu_images) {
        NodeOutcome::Skipped(reason) => assert_eq!(reason, SkipReason::TextureNotReady),
        NodeOutcome::Drawn(_) => panic!("the raindrops texture has no GPU image yet"),
    }
    assert!(target.main_is_a);

    let mut gpu_images = AssetStore::<GpuImage>::new();
    gpu_images.insert(raindrops_handle, GpuImage { texture_view: 500, sampler: 600 });
    match node.run(&mut target, ix, &pipeline, &image, &cache, &uniforms, &globals, &gpu_images) {
        NodeOutcome::Drawn(cmd) => {
            // declared slot order: texture, its sampler, the settings uniform
            assert_eq!(
                cmd.group1,
                vec![
                    BindEntry::TextureView(500),
                    BindEntry::Sampler(600),
                    BindEntry::Buffer(50),
                ],
            );
        },
        NodeOutcome::Skipped(reason) => panic!("should draw, but skipped: {:?}", reason),
    }
}

#[test]
fn effect_without_texture_inputs_binds_no_texture_slot() {
    let layout = BindGroupLayout { entries: vec![LayoutEntry::UniformBuffer { dynamic: true }] };
    let gpu_images = AssetStore::<GpuImage>::new();
    let group = build_bind_group(&layout, &gpu_images, 9, &TextureInputs::Empty).unwrap();
    assert_eq!(group, vec![BindEntry::Buffer(9)]);
    for entry in &group {
        assert!(!matches!(entry, BindEntry::TextureView(_)));
    }
}

#[test]
fn multiple_texture_inputs_bind_in_declared_order() {
    let layout = BindGroupLayout {
        entries: vec![
            LayoutEntry::Texture2d,
            LayoutEntry::Sampler,
            LayoutEntry::Texture3d,
            LayoutEntry::Sampler,
        ],
    };
    let mut gpu_images = AssetStore::<GpuImage>::new();
    gpu_images.insert(10, GpuImage { texture_view: 100, sampler: 101 });
    gpu_images.insert(11, GpuImage { texture_view: 200, sampler: 201 });
    let inputs = TextureInputs::Multiple(vec![10, 11]);
    let group = build_bind_group(&layout, &gpu_images, 9, &inputs).unwrap();
    assert_eq!(
        group,
        vec![
            BindEntry::TextureView(100),
            BindEntry::Sampler(101),
            BindEntry::TextureView(200),
            BindEntry::Sampler(201),
        ],
    );
}

#[test]
fn missing_gpu_image_fails_bind_group_construction() {
    let layout = BindGroupLayout {
        entries: vec![LayoutEntry::Texture2d, LayoutEntry::Sampler],
    };
    let gpu_images = AssetStore::<GpuImage>::new();
    let inputs = TextureInputs::Single(10);
    let r = build_bind_group(&layout, &gpu_images, 9, &inputs);
    assert_eq!(r, Err(BindGroupError::TextureNotReady));
}
