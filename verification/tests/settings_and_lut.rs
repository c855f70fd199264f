use post_process_chain::blur::Blur;
use post_process_chain::chain::PostProcessLabel;
use post_process_chain::chromatic_aberration::ChromaticAberration;
use post_process_chain::flip::{Flip, FlipUniform};
use post_process_chain::host::{
    AssetStore, BindEntry, Extent3d, GlobalsBuffer, GpuImage, Image, PipelineCache, RenderDevice,
    ShaderAssets, ShaderDefVal, TextureDimension, TextureFormat, ViewTarget,
};
use post_process_chain::lut::{
    adapt_image_for_lut_use, Lut, LutPostProcessBindGroup, LUT_ARCTIC_IMAGE_HANDLE,
    LUT_NEO_IMAGE_HANDLE, LUT_SLATE_IMAGE_HANDLE,
};
use post_process_chain::masks::{Mask, MaskVariant};
use post_process_chain::pixelate::Pixelate;
use post_process_chain::post_process::{
    PostProcess, PostProcessNode, PrepareAssetError, PreparedPostProcessBindGroup,
};
use post_process_chain::raindrops::Raindrops;
use post_process_chain::simple_post_process::{NodeOutcome, SimplePostProcess, SkipReason};
use post_process_chain::uniforms::SettingsUniforms;
use post_process_chain::test::TestPostProcessSettings;
use post_process_chain::wave::Wave;

#[test]
fn default_settings_carry_the_documented_values() {
    let blur = Blur::default();
    assert_eq!(f32::from_bits(blur.amount), 0.5);
    assert_eq!(f32::from_bits(blur.kernel_radius), 0.01);

    let pixelate = Pixelate::default();
    assert_eq!(f32::from_bits(pixelate.block_size), 8.0);

    let raindrops = Raindrops::default();
    assert_eq!(f32::from_bits(raindrops.speed), 0.8);
    assert_eq!(f32::from_bits(raindrops.warping), 0.03);
    assert_eq!(f32::from_bits(raindrops.zoom), 1.0);

    let wave = Wave::default();
    assert_eq!(f32::from_bits(wave.waves_x), 0.0);
    assert_eq!(f32::from_bits(wave.amplitude_y), 0.0);

    let test_settings = TestPostProcessSettings::default();
    assert_eq!(f32::from_bits(test_settings.intensity), 0.0);

    assert_eq!(Flip::default(), Flip::Horizontal);
    let flip_uniform = FlipUniform::default();
    assert_eq!(f32::from_bits(flip_uniform.x), 0.0);
    assert_eq!(f32::from_bits(flip_uniform.y), 0.0);
}

#[test]
fn flip_directions_map_to_uv_factors() {
    let cases = [
        (Flip::NoFlip, 0.0, 0.0),
        (Flip::Horizontal, 1.0, 0.0),
        (Flip::Vertical, 0.0, 1.0),
        (Flip::HorizontalVertical, 1.0, 1.0),
    ];
    for (flip, x, y) in cases {
        let uniform = FlipUniform::from(flip);
        assert_eq!(f32::from_bits(uniform.x), x, "{:?}", flip);
        assert_eq!(f32::from_bits(uniform.y), y, "{:?}", flip);
    }
}

#[test]
fn mask_constructors_carry_reasonable_strengths() {
    let square = Mask::square();
    assert_eq!(f32::from_bits(square.strength), 20.0);
    assert_eq!(f32::from_bits(square.fade), 0.0);
    let crt = Mask::crt();
    assert_eq!(f32::from_bits(crt.strength), 80000.0);
    let vignette = Mask::vignette();
    assert_eq!(f32::from_bits(vignette.strength), 0.66);
    assert_eq!(Mask::default(), vignette);
}

#[test]
fn chromatic_aberration_defaults_point_a_third_of_a_turn_apart() {
    let ca = ChromaticAberration::default();
    assert_eq!(f32::from_bits(ca.magnitude_r), 0.01);
    assert_eq!(f32::from_bits(ca.magnitude_g), 0.01);
    assert_eq!(f32::from_bits(ca.magnitude_b), 0.01);
    let third = (2.0f32 / 3.0) * std::f32::consts::PI;
    let expect = [
        ((0.0f32).cos(), (0.0f32).sin()),
        (third.cos(), third.sin()),
        ((2.0 * third).cos(), (2.0 * third).sin()),
    ];
    let got = [ca.dir_r, ca.dir_g, ca.dir_b];
    for (dir, (ex, ey)) in got.iter().zip(expect.iter()) {
        assert!((f32::from_bits(dir.x) - ex).abs() < 1e-6);
        assert!((f32::from_bits(dir.y) - ey).abs() < 1e-6);
    }
}

#[test]
fn mask_variants_encode_and_decode_as_flags() {
    for variant in [MaskVariant::Square, MaskVariant::Crt, MaskVariant::Vignette] {
        let def = variant.to_shader_def();
        match &def {
            ShaderDefVal::Bool(key, value) => {
                let expected = match variant {
                    MaskVariant::Square => "SQUARE",
                    MaskVariant::Crt => "CRT",
                    MaskVariant::Vignette => "VIGNETTE",
                };
                assert_eq!(key, expected);
                assert!(*value);
            },
            other => panic!("expected a boolean flag, got {:?}", other),
        }
        assert_eq!(MaskVariant::try_from_shader_def(&def), Some(variant));
        assert_eq!(MaskVariant::from_shader_def(&def), variant);
    }
    // a flag the decoding logic does not recognize has no decoding
    let unknown = ShaderDefVal::Bool(String::from("ROUND"), true);
    assert_eq!(MaskVariant::try_from_shader_def(&unknown), None);
    let wrong_kind = ShaderDefVal::UInt(String::from("SQUARE"), 1);
    assert_eq!(MaskVariant::try_from_shader_def(&wrong_kind), None);
}

#[test]
fn every_effect_names_its_own_shader() {
    assert_eq!(<Blur as SimplePostProcess>::shader_path(), "assets/shaders/blur.wgsl");
    assert_eq!(<Pixelate as SimplePostProcess>::shader_path(), "assets/shaders/pixelate.wgsl");
    assert_eq!(<Raindrops as SimplePostProcess>::shader_path(), "assets/shaders/raindrops.wgsl");
    assert_eq!(<Mask as SimplePostProcess>::shader_path(), "assets/shaders/masks.wgsl");
    assert_eq!(<FlipUniform as SimplePostProcess>::shader_path(), "assets/shaders/flip.wgsl");
    assert_eq!(<Wave as SimplePostProcess>::shader_path(), "assets/shaders/wave.wgsl");
    assert_eq!(
        <ChromaticAberration as SimplePostProcess>::shader_path(),
        "assets/shaders/chromatic-aberration.wgsl",
    );
    assert_eq!(
        <TestPostProcessSettings as SimplePostProcess>::shader_path(),
        "assets/shaders/post_processing.wgsl",
    );
    assert_eq!(<Lut as PostProcess>::shader_path(), "assets/shaders/lut.wgsl");
}

#[test]
fn nine_word_settings_round_trip_through_the_uniform_buffer() {
    let mut uniforms = SettingsUniforms::<ChromaticAberration>::new(8);
    let first = ChromaticAberration::default();
    let mut second = ChromaticAberration::default();
    second.magnitude_r = 0.25f32.to_bits();
    second.dir_b.y = (-1.0f32).to_bits();
    let ix_first = uniforms.push(&first);
    let ix_second = uniforms.push(&second);
    assert_eq!(uniforms.len(), 2);
    // earlier records stay intact as later views append
    assert_eq!(uniforms.read(ix_first), Some(first));
    assert_eq!(uniforms.read(ix_second), Some(second));
}

#[test]
fn adapting_an_image_for_lut_use_rewrites_its_descriptor() {
    let decoded = Image {
        data: 9,
        size: Extent3d { width: 512, height: 512, depth_or_array_layers: 1 },
        dimension: TextureDimension::D2,
        format: TextureFormat::ScreenDefault,
    };
    let adapted = adapt_image_for_lut_use(decoded);
    assert_eq!(adapted.data, 9);
    assert_eq!(adapted.size, Extent3d { width: 64, height: 64, depth_or_array_layers: 64 });
    assert_eq!(adapted.dimension, TextureDimension::D3);
    assert_eq!(adapted.format, TextureFormat::Rgba8Unorm);
}

#[test]
fn lut_init_registers_three_adapted_images_under_fixed_handles() {
    let mut images: AssetStore<Image> = AssetStore::new();
    Lut::init(&mut images);
    for handle in [LUT_NEO_IMAGE_HANDLE, LUT_SLATE_IMAGE_HANDLE, LUT_ARCTIC_IMAGE_HANDLE] {
        let image = images.get(handle).expect("the shipped look-up image is registered");
        assert_eq!(image.dimension, TextureDimension::D3);
        assert_eq!(image.size, Extent3d { width: 64, height: 64, depth_or_array_layers: 64 });
        assert_eq!(image.format, TextureFormat::Rgba8Unorm);
    }
}

#[test]
fn lut_constructors_share_the_fixed_image_handles() {
    let mut assets: AssetStore<LutPostProcessBindGroup> = AssetStore::new();
    let arctic = Lut::arctic(&mut assets);
    let neo = Lut::neo(&mut assets);
    let slate = Lut::slate(&mut assets);
    assert_ne!(arctic.handle(), neo.handle());
    assert_ne!(neo.handle(), slate.handle());
    assert_eq!(assets.get(arctic.handle()).unwrap().texture, LUT_ARCTIC_IMAGE_HANDLE);
    assert_eq!(assets.get(neo.handle()).unwrap().texture, LUT_NEO_IMAGE_HANDLE);
    assert_eq!(assets.get(slate.handle()).unwrap().texture, LUT_SLATE_IMAGE_HANDLE);
}

#[test]
fn unready_asset_defers_preparation_and_retry_succeeds() {
    let mut device = RenderDevice::new();
    let mut cache = PipelineCache::new();
    let asset = LutPostProcessBindGroup { texture: 42 };

    // the shader is not loaded yet
    let shaders = ShaderAssets::new();
    let gpu_images = AssetStore::<GpuImage>::new();
    let r = PreparedPostProcessBindGroup::<Lut>::prepare_asset(
        &asset,
        &shaders,
        &gpu_images,
        &mut device,
        &mut cache,
    );
    assert!(matches!(r, Err(PrepareAssetError::RetryNextUpdate)));
    assert_eq!(cache.descriptors.len(), 0, "a deferred preparation changes nothing");

    // the shader loaded, but the look-up texture has no GPU image yet
    let mut shaders = ShaderAssets::new();
    shaders.mark_loaded(PostProcessLabel::Lut);
    let r = PreparedPostProcessBindGroup::<Lut>::prepare_asset(
        &asset,
        &shaders,
        &gpu_images,
        &mut device,
        &mut cache,
    );
    assert!(matches!(r, Err(PrepareAssetError::RetryNextUpdate)));

    // everything available: the retry on the next frame succeeds
    let mut gpu_images = AssetStore::<GpuImage>::new();
    gpu_images.insert(42, GpuImage { texture_view: 7, sampler: 8 });
    let prepared = match PreparedPostProcessBindGroup::<Lut>::prepare_asset(
        &asset,
        &shaders,
        &gpu_images,
        &mut device,
        &mut cache,
    ) {
        Ok(p) => p,
        Err(e) => panic!("preparation should succeed now: {:?}", e),
    };
    assert_eq!(prepared.pipeline_id(), 0);
    assert_eq!(
        prepared.bind_group_entries(),
        vec![BindEntry::TextureView(7), BindEntry::Sampler(8)],
    );
    assert_eq!(cache.descriptors.len(), 1);
    assert_eq!(cache.descriptors[0].shader, PostProcessLabel::Lut);
    assert_eq!(cache.descriptors[0].shader_defs.len(), 0);

    // wire the prepared state to a view's component and run the node
    let mut bind_group_assets: AssetStore<LutPostProcessBindGroup> = AssetStore::new();
    let lut = Lut::new(&mut bind_group_assets, 42);
    let mut prepared_store: AssetStore<PreparedPostProcessBindGroup<Lut>> = AssetStore::new();
    prepared_store.insert(lut.handle(), prepared);
    let node = PostProcessNode::<Lut>::new();
    let mut target = ViewTarget { texture_a: 1, texture_b: 2, main_is_a: false };
    let globals = GlobalsBuffer { buffer: Some(12) };
    match node.run(&mut target, &lut, &prepared_store, &cache, &globals) {
        NodeOutcome::Skipped(reason) => assert_eq!(reason, SkipReason::PipelineNotReady),
        NodeOutcome::Drawn(_) => panic!("the queued pipeline is not compiled yet"),
    }
    assert!(!target.main_is_a);
    cache.finish_compilation(0);
    match node.run(&mut target, &lut, &prepared_store, &cache, &globals) {
        NodeOutcome::Drawn(cmd) => {
            assert_eq!(cmd.pipeline_id, 0);
            assert_eq!(cmd.group1, vec![BindEntry::TextureView(7), BindEntry::Sampler(8)]);
            assert_eq!(cmd.settings_offset, None);
            assert_eq!(cmd.destination, 1);
            assert_eq!(cmd.group0[2], BindEntry::Buffer(12));
        },
        NodeOutcome::Skipped(reason) => panic!("should draw, but skipped: {:?}", reason),
    }
    assert!(target.main_is_a);
}
