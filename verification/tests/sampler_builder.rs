use nannou::sampler_builder::{
    AddressMode, CompareFunction, FilterMode, SamplerBuilder, DEFAULT_LABEL, DEFAULT_LOD_MAX_CLAMP,
    DEFAULT_LOD_MIN_CLAMP,
};

#[test]
fn sampler_defaults() {
    let d = SamplerBuilder::new().into_descriptor();
    assert_eq!(d.label, Some("nannou_sample_descriptor"));
    assert_eq!(d.address_mode_u, AddressMode::ClampToEdge);
    assert_eq!(d.address_mode_v, AddressMode::ClampToEdge);
    assert_eq!(d.address_mode_w, AddressMode::ClampToEdge);
    assert_eq!(d.mag_filter, FilterMode::Linear);
    assert_eq!(d.min_filter, FilterMode::Linear);
    assert_eq!(d.mipmap_filter, FilterMode::Nearest);
    assert_eq!(f32::from_bits(d.lod_min_clamp), -100.0);
    assert_eq!(f32::from_bits(d.lod_max_clamp), 100.0);
    assert_eq!(d.compare, CompareFunction::Always);
}

#[test]
fn sampler_default_constants() {
    assert_eq!(DEFAULT_LABEL, "nannou_sample_descriptor");
    assert_eq!(DEFAULT_LOD_MIN_CLAMP, (-100.0f32).to_bits());
    assert_eq!(DEFAULT_LOD_MAX_CLAMP, 100.0f32.to_bits());
}

#[test]
fn sampler_default_trait_is_new() {
    let a = SamplerBuilder::default().into_descriptor();
    let b = SamplerBuilder::new().into_descriptor();
    assert_eq!(a.label, b.label);
    assert_eq!(a.address_mode_u, b.address_mode_u);
    assert_eq!(a.mag_filter, b.mag_filter);
    assert_eq!(a.mipmap_filter, b.mipmap_filter);
    assert_eq!(a.lod_min_clamp, b.lod_min_clamp);
    assert_eq!(a.lod_max_clamp, b.lod_max_clamp);
    assert_eq!(a.compare, b.compare);
}

#[test]
fn sampler_single_axis_address_modes() {
    let d = SamplerBuilder::new()
        .address_mode_u(AddressMode::Repeat)
        .address_mode_v(AddressMode::MirrorRepeat)
        .address_mode_w(AddressMode::ClampToBorder)
        .into_descriptor();
    assert_eq!(d.address_mode_u, AddressMode::Repeat);
    assert_eq!(d.address_mode_v, AddressMode::MirrorRepeat);
    assert_eq!(d.address_mode_w, AddressMode::ClampToBorder);
    assert_eq!(d.mag_filter, FilterMode::Linear);
}

#[test]
fn sampler_address_mode_sets_all_axes() {
    let d = SamplerBuilder::new()
        .address_mode_v(AddressMode::MirrorRepeat)
        .address_mode(AddressMode::Repeat)
        .into_descriptor();
    assert_eq!(d.address_mode_u, AddressMode::Repeat);
    assert_eq!(d.address_mode_v, AddressMode::Repeat);
    assert_eq!(d.address_mode_w, AddressMode::Repeat);
}

#[test]
fn sampler_filters() {
    let d = SamplerBuilder::new()
        .mag_filter(FilterMode::Nearest)
        .min_filter(FilterMode::Nearest)
        .mipmap_filter(FilterMode::Linear)
        .into_descriptor();
    assert_eq!(d.mag_filter, FilterMode::Nearest);
    assert_eq!(d.min_filter, FilterMode::Nearest);
    assert_eq!(d.mipmap_filter, FilterMode::Linear);
    assert_eq!(d.address_mode_u, AddressMode::ClampToEdge);
}

#[test]
fn sampler_lod_clamps_and_compare() {
    let d = SamplerBuilder::new()
        .lod_min_clamp(0.5f32.to_bits())
        .lod_max_clamp(8.0f32.to_bits())
        .compare(CompareFunction::LessEqual)
        .into_descriptor();
    assert_eq!(f32::from_bits(d.lod_min_clamp), 0.5);
    assert_eq!(f32::from_bits(d.lod_max_clamp), 8.0);
    assert_eq!(d.compare, CompareFunction::LessEqual);
    assert_eq!(d.label, Some("nannou_sample_descriptor"));
}

#[test]
fn sampler_last_setting_wins() {
    let d = SamplerBuilder::new()
        .compare(CompareFunction::Never)
        .compare(CompareFunction::Greater)
        .into_descriptor();
    assert_eq!(d.compare, CompareFunction::Greater);
}

#[test]
fn sampler_from_descriptor_round_trip() {
    let mut d = SamplerBuilder::new().min_filter(FilterMode::Nearest).into_descriptor();
    d.label = Some("mine");
    let e = SamplerBuilder::from_descriptor(d).mag_filter(FilterMode::Nearest).into_descriptor();
    assert_eq!(e.label, Some("mine"));
    assert_eq!(e.min_filter, FilterMode::Nearest);
    assert_eq!(e.mag_filter, FilterMode::Nearest);
}
